//! What holds of merging bookmarks and highlights, told by what they hold.
use vstd::prelude::*;

use crate::marks;
use crate::marks::{MarkKey, MarkView};
use crate::models::{BookmarkView, HighlightView};

verus! {

/// The list that comes of the marks of this device and those of the server.
pub open spec fn merged<M: MarkView>(local: Seq<M>, cloud: Seq<M>) -> Seq<M> {
    marks::in_order(marks::merged_table(local, cloud))
}

/// Whether merging gives this device anything that it did not have.
pub open spec fn adds<M: MarkView>(local: Seq<M>, cloud: Seq<M>) -> bool {
    marks::merged_table(local, cloud) != marks::mark_table(local)
}

proof fn lemma_last_counts<M: MarkView>(list: Seq<M>, i: int)
    requires
        0 <= i < list.len(),
        forall|j: int| i < j < list.len() ==> (#[trigger] list[j]).key() != list[i].key(),
    ensures
        marks::mark_table(list).dom().contains(list[i].key()),
        marks::mark_table(list)[list[i].key()] == list[i],
    decreases list.len(),
{
    if i < list.len() - 1 {
        let rest = list.drop_last();
        assert forall|j: int| i < j < rest.len() implies (#[trigger] rest[j]).key()
            != rest[i].key() by {
            assert(list[j].key() != list[i].key());
        }
        lemma_last_counts(rest, i);
        assert(list[list.len() - 1].key() != list[i].key());
    }
}

/// A mark of a table's list, found by where it stands.
proof fn lemma_found<M: MarkView>(local: Seq<M>, cloud: Seq<M>, k: MarkKey)
    ensures
        marks::marked_at(local, k) || marks::marked_at(cloud, k) ==> exists|n: int|
            0 <= n < merged(local, cloud).len() && #[trigger] merged(local, cloud)[n].key() == k
                && merged(local, cloud)[n] == marks::merged_table(local, cloud)[k],
{
    marks::lemma_in_order(local, cloud);
    marks::law_merge_keeps_the_newest(local, cloud, k);
    if marks::marked_at(local, k) || marks::marked_at(cloud, k) {
        let list = merged(local, cloud);
        let table = marks::merged_table(local, cloud);
        assert(table.dom().contains(k));
        let n = choose|n: int| 0 <= n < list.len() && #[trigger] list[n].key() == k;
        assert(table[list[n].key()] == list[n]);
    }
}

/// Taking in a mark in a free place, or one that is newer, changes a table.
proof fn lemma_taken<M: MarkView>(table: Map<MarkKey, M>, cloud: Seq<M>, i: int)
    requires
        0 <= i < cloud.len(),
    ensures
        marks::taken_in(table, cloud).dom().contains(cloud[i].key()),
        marks::taken_in(table, cloud)[cloud[i].key()].date() >= cloud[i].date(),
    decreases cloud.len(),
{
    if i < cloud.len() - 1 {
        lemma_taken(table, cloud.drop_last(), i);
    }
}

/// Whether a mark of the server stands where this device has none, or only an older one.
spec fn is_news<M: MarkView>(local: Seq<M>, mark: M) -> bool {
    let table = marks::mark_table(local);
    !table.dom().contains(mark.key()) || table[mark.key()].date() < mark.date()
}

proof fn lemma_news<M: MarkView>(local: Seq<M>, cloud: Seq<M>)
    ensures
        adds(local, cloud) <==> exists|i: int|
            0 <= i < cloud.len() && is_news(local, #[trigger] cloud[i]),
{
    let table = marks::mark_table(local);
    if exists|i: int| 0 <= i < cloud.len() && is_news(local, #[trigger] cloud[i]) {
        let i = choose|i: int| 0 <= i < cloud.len() && is_news(local, #[trigger] cloud[i]);
        lemma_taken(table, cloud, i);
    } else {
        assert forall|k: MarkKey| #[trigger] marks::marked_at(cloud, k) implies
            table.dom().contains(k) && (forall|i: int|
            0 <= i < cloud.len() && #[trigger] cloud[i].key() == k ==> cloud[i].date()
                <= table[k].date()) by {
            let i = choose|i: int| 0 <= i < cloud.len() && #[trigger] cloud[i].key() == k;
            assert(!is_news(local, cloud[i]));
            assert forall|i: int| 0 <= i < cloud.len() && #[trigger] cloud[i].key() == k implies cloud[i].date()
                <= table[k].date() by {
                assert(!is_news(local, cloud[i]));
            }
        }
        marks::lemma_nothing_newer(table, cloud);
    }
}

/// The mark of this device that counts in its place.
proof fn lemma_counting<M: MarkView>(local: Seq<M>, k: MarkKey) -> (i: int)
    requires
        marks::mark_table(local).dom().contains(k),
    ensures
        0 <= i < local.len(),
        local[i].key() == k,
        marks::mark_table(local)[k] == local[i],
        forall|j: int| i < j < local.len() ==> (#[trigger] local[j]).key() != k,
    decreases local.len(),
{
    if local.last().key() == k {
        local.len() - 1
    } else {
        let i = lemma_counting(local.drop_last(), k);
        assert forall|j: int| i < j < local.len() implies (#[trigger] local[j]).key() != k by {
            if j < local.len() - 1 {
                assert(local.drop_last()[j].key() != k);
            }
        }
        i
    }
}

/// Whether two bookmarks stand in the same place.
pub open spec fn same_bookmark_place(a: BookmarkView, b: BookmarkView) -> bool {
    &&& a.chapter_index == b.chapter_index
    &&& a.paragraph_index == b.paragraph_index
}

/// Whether a bookmark comes after another one: by chapter, then by paragraph.
pub open spec fn bookmark_follows(a: BookmarkView, b: BookmarkView) -> bool {
    ||| a.chapter_index > b.chapter_index
    ||| a.chapter_index == b.chapter_index && a.paragraph_index > b.paragraph_index
}

/// Whether a bookmark of the list is the one that counts in its place: none that follows it in the
/// list stands there.
pub open spec fn bookmark_counts(list: Seq<BookmarkView>, i: int) -> bool {
    &&& 0 <= i < list.len()
    &&& forall|j: int| i < j < list.len() ==> !same_bookmark_place(#[trigger] list[j], list[i])
}

/// Whether a list has a bookmark in the place of a given one that is at least so new.
pub open spec fn has_bookmark(list: Seq<BookmarkView>, mark: BookmarkView, date: i64) -> bool {
    exists|n: int|
        0 <= n < list.len() && same_bookmark_place(#[trigger] list[n], mark) && list[n].date_added
            >= date
}

/// Whether a bookmark of the server is news to this device: there is none in its place, or the one that counts
/// there is older.
pub open spec fn bookmark_is_news(local: Seq<BookmarkView>, mark: BookmarkView) -> bool {
    forall|i: int|
        bookmark_counts(local, i) && same_bookmark_place(#[trigger] local[i], mark)
            ==> local[i].date_added < mark.date_added
}

/// The chapter and the paragraph tell bookmarks apart.
pub proof fn law_where_a_bookmark_stands(a: BookmarkView, b: BookmarkView)
    ensures
        a.key() == b.key() <==> same_bookmark_place(a, b),
        a.date() == a.date_added,
{
}

/// Every place that is marked on this device or on the server is marked in the merged list, by a
/// bookmark that is at least as new as the one that counts on this device and as every one of the server.
pub proof fn law_no_bookmark_is_lost(local: Seq<BookmarkView>, cloud: Seq<BookmarkView>)
    ensures
        forall|i: int| #[trigger] bookmark_counts(local, i) ==> has_bookmark(
            merged(local, cloud),
            local[i],
            local[i].date_added,
        ),
        forall|i: int| 0 <= i < local.len() ==> has_bookmark(
            merged(local, cloud),
            #[trigger] local[i],
            i64::MIN,
        ),
        forall|i: int| 0 <= i < cloud.len() ==> has_bookmark(
            merged(local, cloud),
            #[trigger] cloud[i],
            cloud[i].date_added,
        ),
{
    let list = merged(local, cloud);
    assert forall|i: int| 0 <= i < local.len() implies has_bookmark(
        list,
        #[trigger] local[i],
        i64::MIN,
    ) by {
        let k = local[i].key();
        assert(marks::marked_at(local, k));
        lemma_found(local, cloud, k);
    }
    assert forall|i: int| #[trigger] bookmark_counts(local, i) implies has_bookmark(
        list,
        local[i],
        local[i].date_added,
    ) by {
        let k = local[i].key();
        assert forall|j: int| i < j < local.len() implies (#[trigger] local[j]).key() != k by {
            assert(!same_bookmark_place(local[j], local[i]));
        }
        lemma_last_counts(local, i);
        assert(marks::marked_at(local, k));
        lemma_found(local, cloud, k);
        marks::law_merge_keeps_the_newest(local, cloud, k);
    }
    assert forall|i: int| 0 <= i < cloud.len() implies has_bookmark(
        list,
        #[trigger] cloud[i],
        cloud[i].date_added,
    ) by {
        let k = cloud[i].key();
        assert(marks::marked_at(cloud, k));
        lemma_found(local, cloud, k);
        marks::law_merge_keeps_the_newest(local, cloud, k);
    }
}

/// The merged list holds nothing but bookmarks of this device and of the server, each one as it was,
/// and one for a place. A bookmark of this device gives way only to a strictly newer one.
pub proof fn law_no_bookmark_is_made_up(local: Seq<BookmarkView>, cloud: Seq<BookmarkView>)
    ensures
        ({
            let list = merged(local, cloud);
            &&& forall|n: int| 0 <= n < list.len() ==> local.contains(#[trigger] list[n])
                || cloud.contains(list[n])
            &&& forall|n: int, m: int|
                #![trigger list[n], list[m]]
                0 <= n < m < list.len() ==> !same_bookmark_place(list[n], list[m])
            &&& forall|n: int, i: int|
                #![trigger list[n], local[i]]
                0 <= n < list.len() && bookmark_counts(local, i) && same_bookmark_place(list[n], local[i])
                    ==> list[n] == local[i] || list[n].date_added > local[i].date_added
        }),
{
    let list = merged(local, cloud);
    let table = marks::merged_table(local, cloud);
    marks::lemma_in_order(local, cloud);
    assert forall|n: int| 0 <= n < list.len() implies local.contains(#[trigger] list[n])
        || cloud.contains(list[n]) by {
        assert(table[list[n].key()] == list[n]);
        marks::law_merge_keeps_the_newest(local, cloud, list[n].key());
    }
    assert forall|n: int, i: int|
        #![trigger list[n], local[i]]
        0 <= n < list.len() && bookmark_counts(local, i) && same_bookmark_place(list[n], local[i]) implies list[n]
        == local[i] || list[n].date_added > local[i].date_added by {
        let k = local[i].key();
        assert forall|j: int| i < j < local.len() implies (#[trigger] local[j]).key() != k by {
            assert(!same_bookmark_place(local[j], local[i]));
        }
        lemma_last_counts(local, i);
        marks::law_taking_in_keeps_the_newer(marks::mark_table(local), cloud, k);
        assert(table[list[n].key()] == list[n]);
    }
}

/// The merged list is in reading order: by chapter, then by paragraph.
pub proof fn law_merged_bookmarks_are_in_order(local: Seq<BookmarkView>, cloud: Seq<BookmarkView>)
    ensures
        ({
            let list = merged(local, cloud);
            forall|n: int, m: int|
                #![trigger list[n], list[m]]
                0 <= n < m < list.len() ==> !bookmark_follows(list[n], list[m])
        }),
{
    marks::lemma_in_order(local, cloud);
}

/// This device is told of a change exactly if the server has a bookmark that is news to it.
pub proof fn law_when_bookmarks_change(local: Seq<BookmarkView>, cloud: Seq<BookmarkView>)
    ensures
        adds(local, cloud) <==> exists|i: int|
            0 <= i < cloud.len() && bookmark_is_news(local, #[trigger] cloud[i]),
{
    lemma_news(local, cloud);
    let table = marks::mark_table(local);
    assert forall|c: int| 0 <= c < cloud.len() implies is_news(local, #[trigger] cloud[c])
        == bookmark_is_news(local, cloud[c]) by {
        let mark = cloud[c];
        if table.dom().contains(mark.key()) {
            let i = lemma_counting(local, mark.key());
            assert(bookmark_counts(local, i));
            assert(same_bookmark_place(local[i], mark));
            assert forall|j: int|
                bookmark_counts(local, j) && same_bookmark_place(#[trigger] local[j], mark) implies j
                == i by {
                assert(local[j].key() == mark.key());
                if j < i {
                    assert(!same_bookmark_place(local[i], local[j]));
                }
            }
        } else {
            marks::lemma_mark_table(local, mark.key());
            assert forall|j: int|
                bookmark_counts(local, j) && same_bookmark_place(#[trigger] local[j], mark) implies false by {
                assert(local[j].key() == mark.key());
            }
        }
    }
}

/// Whether two highlights stand in the same place.
pub open spec fn same_highlight_place(a: HighlightView, b: HighlightView) -> bool {
    &&& a.chapter_index == b.chapter_index
    &&& a.paragraph_index == b.paragraph_index
    &&& a.start_offset == b.start_offset
    &&& a.end_offset == b.end_offset
}

/// Whether a highlight comes after another one: by chapter, then by paragraph, then by where it starts, an unknown start first.
pub open spec fn highlight_follows(a: HighlightView, b: HighlightView) -> bool {
    ||| a.chapter_index > b.chapter_index
    ||| a.chapter_index == b.chapter_index && a.paragraph_index > b.paragraph_index
    ||| a.chapter_index == b.chapter_index && a.paragraph_index == b.paragraph_index && match (
        a.start_offset,
        b.start_offset,
    ) {
        (Some(x), Some(y)) => x > y,
        (Some(_), None) => true,
        _ => false,
    }
}

/// Whether a highlight of the list is the one that counts in its place: none that follows it in the
/// list stands there.
pub open spec fn highlight_counts(list: Seq<HighlightView>, i: int) -> bool {
    &&& 0 <= i < list.len()
    &&& forall|j: int| i < j < list.len() ==> !same_highlight_place(#[trigger] list[j], list[i])
}

/// Whether a list has a highlight in the place of a given one that is at least so new.
pub open spec fn has_highlight(list: Seq<HighlightView>, mark: HighlightView, date: i64) -> bool {
    exists|n: int|
        0 <= n < list.len() && same_highlight_place(#[trigger] list[n], mark) && list[n].date_added
            >= date
}

/// Whether a highlight of the server is news to this device: there is none in its place, or the one that counts
/// there is older.
pub open spec fn highlight_is_news(local: Seq<HighlightView>, mark: HighlightView) -> bool {
    forall|i: int|
        highlight_counts(local, i) && same_highlight_place(#[trigger] local[i], mark)
            ==> local[i].date_added < mark.date_added
}

/// The chapter, the paragraph, and where they start and end tell highlights apart.
pub proof fn law_where_a_highlight_stands(a: HighlightView, b: HighlightView)
    ensures
        a.key() == b.key() <==> same_highlight_place(a, b),
        a.date() == a.date_added,
{
}

/// Every place that is marked on this device or on the server is marked in the merged list, by a
/// highlight that is at least as new as the one that counts on this device and as every one of the server.
pub proof fn law_no_highlight_is_lost(local: Seq<HighlightView>, cloud: Seq<HighlightView>)
    ensures
        forall|i: int| #[trigger] highlight_counts(local, i) ==> has_highlight(
            merged(local, cloud),
            local[i],
            local[i].date_added,
        ),
        forall|i: int| 0 <= i < local.len() ==> has_highlight(
            merged(local, cloud),
            #[trigger] local[i],
            i64::MIN,
        ),
        forall|i: int| 0 <= i < cloud.len() ==> has_highlight(
            merged(local, cloud),
            #[trigger] cloud[i],
            cloud[i].date_added,
        ),
{
    let list = merged(local, cloud);
    assert forall|i: int| 0 <= i < local.len() implies has_highlight(
        list,
        #[trigger] local[i],
        i64::MIN,
    ) by {
        let k = local[i].key();
        assert(marks::marked_at(local, k));
        lemma_found(local, cloud, k);
    }
    assert forall|i: int| #[trigger] highlight_counts(local, i) implies has_highlight(
        list,
        local[i],
        local[i].date_added,
    ) by {
        let k = local[i].key();
        assert forall|j: int| i < j < local.len() implies (#[trigger] local[j]).key() != k by {
            assert(!same_highlight_place(local[j], local[i]));
        }
        lemma_last_counts(local, i);
        assert(marks::marked_at(local, k));
        lemma_found(local, cloud, k);
        marks::law_merge_keeps_the_newest(local, cloud, k);
    }
    assert forall|i: int| 0 <= i < cloud.len() implies has_highlight(
        list,
        #[trigger] cloud[i],
        cloud[i].date_added,
    ) by {
        let k = cloud[i].key();
        assert(marks::marked_at(cloud, k));
        lemma_found(local, cloud, k);
        marks::law_merge_keeps_the_newest(local, cloud, k);
    }
}

/// The merged list holds nothing but highlights of this device and of the server, each one as it was,
/// and one for a place. A highlight of this device gives way only to a strictly newer one.
pub proof fn law_no_highlight_is_made_up(local: Seq<HighlightView>, cloud: Seq<HighlightView>)
    ensures
        ({
            let list = merged(local, cloud);
            &&& forall|n: int| 0 <= n < list.len() ==> local.contains(#[trigger] list[n])
                || cloud.contains(list[n])
            &&& forall|n: int, m: int|
                #![trigger list[n], list[m]]
                0 <= n < m < list.len() ==> !same_highlight_place(list[n], list[m])
            &&& forall|n: int, i: int|
                #![trigger list[n], local[i]]
                0 <= n < list.len() && highlight_counts(local, i) && same_highlight_place(list[n], local[i])
                    ==> list[n] == local[i] || list[n].date_added > local[i].date_added
        }),
{
    let list = merged(local, cloud);
    let table = marks::merged_table(local, cloud);
    marks::lemma_in_order(local, cloud);
    assert forall|n: int| 0 <= n < list.len() implies local.contains(#[trigger] list[n])
        || cloud.contains(list[n]) by {
        assert(table[list[n].key()] == list[n]);
        marks::law_merge_keeps_the_newest(local, cloud, list[n].key());
    }
    assert forall|n: int, i: int|
        #![trigger list[n], local[i]]
        0 <= n < list.len() && highlight_counts(local, i) && same_highlight_place(list[n], local[i]) implies list[n]
        == local[i] || list[n].date_added > local[i].date_added by {
        let k = local[i].key();
        assert forall|j: int| i < j < local.len() implies (#[trigger] local[j]).key() != k by {
            assert(!same_highlight_place(local[j], local[i]));
        }
        lemma_last_counts(local, i);
        marks::law_taking_in_keeps_the_newer(marks::mark_table(local), cloud, k);
        assert(table[list[n].key()] == list[n]);
    }
}

/// The merged list is in reading order: by chapter, then by paragraph, then by where it starts, an unknown start first.
pub proof fn law_merged_highlights_are_in_order(local: Seq<HighlightView>, cloud: Seq<HighlightView>)
    ensures
        ({
            let list = merged(local, cloud);
            forall|n: int, m: int|
                #![trigger list[n], list[m]]
                0 <= n < m < list.len() ==> !highlight_follows(list[n], list[m])
        }),
{
    marks::lemma_in_order(local, cloud);
}

/// This device is told of a change exactly if the server has a highlight that is news to it.
pub proof fn law_when_highlights_change(local: Seq<HighlightView>, cloud: Seq<HighlightView>)
    ensures
        adds(local, cloud) <==> exists|i: int|
            0 <= i < cloud.len() && highlight_is_news(local, #[trigger] cloud[i]),
{
    lemma_news(local, cloud);
    let table = marks::mark_table(local);
    assert forall|c: int| 0 <= c < cloud.len() implies is_news(local, #[trigger] cloud[c])
        == highlight_is_news(local, cloud[c]) by {
        let mark = cloud[c];
        if table.dom().contains(mark.key()) {
            let i = lemma_counting(local, mark.key());
            assert(highlight_counts(local, i));
            assert(same_highlight_place(local[i], mark));
            assert forall|j: int|
                highlight_counts(local, j) && same_highlight_place(#[trigger] local[j], mark) implies j
                == i by {
                assert(local[j].key() == mark.key());
                if j < i {
                    assert(!same_highlight_place(local[i], local[j]));
                }
            }
        } else {
            marks::lemma_mark_table(local, mark.key());
            assert forall|j: int|
                highlight_counts(local, j) && same_highlight_place(#[trigger] local[j], mark) implies false by {
                assert(local[j].key() == mark.key());
            }
        }
    }
}

} // verus!
