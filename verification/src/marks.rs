//! Bookmarks and highlights: how the marks of two devices become one list.
use vstd::prelude::*;

use crate::models::{Bookmark, BookmarkView, Highlight, HighlightView};

verus! {

/// What tells marks of a book apart: where they stand. A bookmark stands for a paragraph and
/// has no offsets.
#[derive(Debug, Clone, Copy)]
pub struct MarkKey {
    pub chapter: i32,
    pub paragraph: i32,
    pub start: Option<i32>,
    pub end: Option<i32>,
}

/// The order of optional offsets: none comes before any.
pub open spec fn offset_before(a: Option<i32>, b: Option<i32>) -> bool {
    match (a, b) {
        (None, Some(_)) => true,
        (Some(x), Some(y)) => x < y,
        _ => false,
    }
}

impl MarkKey {
    /// Whether a mark here comes before one at `other` in a list: by chapter, then paragraph,
    /// then where it starts.
    pub open spec fn precedes(self, other: MarkKey) -> bool {
        ||| self.chapter < other.chapter
        ||| self.chapter == other.chapter && self.paragraph < other.paragraph
        ||| self.chapter == other.chapter && self.paragraph == other.paragraph && offset_before(
            self.start,
            other.start,
        )
    }

    /// A strict total order that refines `precedes`: marks that start together are told apart
    /// by where they end.
    pub open spec fn before(self, other: MarkKey) -> bool {
        ||| self.precedes(other)
        ||| self.chapter == other.chapter && self.paragraph == other.paragraph && self.start
            == other.start && offset_before(self.end, other.end)
    }

    fn is_before(self, other: MarkKey) -> (r: bool)
        ensures
            r == self.before(other),
    {
        if self.chapter != other.chapter {
            self.chapter < other.chapter
        } else if self.paragraph != other.paragraph {
            self.paragraph < other.paragraph
        } else if offset_is_before(self.start, other.start) {
            true
        } else if offset_is_before(other.start, self.start) {
            false
        } else {
            offset_is_before(self.end, other.end)
        }
    }
}

fn offset_is_before(a: Option<i32>, b: Option<i32>) -> (r: bool)
    ensures
        r == offset_before(a, b),
{
    match (a, b) {
        (None, Some(_)) => true,
        (Some(x), Some(y)) => x < y,
        _ => false,
    }
}

/// What merging reads of a mark.
pub trait MarkView: Sized {
    /// Where the mark stands.
    spec fn key(self) -> MarkKey;

    /// When it was made.
    spec fn date(self) -> i64;
}

/// A mark of either kind.
pub trait Mark: DeepView + Sized where <Self as DeepView>::V: MarkView {
    /// Where the mark stands.
    fn mark_key(&self) -> (k: MarkKey)
        ensures
            k == self.deep_view().key(),
    ;

    /// When it was made.
    fn mark_date(&self) -> (d: i64)
        ensures
            d == self.deep_view().date(),
    ;
}

impl MarkView for BookmarkView {
    open spec fn key(self) -> MarkKey {
        MarkKey {
            chapter: self.chapter_index,
            paragraph: self.paragraph_index,
            start: None,
            end: None,
        }
    }

    open spec fn date(self) -> i64 {
        self.date_added
    }
}

impl Mark for Bookmark {
    fn mark_key(&self) -> (k: MarkKey) {
        MarkKey {
            chapter: self.chapter_index,
            paragraph: self.paragraph_index,
            start: None,
            end: None,
        }
    }

    fn mark_date(&self) -> (d: i64) {
        self.date_added
    }
}

impl MarkView for HighlightView {
    open spec fn key(self) -> MarkKey {
        MarkKey {
            chapter: self.chapter_index,
            paragraph: self.paragraph_index,
            start: self.start_offset,
            end: self.end_offset,
        }
    }

    open spec fn date(self) -> i64 {
        self.date_added
    }
}

impl Mark for Highlight {
    fn mark_key(&self) -> (k: MarkKey) {
        MarkKey {
            chapter: self.chapter_index,
            paragraph: self.paragraph_index,
            start: self.start_offset,
            end: self.end_offset,
        }
    }

    fn mark_date(&self) -> (d: i64) {
        self.date_added
    }
}

/// The marks of this device by where they stand; the later of two in one place counts.
pub open spec fn mark_table<M: MarkView>(marks: Seq<M>) -> Map<MarkKey, M>
    decreases marks.len(),
{
    if marks.len() == 0 {
        Map::empty()
    } else {
        mark_table(marks.drop_last()).insert(marks.last().key(), marks.last())
    }
}

/// A table of marks after the marks of the server were taken in, one after the other: a mark is
/// taken where there is none, or an older one.
pub open spec fn taken_in<M: MarkView>(table: Map<MarkKey, M>, cloud: Seq<M>) -> Map<MarkKey, M>
    decreases cloud.len(),
{
    if cloud.len() == 0 {
        table
    } else {
        let before = taken_in(table, cloud.drop_last());
        let mark = cloud.last();
        if before.dom().contains(mark.key()) && mark.date() <= before[mark.key()].date() {
            before
        } else {
            before.insert(mark.key(), mark)
        }
    }
}

/// The marks of a book once this device and the server have been brought together.
pub open spec fn merged_table<M: MarkView>(local: Seq<M>, cloud: Seq<M>) -> Map<MarkKey, M> {
    taken_in(mark_table(local), cloud)
}

/// Whether a list holds the marks of a table, each one once.
pub open spec fn lists<M: MarkView>(list: Seq<M>, table: Map<MarkKey, M>) -> bool {
    &&& forall|i: int|
        #![trigger list[i]]
        0 <= i < list.len() ==> table.dom().contains(list[i].key()) && table[list[i].key()]
            == list[i]
    &&& forall|k: MarkKey| #[trigger]
        table.dom().contains(k) ==> exists|i: int| 0 <= i < list.len() && #[trigger] list[i].key() == k
    &&& forall|i: int, j: int|
        #![trigger list[i], list[j]]
        0 <= i < j < list.len() ==> list[i].key() != list[j].key()
}

/// Whether a list is in reading order.
pub open spec fn in_reading_order<M: MarkView>(list: Seq<M>) -> bool {
    forall|i: int, j: int|
        #![trigger list[i], list[j]]
        0 <= i < j < list.len() ==> !list[j].key().precedes(list[i].key())
}

/// Whether a list is sorted by the strict order of keys.
pub open spec fn strictly_sorted<M: MarkView>(list: Seq<M>) -> bool {
    forall|i: int, j: int|
        #![trigger list[i], list[j]]
        0 <= i < j < list.len() ==> list[i].key().before(list[j].key())
}

/// The marks of a table, sorted by key.
pub open spec fn in_order<M: MarkView>(table: Map<MarkKey, M>) -> Seq<M> {
    choose|list: Seq<M>| #[trigger] lists(list, table) && strictly_sorted(list)
}

/// There is only one way to sort the marks of a table.
proof fn lemma_order_is_unique<M: MarkView>(a: Seq<M>, b: Seq<M>, table: Map<MarkKey, M>)
    requires
        lists(a, table),
        lists(b, table),
        strictly_sorted(a),
        strictly_sorted(b),
    ensures
        a == b,
    decreases a.len(),
{
    if a.len() == 0 {
        if b.len() > 0 {
            assert(table.dom().contains(b[0].key()));
        }
        assert(a =~= b);
    } else {
        let key = a.last().key();
        assert(a.last() == a[a.len() - 1]);
        assert(table.dom().contains(key));
        let i = choose|i: int| 0 <= i < b.len() && #[trigger] b[i].key() == key;
        assert(b.last() == b[b.len() - 1]);
        assert(table.dom().contains(b.last().key()));
        let j = choose|j: int| 0 <= j < a.len() && #[trigger] a[j].key() == b.last().key();
        assert(i == b.len() - 1);
        assert(a.last() == b.last());
        lemma_listed_without_last(a, table);
        lemma_listed_without_last(b, table);
        lemma_order_is_unique(a.drop_last(), b.drop_last(), table.remove(key));
        assert(a =~= a.drop_last().push(a.last()));
        assert(b =~= b.drop_last().push(b.last()));
    }
}

proof fn lemma_listed_without_last<M: MarkView>(a: Seq<M>, table: Map<MarkKey, M>)
    requires
        a.len() > 0,
        lists(a, table),
    ensures
        lists(a.drop_last(), table.remove(a.last().key())),
{
    let rest = table.remove(a.last().key());
    assert(a.last() == a[a.len() - 1]);
    assert forall|k: MarkKey| #[trigger] rest.dom().contains(k) implies exists|i: int|
        0 <= i < a.drop_last().len() && #[trigger] a.drop_last()[i].key() == k by {
        assert(table.dom().contains(k));
        let i = choose|i: int| 0 <= i < a.len() && #[trigger] a[i].key() == k;
        assert(a.drop_last()[i].key() == k);
    }
}

/// A sorted list with one more mark, which takes the place of one with the same key.
spec fn inserted<M: MarkView>(list: Seq<M>, mark: M) -> Seq<M>
    decreases list.len(),
{
    if list.len() == 0 {
        seq![mark]
    } else if list.last().key() == mark.key() {
        list.drop_last().push(mark)
    } else if list.last().key().before(mark.key()) {
        list.push(mark)
    } else {
        inserted(list.drop_last(), mark).push(list.last())
    }
}

proof fn lemma_inserted<M: MarkView>(list: Seq<M>, table: Map<MarkKey, M>, mark: M)
    requires
        lists(list, table),
        strictly_sorted(list),
    ensures
        lists(inserted(list, mark), table.insert(mark.key(), mark)),
        strictly_sorted(inserted(list, mark)),
        forall|i: int|
            #![trigger inserted(list, mark)[i]]
            0 <= i < inserted(list, mark).len() ==> inserted(list, mark)[i] == mark || list.contains(
                inserted(list, mark)[i],
            ),
    decreases list.len(),
{
    let new_list = inserted(list, mark);
    let new_table = table.insert(mark.key(), mark);
    if list.len() == 0 {
        assert forall|k: MarkKey| #[trigger] new_table.dom().contains(k) implies exists|i: int|
            0 <= i < new_list.len() && #[trigger] new_list[i].key() == k by {
            assert(k == mark.key());
            assert(new_list[0].key() == k);
        }
    } else {
        let last = list.last();
        assert(last == list[list.len() - 1]);
        lemma_listed_without_last(list, table);
        if last.key() == mark.key() {
            assert forall|k: MarkKey| #[trigger] new_table.dom().contains(k) implies exists|i: int|
                0 <= i < new_list.len() && #[trigger] new_list[i].key() == k by {
                if k == mark.key() {
                    assert(new_list[list.len() - 1].key() == k);
                } else {
                    let i = choose|i: int| 0 <= i < list.len() && #[trigger] list[i].key() == k;
                    assert(new_list[i].key() == k);
                }
            }
        } else if last.key().before(mark.key()) {
            assert forall|k: MarkKey| #[trigger] new_table.dom().contains(k) implies exists|i: int|
                0 <= i < new_list.len() && #[trigger] new_list[i].key() == k by {
                if k == mark.key() {
                    assert(new_list[list.len() as int].key() == k);
                } else {
                    let i = choose|i: int| 0 <= i < list.len() && #[trigger] list[i].key() == k;
                    assert(new_list[i].key() == k);
                }
            }
        } else {
            let rest = list.drop_last();
            let rest_table = table.remove(last.key());
            lemma_inserted(rest, rest_table, mark);
            let inner = inserted(rest, mark);
            assert forall|i: int| 0 <= i < inner.len() implies (#[trigger] inner[i]).key().before(
                last.key(),
            ) by {
                if inner[i] != mark {
                    let j = choose|j: int| 0 <= j < rest.len() && rest[j] == inner[i];
                    assert(list[j] == rest[j]);
                }
            }
            assert forall|i: int| 0 <= i < new_list.len() implies #[trigger] new_list[i] == mark
                || list.contains(new_list[i]) by {
                if i < inner.len() {
                    assert(new_list[i] == inner[i]);
                    if inner[i] != mark {
                        let j = choose|j: int| 0 <= j < rest.len() && rest[j] == inner[i];
                        assert(list[j] == new_list[i]);
                    }
                } else {
                    assert(new_list[i] == list[list.len() - 1]);
                }
            }
            assert forall|k: MarkKey| #[trigger] new_table.dom().contains(k) implies exists|i: int|
                0 <= i < new_list.len() && #[trigger] new_list[i].key() == k by {
                if k == last.key() {
                    assert(new_list[inner.len() as int].key() == k);
                } else {
                    assert(rest_table.insert(mark.key(), mark).dom().contains(k));
                    let i = choose|i: int| 0 <= i < inner.len() && #[trigger] inner[i].key() == k;
                    assert(new_list[i].key() == k);
                }
            }
        }
    }
}

/// The marks of a book can be sorted.
proof fn lemma_sortable<M: MarkView>(list: Seq<M>) -> (sorted: Seq<M>)
    ensures
        lists(sorted, mark_table(list)),
        strictly_sorted(sorted),
    decreases list.len(),
{
    if list.len() == 0 {
        Seq::empty()
    } else {
        let sorted = lemma_sortable(list.drop_last());
        lemma_inserted(sorted, mark_table(list.drop_last()), list.last());
        inserted(sorted, list.last())
    }
}

proof fn lemma_sortable_taken_in<M: MarkView>(table: Map<MarkKey, M>, list: Seq<M>, cloud: Seq<M>) -> (
    sorted: Seq<M>)
    requires
        lists(list, table),
        strictly_sorted(list),
    ensures
        lists(sorted, taken_in(table, cloud)),
        strictly_sorted(sorted),
    decreases cloud.len(),
{
    if cloud.len() == 0 {
        list
    } else {
        let sorted = lemma_sortable_taken_in(table, list, cloud.drop_last());
        let before = taken_in(table, cloud.drop_last());
        let mark = cloud.last();
        if before.dom().contains(mark.key()) && mark.date() <= before[mark.key()].date() {
            sorted
        } else {
            lemma_inserted(sorted, before, mark);
            inserted(sorted, mark)
        }
    }
}

/// The merged marks can be sorted.
pub proof fn lemma_in_order<M: MarkView>(local: Seq<M>, cloud: Seq<M>)
    ensures
        lists(in_order(merged_table(local, cloud)), merged_table(local, cloud)),
        strictly_sorted(in_order(merged_table(local, cloud))),
{
    let mine = lemma_sortable(local);
    let all = lemma_sortable_taken_in(mark_table(local), mine, cloud);
    assert(lists(all, merged_table(local, cloud)));
}

/// Where a key stands in a sorted list, or else where it belongs.
fn position<T: Mark>(marks: &Vec<T>, key: MarkKey) -> (r: (bool, usize)) where
    <T as DeepView>::V: MarkView,

    requires
        strictly_sorted(marks.deep_view()),
    ensures
        r.1 <= marks.len(),
        forall|i: int|
            #![trigger marks.deep_view()[i]]
            0 <= i < r.1 ==> marks.deep_view()[i].key().before(key),
        r.0 ==> r.1 < marks.len() && marks.deep_view()[r.1 as int].key() == key,
        forall|i: int|
            #![trigger marks.deep_view()[i]]
            r.1 <= i < marks.len() && !(r.0 && i == r.1) ==> key.before(
                marks.deep_view()[i].key(),
            ),
{
    let ghost list = marks.deep_view();
    let mut low: usize = 0;
    let mut high: usize = marks.len();
    while low < high
        invariant
            low <= high <= marks.len(),
            list == marks.deep_view(),
            list.len() == marks.len(),
            strictly_sorted(list),
            forall|i: int| #![trigger list[i]] 0 <= i < low ==> list[i].key().before(key),
            forall|i: int|
                #![trigger list[i]]
                high <= i < list.len() ==> key.before(list[i].key()),
        decreases high - low,
    {
        let mid = low + (high - low) / 2;
        let k = marks[mid].mark_key();
        assert(k == list[mid as int].key());
        if k.is_before(key) {
            low = mid + 1;
        } else if key.is_before(k) {
            high = mid;
        } else {
            return (true, mid);
        }
    }
    (false, low)
}

/// Puts a mark at the place that `position` found for it.
fn put<T: Mark>(marks: &mut Vec<T>, found: bool, at: usize, mark: T) where
    <T as DeepView>::V: MarkView,

    requires
        strictly_sorted(old(marks).deep_view()),
        at <= old(marks).len(),
        found ==> at < old(marks).len() && old(marks).deep_view()[at as int].key()
            == mark.deep_view().key(),
        forall|i: int|
            #![trigger old(marks).deep_view()[i]]
            0 <= i < at ==> old(marks).deep_view()[i].key().before(mark.deep_view().key()),
        forall|i: int|
            #![trigger old(marks).deep_view()[i]]
            at <= i < old(marks).len() && !(found && i == at) ==> mark.deep_view().key().before(
                old(marks).deep_view()[i].key(),
            ),
    ensures
        strictly_sorted(final(marks).deep_view()),
        forall|table: Map<MarkKey, <T as DeepView>::V>|
            lists(old(marks).deep_view(), table) ==> #[trigger] lists(
                final(marks).deep_view(),
                table.insert(mark.deep_view().key(), mark.deep_view()),
            ),
{
    let ghost old_list = marks.deep_view();
    let ghost m = mark.deep_view();
    if found {
        marks[at] = mark;
        assert(marks.deep_view() =~= old_list.update(at as int, m));
    } else {
        marks.insert(at, mark);
        assert(marks.deep_view() =~= old_list.insert(at as int, m));
    }
    let ghost new_list = marks.deep_view();
    assert forall|table: Map<MarkKey, <T as DeepView>::V>|
        lists(old_list, table) implies #[trigger] lists(new_list, table.insert(m.key(), m)) by {
        let new_table = table.insert(m.key(), m);
        assert forall|k: MarkKey| #[trigger] new_table.dom().contains(k) implies exists|i: int|
            0 <= i < new_list.len() && #[trigger] new_list[i].key() == k by {
            if k == m.key() {
                assert(new_list[at as int].key() == k);
            } else {
                assert(table.dom().contains(k));
                let i = choose|i: int| 0 <= i < old_list.len() && #[trigger] old_list[i].key() == k;
                if found || i < at {
                    assert(new_list[i].key() == k);
                } else {
                    assert(new_list[i + 1].key() == k);
                }
            }
        }
    }
}

/// Taking marks in loses no place: each mark that was there stays, or gives way to one that is
/// strictly newer.
pub proof fn law_taking_in_keeps_the_newer<M: MarkView>(
    table: Map<MarkKey, M>,
    cloud: Seq<M>,
    k: MarkKey,
)
    requires
        table.dom().contains(k),
    ensures
        taken_in(table, cloud).dom().contains(k),
        taken_in(table, cloud)[k] == table[k] || taken_in(table, cloud)[k].date()
            > table[k].date(),
    decreases cloud.len(),
{
    if cloud.len() > 0 {
        law_taking_in_keeps_the_newer(table, cloud.drop_last(), k);
    }
}

/// Brings the marks of this device and those of the server together: the merged list, and
/// whether it differs from what this device had.
pub fn merge_marks<T: Mark>(local: Vec<T>, cloud: Vec<T>) -> (r: (Vec<T>, bool)) where
    <T as DeepView>::V: MarkView,

    ensures
        r.0.deep_view() == in_order(merged_table(local.deep_view(), cloud.deep_view())),
        lists(r.0.deep_view(), merged_table(local.deep_view(), cloud.deep_view())),
        in_reading_order(r.0.deep_view()),
        r.1 == (merged_table(local.deep_view(), cloud.deep_view()) != mark_table(
            local.deep_view(),
        )),
{
    let ghost mine = local.deep_view();
    let ghost theirs = cloud.deep_view();
    let mut marks: Vec<T> = Vec::new();
    assert(mine.take(0) =~= Seq::empty());
    assert(marks.deep_view() =~= Seq::empty());
    for mark in it: local
        invariant
            strictly_sorted(marks.deep_view()),
            lists(marks.deep_view(), mark_table(mine.take(it.index()))),
            mine.len() == it.seq().len(),
            forall|i: int| 0 <= i < mine.len() ==> mine[i] == (#[trigger] it.seq()[i]).deep_view(),
    {
        let ghost n = it.index();
        let key = mark.mark_key();
        let (found, at) = position(&marks, key);
        assert(mine.take(n + 1).drop_last() =~= mine.take(n));
        assert(mine.take(n + 1).last() == mark.deep_view());
        put(&mut marks, found, at, mark);
    }
    let ghost base = mark_table(mine);
    assert(mine.take(mine.len() as int) =~= mine);
    assert(theirs.take(0) =~= Seq::empty());
    let mut updated = false;
    for mark in it: cloud
        invariant
            strictly_sorted(marks.deep_view()),
            lists(marks.deep_view(), taken_in(base, theirs.take(it.index()))),
            updated == (taken_in(base, theirs.take(it.index())) != base),
            theirs.len() == it.seq().len(),
            forall|i: int|
                0 <= i < theirs.len() ==> theirs[i] == (#[trigger] it.seq()[i]).deep_view(),
    {
        let ghost n = it.index();
        let ghost m = mark.deep_view();
        let ghost now = taken_in(base, theirs.take(n));
        let key = mark.mark_key();
        let (found, at) = position(&marks, key);
        proof {
            assert(theirs.take(n + 1).drop_last() =~= theirs.take(n));
            assert(theirs.take(n + 1).last() == m);
            if now.dom().contains(key) {
                let i = choose|i: int|
                    0 <= i < marks.len() && #[trigger] marks.deep_view()[i].key() == key;
                assert(found && i == at);
            }
            if base.dom().contains(key) {
                law_taking_in_keeps_the_newer(base, theirs.take(n), key);
            }
            if found {
                assert(now[key] == marks.deep_view()[at as int]);
            }
        }
        if found {
            if mark.mark_date() > marks[at].mark_date() {
                put(&mut marks, found, at, mark);
                updated = true;
                assert(now.insert(key, m)[key] == m);
                assert(now.insert(key, m) != base);
            }
        } else {
            put(&mut marks, found, at, mark);
            updated = true;
            assert(now.insert(key, m).dom().contains(key));
            assert(now.insert(key, m) != base);
        }
    }
    assert(theirs.take(theirs.len() as int) =~= theirs);
    proof {
        let table = merged_table(mine, theirs);
        lemma_order_is_unique(marks.deep_view(), in_order(table), table);
    }
    (marks, updated)
}

/// Whether a mark of a list stands at `k`.
pub open spec fn marked_at<M: MarkView>(list: Seq<M>, k: MarkKey) -> bool {
    exists|i: int| 0 <= i < list.len() && #[trigger] list[i].key() == k
}

/// A list's table has a mark exactly where the list has one, and it is one of the list's.
pub proof fn lemma_mark_table<M: MarkView>(list: Seq<M>, k: MarkKey)
    ensures
        mark_table(list).dom().contains(k) <==> marked_at(list, k),
        mark_table(list).dom().contains(k) ==> exists|i: int|
            0 <= i < list.len() && #[trigger] list[i].key() == k && mark_table(list)[k] == list[i],
    decreases list.len(),
{
    if list.len() > 0 {
        let rest = list.drop_last();
        lemma_mark_table(rest, k);
        if marked_at(list, k) && list.last().key() != k {
            let i = choose|i: int| 0 <= i < list.len() && #[trigger] list[i].key() == k;
            assert(rest[i].key() == k);
        }
        if mark_table(rest).dom().contains(k) {
            let i = choose|i: int|
                0 <= i < rest.len() && #[trigger] rest[i].key() == k && mark_table(rest)[k]
                    == rest[i];
            assert(list[i].key() == k);
        }
        if list.last().key() == k {
            assert(list[list.len() - 1].key() == k);
        }
    }
}

/// After merging, a place is marked exactly if it was marked on this device or on the server;
/// its mark is one of those, and none of them is newer.
pub proof fn law_merge_keeps_the_newest<M: MarkView>(local: Seq<M>, cloud: Seq<M>, k: MarkKey)
    ensures
        merged_table(local, cloud).dom().contains(k) <==> marked_at(local, k) || marked_at(
            cloud,
            k,
        ),
        merged_table(local, cloud).dom().contains(k) ==> {
            let mark = merged_table(local, cloud)[k];
            &&& mark.key() == k
            &&& local.contains(mark) || cloud.contains(mark)
            &&& mark_table(local).dom().contains(k) ==> mark_table(local)[k].date() <= mark.date()
            &&& forall|i: int|
                0 <= i < cloud.len() && #[trigger] cloud[i].key() == k ==> cloud[i].date()
                    <= mark.date()
        },
    decreases cloud.len(),
{
    lemma_mark_table(local, k);
    if cloud.len() == 0 {
        if mark_table(local).dom().contains(k) {
            let i = choose|i: int|
                0 <= i < local.len() && #[trigger] local[i].key() == k && mark_table(local)[k]
                    == local[i];
            assert(local.contains(local[i]));
        }
    } else {
        let rest = cloud.drop_last();
        law_merge_keeps_the_newest(local, rest, k);
        if marked_at(rest, k) {
            let i = choose|i: int| 0 <= i < rest.len() && #[trigger] rest[i].key() == k;
            assert(cloud[i].key() == k);
        }
        if marked_at(cloud, k) && cloud.last().key() != k {
            let i = choose|i: int| 0 <= i < cloud.len() && #[trigger] cloud[i].key() == k;
            assert(rest[i].key() == k);
        }
        if cloud.last().key() == k {
            assert(cloud[cloud.len() - 1].key() == k);
        }
        if merged_table(local, rest).dom().contains(k) {
            let mark = merged_table(local, rest)[k];
            if rest.contains(mark) {
                let i = choose|i: int| 0 <= i < rest.len() && rest[i] == mark;
                assert(cloud[i] == mark);
            }
            assert forall|i: int| 0 <= i < rest.len() && #[trigger] cloud[i].key() == k implies cloud[i].date()
                <= mark.date() by {
                assert(rest[i].key() == k);
            }
        }
        assert(cloud.contains(cloud.last()));
        if merged_table(local, cloud).dom().contains(k) {
            let mark = merged_table(local, cloud)[k];
            assert forall|i: int| 0 <= i < cloud.len() && #[trigger] cloud[i].key() == k implies cloud[i].date()
                <= mark.date() by {
                if i < rest.len() {
                    assert(rest[i].key() == k);
                }
            }
        }
    }
}

/// A list of a table's marks has that table.
pub proof fn lemma_table_of_list<M: MarkView>(list: Seq<M>, table: Map<MarkKey, M>)
    requires
        lists(list, table),
    ensures
        mark_table(list) == table,
{
    assert forall|k: MarkKey|
        #![trigger mark_table(list).dom().contains(k)]
        #![trigger table.dom().contains(k)]
        mark_table(list).dom().contains(k) == table.dom().contains(k) && (table.dom().contains(k)
            ==> mark_table(list)[k] == table[k]) by {
        lemma_mark_table(list, k);
        if mark_table(list).dom().contains(k) {
            let i = choose|i: int|
                0 <= i < list.len() && #[trigger] list[i].key() == k && mark_table(list)[k]
                    == list[i];
            assert(table.dom().contains(list[i].key()));
        }
    }
    assert(mark_table(list) =~= table);
}

/// Merging is settled after one round: once this device holds the merged list, merging it with
/// the same marks of the server again, or with the merged list itself, changes nothing.
pub proof fn law_merge_settles<M: MarkView>(local: Seq<M>, cloud: Seq<M>, merged: Seq<M>)
    requires
        lists(merged, merged_table(local, cloud)),
    ensures
        merged_table(merged, cloud) == mark_table(merged),
        merged_table(merged, merged) == mark_table(merged),
{
    let table = merged_table(local, cloud);
    lemma_table_of_list(merged, table);
    assert forall|k: MarkKey| #[trigger] marked_at(cloud, k) implies table.dom().contains(k) && (forall|
        i: int,
    |
        0 <= i < cloud.len() && #[trigger] cloud[i].key() == k ==> cloud[i].date()
            <= table[k].date()) by {
        law_merge_keeps_the_newest(local, cloud, k);
    }
    lemma_nothing_newer(table, cloud);
    assert forall|k: MarkKey| #[trigger] marked_at(merged, k) implies table.dom().contains(k) && (forall|
        i: int,
    |
        0 <= i < merged.len() && #[trigger] merged[i].key() == k ==> merged[i].date()
            <= table[k].date()) by {
        let i = choose|i: int| 0 <= i < merged.len() && #[trigger] merged[i].key() == k;
        assert(table.dom().contains(merged[i].key()));
        assert forall|i: int| 0 <= i < merged.len() && #[trigger] merged[i].key() == k implies merged[i].date()
            <= table[k].date() by {
            assert(table[merged[i].key()] == merged[i]);
        }
    }
    lemma_nothing_newer(table, merged);
}

/// Marks that are no newer than what a table has are not taken in.
pub proof fn lemma_nothing_newer<M: MarkView>(table: Map<MarkKey, M>, cloud: Seq<M>)
    requires
        forall|k: MarkKey| #[trigger]
            marked_at(cloud, k) ==> table.dom().contains(k) && (forall|i: int|
                0 <= i < cloud.len() && #[trigger] cloud[i].key() == k ==> cloud[i].date()
                    <= table[k].date()),
    ensures
        taken_in(table, cloud) == table,
    decreases cloud.len(),
{
    if cloud.len() > 0 {
        let rest = cloud.drop_last();
        assert forall|k: MarkKey| #[trigger] marked_at(rest, k) implies table.dom().contains(k) && (forall|
            i: int,
        |
            0 <= i < rest.len() && #[trigger] rest[i].key() == k ==> rest[i].date()
                <= table[k].date()) by {
            let i = choose|i: int| 0 <= i < rest.len() && #[trigger] rest[i].key() == k;
            assert(cloud[i].key() == k);
            assert(marked_at(cloud, k));
            assert forall|i: int| 0 <= i < rest.len() && #[trigger] rest[i].key() == k implies rest[i].date()
                <= table[k].date() by {
                assert(cloud[i].key() == k);
            }
        }
        lemma_nothing_newer(table, rest);
        let k = cloud.last().key();
        assert(cloud[cloud.len() - 1].key() == k);
        assert(marked_at(cloud, k));
    }
}

/// What a table lists adds nothing to it.
pub proof fn lemma_own_marks_add_nothing<M: MarkView>(table: Map<MarkKey, M>, list: Seq<M>)
    requires
        lists(list, table),
    ensures
        taken_in(table, list) == table,
{
    assert forall|k: MarkKey| #[trigger] marked_at(list, k) implies table.dom().contains(k) && (
    forall|i: int|
        0 <= i < list.len() && #[trigger] list[i].key() == k ==> list[i].date()
            <= table[k].date()) by {
        let i = choose|i: int| 0 <= i < list.len() && #[trigger] list[i].key() == k;
        assert(table.dom().contains(list[i].key()));
    }
    lemma_nothing_newer(table, list);
}

/// Two devices come together: when the first has synchronised, then the second, then the first
/// again, both have marks in the same places, and equally new ones.
pub proof fn law_two_devices_agree<M: MarkView>(first: Seq<M>, second: Seq<M>, merged: Seq<M>, k: MarkKey)
    requires
        lists(first, mark_table(first)),
        lists(merged, merged_table(second, first)),
    ensures
        merged_table(first, merged).dom().contains(k) <==> mark_table(merged).dom().contains(k),
        mark_table(merged).dom().contains(k) ==> merged_table(first, merged)[k].date()
            == mark_table(merged)[k].date(),
{
    let theirs = merged_table(second, first);
    lemma_table_of_list(merged, theirs);
    law_merge_keeps_the_newest(second, first, k);
    law_merge_keeps_the_newest(first, merged, k);
    lemma_mark_table(first, k);
    lemma_mark_table(merged, k);
    if theirs.dom().contains(k) {
        let mark = merged_table(first, merged)[k];
        let i = choose|i: int| 0 <= i < merged.len() && #[trigger] merged[i].key() == k;
        assert(theirs[merged[i].key()] == merged[i]);
        assert(theirs[k].date() <= mark.date());
        if first.contains(mark) {
            let j = choose|j: int| 0 <= j < first.len() && first[j] == mark;
            assert(first[j].key() == k);
        } else {
            let j = choose|j: int| 0 <= j < merged.len() && merged[j] == mark;
            assert(theirs[merged[j].key()] == merged[j]);
        }
    }
}

} // verus!
