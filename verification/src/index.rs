//! The sync index: which books the server holds, and which were deleted from it.
use vstd::prelude::*;

use crate::contents;
use crate::laws::spread;
use crate::models::{Book, BookView, CloudBook, CloudBookView};
use crate::payload::{
    SyncDataBookItem, SyncDataBookItemView, SyncDataFile, SyncDataFileView, SyncDeletedItem,
    SyncDeletedItemView,
};
use crate::text;
use crate::time;
use crate::time::Instant;

verus! {

/// How many days a deletion is remembered.
pub const TOMBSTONE_DAYS: i64 = 30;

/// An index without books.
pub open spec fn empty_index(now: Instant) -> SyncDataFileView {
    SyncDataFileView {
        version: 1,
        last_sync_time: time::rfc3339_text(now),
        books: Seq::empty(),
        deleted: Seq::empty(),
    }
}

/// An index without books.
pub fn new_index(now: Instant) -> (r: SyncDataFile)
    requires
        now.valid(),
    ensures
        r.deep_view() == empty_index(now),
{
    let r = SyncDataFile {
        version: 1,
        last_sync_time: time::format_rfc3339(now),
        books: Vec::new(),
        deleted: Vec::new(),
    };
    assert(r.books.deep_view() =~= Seq::empty());
    assert(r.deleted.deep_view() =~= Seq::empty());
    r
}

/// Whether a deletion of some time is still remembered. One of an unknown time is never forgotten.
pub open spec fn recent(at: Option<Instant>, now: Instant) -> bool {
    match at {
        Some(at) => now.days_since(at) < TOMBSTONE_DAYS,
        None => true,
    }
}

/// Whether a deletion of some time is still remembered.
pub fn is_recent(at: Option<Instant>, now: Instant) -> (r: bool)
    requires
        now.valid(),
        at matches Some(at) ==> at.valid(),
    ensures
        r == recent(at, now),
{
    match at {
        Some(at) => time::days_between(now, at) < TOMBSTONE_DAYS,
        None => true,
    }
}

/// Whether a deletion is still remembered. One without a date, or with a date that cannot be
/// read, is never forgotten.
pub open spec fn remembered(item: SyncDeletedItemView, now: Instant) -> bool {
    match item {
        SyncDeletedItemView::Detailed { deleted_at, .. } => recent(
            time::rfc3339_instant(deleted_at),
            now,
        ),
        SyncDeletedItemView::Simple(_) => true,
    }
}

/// The deletions that are still remembered.
pub open spec fn still_deleted(deleted: Seq<SyncDeletedItemView>, now: Instant) -> Seq<
    SyncDeletedItemView,
> {
    deleted.filter(|item: SyncDeletedItemView| remembered(item, now))
}

/// One more item of a list filtered.
pub proof fn lemma_filter_next<A>(s: Seq<A>, p: spec_fn(A) -> bool, n: int)
    requires
        0 <= n < s.len(),
    ensures
        s.take(n + 1).filter(p) == if p(s[n]) {
            s.take(n).filter(p).push(s[n])
        } else {
            s.take(n).filter(p)
        },
{
    reveal(Seq::filter);
    assert(s.take(n + 1).drop_last() =~= s.take(n));
}

fn is_remembered(item: &SyncDeletedItem, now: Instant) -> (r: bool)
    requires
        now.valid(),
    ensures
        r == remembered(item.deep_view(), now),
{
    match item {
        SyncDeletedItem::Detailed { uuid: _, deleted_at } => is_recent(
            time::parse_rfc3339(deleted_at),
            now,
        ),
        SyncDeletedItem::Simple(_) => true,
    }
}

/// Forgets the deletions that are too long ago.
pub fn forget_old_deletions(deleted: Vec<SyncDeletedItem>, now: Instant) -> (r: Vec<SyncDeletedItem>)
    requires
        now.valid(),
    ensures
        r.deep_view() == still_deleted(deleted.deep_view(), now),
{
    let ghost all = deleted.deep_view();
    let ghost p = |item: SyncDeletedItemView| remembered(item, now);
    let mut r: Vec<SyncDeletedItem> = Vec::new();
    proof {
        reveal(Seq::filter);
        assert(r.deep_view() =~= all.take(0).filter(p));
    }
    for item in it: deleted
        invariant
            now.valid(),
            p == (|item: SyncDeletedItemView| remembered(item, now)),
            r.deep_view() == all.take(it.index()).filter(p),
            all.len() == it.seq().len(),
            forall|i: int| 0 <= i < all.len() ==> all[i] == (#[trigger] it.seq()[i]).deep_view(),
    {
        proof {
            lemma_filter_next(all, p, it.index());
        }
        let ghost before = r.deep_view();
        let ghost v = item.deep_view();
        if is_remembered(&item, now) {
            r.push(item);
            assert(r.deep_view() =~= before.push(v));
        }
    }
    assert(all.take(all.len() as int) =~= all);
    r
}

/// Whether a book was deleted.
pub open spec fn is_deleted(deleted: Seq<SyncDeletedItemView>, uuid: Seq<char>) -> bool {
    exists|i: int| 0 <= i < deleted.len() && #[trigger] deleted[i].uuid() == uuid
}

/// Whether a book was deleted.
pub fn deleted_contains(deleted: &Vec<SyncDeletedItem>, uuid: &str) -> (r: bool)
    ensures
        r == is_deleted(deleted.deep_view(), uuid@),
{
    let mut i: usize = 0;
    while i < deleted.len()
        invariant
            i <= deleted.len(),
            forall|j: int| 0 <= j < i ==> (#[trigger] deleted.deep_view()[j]).uuid() != uuid@,
        decreases deleted.len() - i,
    {
        assert(deleted.deep_view()[i as int] == deleted@[i as int].deep_view());
        if text::same_text(deleted[i].uuid(), uuid) {
            return true;
        }
        i = i + 1;
    }
    false
}

/// Whether an index lists a book.
pub open spec fn is_listed(books: Seq<SyncDataBookItemView>, uuid: Seq<char>) -> bool {
    exists|i: int| 0 <= i < books.len() && (#[trigger] books[i]).uuid == uuid
}

/// Whether an index lists a book.
pub fn books_contain(books: &Vec<SyncDataBookItem>, uuid: &str) -> (r: bool)
    ensures
        r == is_listed(books.deep_view(), uuid@),
{
    let mut i: usize = 0;
    while i < books.len()
        invariant
            i <= books.len(),
            forall|j: int| 0 <= j < i ==> (#[trigger] books.deep_view()[j]).uuid != uuid@,
        decreases books.len() - i,
    {
        assert(books.deep_view()[i as int] == books@[i as int].deep_view());
        if text::same_text(&books[i].uuid, uuid) {
            return true;
        }
        i = i + 1;
    }
    false
}

/// The entry of a book, given the extension of its cover.
pub open spec fn entry(book: BookView, extension: Option<Seq<char>>, now: Instant) -> SyncDataBookItemView {
    SyncDataBookItemView {
        uuid: book.uuid,
        title: book.title,
        author: book.author,
        total_chapters: book.total_chapters,
        date_added: contents::date_text(book.date_added, now),
        cover_extension: match extension {
            Some(extension) => Some("."@ + extension),
            None => None,
        },
        has_cover: book.cover_path is Some,
    }
}

/// The entry of a book, given the extension of its cover.
pub fn make_entry(book: &Book, extension: &Option<String>, now: Instant) -> (r: SyncDataBookItem)
    requires
        now.valid(),
    ensures
        r.deep_view() == entry(book.deep_view(), extension.deep_view(), now),
{
    SyncDataBookItem {
        uuid: book.uuid.clone(),
        title: book.title.clone(),
        author: book.author.clone(),
        total_chapters: book.total_chapters,
        date_added: contents::format_date(book.date_added, now),
        cover_extension: match extension {
            Some(extension) => Some(text::concat2(".", extension)),
            None => None,
        },
        has_cover: book.cover_path.is_some(),
    }
}

/// An index with one more book.
pub open spec fn with_book(index: SyncDataFileView, item: SyncDataBookItemView) -> SyncDataFileView {
    SyncDataFileView { books: index.books.push(item), ..index }
}

/// Adds a book to an index.
pub fn add_book(index: &mut SyncDataFile, item: SyncDataBookItem)
    ensures
        final(index).deep_view() == with_book(old(index).deep_view(), item.deep_view()),
{
    let ghost before = index.books.deep_view();
    let ghost v = item.deep_view();
    index.books.push(item);
    assert(index.books.deep_view() =~= before.push(v));
}

/// An index that was brought up to date.
pub open spec fn dated(index: SyncDataFileView, now: Instant) -> SyncDataFileView {
    SyncDataFileView { last_sync_time: time::rfc3339_text(now), ..index }
}

/// An index after a book was deleted from it: without an entry for it, and with a deletion that
/// bears the date.
pub open spec fn without_book(index: SyncDataFileView, uuid: Seq<char>, now: Instant) -> SyncDataFileView {
    SyncDataFileView {
        version: index.version,
        last_sync_time: time::rfc3339_text(now),
        books: index.books.filter(|item: SyncDataBookItemView| item.uuid != uuid),
        deleted: index.deleted.push(
            SyncDeletedItemView::Detailed { uuid, deleted_at: time::rfc3339_text(now) },
        ),
    }
}

/// Whether an index tells any device that looks at it less than thirty days after an instant that
/// a book was deleted.
pub open spec fn tells_of_deletion(index: SyncDataFileView, uuid: Seq<char>, deleted: Instant) -> bool {
    forall|later: Instant|
        later.days_since(deleted) < TOMBSTONE_DAYS ==> is_deleted(
            #[trigger] still_deleted(index.deleted, later),
            uuid,
        )
}

/// An index that a book was deleted from tells of it, since its date reads as it should.
pub proof fn lemma_deletion_is_told(index: SyncDataFileView, uuid: Seq<char>, now: Instant)
    requires
        time::reads_back(now),
    ensures
        tells_of_deletion(without_book(index, uuid, now), uuid, now),
{
    let list = without_book(index, uuid, now).deleted;
    let last = list.len() - 1;
    assert forall|later: Instant| later.days_since(now) < TOMBSTONE_DAYS implies is_deleted(
        #[trigger] still_deleted(list, later),
        uuid,
    ) by {
        let q = |item: SyncDeletedItemView| remembered(item, later);
        assert(q(list[last]));
        reveal(Seq::filter);
        let kept = still_deleted(list, later);
        assert(kept[kept.len() - 1].uuid() == uuid);
    }
}

/// Deletes a book from an index. The deletion is remembered from this moment on: a device that
/// looks less than thirty days later finds it, and carries it out.
pub fn delete_book(index: SyncDataFile, uuid: String, now: Instant) -> (r: SyncDataFile)
    requires
        now.valid(),
    ensures
        r.deep_view() == without_book(index.deep_view(), uuid@, now),
        tells_of_deletion(r.deep_view(), uuid@, now),
        spread::reaches_every_device(r.deep_view(), uuid@, now),
{
    let ghost all = index.books.deep_view();
    let ghost p = |item: SyncDataBookItemView| item.uuid != uuid@;
    let mut books: Vec<SyncDataBookItem> = Vec::new();
    proof {
        reveal(Seq::filter);
        assert(books.deep_view() =~= all.take(0).filter(p));
    }
    for item in it: index.books
        invariant
            p == (|item: SyncDataBookItemView| item.uuid != uuid@),
            books.deep_view() == all.take(it.index()).filter(p),
            all.len() == it.seq().len(),
            forall|i: int| 0 <= i < all.len() ==> all[i] == (#[trigger] it.seq()[i]).deep_view(),
    {
        proof {
            lemma_filter_next(all, p, it.index());
        }
        let ghost before = books.deep_view();
        let ghost v = item.deep_view();
        if !text::same_text(&item.uuid, &uuid) {
            books.push(item);
            assert(books.deep_view() =~= before.push(v));
        }
    }
    assert(all.take(all.len() as int) =~= all);
    let mut deleted = index.deleted;
    let ghost before = deleted.deep_view();
    let id = uuid.clone();
    let stone = SyncDeletedItem::Detailed { uuid: id, deleted_at: time::format_rfc3339(now) };
    let ghost v = stone.deep_view();
    deleted.push(stone);
    assert(deleted.deep_view() =~= before.push(v));
    let r = SyncDataFile {
        version: index.version,
        last_sync_time: time::format_rfc3339(now),
        books,
        deleted,
    };
    proof {
        assert(time::reads_back(now));
        lemma_deletion_is_told(index.deep_view(), uuid@, now);
        spread::lemma_deletion_reaches(index.deep_view(), uuid@, now);
    }
    r
}

/// A book as the index shows it.
pub open spec fn shown(item: SyncDataBookItemView) -> CloudBookView {
    CloudBookView {
        uuid: item.uuid,
        title: item.title,
        author: item.author,
        total_chapters: item.total_chapters,
        cover_extension: item.cover_extension,
        has_cover: item.has_cover,
        date_added: item.date_added,
    }
}

/// The books as the index shows them.
pub fn show_books(books: Vec<SyncDataBookItem>) -> (r: Vec<CloudBook>)
    ensures
        r.deep_view() == books.deep_view().map_values(|item: SyncDataBookItemView| shown(item)),
{
    let ghost all = books.deep_view();
    let mut r: Vec<CloudBook> = Vec::new();
    for b in it: books
        invariant
            r.len() == it.index(),
            all.len() == it.seq().len(),
            forall|i: int| 0 <= i < all.len() ==> all[i] == (#[trigger] it.seq()[i]).deep_view(),
            forall|i: int| 0 <= i < r.len() ==> (#[trigger] r@[i]).deep_view() == shown(all[i]),
    {
        r.push(
            CloudBook {
                uuid: b.uuid,
                title: b.title,
                author: b.author,
                total_chapters: b.total_chapters,
                cover_extension: b.cover_extension,
                has_cover: b.has_cover,
                date_added: b.date_added,
            },
        );
    }
    assert(r.deep_view() =~= all.map_values(|item: SyncDataBookItemView| shown(item)));
    r
}

} // verus!
