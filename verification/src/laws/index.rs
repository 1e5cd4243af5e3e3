//! What holds of the index of the server.
use vstd::prelude::*;

use crate::index;
use crate::models::BookView;
use crate::payload::{SyncDataBookItemView, SyncDataFileView, SyncDeletedItemView};
use crate::time;
use crate::time::Instant;

verus! {

/// Whether no book is listed twice.
pub open spec fn each_listed_once(books: Seq<SyncDataBookItemView>) -> bool {
    forall|i: int, j: int|
        #![trigger books[i], books[j]]
        0 <= i < j < books.len() ==> books[i].uuid != books[j].uuid
}

/// A deletion is remembered for thirty days, to the nanosecond.
pub proof fn law_deletions_are_remembered_for_thirty_days(
    uuid: Seq<char>,
    deleted_at: Seq<char>,
    now: Instant,
)
    requires
        time::rfc3339_instant(deleted_at) is Some,
    ensures
        index::remembered(SyncDeletedItemView::Detailed { uuid, deleted_at }, now) <==> now.nanos_since(
            time::rfc3339_instant(deleted_at)->0,
        ) < 30 * 86_400_000_000_000,
{
}

/// A deletion without a date, or with one that cannot be read, is remembered for ever.
pub proof fn law_undated_deletions_are_remembered(item: SyncDeletedItemView, now: Instant)
    requires
        item matches SyncDeletedItemView::Detailed { deleted_at, .. } ==> time::rfc3339_instant(
            deleted_at,
        ) is None,
    ensures
        index::remembered(item, now),
{
}

/// Forgetting takes out what is too old and nothing else.
pub proof fn law_only_old_deletions_are_forgotten(
    deleted: Seq<SyncDeletedItemView>,
    item: SyncDeletedItemView,
    now: Instant,
)
    ensures
        index::still_deleted(deleted, now).contains(item) <==> deleted.contains(item)
            && index::remembered(item, now),
{
    let p = |item: SyncDeletedItemView| index::remembered(item, now);
    lemma_filter_contains(deleted, p, item);
}

/// A filtered list holds what it held before and what passes.
pub proof fn lemma_filter_contains<A>(s: Seq<A>, p: spec_fn(A) -> bool, x: A)
    ensures
        s.filter(p).contains(x) <==> s.contains(x) && p(x),
    decreases s.len(),
{
    reveal(Seq::filter);
    if s.len() > 0 {
        let rest = s.drop_last();
        lemma_filter_contains(rest, p, x);
        let kept = rest.filter(p);
        assert(s =~= rest.push(s.last()));
        if rest.contains(x) {
            let i = choose|i: int| 0 <= i < rest.len() && rest[i] == x;
            assert(s[i] == x);
        }
        if s.contains(x) && x != s.last() {
            let i = choose|i: int| 0 <= i < s.len() && s[i] == x;
            assert(rest[i] == x);
        }
        if p(s.last()) {
            assert(kept.push(s.last())[kept.len() as int] == s.last());
            if kept.contains(x) {
                let i = choose|i: int| 0 <= i < kept.len() && kept[i] == x;
                assert(kept.push(s.last())[i] == x);
            }
            if kept.push(s.last()).contains(x) && x != s.last() {
                let i = choose|i: int|
                    0 <= i < kept.push(s.last()).len() && kept.push(s.last())[i] == x;
                assert(kept[i] == x);
            }
        }
        if s.contains(s.last()) == false {
            assert(s[s.len() - 1] == s.last());
        }
    }
}

/// Entering a book lists it, keeps every other entry in its place, and touches no deletion.
pub proof fn law_entered_books_are_listed(
    file: SyncDataFileView,
    book: BookView,
    extension: Option<Seq<char>>,
    now: Instant,
    uuid: Seq<char>,
)
    ensures
        ({
            let after = index::with_book(file, index::entry(book, extension, now));
            &&& index::is_listed(after.books, uuid) <==> uuid == book.uuid || index::is_listed(
                file.books,
                uuid,
            )
            &&& file.books.is_prefix_of(after.books)
            &&& after.deleted == file.deleted
        }),
{
    let after = index::with_book(file, index::entry(book, extension, now));
    assert(after.books[file.books.len() as int].uuid == book.uuid);
    if index::is_listed(file.books, uuid) {
        let i = choose|i: int| 0 <= i < file.books.len() && (#[trigger] file.books[i]).uuid == uuid;
        assert(after.books[i].uuid == uuid);
    }
}

/// A book that is deleted is listed no more; every other book stays. The deletion is noted, and
/// so are those that were noted before.
pub proof fn law_deleted_books_are_noted(
    file: SyncDataFileView,
    deleted: Seq<char>,
    now: Instant,
    uuid: Seq<char>,
)
    ensures
        ({
            let after = index::without_book(file, deleted, now);
            &&& index::is_listed(after.books, uuid) <==> uuid != deleted && index::is_listed(
                file.books,
                uuid,
            )
            &&& index::is_deleted(after.deleted, uuid) <==> uuid == deleted || index::is_deleted(
                file.deleted,
                uuid,
            )
        }),
{
    let p = |item: SyncDataBookItemView| item.uuid != deleted;
    let after = index::without_book(file, deleted, now);
    if index::is_listed(after.books, uuid) {
        let i = choose|i: int| 0 <= i < after.books.len() && (#[trigger] after.books[i]).uuid == uuid;
        lemma_filter_contains(file.books, p, after.books[i]);
        assert(after.books.contains(after.books[i]));
        let j = choose|j: int| 0 <= j < file.books.len() && file.books[j] == after.books[i];
        assert(file.books[j].uuid == uuid);
    }
    if uuid != deleted && index::is_listed(file.books, uuid) {
        let i = choose|i: int| 0 <= i < file.books.len() && (#[trigger] file.books[i]).uuid == uuid;
        lemma_filter_contains(file.books, p, file.books[i]);
        assert(file.books.contains(file.books[i]));
        let j = choose|j: int| 0 <= j < after.books.len() && after.books[j] == file.books[i];
        assert(after.books[j].uuid == uuid);
    }
    assert(after.deleted[file.deleted.len() as int].uuid() == deleted);
    if index::is_deleted(file.deleted, uuid) {
        let i = choose|i: int| 0 <= i < file.deleted.len() && #[trigger] file.deleted[i].uuid() == uuid;
        assert(after.deleted[i].uuid() == uuid);
    }
}

/// A deletion is remembered on other devices: for thirty days after it, one that forgets old
/// deletions still finds it. The premise on its date is met by every date: it is what is known of
/// `chrono::DateTime::to_rfc3339`.
pub proof fn law_other_devices_remember_deletions(
    file: SyncDataFileView,
    uuid: Seq<char>,
    now: Instant,
    later: Instant,
)
    requires
        time::reads_back(now),
        later.nanos_since(now) < 30 * 86_400_000_000_000,
    ensures
        index::is_deleted(
            index::still_deleted(index::without_book(file, uuid, now).deleted, later),
            uuid,
        ),
{
    index::lemma_deletion_is_told(file, uuid, now);
    assert(later.days_since(now) < index::TOMBSTONE_DAYS);
}

/// The entry of a book tells what the book is: its identifier, title, author, number of chapters, when it
/// was added, or else the present time, and whether it has a cover, with the extension and the dot before
/// it.
pub proof fn law_entries_describe_books(book: BookView, extension: Option<Seq<char>>, now: Instant)
    ensures
        ({
            let item = index::entry(book, extension, now);
            &&& item.uuid == book.uuid
            &&& item.title == book.title
            &&& item.author == book.author
            &&& item.total_chapters == book.total_chapters
            &&& item.has_cover <==> book.cover_path is Some
            &&& match extension {
                Some(extension) => item.cover_extension == Some("."@ + extension),
                None => item.cover_extension is None,
            }
            &&& match Instant::at_millis(book.date_added) {
                Some(at) => item.date_added == time::rfc3339_text(at),
                None => item.date_added == time::rfc3339_text(now),
            }
        }),
{
}

/// A listed book shows what its entry tells.
pub proof fn law_shown_books_are_those_entered(item: SyncDataBookItemView)
    ensures
        ({
            let book = index::shown(item);
            &&& book.uuid == item.uuid
            &&& book.title == item.title
            &&& book.author == item.author
            &&& book.total_chapters == item.total_chapters
            &&& book.cover_extension == item.cover_extension
            &&& book.has_cover == item.has_cover
            &&& book.date_added == item.date_added
        }),
{
}

/// Bringing an index up to date changes nothing but its date; a new index is empty and bears the
/// present date.
pub proof fn law_only_the_date_changes(file: SyncDataFileView, now: Instant)
    ensures
        index::dated(file, now).last_sync_time == time::rfc3339_text(now),
        index::dated(file, now).version == file.version,
        index::dated(file, now).books == file.books,
        index::dated(file, now).deleted == file.deleted,
        index::empty_index(now).version == 1,
        index::empty_index(now).last_sync_time == time::rfc3339_text(now),
        index::empty_index(now).books.len() == 0,
        index::empty_index(now).deleted.len() == 0,
{
}

/// Times are stored as dates and read back; what names no time stands for the present one.
pub proof fn law_dates_stand_for_times(ms: i64, date: Seq<char>, now: Instant)
    ensures
        crate::contents::date_text(ms, now) == match Instant::at_millis(ms) {
            Some(at) => time::rfc3339_text(at),
            None => time::rfc3339_text(now),
        },
        crate::contents::date_millis(date, now) == match time::rfc3339_instant(date) {
            Some(at) => at.millis() as i64,
            None => now.millis() as i64,
        },
{
}

} // verus!
