//! What holds of a deletion that one device has noted on the server: it reaches the others.
use vstd::prelude::*;

use crate::index;
use crate::laws::deletion;
use crate::laws::index as index_laws;
use crate::laws::library as library_laws;
use crate::models::{BookView, SyncResultView};
use crate::payload::SyncDataFileView;
use crate::protocol::{ActionView, EventView, MoveView, TaskView};
use crate::tasks::library;
use crate::tasks::library::{LibraryView, RoundView, SyncLibraryView};
use crate::time;
use crate::time::Instant;
use crate::world::World;

verus! {

/// Whether a reply is what a device is told that synchronises its library undisturbed: there is a
/// client; the device has `books`; the server has the index `file`, which is read less than thirty
/// days after an instant; and a new index can be written down and is saved at once. What comes of
/// anything else does not matter.
pub open spec fn goes_well(
    state: SyncLibraryView,
    reply: (EventView, Instant),
    books: Seq<BookView>,
    file: SyncDataFileView,
    deleted: Instant,
) -> bool {
    match state {
        SyncLibraryView::Client { .. } => reply.0 matches EventView::Client(Ok(_)),
        SyncLibraryView::Books { .. } => reply.0 == EventView::Books(Ok(books)),
        SyncLibraryView::IndexLooked { .. } => reply.0 == EventView::Flag(Ok(true)),
        SyncLibraryView::IndexFetched { .. } => reply.0 matches EventView::Bytes(Ok(_)),
        SyncLibraryView::IndexDecoded { .. } => reply.0 == EventView::Index(Ok(file))
            && reply.1.nanos_since(deleted) < 30 * 86_400_000_000_000,
        SyncLibraryView::Extended { .. } => reply.0 is Extension,
        SyncLibraryView::IndexEncoded { .. } => reply.0 matches EventView::Bytes(Ok(_)),
        SyncLibraryView::IndexSaved { .. } => reply.0 == EventView::Flag(Ok(true)),
        _ => true,
    }
}

/// Whether all replies to a synchronisation of the library are such.
pub open spec fn is_undisturbed(
    dir: Option<Seq<char>>,
    replies: Seq<(EventView, Instant)>,
    books: Seq<BookView>,
    file: SyncDataFileView,
    deleted: Instant,
) -> bool {
    forall|i: int|
        0 <= i < replies.len() ==> (library_laws::library_run(
            dir,
            #[trigger] replies.take(i),
        ) matches MoveView::Next(state, _) ==> goes_well(state, replies[i], books, file, deleted))
}

/// Whether a book is among others.
pub open spec fn is_among(books: Seq<BookView>, uuid: Seq<char>) -> bool {
    exists|i: int| 0 <= i < books.len() && (#[trigger] books[i]).uuid == uuid
}

/// Whether a task asks for a book to be deleted from this device.
pub open spec fn deletes(at: MoveView<SyncLibraryView, SyncResultView>, uuid: Seq<char>) -> bool {
    at matches MoveView::Next(_, action) && action == ActionView::DeleteBook(uuid)
}

/// Whether a task leaves a book where it belongs: it does not send it to the server, and an index
/// that it writes down does not list it, but tells that it was deleted.
pub open spec fn lets_go(at: MoveView<SyncLibraryView, SyncResultView>, uuid: Seq<char>) -> bool {
    at matches MoveView::Next(_, action) ==> {
        &&& action != ActionView::Run(TaskView::ExportBook(uuid))
        &&& action matches ActionView::EncodeIndex(new) ==> !index::is_listed(new.books, uuid)
            && index::is_deleted(new.deleted, uuid)
    }
}

/// How many replies a synchronisation of so many books waits for at most, where the first index
/// that it sends is saved.
pub open spec fn enough(count: nat) -> nat {
    7 * count + 22
}

/// Whether a synchronisation of the library carries the deletion of a book out: the book is never
/// sent, and is listed in no index; and after enough replies the task has ended with success,
/// has asked for the book to be deleted here, and reports that this device has changed.
pub open spec fn is_carried_out(
    dir: Option<Seq<char>>,
    replies: Seq<(EventView, Instant)>,
    books: Seq<BookView>,
    uuid: Seq<char>,
) -> bool {
    &&& forall|i: int|
        0 <= i <= replies.len() ==> lets_go(
            library_laws::library_run(dir, #[trigger] replies.take(i)),
            uuid,
        )
    &&& replies.len() >= enough(books.len()) ==> {
        &&& library_laws::library_run(dir, replies) == MoveView::<
            SyncLibraryView,
            SyncResultView,
        >::End(Ok(library::library_result(true)))
        &&& exists|i: int|
            0 <= i < replies.len() && deletes(
                library_laws::library_run(dir, #[trigger] replies.take(i)),
                uuid,
            )
    }
}

/// Whether the deletion of a book at an instant reaches every device that has the book and
/// synchronises its library undisturbed, on an index of the server, within thirty days.
#[verifier::opaque]
pub open spec fn reaches_every_device(
    file: SyncDataFileView,
    uuid: Seq<char>,
    deleted: Instant,
) -> bool {
    forall|dir: Option<Seq<char>>, replies: Seq<(EventView, Instant)>, books: Seq<BookView>|
        #[trigger] is_undisturbed(dir, replies, books, file, deleted) && is_among(books, uuid)
            ==> is_carried_out(dir, replies, books, uuid)
}

/// What holds of a round: it is the first one, and its index tells of the deletion.
spec fn round_knows(
    library: LibraryView,
    round: RoundView,
    books: Seq<BookView>,
    at: int,
) -> bool {
    &&& library.books == books
    &&& round.attempt == 1
    &&& 0 <= round.at < books.len()
    &&& index::is_deleted(round.index.deleted, books[at].uuid)
    &&& !index::is_listed(round.index.books, books[at].uuid)
    &&& round.at > at ==> library.changed
}

/// What holds of a round that deals with another book than the deleted one.
spec fn round_differs(
    library: LibraryView,
    round: RoundView,
    books: Seq<BookView>,
    at: int,
) -> bool {
    round_knows(library, round, books, at) && books[round.at].uuid != books[at].uuid
}

/// What holds of every state of an undisturbed synchronisation of books, of which the one at `at`
/// was deleted elsewhere.
spec fn knows(state: SyncLibraryView, books: Seq<BookView>, at: int) -> bool {
    match state {
        SyncLibraryView::Folders { made, .. } => 0 < made <= 6,
        SyncLibraryView::IndexLooked { library, attempt } => library.books == books && attempt == 1,
        SyncLibraryView::IndexFetched { library, attempt } => library.books == books && attempt
            == 1,
        SyncLibraryView::IndexDecoded { library, attempt } => library.books == books && attempt
            == 1,
        SyncLibraryView::BookDeleted { library, round } => round_knows(library, round, books, at)
            && library.changed,
        SyncLibraryView::BookLooked { library, round } => round_differs(library, round, books, at),
        SyncLibraryView::Announced { library, round } => round_differs(library, round, books, at),
        SyncLibraryView::Exported { library, round } => round_differs(library, round, books, at),
        SyncLibraryView::Extended { library, round } => round_differs(library, round, books, at),
        SyncLibraryView::IndexEncoded { library, .. } => library.books == books && library.changed,
        SyncLibraryView::IndexSaved { library, .. } => library.books == books && library.changed,
        SyncLibraryView::ProgressSynced { library, at: i } => library.books == books
            && library.changed && 0 <= i < books.len(),
        SyncLibraryView::BookmarksSynced { library, at: i } => library.books == books
            && library.changed && 0 <= i < books.len(),
        SyncLibraryView::HighlightsSynced { library, at: i } => library.books == books
            && library.changed && 0 <= i < books.len(),
        SyncLibraryView::CoversFetched { changed, .. } => changed,
        SyncLibraryView::Noted { changed } => changed,
        SyncLibraryView::Stamped { changed } => changed,
        SyncLibraryView::Finished { changed } => changed,
        _ => true,
    }
}

/// Whether a state has come to the book at `at`, or past it.
spec fn is_past(state: SyncLibraryView, at: int) -> bool {
    match state {
        SyncLibraryView::BookDeleted { round, .. } => round.at >= at,
        SyncLibraryView::BookLooked { round, .. } => round.at > at,
        SyncLibraryView::Announced { round, .. } => round.at > at,
        SyncLibraryView::Exported { round, .. } => round.at > at,
        SyncLibraryView::Extended { round, .. } => round.at > at,
        SyncLibraryView::IndexEncoded { .. } => true,
        SyncLibraryView::IndexSaved { .. } => true,
        _ => library_laws::is_saved(state),
    }
}

/// How many replies an undisturbed synchronisation of `n` books waits for at most.
spec fn left(state: SyncLibraryView, n: int) -> int {
    match state {
        SyncLibraryView::Started { .. } => 7 * n + 22,
        SyncLibraryView::Client { .. } => 7 * n + 21,
        SyncLibraryView::Folders { made, .. } => 7 * n + 21 - made,
        SyncLibraryView::LegacyLooked { .. } => 7 * n + 14,
        SyncLibraryView::CurrentLooked { .. } => 7 * n + 13,
        SyncLibraryView::LegacyFetched { .. } => 7 * n + 12,
        SyncLibraryView::Migrated { .. } => 7 * n + 11,
        SyncLibraryView::Books { .. } => 7 * n + 10,
        SyncLibraryView::IndexLooked { .. } => 7 * n + 9,
        SyncLibraryView::IndexFetched { .. } => 7 * n + 8,
        SyncLibraryView::IndexDecoded { .. } => 7 * n + 7,
        SyncLibraryView::BookDeleted { round, .. } => 4 * (n - round.at) + 3 * n + 6,
        SyncLibraryView::BookLooked { round, .. } => 4 * (n - round.at) + 3 * n + 6,
        SyncLibraryView::Announced { round, .. } => 4 * (n - round.at) + 3 * n + 5,
        SyncLibraryView::Exported { round, .. } => 4 * (n - round.at) + 3 * n + 4,
        SyncLibraryView::Extended { round, .. } => 4 * (n - round.at) + 3 * n + 3,
        SyncLibraryView::IndexEncoded { .. } => 3 * n + 6,
        SyncLibraryView::IndexSaved { .. } => 3 * n + 5,
        SyncLibraryView::ProgressSynced { at, .. } => 3 * (n - at) + 4,
        SyncLibraryView::BookmarksSynced { at, .. } => 3 * (n - at) + 3,
        SyncLibraryView::HighlightsSynced { at, .. } => 3 * (n - at) + 2,
        SyncLibraryView::CoversFetched { .. } => 4,
        SyncLibraryView::Noted { .. } => 3,
        SyncLibraryView::Stamped { .. } => 2,
        SyncLibraryView::Finished { .. } => 1,
    }
}

/// Whether a task has got on as it should, from one that waited for `before` more replies and was
/// past the deleted book or not.
spec fn gets_on(
    r: MoveView<SyncLibraryView, SyncResultView>,
    books: Seq<BookView>,
    at: int,
    before: int,
    past: bool,
) -> bool {
    match r {
        MoveView::Next(next, action) => {
            &&& knows(next, books, at)
            &&& left(next, books.len() as int) < before
            &&& past ==> is_past(next, at)
            &&& is_past(next, at) && !past ==> action == ActionView::DeleteBook(books[at].uuid)
            &&& lets_go(r, books[at].uuid)
        },
        MoveView::End(result) => past && result == Ok::<SyncResultView, Seq<char>>(
            library::library_result(true),
        ),
    }
}

proof fn lemma_visit(
    library: LibraryView,
    round: RoundView,
    now: Instant,
    books: Seq<BookView>,
    at: int,
)
    requires
        0 <= at < books.len(),
        library.books == books,
        round.attempt == 1,
        0 <= round.at <= books.len(),
        index::is_deleted(round.index.deleted, books[at].uuid),
        !index::is_listed(round.index.books, books[at].uuid),
        round.at > at ==> library.changed,
    ensures
        gets_on(
            SyncLibraryView::visit(library, round, now),
            books,
            at,
            4 * (books.len() - round.at) + 3 * books.len() + 7,
            round.at > at,
        ),
{
}

proof fn lemma_enter(
    library: LibraryView,
    round: RoundView,
    extension: Option<Seq<char>>,
    now: Instant,
    books: Seq<BookView>,
    at: int,
)
    requires
        0 <= at < books.len(),
        round_differs(library, round, books, at),
    ensures
        gets_on(
            SyncLibraryView::enter(library, round, extension, now),
            books,
            at,
            4 * (books.len() - round.at) + 3 * books.len() + 3,
            round.at > at,
        ),
{
    let item = index::entry(books[round.at], extension, now);
    index_laws::law_entered_books_are_listed(
        round.index,
        books[round.at],
        extension,
        now,
        books[at].uuid,
    );
    let entered = index::with_book(round.index, item);
    lemma_visit(
        library,
        RoundView { index: entered, at: round.at + 1, ..round },
        now,
        books,
        at,
    );
}

/// An undisturbed synchronisation gets on with every reply.
proof fn lemma_gets_on(
    state: SyncLibraryView,
    reply: (EventView, Instant),
    books: Seq<BookView>,
    file: SyncDataFileView,
    at: int,
    deleted: Instant,
)
    requires
        0 <= at < books.len(),
        index::tells_of_deletion(file, books[at].uuid, deleted),
        !index::is_listed(file.books, books[at].uuid),
        knows(state, books, at),
        goes_well(state, reply, books, file, deleted),
    ensures
        gets_on(
            state.after(reply.0, reply.1),
            books,
            at,
            left(state, books.len() as int),
            is_past(state, at),
        ),
{
    let now = reply.1;
    match state {
        SyncLibraryView::IndexDecoded { library, attempt } => {
            let known = index::still_deleted(file.deleted, now);
            assert(index::is_deleted(known, books[at].uuid));
            let index = SyncDataFileView { deleted: known, ..file };
            lemma_visit(library, RoundView { attempt, index, at: 0 }, now, books, at);
        },
        SyncLibraryView::BookDeleted { library, round } => {
            lemma_visit(library, RoundView { at: round.at + 1, ..round }, now, books, at);
        },
        SyncLibraryView::BookLooked { library, round } => {
            lemma_visit(library, RoundView { at: round.at + 1, ..round }, now, books, at);
        },
        SyncLibraryView::Exported { library, round } => {
            lemma_visit(library, RoundView { at: round.at + 1, ..round }, now, books, at);
            lemma_enter(library, round, None, now, books, at);
        },
        SyncLibraryView::Extended { library, round } => {
            lemma_enter(library, round, reply.0->Extension_0, now, books, at);
        },
        _ => {},
    }
}

/// Whether a task has asked, after some of the replies, for a book to be deleted.
spec fn has_asked(
    dir: Option<Seq<char>>,
    replies: Seq<(EventView, Instant)>,
    uuid: Seq<char>,
) -> bool {
    exists|i: int|
        0 <= i <= replies.len() && deletes(
            library_laws::library_run(dir, #[trigger] replies.take(i)),
            uuid,
        )
}

proof fn lemma_run(
    dir: Option<Seq<char>>,
    replies: Seq<(EventView, Instant)>,
    books: Seq<BookView>,
    file: SyncDataFileView,
    at: int,
    deleted: Instant,
)
    requires
        0 <= at < books.len(),
        index::tells_of_deletion(file, books[at].uuid, deleted),
        !index::is_listed(file.books, books[at].uuid),
        is_undisturbed(dir, replies, books, file, deleted),
    ensures
        lets_go(library_laws::library_run(dir, replies), books[at].uuid),
        match library_laws::library_run(dir, replies) {
            MoveView::Next(state, _) => {
                &&& knows(state, books, at)
                &&& replies.len() + left(state, books.len() as int) <= enough(books.len())
                &&& is_past(state, at) ==> has_asked(dir, replies, books[at].uuid)
            },
            MoveView::End(result) => {
                &&& result == Ok::<SyncResultView, Seq<char>>(library::library_result(true))
                &&& has_asked(dir, replies, books[at].uuid)
            },
        },
    decreases replies.len(),
{
    let uuid = books[at].uuid;
    assert(replies.take(replies.len() as int) =~= replies);
    if replies.len() > 0 {
        let before = replies.drop_last();
        let n = replies.len() - 1;
        assert(replies.take(n) =~= before);
        lemma_prefix(dir, replies, n, books, file, deleted);
        lemma_run(dir, before, books, file, at, deleted);
        if has_asked(dir, before, uuid) {
            let i = choose|i: int|
                0 <= i <= before.len() && deletes(
                    library_laws::library_run(dir, #[trigger] before.take(i)),
                    uuid,
                );
            assert(before.take(i) =~= replies.take(i));
            assert(has_asked(dir, replies, uuid));
        }
        if let MoveView::Next(state, _) = library_laws::library_run(dir, before) {
            assert(replies[n] == replies.last());
            lemma_gets_on(state, replies.last(), books, file, at, deleted);
        }
    }
}

/// The first replies to an undisturbed synchronisation are undisturbed too.
proof fn lemma_prefix(
    dir: Option<Seq<char>>,
    replies: Seq<(EventView, Instant)>,
    n: int,
    books: Seq<BookView>,
    file: SyncDataFileView,
    deleted: Instant,
)
    requires
        0 <= n <= replies.len(),
        is_undisturbed(dir, replies, books, file, deleted),
    ensures
        is_undisturbed(dir, replies.take(n), books, file, deleted),
{
    let some = replies.take(n);
    assert forall|i: int| 0 <= i < some.len() implies (library_laws::library_run(
        dir,
        #[trigger] some.take(i),
    ) matches MoveView::Next(state, _) ==> goes_well(state, some[i], books, file, deleted)) by {
        assert(some.take(i) =~= replies.take(i));
    }
}

/// A deletion that the index of the server tells of reaches every other device that synchronises
/// within thirty days: it deletes the book, sends nothing of it, and does not list it again.
pub proof fn law_deletions_reach_every_device(
    file: SyncDataFileView,
    uuid: Seq<char>,
    deleted: Instant,
)
    requires
        index::tells_of_deletion(file, uuid, deleted),
        !index::is_listed(file.books, uuid),
    ensures
        reaches_every_device(file, uuid, deleted),
{
    reveal(reaches_every_device);
    assert forall|dir: Option<Seq<char>>, replies: Seq<(EventView, Instant)>, books: Seq<BookView>|
        #[trigger] is_undisturbed(dir, replies, books, file, deleted) && is_among(
            books,
            uuid,
        ) implies is_carried_out(dir, replies, books, uuid) by {
        let at = choose|i: int| 0 <= i < books.len() && (#[trigger] books[i]).uuid == uuid;
        assert forall|i: int| 0 <= i <= replies.len() implies lets_go(
            library_laws::library_run(dir, #[trigger] replies.take(i)),
            uuid,
        ) by {
            lemma_prefix(dir, replies, i, books, file, deleted);
            lemma_run(dir, replies.take(i), books, file, at, deleted);
        }
        lemma_run(dir, replies, books, file, at, deleted);
        if replies.len() >= enough(books.len()) {
            let i = choose|i: int|
                0 <= i <= replies.len() && deletes(
                    library_laws::library_run(dir, #[trigger] replies.take(i)),
                    uuid,
                );
            assert(replies.take(replies.len() as int) =~= replies);
            assert(i < replies.len());
        }
    }
}

/// A deletion on one device reaches every other one: where a device has deleted a book from the
/// server, and the server's index could be read, each device that synchronises within thirty days
/// after, on the index that the deletion left, deletes the book too. The premise on the date of
/// the deletion is met by every date: it is what is known of `chrono::DateTime::to_rfc3339`.
pub proof fn law_a_deletion_on_one_device_reaches_the_others(
    w: World,
    uuid: Seq<char>,
    clock: spec_fn(nat) -> Instant,
)
    requires
        w.notation.faithful(),
        deletion::cloud_index(w) is Some,
        time::reads_back(clock(3)),
    ensures
        deletion::cloud_index(deletion::deleted(w, uuid, clock).1) matches Some(file)
            && reaches_every_device(file, uuid, clock(3)),
{
    deletion::law_books_are_deleted_from_the_server(w, uuid, clock);
    let before = deletion::cloud_index(w)->0;
    lemma_deletion_reaches(before, uuid, clock(3));
}

/// The index that a deletion leaves spreads it.
pub proof fn lemma_deletion_reaches(file: SyncDataFileView, uuid: Seq<char>, now: Instant)
    requires
        time::reads_back(now),
    ensures
        reaches_every_device(index::without_book(file, uuid, now), uuid, now),
{
    index::lemma_deletion_is_told(file, uuid, now);
    index_laws::law_deleted_books_are_noted(file, uuid, now, uuid);
    law_deletions_reach_every_device(index::without_book(file, uuid, now), uuid, now);
}

} // verus!
