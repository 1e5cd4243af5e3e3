//! What holds of the index that synchronising the library writes, whatever the replies are.
use vstd::prelude::*;

use crate::index;
use crate::laws::library as library_laws;
use crate::laws::single;
use crate::laws::synced;
use crate::laws::trace;
use crate::laws::trace::Exchange;
use crate::models::{BookView, SyncResultView};
use crate::payload::{SyncDataBookItemView, SyncDataFileView};
use crate::protocol::{ActionView, EventView, MoveView};
use crate::tasks::library::{LibraryView, RoundView, SyncLibraryView};
use crate::time;
use crate::time::Instant;

verus! {

/// Whether an exchange is about the index that the server has.
pub open spec fn is_about_index(exchange: Exchange) -> bool {
    exchange.action is Exists || exchange.action is Download || exchange.action is DecodeIndex
}

/// Whether an exchange settles which index is gone on from: the one that it tells, or else a new one,
/// where the server has none that can be fetched and read.
pub open spec fn settles(exchange: Exchange, base: SyncDataFileView) -> bool {
    if single::tells_index(exchange) {
        exchange.event == EventView::Index(Ok(base))
    } else {
        &&& match exchange.action {
            ActionView::Exists(_, _) => exchange.event != EventView::Flag(Ok(true)),
            ActionView::Download(_, _) => !(exchange.event matches EventView::Bytes(Ok(_))),
            ActionView::DecodeIndex(_) => true,
            _ => false,
        }
        &&& base.version == 1 && base.books.len() == 0 && base.deleted.len() == 0
    }
}

/// Whether the last exchange about the index of the server settled which one is gone on from.
pub open spec fn rests_on(log: Seq<Exchange>, at: int, base: SyncDataFileView) -> bool {
    &&& 0 <= at < log.len()
    &&& settles(log[at], base)
    &&& forall|i: int| at < i < log.len() ==> !is_about_index(#[trigger] log[i])
}

/// Whether an entry describes one of the first books of a list.
pub open spec fn is_entered(item: SyncDataBookItemView, books: Seq<BookView>, n: int) -> bool {
    exists|k: int| 0 <= k < n && single::describes(item, #[trigger] books[k])
}

/// Whether an index keeps another one: every entry stays in its place, what comes behind describes books
/// of the device, and the deletions are those that are still remembered at some time.
pub open spec fn keeps(
    file: SyncDataFileView,
    base: SyncDataFileView,
    books: Seq<BookView>,
    n: int,
    then: Instant,
) -> bool {
    &&& file.version == base.version
    &&& file.deleted == index::still_deleted(base.deleted, then)
    &&& file.books.len() >= base.books.len()
    &&& forall|i: int| 0 <= i < base.books.len() ==> #[trigger] file.books[i] == base.books[i]
    &&& forall|i: int|
        base.books.len() <= i < file.books.len() ==> is_entered(#[trigger] file.books[i], books, n)
}

/// Whether an index rests on what the server has, and keeps it.
pub open spec fn is_grounded(
    log: Seq<Exchange>,
    at: int,
    base: SyncDataFileView,
    file: SyncDataFileView,
    books: Seq<BookView>,
    n: int,
) -> bool {
    &&& rests_on(log, at, base)
    &&& keeps(file, base, books, n, log[at].now)
}

/// Whether an index keeps what the server has.
pub open spec fn keeps_the_index(
    log: Seq<Exchange>,
    file: SyncDataFileView,
    books: Seq<BookView>,
    n: int,
) -> bool {
    exists|at: int, base: SyncDataFileView| #[trigger] is_grounded(log, at, base, file, books, n)
}

spec fn has_books(log: Seq<Exchange>, books: Seq<BookView>) -> bool {
    trace::was_told(log, ActionView::GetAllBooks, EventView::Books(Ok(books)))
}

spec fn is_amid(log: Seq<Exchange>, library: LibraryView, round: RoundView) -> bool {
    &&& has_books(log, library.books)
    &&& 0 <= round.at < library.books.len()
    &&& keeps_the_index(log, round.index, library.books, round.at)
}

spec fn story(log: Seq<Exchange>, m: MoveView<SyncLibraryView, SyncResultView>) -> bool {
    match m {
        MoveView::Next(state, action) => match state {
            SyncLibraryView::Books { .. } => action == ActionView::GetAllBooks,
            SyncLibraryView::IndexLooked { library, .. } => has_books(log, library.books)
                && action is Exists,
            SyncLibraryView::IndexFetched { library, .. } => has_books(log, library.books)
                && action is Download,
            SyncLibraryView::IndexDecoded { library, .. } => has_books(log, library.books)
                && action is DecodeIndex,
            SyncLibraryView::BookDeleted { library, round } => is_amid(log, library, round)
                && action is DeleteBook,
            SyncLibraryView::BookLooked { library, round } => is_amid(log, library, round)
                && action is ExistsNonEmpty,
            SyncLibraryView::Announced { library, round } => is_amid(log, library, round)
                && action is Emit,
            SyncLibraryView::Exported { library, round } => is_amid(log, library, round)
                && action is Run,
            SyncLibraryView::Extended { library, round } => is_amid(log, library, round)
                && action is CoverExtension && library.books[round.at].cover_path is Some,
            SyncLibraryView::IndexEncoded { library, .. } => {
                &&& has_books(log, library.books) && log.len() > 0
                &&& action matches ActionView::EncodeIndex(file) && file.last_sync_time
                    == time::rfc3339_text(log.last().now) && keeps_the_index(
                    log,
                    file,
                    library.books,
                    library.books.len() as int,
                )
            },
            SyncLibraryView::IndexSaved { library, .. } => has_books(log, library.books),
            _ => !(action is EncodeIndex),
        },
        MoveView::End(_) => true,
    }
}

/// What an index keeps, it keeps with one book more, and whatever else is asked for.
proof fn lemma_kept(
    log: Seq<Exchange>,
    last: Exchange,
    file: SyncDataFileView,
    books: Seq<BookView>,
    n: int,
)
    requires
        keeps_the_index(log, file, books, n),
        !is_about_index(last),
    ensures
        keeps_the_index(log.push(last), file, books, n),
        keeps_the_index(log.push(last), file, books, n + 1),
{
    let all = log.push(last);
    let (at, base) = choose|at: int, base: SyncDataFileView| #[trigger]
        is_grounded(log, at, base, file, books, n);
    assert(all[at] == log[at]);
    assert forall|i: int| at < i < all.len() implies !is_about_index(#[trigger] all[i]) by {
        if i < log.len() {
            assert(!is_about_index(log[i]));
        }
    }
    assert(rests_on(all, at, base));
    assert forall|i: int| base.books.len() <= i < file.books.len() implies is_entered(
        #[trigger] file.books[i],
        books,
        n + 1,
    ) by {
        assert(is_entered(file.books[i], books, n));
        let k = choose|k: int| 0 <= k < n && single::describes(file.books[i], #[trigger] books[k]);
        assert(single::describes(file.books[i], books[k]));
    }
    assert(is_grounded(all, at, base, file, books, n));
    assert(is_grounded(all, at, base, file, books, n + 1));
}

/// An index with an entry for the book at hand keeps what it kept.
proof fn lemma_entered(
    log: Seq<Exchange>,
    file: SyncDataFileView,
    books: Seq<BookView>,
    n: int,
    item: SyncDataBookItemView,
)
    requires
        keeps_the_index(log, file, books, n + 1),
        0 <= n < books.len(),
        single::describes(item, books[n]),
    ensures
        keeps_the_index(log, index::with_book(file, item), books, n + 1),
{
    let after = index::with_book(file, item);
    let (at, base) = choose|at: int, base: SyncDataFileView| #[trigger]
        is_grounded(log, at, base, file, books, n + 1);
    assert forall|i: int| 0 <= i < base.books.len() implies #[trigger] after.books[i]
        == base.books[i] by {
        assert(file.books[i] == base.books[i]);
    }
    assert forall|i: int| base.books.len() <= i < after.books.len() implies is_entered(
        #[trigger] after.books[i],
        books,
        n + 1,
    ) by {
        if i < file.books.len() {
            assert(is_entered(file.books[i], books, n + 1));
        } else {
            assert(single::describes(after.books[i], books[n]));
        }
    }
    assert(is_grounded(log, at, base, after, books, n + 1));
}

proof fn lemma_visit(log: Seq<Exchange>, library: LibraryView, round: RoundView, now: Instant)
    requires
        has_books(log, library.books),
        0 <= round.at <= library.books.len(),
        keeps_the_index(log, round.index, library.books, round.at),
        log.len() > 0,
        log.last().now == now,
    ensures
        story(log, SyncLibraryView::visit(library, round, now)),
{
    if round.at == library.books.len() {
        let file = index::dated(round.index, now);
        let (at, base) = choose|at: int, base: SyncDataFileView| #[trigger]
            is_grounded(log, at, base, round.index, library.books, round.at);
        assert forall|i: int| 0 <= i < base.books.len() implies #[trigger] file.books[i]
            == base.books[i] by {
            assert(round.index.books[i] == base.books[i]);
        }
        assert(is_grounded(log, at, base, file, library.books, round.at));
    }
}

proof fn lemma_begin(
    log: Seq<Exchange>,
    last: Exchange,
    library: LibraryView,
    attempt: u8,
    base: SyncDataFileView,
)
    requires
        has_books(log.push(last), library.books),
        settles(last, base),
    ensures
        story(log.push(last), SyncLibraryView::begin(library, attempt, base, last.now)),
{
    let all = log.push(last);
    let file = SyncDataFileView {
        deleted: index::still_deleted(base.deleted, last.now),
        ..base
    };
    assert(all[log.len() as int] == last);
    assert(rests_on(all, log.len() as int, base));
    assert(is_grounded(all, log.len() as int, base, file, library.books, 0));
    lemma_visit(all, library, RoundView { attempt, index: file, at: 0 }, last.now);
}

#[verifier::rlimit(40)]
proof fn lemma_step(
    log: Seq<Exchange>,
    state: SyncLibraryView,
    action: ActionView,
    event: EventView,
    now: Instant,
)
    requires
        story(log, MoveView::Next(state, action)),
    ensures
        story(log.push(Exchange { action, event, now }), state.after(event, now)),
{
    let last = Exchange { action, event, now };
    let all = log.push(last);
    trace::lemma_all_grows(log, last);
    match state {
        SyncLibraryView::IndexLooked { library, attempt } => {
            if event != EventView::Flag(Ok(true)) {
                lemma_begin(log, last, library, attempt, index::empty_index(now));
            }
        },
        SyncLibraryView::IndexFetched { library, attempt } => {
            if !(event matches EventView::Bytes(Ok(_))) {
                lemma_begin(log, last, library, attempt, index::empty_index(now));
            }
        },
        SyncLibraryView::IndexDecoded { library, attempt } => {
            if let EventView::Index(Ok(base)) = event {
                lemma_begin(log, last, library, attempt, base);
            } else {
                lemma_begin(log, last, library, attempt, index::empty_index(now));
            }
        },
        SyncLibraryView::BookDeleted { library, round } => {
            lemma_kept(log, last, round.index, library.books, round.at);
            lemma_visit(all, library, RoundView { at: round.at + 1, ..round }, now);
        },
        SyncLibraryView::BookLooked { library, round } => {
            lemma_kept(log, last, round.index, library.books, round.at);
            lemma_visit(all, library, RoundView { at: round.at + 1, ..round }, now);
        },
        SyncLibraryView::Announced { library, round } => {
            lemma_kept(log, last, round.index, library.books, round.at);
        },
        SyncLibraryView::Exported { library, round } => {
            lemma_kept(log, last, round.index, library.books, round.at);
            lemma_visit(all, library, RoundView { at: round.at + 1, ..round }, now);
            let book = library.books[round.at];
            if book.cover_path is None {
                let item = index::entry(book, None, now);
                let after = index::with_book(round.index, item);
                lemma_entered(all, round.index, library.books, round.at, item);
                lemma_visit(
                    all,
                    library,
                    RoundView { index: after, at: round.at + 1, ..round },
                    now,
                );
            }
        },
        SyncLibraryView::Extended { library, round } => {
            lemma_kept(log, last, round.index, library.books, round.at);
            let book = library.books[round.at];
            if let EventView::Extension(extension) = event {
                let item = index::entry(book, extension, now);
                let after = index::with_book(round.index, item);
                lemma_entered(all, round.index, library.books, round.at, item);
                lemma_visit(
                    all,
                    library,
                    RoundView { index: after, at: round.at + 1, ..round },
                    now,
                );
            }
        },
        _ => {},
    }
}

/// Whether an index is written down for the books of the device.
pub open spec fn is_due(log: Seq<Exchange>, file: SyncDataFileView, books: Seq<BookView>) -> bool {
    &&& trace::was_told(log, ActionView::GetAllBooks, EventView::Books(Ok(books)))
    &&& keeps_the_index(log, file, books, books.len() as int)
}

/// An index that a synchronisation of the library writes down rests on the one that the server
/// has, as it was told last, or on a new one where there is none that can be read. It keeps all entries
/// of it in their places, adds only entries that describe books of this device, keeps the deletions that
/// are still remembered, and bears the present date.
pub proof fn law_the_index_of_the_server_is_kept(
    dir: Option<Seq<char>>,
    replies: Seq<(EventView, Instant)>,
)
    ensures
        library_laws::library_run(dir, replies) matches MoveView::Next(
            _,
            ActionView::EncodeIndex(file),
        ) ==> {
            let log = synced::library_log(dir, replies);
            &&& log.len() > 0
            &&& file.last_sync_time == time::rfc3339_text(log.last().now)
            &&& exists|books: Seq<BookView>| #[trigger] is_due(log, file, books)
        },
{
    let after = library_laws::library_after();
    let holds = |log: Seq<Exchange>, m: MoveView<SyncLibraryView, SyncResultView>| story(log, m);
    assert forall|
        log: Seq<Exchange>,
        state: SyncLibraryView,
        action: ActionView,
        event: EventView,
        now: Instant,
    |
        #![trigger holds(log, MoveView::Next(state, action)), after(state, event, now)]
        holds(log, MoveView::Next(state, action)) implies holds(
        log.push(Exchange { action, event, now }),
        after(state, event, now),
    ) by {
        lemma_step(log, state, action, event, now);
    }
    trace::lemma_story(SyncLibraryView::start(dir), after, holds, replies);
    let log = synced::library_log(dir, replies);
    if let MoveView::Next(state, ActionView::EncodeIndex(file)) = library_laws::library_run(
        dir,
        replies,
    ) {
        if let SyncLibraryView::IndexEncoded { library, .. } = state {
            assert(is_due(log, file, library.books));
        }
    }
}

} // verus!
