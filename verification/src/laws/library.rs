//! What holds of synchronising the library, whatever the replies are.
use vstd::prelude::*;

use crate::index;
use crate::laws::index as index_laws;
use crate::models::SyncResultView;
use crate::payload::SyncDataFileView;
use crate::protocol::{ActionView, EventView, MoveView, TaskView};
use crate::tasks::library;
use crate::tasks::library::{LibraryView, RoundView, SyncLibraryView};
use crate::time::Instant;
use crate::world;

verus! {

/// Whether a round deals with a book of the library that was not deleted elsewhere.
pub open spec fn deals_with_a_book(library: LibraryView, round: RoundView) -> bool {
    &&& 1 <= round.attempt <= library::ATTEMPTS
    &&& 0 <= round.at < library.books.len()
    &&& !index::is_deleted(round.index.deleted, library.books[round.at].uuid)
}

/// What holds of every state that comes about.
pub open spec fn is_sound(state: SyncLibraryView) -> bool {
    match state {
        SyncLibraryView::IndexLooked { attempt, .. } => 1 <= attempt <= library::ATTEMPTS,
        SyncLibraryView::IndexFetched { attempt, .. } => 1 <= attempt <= library::ATTEMPTS,
        SyncLibraryView::IndexDecoded { attempt, .. } => 1 <= attempt <= library::ATTEMPTS,
        SyncLibraryView::BookDeleted { library, round } => {
            &&& 1 <= round.attempt <= library::ATTEMPTS
            &&& 0 <= round.at < library.books.len()
            &&& index::is_deleted(round.index.deleted, library.books[round.at].uuid)
            &&& library.changed
        },
        SyncLibraryView::BookLooked { library, round } => deals_with_a_book(library, round),
        SyncLibraryView::Announced { library, round } => deals_with_a_book(library, round),
        SyncLibraryView::Exported { library, round } => deals_with_a_book(library, round),
        SyncLibraryView::Extended { library, round } => deals_with_a_book(library, round)
            && !index::is_listed(round.index.books, library.books[round.at].uuid),
        SyncLibraryView::IndexEncoded { attempt, .. } => 1 <= attempt <= library::ATTEMPTS,
        SyncLibraryView::IndexSaved { attempt, .. } => 1 <= attempt <= library::ATTEMPTS,
        SyncLibraryView::ProgressSynced { library, at } => 0 <= at < library.books.len(),
        SyncLibraryView::BookmarksSynced { library, at } => 0 <= at < library.books.len(),
        SyncLibraryView::HighlightsSynced { library, at } => 0 <= at < library.books.len(),
        _ => true,
    }
}

/// Every state that comes about is sound: the first one is, and what follows a sound one is.
pub proof fn law_states_are_sound(
    dir: Option<Seq<char>>,
    state: SyncLibraryView,
    event: EventView,
    now: Instant,
)
    ensures
        is_sound(SyncLibraryView::Started { dir }),
        is_sound(state) ==> (state.after(event, now) matches MoveView::Next(next, _) ==> is_sound(
            next,
        )),
{
}

/// A book that was deleted elsewhere is deleted here, and is not sent to the server.
pub proof fn law_books_deleted_elsewhere_are_deleted_here(
    library: LibraryView,
    round: RoundView,
    now: Instant,
)
    requires
        0 <= round.at < library.books.len(),
        index::is_deleted(round.index.deleted, library.books[round.at].uuid),
    ensures
        SyncLibraryView::visit(library, round, now) matches MoveView::Next(next, action) && {
            &&& action == ActionView::DeleteBook(library.books[round.at].uuid)
            &&& next == SyncLibraryView::BookDeleted {
                library: LibraryView { changed: true, ..library },
                round,
            }
        },
{
}

/// Nothing is sent to the server of a book that was deleted elsewhere.
pub proof fn law_books_deleted_elsewhere_are_not_sent(
    state: SyncLibraryView,
    event: EventView,
    now: Instant,
    uuid: Seq<char>,
)
    requires
        is_sound(state),
        state.after(event, now) matches MoveView::Next(_, action) && action == ActionView::Run(
            TaskView::ExportBook(uuid),
        ),
    ensures
        state.after(event, now) matches MoveView::Next(
            SyncLibraryView::Exported { library, round },
            _,
        ) && library.books[round.at].uuid == uuid && !index::is_deleted(
            round.index.deleted,
            uuid,
        ),
{
}

/// The round that a state is in, if it is in one.
pub open spec fn round_of(state: SyncLibraryView) -> Option<(LibraryView, RoundView)> {
    match state {
        SyncLibraryView::BookDeleted { library, round } => Some((library, round)),
        SyncLibraryView::BookLooked { library, round } => Some((library, round)),
        SyncLibraryView::Announced { library, round } => Some((library, round)),
        SyncLibraryView::Exported { library, round } => Some((library, round)),
        SyncLibraryView::Extended { library, round } => Some((library, round)),
        _ => None,
    }
}

/// The book that a round deals with.
pub open spec fn current_book(state: SyncLibraryView) -> Seq<char> {
    let (library, round) = round_of(state)->0;
    library.books[round.at].uuid
}

/// Whether the index of a round may become another one: it stays as it is, or a book that was
/// copied just now, and was not listed yet, is listed behind the others.
pub open spec fn index_may_become(
    state: SyncLibraryView,
    event: EventView,
    library: LibraryView,
    round: RoundView,
    after: SyncDataFileView,
) -> bool {
    ||| after == round.index
    ||| {
        &&& state is Extended || state is Exported && event == EventView::Flag(Ok(true))
        &&& !index::is_listed(round.index.books, library.books[round.at].uuid)
        &&& after.books.len() == round.index.books.len() + 1
        &&& round.index.books.is_prefix_of(after.books)
        &&& after.books.last().uuid == library.books[round.at].uuid
        &&& after.deleted == round.index.deleted
    }
}

/// Within a round the index only grows, and only by a book that was copied just now and was not
/// listed yet.
pub proof fn law_the_index_only_grows(state: SyncLibraryView, event: EventView, now: Instant)
    requires
        is_sound(state),
        round_of(state) is Some,
    ensures
        ({
            let (library, round) = round_of(state)->0;
            match state.after(event, now) {
                MoveView::Next(next, action) => {
                    &&& round_of(next) matches Some((_, after)) ==> index_may_become(
                        state,
                        event,
                        library,
                        round,
                        after.index,
                    )
                    &&& action matches ActionView::EncodeIndex(file) ==> exists|after: SyncDataFileView|
                        #[trigger] index_may_become(state, event, library, round, after) && file
                            == index::dated(after, now)
                },
                MoveView::End(_) => true,
            }
        }),
{
    let (library, round) = round_of(state)->0;
    let item = index::entry(library.books[round.at], None, now);
    assert(index_may_become(state, event, library, round, round.index));
    if let SyncLibraryView::Exported { .. } = state {
        let after = index::with_book(round.index, item);
        assert(round.index.books.is_prefix_of(after.books));
        if event == EventView::Flag(Ok(true)) && !index::is_listed(
            round.index.books,
            library.books[round.at].uuid,
        ) {
            assert(index_may_become(state, event, library, round, after));
        }
    }
    if let SyncLibraryView::Extended { .. } = state {
        if let EventView::Extension(extension) = event {
            let item = index::entry(library.books[round.at], extension, now);
            let after = index::with_book(round.index, item);
            assert(round.index.books.is_prefix_of(after.books));
            assert(index_may_become(state, event, library, round, after));
        }
    }
}

/// Where no book was listed twice, none is afterwards.
pub proof fn law_no_book_is_listed_twice(
    state: SyncLibraryView,
    event: EventView,
    library: LibraryView,
    round: RoundView,
    after: SyncDataFileView,
)
    requires
        index_laws::each_listed_once(round.index.books),
        index_may_become(state, event, library, round, after),
    ensures
        index_laws::each_listed_once(after.books),
{
    let books = round.index.books;
    if after != round.index {
        assert forall|i: int, j: int|
            #![trigger after.books[i], after.books[j]]
            0 <= i < j < after.books.len() implies after.books[i].uuid != after.books[j].uuid by {
            assert(after.books[i] == books[i]);
            if j < books.len() {
                assert(after.books[j] == books[j]);
            } else {
                assert(after.books[j] == after.books.last());
            }
        }
    }
}

/// Whether a round has seen to the books before the current one: each was deleted elsewhere, or
/// is listed, or could not be copied. `copied` tells which books can be copied.
pub open spec fn seen_to(
    library: LibraryView,
    file: SyncDataFileView,
    until: int,
    copied: spec_fn(Seq<char>) -> bool,
) -> bool {
    forall|i: int|
        0 <= i < until ==> {
            let uuid = (#[trigger] library.books[i]).uuid;
            ||| index::is_deleted(file.deleted, uuid)
            ||| index::is_listed(file.books, uuid)
            ||| !copied(uuid)
        }
}

/// Whether a state has seen to the books before the current one.
pub open spec fn state_has_seen_to(state: SyncLibraryView, copied: spec_fn(Seq<char>) -> bool) -> bool {
    round_of(state) matches Some((library, round)) ==> seen_to(
        library,
        round.index,
        round.at,
        copied,
    )
}

/// Whether a reply to the copying of a book agrees with which books can be copied.
pub open spec fn agrees(
    state: SyncLibraryView,
    event: EventView,
    copied: spec_fn(Seq<char>) -> bool,
) -> bool {
    state matches SyncLibraryView::Exported { library, round } ==> (event == EventView::Flag(Ok(true))
        <==> copied(library.books[round.at].uuid))
}

proof fn lemma_visit(
    library: LibraryView,
    round: RoundView,
    now: Instant,
    copied: spec_fn(Seq<char>) -> bool,
)
    requires
        0 <= round.at <= library.books.len(),
        seen_to(library, round.index, round.at, copied),
    ensures
        SyncLibraryView::visit(library, round, now) matches MoveView::Next(next, action) && {
            &&& state_has_seen_to(next, copied)
            &&& action matches ActionView::EncodeIndex(file) ==> seen_to(
                library,
                file,
                library.books.len() as int,
                copied,
            )
        },
{
}

proof fn lemma_next(
    library: LibraryView,
    round: RoundView,
    now: Instant,
    copied: spec_fn(Seq<char>) -> bool,
)
    requires
        0 <= round.at < library.books.len(),
        seen_to(library, round.index, round.at, copied),
        ({
            let uuid = library.books[round.at].uuid;
            ||| index::is_deleted(round.index.deleted, uuid)
            ||| index::is_listed(round.index.books, uuid)
            ||| !copied(uuid)
        }),
    ensures
        SyncLibraryView::next(library, round, now) matches MoveView::Next(next, action) && {
            &&& state_has_seen_to(next, copied)
            &&& action matches ActionView::EncodeIndex(file) ==> seen_to(
                library,
                file,
                library.books.len() as int,
                copied,
            )
        },
{
    lemma_visit(library, RoundView { at: round.at + 1, ..round }, now, copied);
}

proof fn lemma_enter(
    library: LibraryView,
    round: RoundView,
    extension: Option<Seq<char>>,
    now: Instant,
    copied: spec_fn(Seq<char>) -> bool,
)
    requires
        0 <= round.at < library.books.len(),
        seen_to(library, round.index, round.at, copied),
    ensures
        SyncLibraryView::enter(library, round, extension, now) matches MoveView::Next(next, action) && {
            &&& state_has_seen_to(next, copied)
            &&& action matches ActionView::EncodeIndex(file) ==> seen_to(
                library,
                file,
                library.books.len() as int,
                copied,
            )
        },
{
    let book = library.books[round.at];
    let after = index::with_book(round.index, index::entry(book, extension, now));
    assert forall|i: int| 0 <= i < round.at implies {
        let uuid = (#[trigger] library.books[i]).uuid;
        ||| index::is_deleted(after.deleted, uuid)
        ||| index::is_listed(after.books, uuid)
        ||| !copied(uuid)
    } by {
        index_laws::law_entered_books_are_listed(
            round.index,
            book,
            extension,
            now,
            library.books[i].uuid,
        );
    }
    index_laws::law_entered_books_are_listed(round.index, book, extension, now, book.uuid);
    lemma_next(library, RoundView { index: after, ..round }, now, copied);
}

/// The index that is saved is complete: each book of the library is listed there, unless it was
/// deleted elsewhere or could not be copied. Stated for every step: what holds of the books that
/// a round is done with goes on to hold, and holds of all of them when the index is written down.
pub proof fn law_the_index_is_complete(
    state: SyncLibraryView,
    event: EventView,
    now: Instant,
    copied: spec_fn(Seq<char>) -> bool,
)
    requires
        is_sound(state),
        state_has_seen_to(state, copied),
        agrees(state, event, copied),
        state is Extended ==> copied(current_book(state)),
    ensures
        state.after(event, now) matches MoveView::Next(next, action) ==> {
            &&& state_has_seen_to(next, copied)
            &&& next is Extended ==> copied(current_book(next))
            &&& (action is EncodeIndex && next is IndexEncoded) ==> seen_to(
                next->IndexEncoded_library,
                action->EncodeIndex_0,
                next->IndexEncoded_library.books.len() as int,
                copied,
            )
        },
{
    match state {
        SyncLibraryView::IndexLooked { library, attempt } => {
            lemma_begin(library, attempt, index::empty_index(now), now, copied);
        },
        SyncLibraryView::IndexFetched { library, attempt } => {
            lemma_begin(library, attempt, index::empty_index(now), now, copied);
        },
        SyncLibraryView::IndexDecoded { library, attempt } => {
            lemma_begin(library, attempt, index::empty_index(now), now, copied);
            if let EventView::Index(Ok(file)) = event {
                lemma_begin(library, attempt, file, now, copied);
            }
        },
        SyncLibraryView::BookDeleted { library, round } => {
            lemma_next(library, round, now, copied);
        },
        SyncLibraryView::BookLooked { library, round } => {
            if index::is_listed(round.index.books, library.books[round.at].uuid) {
                lemma_next(library, round, now, copied);
            }
        },
        SyncLibraryView::Exported { library, round } => {
            let book = library.books[round.at];
            if event == EventView::Flag(Ok(true)) && !index::is_listed(
                round.index.books,
                book.uuid,
            ) {
                lemma_enter(library, round, None, now, copied);
            } else {
                lemma_next(library, round, now, copied);
            }
        },
        SyncLibraryView::Extended { library, round } => {
            if let EventView::Extension(extension) = event {
                lemma_enter(library, round, extension, now, copied);
            }
        },
        _ => {},
    }
}

proof fn lemma_begin(
    library: LibraryView,
    attempt: u8,
    file: SyncDataFileView,
    now: Instant,
    copied: spec_fn(Seq<char>) -> bool,
)
    ensures
        SyncLibraryView::begin(library, attempt, file, now) matches MoveView::Next(next, action) && {
            &&& state_has_seen_to(next, copied)
            &&& action matches ActionView::EncodeIndex(file) ==> seen_to(
                library,
                file,
                library.books.len() as int,
                copied,
            )
        },
{
    let file = SyncDataFileView {
        deleted: index::still_deleted(file.deleted, now),
        ..file
    };
    lemma_visit(library, RoundView { attempt, index: file, at: 0 }, now, copied);
}

/// Whether the index has been saved by the time of a state.
pub open spec fn is_saved(state: SyncLibraryView) -> bool {
    match state {
        SyncLibraryView::ProgressSynced { .. } => true,
        SyncLibraryView::BookmarksSynced { .. } => true,
        SyncLibraryView::HighlightsSynced { .. } => true,
        SyncLibraryView::CoversFetched { .. } => true,
        SyncLibraryView::Noted { .. } => true,
        SyncLibraryView::Stamped { .. } => true,
        SyncLibraryView::Finished { .. } => true,
        _ => false,
    }
}

/// Success is reported only once the server has confirmed the new index.
pub proof fn law_success_means_saved(state: SyncLibraryView, event: EventView, now: Instant)
    ensures
        match state.after(event, now) {
            MoveView::Next(next, _) => is_saved(next) ==> is_saved(state) || state is IndexSaved
                && event == EventView::Flag(Ok(true)),
            MoveView::End(Ok(result)) => is_saved(state) && result == library::library_result(
                state->Finished_changed,
            ),
            MoveView::End(Err(_)) => true,
        },
{
}

/// Saving the index is tried three times at most: an attempt is the first one, or follows one
/// that failed; after the third one that failed the task ends with a message.
pub proof fn law_saving_is_tried_three_times(state: SyncLibraryView, event: EventView, now: Instant)
    requires
        is_sound(state),
    ensures
        state.after(event, now) matches MoveView::Next(
            SyncLibraryView::IndexLooked { attempt, .. },
            _,
        ) ==> attempt <= library::ATTEMPTS && match state {
            SyncLibraryView::Books { .. } => attempt == 1,
            SyncLibraryView::IndexSaved { attempt: failed, .. } => attempt == failed + 1 && event
                != EventView::Flag(Ok(true)),
            _ => false,
        },
        state matches SyncLibraryView::IndexSaved { attempt, .. } ==> (attempt == library::ATTEMPTS
            && event != EventView::Flag(Ok(true)) ==> state.after(event, now) == MoveView::<
            SyncLibraryView,
            SyncResultView,
        >::End(Err(library::INDEX_NOT_SAVED@))),
{
}

/// How a task that synchronises the library goes on.
pub open spec fn library_after() -> spec_fn(SyncLibraryView, EventView, Instant) -> MoveView<
    SyncLibraryView,
    SyncResultView,
> {
    |s: SyncLibraryView, e: EventView, now: Instant| s.after(e, now)
}

/// Where a synchronisation of the library has come to after some replies.
pub open spec fn library_run(dir: Option<Seq<char>>, replies: Seq<(EventView, Instant)>) -> MoveView<
    SyncLibraryView,
    SyncResultView,
> {
    world::brought_to(
        SyncLibraryView::start(dir),
        library_after(),
        replies,
    )
}

/// Whether all replies to the copying of books agree with which books can be copied.
pub open spec fn all_agree(
    dir: Option<Seq<char>>,
    replies: Seq<(EventView, Instant)>,
    copied: spec_fn(Seq<char>) -> bool,
) -> bool {
    forall|i: int|
        0 <= i < replies.len() ==> (library_run(dir, #[trigger] replies.take(i)) matches MoveView::Next(
            state,
            _,
        ) ==> agrees(state, replies[i].0, copied))
}

/// Whatever the replies are: every index that is written down lists each book of the library,
/// unless it was deleted elsewhere or could not be copied.
pub proof fn law_every_index_is_complete(
    dir: Option<Seq<char>>,
    replies: Seq<(EventView, Instant)>,
    copied: spec_fn(Seq<char>) -> bool,
)
    requires
        all_agree(dir, replies, copied),
    ensures
        library_run(dir, replies) matches MoveView::Next(state, action) ==> {
            &&& is_sound(state)
            &&& state_has_seen_to(state, copied)
            &&& state is Extended ==> copied(current_book(state))
            &&& (action is EncodeIndex && state is IndexEncoded) ==> seen_to(
                state->IndexEncoded_library,
                action->EncodeIndex_0,
                state->IndexEncoded_library.books.len() as int,
                copied,
            )
        },
    decreases replies.len(),
{
    if replies.len() > 0 {
        let before = replies.drop_last();
        let n = replies.len() - 1;
        assert(replies.take(n) =~= before);
        assert forall|i: int| 0 <= i < before.len() implies (library_run(
            dir,
            #[trigger] before.take(i),
        ) matches MoveView::Next(state, _) ==> agrees(state, before[i].0, copied)) by {
            assert(before.take(i) =~= replies.take(i));
        }
        law_every_index_is_complete(dir, before, copied);
        if let MoveView::Next(state, _) = library_run(dir, before) {
            law_states_are_sound(dir, state, replies.last().0, replies.last().1);
            law_the_index_is_complete(state, replies.last().0, replies.last().1, copied);
        }
    }
}

/// Whatever the replies are: success is reported only if the server confirmed an index before.
pub proof fn law_every_success_was_confirmed(
    dir: Option<Seq<char>>,
    replies: Seq<(EventView, Instant)>,
)
    ensures
        match library_run(dir, replies) {
            MoveView::Next(state, _) => is_saved(state),
            MoveView::End(result) => result is Ok,
        } ==> exists|i: int|
            0 <= i < replies.len() && is_confirmed(
                library_run(dir, #[trigger] replies.take(i)),
                replies[i].0,
            ),
    decreases replies.len(),
{
    if replies.len() > 0 {
        let before = replies.drop_last();
        let n = replies.len() - 1;
        assert(replies.take(n) =~= before);
        law_every_success_was_confirmed(dir, before);
        if exists|i: int|
            0 <= i < before.len() && is_confirmed(
                library_run(dir, #[trigger] before.take(i)),
                before[i].0,
            ) {
            let i = choose|i: int|
                0 <= i < before.len() && is_confirmed(
                    library_run(dir, #[trigger] before.take(i)),
                    before[i].0,
                );
            assert(replies.take(i) =~= before.take(i));
        }
        if let MoveView::Next(state, _) = library_run(dir, before) {
            law_success_means_saved(state, replies.last().0, replies.last().1);
            assert(replies[n] == replies.last());
        }
    }
}

/// Whether a reply confirms that the index was saved.
pub open spec fn is_confirmed(
    at: MoveView<SyncLibraryView, SyncResultView>,
    event: EventView,
) -> bool {
    at matches MoveView::Next(state, _) && state is IndexSaved && event == EventView::Flag(Ok(true))
}

/// How often the server was sent an index, up to some reply.
pub open spec fn saves(dir: Option<Seq<char>>, replies: Seq<(EventView, Instant)>) -> nat
    decreases replies.len(),
{
    let here: nat = if library_run(dir, replies) matches MoveView::Next(state, _) && state is IndexSaved {
        1
    } else {
        0
    };
    if replies.len() == 0 {
        here
    } else {
        here + saves(dir, replies.drop_last())
    }
}

/// How often the server has been sent an index by the time of a state, where that is known.
pub open spec fn saves_by(state: SyncLibraryView) -> Option<int> {
    match state {
        SyncLibraryView::IndexLooked { attempt, .. } => Some(attempt - 1),
        SyncLibraryView::IndexFetched { attempt, .. } => Some(attempt - 1),
        SyncLibraryView::IndexDecoded { attempt, .. } => Some(attempt - 1),
        SyncLibraryView::BookDeleted { round, .. } => Some(round.attempt - 1),
        SyncLibraryView::BookLooked { round, .. } => Some(round.attempt - 1),
        SyncLibraryView::Announced { round, .. } => Some(round.attempt - 1),
        SyncLibraryView::Exported { round, .. } => Some(round.attempt - 1),
        SyncLibraryView::Extended { round, .. } => Some(round.attempt - 1),
        SyncLibraryView::IndexEncoded { attempt, .. } => Some(attempt - 1),
        SyncLibraryView::IndexSaved { attempt, .. } => Some(attempt as int),
        _ => if is_saved(state) {
            None
        } else {
            Some(0)
        },
    }
}

proof fn lemma_saves_step(state: SyncLibraryView, event: EventView, now: Instant)
    requires
        is_sound(state),
    ensures
        state.after(event, now) matches MoveView::Next(next, _) ==> match saves_by(next) {
            Some(n) => saves_by(state) is Some && n == saves_by(state)->0 + if next is IndexSaved {
                1int
            } else {
                0int
            },
            None => is_saved(state) || state is IndexSaved,
        },
        is_saved(state) ==> (state.after(event, now) matches MoveView::Next(next, _) ==> is_saved(
            next,
        )),
{
}

/// Whatever the replies are: the server is sent the index three times at most.
pub proof fn law_the_index_is_sent_three_times_at_most(
    dir: Option<Seq<char>>,
    replies: Seq<(EventView, Instant)>,
)
    ensures
        saves(dir, replies) <= 3,
        library_run(dir, replies) matches MoveView::Next(state, _) ==> is_sound(state) && (saves_by(
            state,
        ) matches Some(n) ==> saves(dir, replies) == n),
    decreases replies.len(),
{
    if replies.len() > 0 {
        let before = replies.drop_last();
        law_the_index_is_sent_three_times_at_most(dir, before);
        if let MoveView::Next(state, _) = library_run(dir, before) {
            law_states_are_sound(dir, state, replies.last().0, replies.last().1);
            lemma_saves_step(state, replies.last().0, replies.last().1);
        }
    }
}

/// How far a synchronisation is from its end: three numbers, of which an earlier one counts for
/// more.
pub open spec fn remaining(state: SyncLibraryView) -> (int, int, int) {
    match state {
        SyncLibraryView::Started { .. } => (9, 0, 0),
        SyncLibraryView::Client { .. } => (8, 0, 0),
        SyncLibraryView::Folders { made, .. } => (7, 6 - made, 0),
        SyncLibraryView::LegacyLooked { .. } => (6, 0, 0),
        SyncLibraryView::CurrentLooked { .. } => (5, 2, 0),
        SyncLibraryView::LegacyFetched { .. } => (5, 1, 0),
        SyncLibraryView::Migrated { .. } => (5, 0, 0),
        SyncLibraryView::Books { .. } => (4, 0, 0),
        SyncLibraryView::IndexLooked { library, attempt } => (
            3,
            library::ATTEMPTS - attempt,
            5 * library.books.len() as int + 4,
        ),
        SyncLibraryView::IndexFetched { library, attempt } => (
            3,
            library::ATTEMPTS - attempt,
            5 * library.books.len() as int + 3,
        ),
        SyncLibraryView::IndexDecoded { library, attempt } => (
            3,
            library::ATTEMPTS - attempt,
            5 * library.books.len() as int + 2,
        ),
        SyncLibraryView::BookDeleted { library, round } => (
            3,
            library::ATTEMPTS - round.attempt,
            5 * (library.books.len() - round.at) + 1,
        ),
        SyncLibraryView::BookLooked { library, round } => (
            3,
            library::ATTEMPTS - round.attempt,
            5 * (library.books.len() - round.at) + 1,
        ),
        SyncLibraryView::Announced { library, round } => (
            3,
            library::ATTEMPTS - round.attempt,
            5 * (library.books.len() - round.at),
        ),
        SyncLibraryView::Exported { library, round } => (
            3,
            library::ATTEMPTS - round.attempt,
            5 * (library.books.len() - round.at) - 1,
        ),
        SyncLibraryView::Extended { library, round } => (
            3,
            library::ATTEMPTS - round.attempt,
            5 * (library.books.len() - round.at) - 2,
        ),
        SyncLibraryView::IndexEncoded { attempt, .. } => (3, library::ATTEMPTS - attempt, 1),
        SyncLibraryView::IndexSaved { attempt, .. } => (3, library::ATTEMPTS - attempt, 0),
        SyncLibraryView::ProgressSynced { library, at } => (2, 3 * (library.books.len() - at), 0),
        SyncLibraryView::BookmarksSynced { library, at } => (
            2,
            3 * (library.books.len() - at) - 1,
            0,
        ),
        SyncLibraryView::HighlightsSynced { library, at } => (
            2,
            3 * (library.books.len() - at) - 2,
            0,
        ),
        SyncLibraryView::CoversFetched { .. } => (1, 0, 0),
        SyncLibraryView::Noted { .. } => (0, 2, 0),
        SyncLibraryView::Stamped { .. } => (0, 1, 0),
        SyncLibraryView::Finished { .. } => (0, 0, 0),
    }
}

/// Whether three numbers, of which none is negative, come before three others.
pub open spec fn less(a: (int, int, int), b: (int, int, int)) -> bool {
    &&& a.0 >= 0 && a.1 >= 0 && a.2 >= 0
    &&& a.0 < b.0 || a.0 == b.0 && (a.1 < b.1 || a.1 == b.1 && a.2 < b.2)
}

/// Every synchronisation ends: with each reply, whatever it is, the task has ended or is closer
/// to its end.
#[verifier::rlimit(60)]
pub proof fn law_every_synchronisation_ends(state: SyncLibraryView, event: EventView, now: Instant)
    requires
        is_sound(state),
        state matches SyncLibraryView::Folders { made, .. } ==> 0 < made <= 6,
    ensures
        state.after(event, now) matches MoveView::Next(next, _) ==> {
            &&& less(remaining(next), remaining(state))
            &&& next matches SyncLibraryView::Folders { made, .. } ==> 0 < made <= 6
        },
{
}

/// Whether a reply is of the kind that a state waits for, where it waits for one of a kind.
pub open spec fn is_awaited(state: SyncLibraryView, event: EventView) -> bool {
    match state {
        SyncLibraryView::Client { .. } => event is Client,
        SyncLibraryView::Books { .. } => event is Books,
        SyncLibraryView::Extended { .. } => event is Extension,
        SyncLibraryView::IndexEncoded { .. } => event is Bytes,
        _ => true,
    }
}

/// A synchronisation fails only for want of a client, of the books of this device, or of an index
/// that can be written down and saved; whatever else goes wrong is passed over.
pub proof fn law_few_failures_count(state: SyncLibraryView, event: EventView, now: Instant)
    requires
        is_sound(state),
        is_awaited(state, event),
    ensures
        state.after(event, now) matches MoveView::End(Err(e)) ==> {
            ||| state is Client && event == EventView::Client(Err(e))
            ||| state is Books && event == EventView::Books(Err(e))
            ||| state is IndexEncoded && event == EventView::Bytes(Err(e))
            ||| state is IndexSaved && event != EventView::Flag(Ok(true)) && e
                == library::INDEX_NOT_SAVED@
        },
{
}

/// A book is sent to the server unless the server has its contents and the index lists it.
pub proof fn law_only_missing_books_are_sent(
    library: LibraryView,
    round: RoundView,
    event: EventView,
    now: Instant,
)
    requires
        0 <= round.at < library.books.len(),
    ensures
        ({
            let uuid = library.books[round.at].uuid;
            let there = event == EventView::Flag(Ok(true));
            let looked = SyncLibraryView::BookLooked { library, round };
            let sends = looked.after(event, now) matches MoveView::Next(_, action)
                && action is Emit;
            sends <==> !(there && exists|i: int|
                0 <= i < round.index.books.len() && (#[trigger] round.index.books[i]).uuid == uuid)
        }),
{
}

} // verus!
