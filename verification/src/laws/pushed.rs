//! What holds of overwriting the server with what this device has, whatever the replies are.
use vstd::prelude::*;

use crate::client::ClientView;
use crate::laws::push as push_laws;
use crate::laws::trace;
use crate::laws::trace::Exchange;
use crate::models::{BookView, SyncResultView};
use crate::number;
use crate::payload::SyncDataFileView;
use crate::protocol::{ActionView, EventView, MoveView, TaskView};
use crate::tasks::push::{ForcePushView, ShelfView};
use crate::time::Instant;
use crate::world;

verus! {

/// How a push goes on.
pub open spec fn push_after() -> spec_fn(ForcePushView, EventView, Instant) -> MoveView<
    ForcePushView,
    SyncResultView,
> {
    |s: ForcePushView, e: EventView, now: Instant| s.after(e, now)
}

/// Where a push has come to after some replies.
pub open spec fn push_run(progress_only: bool, replies: Seq<(EventView, Instant)>) -> MoveView<
    ForcePushView,
    SyncResultView,
> {
    world::brought_to(ForcePushView::start(progress_only), push_after(), replies)
}

/// What a push has asked for and was told by then.
pub open spec fn push_log(progress_only: bool, replies: Seq<(EventView, Instant)>) -> Seq<Exchange> {
    trace::exchanges(ForcePushView::start(progress_only), push_after(), replies)
}

/// Asking for the progress of each book.
pub open spec fn progress_of(books: Seq<BookView>) -> spec_fn(int) -> ActionView {
    |k: int| ActionView::GetProgress(books[k].uuid)
}

/// Asking for the bookmarks of each book.
pub open spec fn bookmarks_of(books: Seq<BookView>) -> spec_fn(int) -> ActionView {
    |k: int| ActionView::GetBookmarks(books[k].uuid)
}

/// Asking for the highlights of each book.
pub open spec fn highlights_of(books: Seq<BookView>) -> spec_fn(int) -> ActionView {
    |k: int| ActionView::GetHighlights(books[k].uuid)
}

/// Having each book copied to the server.
pub open spec fn exports_of(books: Seq<BookView>) -> spec_fn(int) -> ActionView {
    |k: int| ActionView::Run(TaskView::ExportBook(books[k].uuid))
}

/// The folders on the server.
pub open spec fn folder(k: int) -> Seq<char> {
    if k == 0 {
        "/AudireReader"@
    } else if k == 1 {
        "/AudireReader/covers"@
    } else if k == 2 {
        "/AudireReader/books"@
    } else if k == 3 {
        "/AudireReader/progress"@
    } else if k == 4 {
        "/AudireReader/bookmarks"@
    } else {
        "/AudireReader/highlights"@
    }
}

/// Making each of the folders.
pub open spec fn folders_of(client: ClientView) -> spec_fn(int) -> ActionView {
    |k: int| ActionView::Mkdir(client, folder(k))
}

/// Whether an index that lists exactly some books was written down and taken by the server.
pub open spec fn index_sent(
    log: Seq<Exchange>,
    client: ClientView,
    books: Seq<BookView>,
    file: SyncDataFileView,
    bytes: Seq<u8>,
    taken: bool,
) -> bool {
    &&& file.books.len() == books.len()
    &&& push_laws::tell_of(file.books, books)
    &&& file.deleted.len() == 0
    &&& trace::was_told(log, ActionView::EncodeIndex(file), EventView::Bytes(Ok(bytes)))
    &&& trace::was_told(
        log,
        ActionView::Upload(client, "/AudireReader/sync_data.json"@, bytes),
        EventView::Flag(Ok(taken)),
    )
}

/// Whether the books themselves were pushed: each was copied, and then the index was sent.
pub open spec fn books_sent(log: Seq<Exchange>, client: ClientView, books: Seq<BookView>) -> bool {
    &&& trace::asked_all(log, exports_of(books), books.len() as int)
    &&& exists|file: SyncDataFileView, bytes: Seq<u8>, taken: bool|
        #[trigger] index_sent(log, client, books, file, bytes, taken)
}

/// Whether the history was told of something.
pub open spec fn is_noted(log: Seq<Exchange>, action: Seq<char>, details: Seq<char>) -> bool {
    exists|i: int|
        0 <= i < log.len() && notes((#[trigger] log[i]).action, action, details)
}

/// Whether an action tells the history of a success.
pub open spec fn notes(asked: ActionView, action: Seq<char>, details: Seq<char>) -> bool {
    asked matches ActionView::InsertHistory(entry) && {
        &&& entry.action == action
        &&& entry.status == "success"@
        &&& entry.details == details
    }
}

/// What the history calls a push.
pub open spec fn push_name(progress_only: bool) -> Seq<char> {
    if progress_only {
        "force_push_progress"@
    } else {
        "force_push_all"@
    }
}

/// What the history tells of a push of so many books.
pub open spec fn push_note(count: nat) -> Seq<char> {
    "Force pushed "@ + number::decimal(count) + " books to cloud"@
}

/// Whether what belongs to the first books was asked for.
spec fn asked_of(log: Seq<Exchange>, books: Seq<BookView>, n: int) -> bool {
    &&& trace::asked_all(log, progress_of(books), n)
    &&& trace::asked_all(log, bookmarks_of(books), n)
    &&& trace::asked_all(log, highlights_of(books), n)
}

/// What holds of the books, the client and the folders once they are known.
spec fn is_known(log: Seq<Exchange>, shelf: ShelfView, progress_only: bool) -> bool {
    &&& shelf.progress_only == progress_only
    &&& trace::was_told_only(log, ActionView::GetAllBooks, EventView::Books(Ok(shelf.books)))
    &&& trace::was_told_only(
        log,
        ActionView::Run(TaskView::Client),
        EventView::Client(Ok(shelf.client)),
    )
}

/// What holds where the books and the index, if they are to be pushed, have been.
spec fn is_ready(log: Seq<Exchange>, shelf: ShelfView, progress_only: bool) -> bool {
    &&& is_known(log, shelf, progress_only)
    &&& trace::asked_all(log, folders_of(shelf.client), 6)
    &&& progress_only || books_sent(log, shelf.client, shelf.books)
}

/// What holds where a book is dealt with of which some has been asked for.
spec fn is_amid(
    log: Seq<Exchange>,
    shelf: ShelfView,
    at: int,
    progress_only: bool,
    progress: bool,
    bookmarks: bool,
    highlights: bool,
) -> bool {
    let uuid = shelf.books[at].uuid;
    &&& 0 <= at < shelf.books.len()
    &&& is_ready(log, shelf, progress_only)
    &&& asked_of(log, shelf.books, at)
    &&& progress ==> trace::has_asked(log, ActionView::GetProgress(uuid))
    &&& bookmarks ==> trace::has_asked(log, ActionView::GetBookmarks(uuid))
    &&& highlights ==> trace::has_asked(log, ActionView::GetHighlights(uuid))
}

/// What holds once a push is through with all books.
spec fn is_through(log: Seq<Exchange>, shelf: ShelfView, progress_only: bool) -> bool {
    &&& is_ready(log, shelf, progress_only)
    &&& asked_of(log, shelf.books, shelf.books.len() as int)
}

/// What holds of a push at any time.
spec fn story(log: Seq<Exchange>, m: MoveView<ForcePushView, SyncResultView>, po: bool) -> bool {
    match m {
        MoveView::Next(state, action) => {
            &&& push_laws::is_sound(state)
            &&& match state {
                ForcePushView::Books { progress_only } => log.len() == 0 && progress_only == po
                    && action == ActionView::GetAllBooks,
                ForcePushView::Client { books, progress_only } => {
                    &&& progress_only == po
                    &&& action == ActionView::Run(TaskView::Client)
                    &&& !trace::has_asked(log, action)
                    &&& trace::was_told_only(
                        log,
                        ActionView::GetAllBooks,
                        EventView::Books(Ok(books)),
                    )
                },
                ForcePushView::Folders { shelf, made } => {
                    &&& is_known(log, shelf, po)
                    &&& 1 <= made <= 6
                    &&& trace::asked_all(log, folders_of(shelf.client), made - 1)
                    &&& action == ActionView::Mkdir(shelf.client, folder(made - 1))
                },
                ForcePushView::Exported { shelf, items, at } => {
                    &&& is_known(log, shelf, po)
                    &&& trace::asked_all(log, folders_of(shelf.client), 6)
                    &&& trace::asked_all(log, exports_of(shelf.books), at)
                    &&& action == ActionView::Run(TaskView::ExportBook(shelf.books[at].uuid))
                },
                ForcePushView::Extended { shelf, items, at } => {
                    &&& is_known(log, shelf, po)
                    &&& trace::asked_all(log, folders_of(shelf.client), 6)
                    &&& trace::asked_all(log, exports_of(shelf.books), at + 1)
                    &&& action matches ActionView::CoverExtension(path) && shelf.books[at].cover_path
                        == Some(path)
                },
                ForcePushView::IndexEncoded { shelf } => {
                    &&& is_known(log, shelf, po)
                    &&& trace::asked_all(log, folders_of(shelf.client), 6)
                    &&& trace::asked_all(log, exports_of(shelf.books), shelf.books.len() as int)
                    &&& action matches ActionView::EncodeIndex(file) && file.books.len()
                        == shelf.books.len() && push_laws::tell_of(file.books, shelf.books)
                        && file.deleted.len() == 0
                },
                ForcePushView::IndexSaved { shelf } => {
                    &&& is_known(log, shelf, po)
                    &&& trace::asked_all(log, folders_of(shelf.client), 6)
                    &&& trace::asked_all(log, exports_of(shelf.books), shelf.books.len() as int)
                    &&& action matches ActionView::Upload(client, path, bytes) && client
                        == shelf.client && path == "/AudireReader/sync_data.json"@
                        && exists|file: SyncDataFileView|
                        file.books.len() == shelf.books.len() && push_laws::tell_of(
                            file.books,
                            shelf.books,
                        ) && file.deleted.len() == 0 && #[trigger] trace::was_told(
                            log,
                            ActionView::EncodeIndex(file),
                            EventView::Bytes(Ok(bytes)),
                        )
                },
                ForcePushView::Progress { shelf, at } => is_amid(log, shelf, at, po, false, false, false) && action == ActionView::GetProgress(shelf.books[at].uuid),
                ForcePushView::ProgressEncoded { shelf, at } => {
                    &&& is_amid(log, shelf, at, po, true, false, false)
                    &&& action matches ActionView::EncodeProgress(payload) && payload.book_uuid == shelf.books[at].uuid
                },
                ForcePushView::ProgressSent { shelf, at } => is_amid(log, shelf, at, po, true, false, false) && action is Upload,
                ForcePushView::Bookmarks { shelf, at } => is_amid(log, shelf, at, po, true, false, false) && action == ActionView::GetBookmarks(shelf.books[at].uuid),
                ForcePushView::BookmarksEncoded { shelf, at } => {
                    &&& is_amid(log, shelf, at, po, true, true, false)
                    &&& action matches ActionView::EncodeBookmarks(file) && file.book_uuid == shelf.books[at].uuid
                },
                ForcePushView::BookmarksSent { shelf, at } => is_amid(log, shelf, at, po, true, true, false) && action is Upload,
                ForcePushView::Highlights { shelf, at } => is_amid(log, shelf, at, po, true, true, false) && action == ActionView::GetHighlights(shelf.books[at].uuid),
                ForcePushView::HighlightsEncoded { shelf, at } => {
                    &&& is_amid(log, shelf, at, po, true, true, true)
                    &&& action matches ActionView::EncodeHighlights(file) && file.book_uuid == shelf.books[at].uuid
                },
                ForcePushView::HighlightsSent { shelf, at } => is_amid(log, shelf, at, po, true, true, true) && action is Upload,
                ForcePushView::Noted => exists|shelf: ShelfView|
                    #[trigger] is_through(log, shelf, po) && notes(
                        action,
                        push_name(po),
                        push_note(shelf.books.len()),
                    ),
                ForcePushView::Stamped => {
                    &&& action == ActionView::Run(TaskView::RecordTimestamp)
                    &&& exists|shelf: ShelfView|
                        #[trigger] is_through(log, shelf, po) && is_noted(
                            log,
                            push_name(po),
                            push_note(shelf.books.len()),
                        )
                },
            }
        },
        MoveView::End(Ok(result)) => {
            &&& result.success && !result.local_changed
            &&& result.message == "Force push completed successfully"@
            &&& trace::has_asked(log, ActionView::Run(TaskView::RecordTimestamp))
            &&& exists|shelf: ShelfView|
                #[trigger] is_through(log, shelf, po) && is_noted(
                    log,
                    push_name(po),
                    push_note(shelf.books.len()),
                )
        },
        MoveView::End(Err(_)) => true,
    }
}

pub proof fn lemma_noted_grows(log: Seq<Exchange>, last: Exchange, action: Seq<char>, details: Seq<char>)
    ensures
        is_noted(log, action, details) || notes(last.action, action, details) ==> is_noted(
            log.push(last),
            action,
            details,
        ),
{
    let all = log.push(last);
    assert(all[log.len() as int] == last);
    if is_noted(log, action, details) {
        let i = choose|i: int|
            0 <= i < log.len() && notes((#[trigger] log[i]).action, action, details);
        assert(notes(all[i].action, action, details));
    }
}

proof fn lemma_grows(log: Seq<Exchange>, last: Exchange, shelf: ShelfView, po: bool, at: int)
    ensures
        ({
            let all = log.push(last);
            let books = shelf.books;
            let uuid = books[at].uuid;
            let starting = last.action == ActionView::GetAllBooks || last.action == ActionView::Run(
                TaskView::Client,
            );
            &&& !starting && is_known(log, shelf, po) ==> is_known(all, shelf, po)
            &&& !starting && is_ready(log, shelf, po) ==> is_ready(all, shelf, po)
            &&& books_sent(log, shelf.client, books) ==> books_sent(all, shelf.client, books)
            &&& asked_of(log, books, at) ==> asked_of(all, books, at)
            &&& asked_of(log, books, books.len() as int) ==> asked_of(all, books, books.len() as int)
            &&& trace::has_asked(log, ActionView::GetProgress(uuid)) || last.action
                == ActionView::GetProgress(uuid) ==> trace::has_asked(
                all,
                ActionView::GetProgress(uuid),
            )
            &&& trace::has_asked(log, ActionView::GetBookmarks(uuid)) || last.action
                == ActionView::GetBookmarks(uuid) ==> trace::has_asked(
                all,
                ActionView::GetBookmarks(uuid),
            )
            &&& trace::has_asked(log, ActionView::GetHighlights(uuid)) || last.action
                == ActionView::GetHighlights(uuid) ==> trace::has_asked(
                all,
                ActionView::GetHighlights(uuid),
            )
        }),
{
    let all = log.push(last);
    let books = shelf.books;
    let uuid = books[at].uuid;
    let n = books.len() as int;
    trace::lemma_log_grows(log, last, ActionView::GetAllBooks, EventView::Books(Ok(books)));
    trace::lemma_log_grows(
        log,
        last,
        ActionView::Run(TaskView::Client),
        EventView::Client(Ok(shelf.client)),
    );
    trace::lemma_log_grows(log, last, ActionView::GetProgress(uuid), last.event);
    trace::lemma_log_grows(log, last, ActionView::GetBookmarks(uuid), last.event);
    trace::lemma_log_grows(log, last, ActionView::GetHighlights(uuid), last.event);
    trace::lemma_asked_all(log, last, folders_of(shelf.client), 6);
    trace::lemma_asked_all(log, last, exports_of(books), n);
    trace::lemma_asked_all(log, last, progress_of(books), at);
    trace::lemma_asked_all(log, last, bookmarks_of(books), at);
    trace::lemma_asked_all(log, last, highlights_of(books), at);
    trace::lemma_asked_all(log, last, progress_of(books), n);
    trace::lemma_asked_all(log, last, bookmarks_of(books), n);
    trace::lemma_asked_all(log, last, highlights_of(books), n);
    if books_sent(log, shelf.client, books) {
        let (file, bytes, taken) = choose|file: SyncDataFileView, bytes: Seq<u8>, taken: bool|
            #[trigger] index_sent(log, shelf.client, books, file, bytes, taken);
        trace::lemma_log_grows(
            log,
            last,
            ActionView::EncodeIndex(file),
            EventView::Bytes(Ok(bytes)),
        );
        trace::lemma_log_grows(
            log,
            last,
            ActionView::Upload(shelf.client, "/AudireReader/sync_data.json"@, bytes),
            EventView::Flag(Ok(taken)),
        );
        assert(index_sent(all, shelf.client, books, file, bytes, taken));
    }
}

/// Turning to a book, or to the history.
proof fn lemma_follow(log: Seq<Exchange>, shelf: ShelfView, at: int, now: Instant, po: bool)
    requires
        0 <= at <= shelf.books.len(),
        is_ready(log, shelf, po),
        asked_of(log, shelf.books, at),
    ensures
        story(log, ForcePushView::follow(shelf, at, now), po),
{
    if at == shelf.books.len() {
        assert(is_through(log, shelf, po));
    }
}

/// Being through with what belongs to a book.
proof fn lemma_next(log: Seq<Exchange>, shelf: ShelfView, at: int)
    requires
        asked_of(log, shelf.books, at),
        trace::has_asked(log, ActionView::GetProgress(shelf.books[at].uuid)),
        trace::has_asked(log, ActionView::GetBookmarks(shelf.books[at].uuid)),
        trace::has_asked(log, ActionView::GetHighlights(shelf.books[at].uuid)),
    ensures
        asked_of(log, shelf.books, at + 1),
{
    let books = shelf.books;
    assert(progress_of(books)(at) == ActionView::GetProgress(books[at].uuid));
    assert(bookmarks_of(books)(at) == ActionView::GetBookmarks(books[at].uuid));
    assert(highlights_of(books)(at) == ActionView::GetHighlights(books[at].uuid));
}

#[verifier::rlimit(40)]
proof fn lemma_step(
    log: Seq<Exchange>,
    state: ForcePushView,
    action: ActionView,
    event: EventView,
    now: Instant,
    po: bool,
)
    requires
        story(log, MoveView::Next(state, action), po),
    ensures
        story(log.push(Exchange { action, event, now }), state.after(event, now), po),
{
    let last = Exchange { action, event, now };
    let all = log.push(last);
    let next = state.after(event, now);
    push_laws::law_a_push_lists_every_book(state, event, now);
    match state {
        ForcePushView::Books { .. } => {
            if let EventView::Books(Ok(books)) = event {
                assert(all[0] == last);
                assert(trace::was_told_only(all, action, event));
                assert(!trace::has_asked(all, ActionView::Run(TaskView::Client)));
            }
        },
        ForcePushView::Client { books, progress_only } => {
            trace::lemma_log_grows(log, last, ActionView::GetAllBooks, EventView::Books(Ok(books)));
            assert(all[log.len() as int] == last);
            if let EventView::Client(Ok(client)) = event {
                assert forall|i: int|
                    0 <= i < all.len() && (#[trigger] all[i]).action == action implies all[i].event
                    == event by {
                    if i < log.len() {
                        assert(log[i].action == action);
                    }
                }
                assert(trace::was_told_only(all, action, event));
                let shelf = ShelfView { client, books, progress_only };
                assert(is_known(all, shelf, po));
            }
        },
        ForcePushView::Folders { shelf, made } => {
            lemma_grows(log, last, shelf, po, 0);
            assert(folders_of(shelf.client)(made - 1) == action);
            trace::lemma_asked_all(log, last, folders_of(shelf.client), made - 1);
            if made == 6 && po {
                lemma_follow(all, shelf, 0, now, po);
            }
        },
        ForcePushView::Exported { shelf, items, at } => {
            lemma_grows(log, last, shelf, po, 0);
            trace::lemma_asked_all(log, last, folders_of(shelf.client), 6);
            trace::lemma_asked_all(log, last, exports_of(shelf.books), at);
            assert(exports_of(shelf.books)(at) == action);
        },
        ForcePushView::Extended { shelf, items, at } => {
            lemma_grows(log, last, shelf, po, 0);
            trace::lemma_asked_all(log, last, folders_of(shelf.client), 6);
            trace::lemma_asked_all(log, last, exports_of(shelf.books), at + 1);
        },
        ForcePushView::IndexEncoded { shelf } => {
            lemma_grows(log, last, shelf, po, 0);
            trace::lemma_asked_all(log, last, folders_of(shelf.client), 6);
            trace::lemma_asked_all(log, last, exports_of(shelf.books), shelf.books.len() as int);
            trace::lemma_log_grows(log, last, action, event);
        },
        ForcePushView::IndexSaved { shelf } => {
            lemma_grows(log, last, shelf, po, 0);
            trace::lemma_asked_all(log, last, folders_of(shelf.client), 6);
            trace::lemma_asked_all(log, last, exports_of(shelf.books), shelf.books.len() as int);
            trace::lemma_log_grows(log, last, action, event);
            let bytes = action->Upload_2;
            let file = choose|file: SyncDataFileView|
                file.books.len() == shelf.books.len() && push_laws::tell_of(file.books, shelf.books)
                    && file.deleted.len() == 0 && #[trigger] trace::was_told(
                    log,
                    ActionView::EncodeIndex(file),
                    EventView::Bytes(Ok(bytes)),
                );
            trace::lemma_log_grows(
                log,
                last,
                ActionView::EncodeIndex(file),
                EventView::Bytes(Ok(bytes)),
            );
            if let EventView::Flag(Ok(taken)) = event {
                assert(index_sent(all, shelf.client, shelf.books, file, bytes, taken));
                lemma_follow(all, shelf, 0, now, po);
            }
        },
        ForcePushView::Noted => {
            let shelf = choose|shelf: ShelfView|
                #[trigger] is_through(log, shelf, po) && notes(
                    action,
                    push_name(po),
                    push_note(shelf.books.len()),
                );
            lemma_grows(log, last, shelf, po, 0);
            lemma_noted_grows(log, last, push_name(po), push_note(shelf.books.len()));
            assert(is_through(all, shelf, po));
        },
        ForcePushView::Stamped => {
            let shelf = choose|shelf: ShelfView|
                #[trigger] is_through(log, shelf, po) && is_noted(
                    log,
                    push_name(po),
                    push_note(shelf.books.len()),
                );
            lemma_grows(log, last, shelf, po, 0);
            lemma_noted_grows(log, last, push_name(po), push_note(shelf.books.len()));
            trace::lemma_log_grows(log, last, action, event);
            assert(is_through(all, shelf, po));
        },
        _ => {
            let (shelf, at) = state.place()->0;
            lemma_grows(log, last, shelf, po, at);
            if next matches MoveView::Next(ForcePushView::Progress { .. }, _) || next
                matches MoveView::Next(ForcePushView::Noted, _) {
                lemma_next(all, shelf, at);
                lemma_follow(all, shelf, at + 1, now, po);
            }
        },
    }
}

proof fn lemma_story(po: bool, replies: Seq<(EventView, Instant)>)
    ensures
        story(push_log(po, replies), push_run(po, replies), po),
{
    let holds = |log: Seq<Exchange>, m: MoveView<ForcePushView, SyncResultView>| story(log, m, po);
    assert forall|
        log: Seq<Exchange>,
        state: ForcePushView,
        action: ActionView,
        event: EventView,
        now: Instant,
    |
        #![trigger holds(log, MoveView::Next(state, action)), push_after()(state, event, now)]
        holds(log, MoveView::Next(state, action)) implies holds(
        log.push(Exchange { action, event, now }),
        push_after()(state, event, now),
    ) by {
        lemma_step(log, state, action, event, now, po);
    }
    trace::lemma_story(ForcePushView::start(po), push_after(), holds, replies);
}

/// A push that succeeds has asked for the progress, the bookmarks and the highlights of every
/// book that the device told it of. Unless it was to push progress only, it has had each of those
/// books copied, and has had the server take an index that lists exactly them. The folders were
/// made before, the history and the settings are told, and nothing is said to have changed here.
pub proof fn law_a_push_covers_every_book(progress_only: bool, replies: Seq<(EventView, Instant)>)
    ensures
        push_run(progress_only, replies) matches MoveView::End(Ok(result)) ==> {
            let log = push_log(progress_only, replies);
            &&& result.success && !result.local_changed
            &&& result.message == "Force push completed successfully"@
            &&& trace::has_asked(log, ActionView::Run(TaskView::RecordTimestamp))
            &&& exists|client: ClientView, books: Seq<BookView>| #[trigger]
                is_covered(log, client, books, progress_only)
        },
{
    lemma_story(progress_only, replies);
    let log = push_log(progress_only, replies);
    if let MoveView::End(Ok(_)) = push_run(progress_only, replies) {
        let shelf = choose|shelf: ShelfView|
            #[trigger] is_through(log, shelf, progress_only) && is_noted(
                log,
                push_name(progress_only),
                push_note(shelf.books.len()),
            );
        let books = shelf.books;
        assert forall|k: int| 0 <= k < books.len() implies asks_for_all_of(log, (#[trigger] books[k]).uuid) by {
            assert(trace::has_asked(log, progress_of(books)(k)));
            assert(trace::has_asked(log, bookmarks_of(books)(k)));
            assert(trace::has_asked(log, highlights_of(books)(k)));
        }
        assert forall|k: int| 0 <= k < 6 implies trace::has_asked(
            log,
            ActionView::Mkdir(shelf.client, #[trigger] folder(k)),
        ) by {
            assert(trace::has_asked(log, folders_of(shelf.client)(k)));
        }
        assert forall|k: int| 0 <= k < books.len() && !progress_only implies trace::has_asked(
            log,
            ActionView::Run(TaskView::ExportBook((#[trigger] books[k]).uuid)),
        ) by {
            assert(trace::has_asked(log, exports_of(books)(k)));
        }
        assert(is_covered(log, shelf.client, books, progress_only));
    }
}

/// Whether what belongs to a book was asked for.
pub open spec fn asks_for_all_of(log: Seq<Exchange>, uuid: Seq<char>) -> bool {
    &&& trace::has_asked(log, ActionView::GetProgress(uuid))
    &&& trace::has_asked(log, ActionView::GetBookmarks(uuid))
    &&& trace::has_asked(log, ActionView::GetHighlights(uuid))
}

/// Whether a push has dealt with all books of the device.
pub open spec fn is_covered(
    log: Seq<Exchange>,
    client: ClientView,
    books: Seq<BookView>,
    progress_only: bool,
) -> bool {
    &&& trace::was_told_only(log, ActionView::GetAllBooks, EventView::Books(Ok(books)))
    &&& trace::was_told_only(
        log,
        ActionView::Run(TaskView::Client),
        EventView::Client(Ok(client)),
    )
    &&& forall|k: int| 0 <= k < 6 ==> trace::has_asked(
        log,
        ActionView::Mkdir(client, #[trigger] folder(k)),
    )
    &&& forall|k: int| 0 <= k < books.len() ==> asks_for_all_of(log, (#[trigger] books[k]).uuid)
    &&& !progress_only ==> {
        &&& forall|k: int| 0 <= k < books.len() ==> trace::has_asked(
            log,
            ActionView::Run(TaskView::ExportBook((#[trigger] books[k]).uuid)),
        )
        &&& exists|file: SyncDataFileView, bytes: Seq<u8>, taken: bool|
            #[trigger] index_sent(log, client, books, file, bytes, taken)
    }
    &&& is_noted(log, push_name(progress_only), push_note(books.len()))
}

/// What a push is told of a book is what it sends: the highlights, the bookmarks and the progress
/// that the device has are written down unchanged, under the book's own identifier, and the bytes
/// that come of it are sent to the place of that book. Where the device has none to tell, it goes
/// on with the next kind.
pub proof fn law_a_push_sends_what_the_device_has(
    progress_only: bool,
    replies: Seq<(EventView, Instant)>,
    reply: (EventView, Instant),
)
    ensures
        ({
            let log = push_log(progress_only, replies);
            let now = push_run(progress_only, replies);
            let next = push_run(progress_only, replies.push(reply));
            &&& now matches MoveView::Next(_, ActionView::GetProgress(uuid)) ==> match reply.0 {
                EventView::Progress(Ok(Some(local))) => next matches MoveView::Next(
                    _,
                    ActionView::EncodeProgress(payload),
                ) && {
                    &&& payload.book_uuid == uuid
                    &&& payload.chapter_index == local.current_chapter_index
                    &&& payload.paragraph_index == local.current_paragraph_index
                    &&& payload.character_offset == local.current_character_offset
                    &&& payload.last_read == local.last_read
                    &&& payload.device_id is None && payload.device_name is None
                },
                _ => trace::asks(next, ActionView::GetBookmarks(uuid)),
            }
            &&& now matches MoveView::Next(_, ActionView::GetBookmarks(uuid)) ==> match reply.0 {
                EventView::Bookmarks(Ok(list)) => next matches MoveView::Next(
                    _,
                    ActionView::EncodeBookmarks(file),
                ) && {
                    &&& file.book_uuid == uuid
                    &&& file.bookmarks == list
                    &&& file.updated_at == reply.1.millis() as i64
                },
                _ => trace::asks(next, ActionView::GetHighlights(uuid)),
            }
            &&& now matches MoveView::Next(_, ActionView::GetHighlights(uuid)) ==> match reply.0 {
                EventView::Highlights(Ok(list)) => next matches MoveView::Next(
                    _,
                    ActionView::EncodeHighlights(file),
                ) && {
                    &&& file.book_uuid == uuid
                    &&& file.highlights == list
                    &&& file.updated_at == reply.1.millis() as i64
                },
                _ => !(next is End) && !(next->Next_1 is EncodeHighlights),
            }
            &&& now matches MoveView::Next(_, ActionView::EncodeProgress(payload)) ==> (
            reply.0 matches EventView::Bytes(Ok(bytes)) ==> is_sent(
                log,
                next,
                "/AudireReader/progress/"@ + payload.book_uuid + ".json"@,
                bytes,
            ))
            &&& now matches MoveView::Next(_, ActionView::EncodeBookmarks(file)) ==> (
            reply.0 matches EventView::Bytes(Ok(bytes)) ==> is_sent(
                log,
                next,
                "/AudireReader/bookmarks/"@ + file.book_uuid + ".json"@,
                bytes,
            ))
            &&& now matches MoveView::Next(_, ActionView::EncodeHighlights(file)) ==> (
            reply.0 matches EventView::Bytes(Ok(bytes)) ==> is_sent(
                log,
                next,
                "/AudireReader/highlights/"@ + file.book_uuid + ".json"@,
                bytes,
            ))
            &&& now matches MoveView::Next(_, ActionView::EncodeIndex(file)) ==> (
            reply.0 matches EventView::Bytes(Ok(bytes)) ==> is_sent(
                log,
                next,
                "/AudireReader/sync_data.json"@,
                bytes,
            ))
        }),
{
    lemma_story(progress_only, replies);
    trace::lemma_one_more(ForcePushView::start(progress_only), push_after(), replies, reply);
}

/// Whether bytes are sent to a place on the server, by the client that was told of.
pub open spec fn is_sent(
    log: Seq<Exchange>,
    at: MoveView<ForcePushView, SyncResultView>,
    path: Seq<char>,
    bytes: Seq<u8>,
) -> bool {
    at matches MoveView::Next(_, ActionView::Upload(client, to, sent)) && {
        &&& to == path
        &&& sent == bytes
        &&& trace::was_told_only(
            log,
            ActionView::Run(TaskView::Client),
            EventView::Client(Ok(client)),
        )
    }
}

/// Whether an action leaves this device as it is, but for the history and the settings, and the
/// server but for what is sent there.
pub open spec fn only_sends(action: ActionView) -> bool {
    match action {
        ActionView::GetAllBooks => true,
        ActionView::Mkdir(_, _) => true,
        ActionView::CoverExtension(_) => true,
        ActionView::EncodeIndex(_) => true,
        ActionView::EncodeProgress(_) => true,
        ActionView::EncodeBookmarks(_) => true,
        ActionView::EncodeHighlights(_) => true,
        ActionView::Upload(_, _, _) => true,
        ActionView::GetProgress(_) => true,
        ActionView::GetBookmarks(_) => true,
        ActionView::GetHighlights(_) => true,
        ActionView::InsertHistory(_) => true,
        ActionView::Run(task) => task is Client || task is ExportBook || task is RecordTimestamp,
        _ => false,
    }
}

/// A push takes nothing from the server, and changes nothing here but the history and the
/// settings.
pub proof fn law_a_push_only_sends(progress_only: bool, replies: Seq<(EventView, Instant)>)
    ensures
        push_run(progress_only, replies) matches MoveView::Next(_, action) ==> only_sends(action),
{
    lemma_story(progress_only, replies);
}

} // verus!
