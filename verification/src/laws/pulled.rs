//! What holds of overwriting this device with what the server has, whatever the replies are.
use vstd::prelude::*;

use crate::client::ClientView;
use crate::laws::pushed;
use crate::laws::trace;
use crate::laws::trace::Exchange;
use crate::models::{BookView, CloudBookView, SyncResultView};
use crate::protocol::{ActionView, EventView, MoveView, TaskView};
use crate::tasks::pull::ForcePullView;
use crate::tasks::push::ShelfView;
use crate::time::Instant;
use crate::world;

verus! {

/// How a pull goes on.
pub open spec fn pull_after() -> spec_fn(ForcePullView, EventView, Instant) -> MoveView<
    ForcePullView,
    SyncResultView,
> {
    |s: ForcePullView, e: EventView, now: Instant| s.after(e, now)
}

/// Where a pull has come to after some replies.
pub open spec fn pull_run(
    progress_only: bool,
    dir: Seq<char>,
    replies: Seq<(EventView, Instant)>,
) -> MoveView<ForcePullView, SyncResultView> {
    world::brought_to(ForcePullView::start(progress_only, dir), pull_after(), replies)
}

/// What a pull has asked for and was told by then.
pub open spec fn pull_log(
    progress_only: bool,
    dir: Seq<char>,
    replies: Seq<(EventView, Instant)>,
) -> Seq<Exchange> {
    trace::exchanges(ForcePullView::start(progress_only, dir), pull_after(), replies)
}

/// Where the progress of a book stands on the server.
pub open spec fn progress_place(uuid: Seq<char>) -> Seq<char> {
    "/AudireReader/progress/"@ + uuid + ".json"@
}

/// Where the bookmarks of a book stand on the server.
pub open spec fn bookmarks_place(uuid: Seq<char>) -> Seq<char> {
    "/AudireReader/bookmarks/"@ + uuid + ".json"@
}

/// Where the highlights of a book stand on the server.
pub open spec fn highlights_place(uuid: Seq<char>) -> Seq<char> {
    "/AudireReader/highlights/"@ + uuid + ".json"@
}

/// Fetching the progress of each book.
pub open spec fn progress_of(client: ClientView, books: Seq<BookView>) -> spec_fn(int) -> ActionView {
    |k: int| ActionView::Download(client, progress_place(books[k].uuid))
}

/// Fetching the bookmarks of each book.
pub open spec fn bookmarks_of(client: ClientView, books: Seq<BookView>) -> spec_fn(int) -> ActionView {
    |k: int| ActionView::Download(client, bookmarks_place(books[k].uuid))
}

/// Fetching the highlights of each book.
pub open spec fn highlights_of(client: ClientView, books: Seq<BookView>) -> spec_fn(int) -> ActionView {
    |k: int| ActionView::Download(client, highlights_place(books[k].uuid))
}

/// Having each book that the server lists copied from there.
pub open spec fn imports_of(cloud: Seq<CloudBookView>, dir: Seq<char>) -> spec_fn(int) -> ActionView {
    |k: int| ActionView::Run(TaskView::ImportBook(cloud[k].uuid, dir))
}

spec fn fetched(log: Seq<Exchange>, shelf: ShelfView, n: int) -> bool {
    &&& trace::asked_all(log, progress_of(shelf.client, shelf.books), n)
    &&& trace::asked_all(log, bookmarks_of(shelf.client, shelf.books), n)
    &&& trace::asked_all(log, highlights_of(shelf.client, shelf.books), n)
}

spec fn is_client(log: Seq<Exchange>, client: ClientView) -> bool {
    trace::was_told_only(
        log,
        ActionView::Run(TaskView::Client),
        EventView::Client(Ok(client)),
    )
}

/// Whether the books that the server lists were told of, and the first of them copied.
spec fn imported(log: Seq<Exchange>, cloud: Seq<CloudBookView>, dir: Seq<char>, n: int) -> bool {
    &&& trace::was_told_only(
        log,
        ActionView::Run(TaskView::FetchCloudBooks(Some(dir))),
        EventView::CloudBooks(Ok(cloud)),
    )
    &&& trace::asked_all(log, imports_of(cloud, dir), n)
}

/// Whether all books that the server lists were copied.
pub open spec fn is_imported(log: Seq<Exchange>, cloud: Seq<CloudBookView>, dir: Seq<char>) -> bool {
    &&& trace::was_told_only(
        log,
        ActionView::Run(TaskView::FetchCloudBooks(Some(dir))),
        EventView::CloudBooks(Ok(cloud)),
    )
    &&& trace::asked_all(log, imports_of(cloud, dir), cloud.len() as int)
}

spec fn has_books(log: Seq<Exchange>, po: bool, dir: Seq<char>) -> bool {
    po || exists|cloud: Seq<CloudBookView>| #[trigger] is_imported(log, cloud, dir)
}

spec fn is_known(log: Seq<Exchange>, shelf: ShelfView, po: bool, dir: Seq<char>) -> bool {
    &&& shelf.progress_only == po
    &&& trace::was_told_only(log, ActionView::GetAllBooks, EventView::Books(Ok(shelf.books)))
    &&& is_client(log, shelf.client)
    &&& has_books(log, po, dir)
}

/// What holds where a book is dealt with of which some has been fetched.
spec fn is_amid(
    log: Seq<Exchange>,
    shelf: ShelfView,
    at: int,
    po: bool,
    dir: Seq<char>,
    n: int,
) -> bool {
    &&& is_known(log, shelf, po, dir)
    &&& 0 <= at < shelf.books.len()
    &&& fetched(log, shelf, at)
    &&& n >= 1 ==> trace::has_asked(log, progress_of(shelf.client, shelf.books)(at))
    &&& n >= 2 ==> trace::has_asked(log, bookmarks_of(shelf.client, shelf.books)(at))
    &&& n >= 3 ==> trace::has_asked(log, highlights_of(shelf.client, shelf.books)(at))
}

/// Whether the last exchange brought bytes from a place on the server.
pub open spec fn has_brought(
    log: Seq<Exchange>,
    client: ClientView,
    path: Seq<char>,
    bytes: Seq<u8>,
) -> bool {
    &&& log.len() > 0
    &&& log.last().action == ActionView::Download(client, path)
    &&& log.last().event == EventView::Bytes(Ok(bytes))
}

spec fn is_through(log: Seq<Exchange>, shelf: ShelfView, po: bool, dir: Seq<char>) -> bool {
    is_known(log, shelf, po, dir) && fetched(log, shelf, shelf.books.len() as int)
}

/// What the history calls a pull.
pub open spec fn pull_name(progress_only: bool) -> Seq<char> {
    if progress_only {
        "force_pull_progress"@
    } else {
        "force_pull_all"@
    }
}

spec fn story(
    log: Seq<Exchange>,
    m: MoveView<ForcePullView, SyncResultView>,
    po: bool,
    start: Seq<char>,
) -> bool {
    match m {
        MoveView::Next(state, action) => match state {
            ForcePullView::Client { progress_only, dir } => log.len() == 0 && progress_only == po
                && dir == start && action == ActionView::Run(TaskView::Client),
            ForcePullView::Listed { client, dir } => {
                &&& !po && dir == start
                &&& is_client(log, client)
                &&& !trace::has_asked(log, ActionView::GetAllBooks)
                &&& action == ActionView::Run(TaskView::FetchCloudBooks(Some(dir)))
                &&& !trace::has_asked(log, action)
            },
            ForcePullView::Imported { client, dir, cloud, at } => {
                &&& !po && dir == start
                &&& is_client(log, client)
                &&& !trace::has_asked(log, ActionView::GetAllBooks)
                &&& 0 <= at < cloud.len()
                &&& imported(log, cloud, dir, at)
                &&& action == ActionView::Run(TaskView::ImportBook(cloud[at].uuid, dir))
            },
            ForcePullView::Books { client, progress_only } => {
                &&& progress_only == po
                &&& is_client(log, client)
                &&& has_books(log, po, start)
                &&& action == ActionView::GetAllBooks
                &&& !trace::has_asked(log, action)
            },
            ForcePullView::Progress { shelf, at } => {
                &&& is_amid(log, shelf, at, po, start, 0)
                &&& action == progress_of(shelf.client, shelf.books)(at)
            },
            ForcePullView::ProgressDecoded { shelf, at } => {
                &&& is_amid(log, shelf, at, po, start, 1)
                &&& action matches ActionView::DecodeProgress(bytes) && has_brought(
                    log,
                    shelf.client,
                    progress_place(shelf.books[at].uuid),
                    bytes,
                )
            },
            ForcePullView::ProgressSaved { shelf, at } => is_amid(log, shelf, at, po, start, 1)
                && action is SaveProgress,
            ForcePullView::Bookmarks { shelf, at } => {
                &&& is_amid(log, shelf, at, po, start, 1)
                &&& action == bookmarks_of(shelf.client, shelf.books)(at)
            },
            ForcePullView::BookmarksDecoded { shelf, at } => {
                &&& is_amid(log, shelf, at, po, start, 2)
                &&& action matches ActionView::DecodeBookmarks(bytes) && has_brought(
                    log,
                    shelf.client,
                    bookmarks_place(shelf.books[at].uuid),
                    bytes,
                )
            },
            ForcePullView::BookmarksReplaced { shelf, at } => is_amid(log, shelf, at, po, start, 2)
                && action is ReplaceBookmarks,
            ForcePullView::Highlights { shelf, at } => {
                &&& is_amid(log, shelf, at, po, start, 2)
                &&& action == highlights_of(shelf.client, shelf.books)(at)
            },
            ForcePullView::HighlightsDecoded { shelf, at } => {
                &&& is_amid(log, shelf, at, po, start, 3)
                &&& action matches ActionView::DecodeHighlights(bytes) && has_brought(
                    log,
                    shelf.client,
                    highlights_place(shelf.books[at].uuid),
                    bytes,
                )
            },
            ForcePullView::HighlightsReplaced { shelf, at } => is_amid(log, shelf, at, po, start, 3)
                && action is ReplaceHighlights,
            ForcePullView::Noted => {
                &&& pushed::notes(action, pull_name(po), "Force pulled cloud data to local"@)
                &&& exists|shelf: ShelfView| #[trigger] is_through(log, shelf, po, start)
            },
            ForcePullView::Stamped => {
                &&& action == ActionView::Run(TaskView::RecordTimestamp)
                &&& pushed::is_noted(log, pull_name(po), "Force pulled cloud data to local"@)
                &&& exists|shelf: ShelfView| #[trigger] is_through(log, shelf, po, start)
            },
        },
        MoveView::End(Ok(result)) => {
            &&& result.success && result.local_changed
            &&& result.message == "Force pull completed successfully"@
            &&& trace::has_asked(log, ActionView::Run(TaskView::RecordTimestamp))
            &&& pushed::is_noted(log, pull_name(po), "Force pulled cloud data to local"@)
            &&& exists|shelf: ShelfView| #[trigger] is_through(log, shelf, po, start)
        },
        MoveView::End(Err(_)) => true,
    }
}

proof fn lemma_client_grows(log: Seq<Exchange>, last: Exchange, client: ClientView)
    ensures
        last.action != ActionView::Run(TaskView::Client) && is_client(log, client) ==> is_client(
            log.push(last),
            client,
        ),
        last.action != ActionView::GetAllBooks && !trace::has_asked(log, ActionView::GetAllBooks)
            ==> !trace::has_asked(log.push(last), ActionView::GetAllBooks),
{
    trace::lemma_log_grows(
        log,
        last,
        ActionView::Run(TaskView::Client),
        EventView::Client(Ok(client)),
    );
    trace::lemma_log_grows(log, last, ActionView::GetAllBooks, last.event);
}

proof fn lemma_import_grows(log: Seq<Exchange>, last: Exchange, po: bool, dir: Seq<char>)
    requires
        last.action != ActionView::Run(TaskView::FetchCloudBooks(Some(dir))),
    ensures
        has_books(log, po, dir) ==> has_books(log.push(last), po, dir),
{
    if has_books(log, po, dir) && !po {
        let cloud = choose|cloud: Seq<CloudBookView>| #[trigger] is_imported(log, cloud, dir);
        trace::lemma_log_grows(
            log,
            last,
            ActionView::Run(TaskView::FetchCloudBooks(Some(dir))),
            EventView::CloudBooks(Ok(cloud)),
        );
        trace::lemma_asked_all(log, last, imports_of(cloud, dir), cloud.len() as int);
        assert(is_imported(log.push(last), cloud, dir));
    }
}

proof fn lemma_grows(
    log: Seq<Exchange>,
    last: Exchange,
    shelf: ShelfView,
    at: int,
    po: bool,
    dir: Seq<char>,
)
    requires
        last.action != ActionView::Run(TaskView::Client),
        last.action != ActionView::GetAllBooks,
        last.action != ActionView::Run(TaskView::FetchCloudBooks(Some(dir))),
        is_known(log, shelf, po, dir),
    ensures
        ({
            let all = log.push(last);
            let (c, b) = (shelf.client, shelf.books);
            &&& is_known(all, shelf, po, dir)
            &&& fetched(log, shelf, at) ==> fetched(all, shelf, at)
            &&& fetched(log, shelf, b.len() as int) ==> fetched(all, shelf, b.len() as int)
            &&& trace::has_asked(log, progress_of(c, b)(at)) || last.action == progress_of(c, b)(at)
                ==> trace::has_asked(all, progress_of(c, b)(at))
            &&& trace::has_asked(log, bookmarks_of(c, b)(at)) || last.action == bookmarks_of(c, b)(
                at,
            ) ==> trace::has_asked(all, bookmarks_of(c, b)(at))
            &&& trace::has_asked(log, highlights_of(c, b)(at)) || last.action == highlights_of(
                c,
                b,
            )(at) ==> trace::has_asked(all, highlights_of(c, b)(at))
        }),
{
    let (c, b) = (shelf.client, shelf.books);
    let n = b.len() as int;
    lemma_client_grows(log, last, c);
    lemma_import_grows(log, last, po, dir);
    trace::lemma_log_grows(log, last, ActionView::GetAllBooks, EventView::Books(Ok(b)));
    trace::lemma_log_grows(log, last, progress_of(c, b)(at), last.event);
    trace::lemma_log_grows(log, last, bookmarks_of(c, b)(at), last.event);
    trace::lemma_log_grows(log, last, highlights_of(c, b)(at), last.event);
    trace::lemma_asked_all(log, last, progress_of(c, b), at);
    trace::lemma_asked_all(log, last, bookmarks_of(c, b), at);
    trace::lemma_asked_all(log, last, highlights_of(c, b), at);
    trace::lemma_asked_all(log, last, progress_of(c, b), n);
    trace::lemma_asked_all(log, last, bookmarks_of(c, b), n);
    trace::lemma_asked_all(log, last, highlights_of(c, b), n);
}

proof fn lemma_follow(
    log: Seq<Exchange>,
    shelf: ShelfView,
    at: int,
    now: Instant,
    po: bool,
    dir: Seq<char>,
)
    requires
        0 <= at <= shelf.books.len(),
        is_known(log, shelf, po, dir),
        fetched(log, shelf, at),
    ensures
        story(log, ForcePullView::follow(shelf, at, now), po, dir),
{
    if at == shelf.books.len() {
        assert(is_through(log, shelf, po, dir));
    }
}

#[verifier::rlimit(40)]
proof fn lemma_step(
    log: Seq<Exchange>,
    state: ForcePullView,
    action: ActionView,
    event: EventView,
    now: Instant,
    po: bool,
    dir: Seq<char>,
)
    requires
        story(log, MoveView::Next(state, action), po, dir),
    ensures
        story(log.push(Exchange { action, event, now }), state.after(event, now), po, dir),
{
    let last = Exchange { action, event, now };
    let all = log.push(last);
    let next = state.after(event, now);
    assert(all[log.len() as int] == last);
    match state {
        ForcePullView::Client { .. } => {
            assert(all[0] == last);
            assert(trace::was_told_only(all, action, event));
            assert(!trace::has_asked(all, ActionView::GetAllBooks));
            assert(!trace::has_asked(
                all,
                ActionView::Run(TaskView::FetchCloudBooks(Some(dir))),
            ));
        },
        ForcePullView::Listed { client, .. } => {
            lemma_client_grows(log, last, client);
            if let EventView::CloudBooks(Ok(cloud)) = event {
                assert forall|i: int|
                    0 <= i < all.len() && (#[trigger] all[i]).action == action implies all[i].event
                    == event by {
                    if i < log.len() {
                        assert(log[i].action == action);
                    }
                }
                assert(trace::was_told_only(all, action, event));
                if cloud.len() == 0 {
                    assert(is_imported(all, cloud, dir));
                }
            }
        },
        ForcePullView::Imported { client, cloud, at, .. } => {
            lemma_client_grows(log, last, client);
            trace::lemma_log_grows(
                log,
                last,
                ActionView::Run(TaskView::FetchCloudBooks(Some(dir))),
                EventView::CloudBooks(Ok(cloud)),
            );
            assert(imports_of(cloud, dir)(at) == action);
            trace::lemma_asked_all(log, last, imports_of(cloud, dir), at);
            if at + 1 == cloud.len() {
                assert(is_imported(all, cloud, dir));
            }
        },
        ForcePullView::Books { client, progress_only } => {
            lemma_client_grows(log, last, client);
            lemma_import_grows(log, last, po, dir);
            if let EventView::Books(Ok(books)) = event {
                assert forall|i: int|
                    0 <= i < all.len() && (#[trigger] all[i]).action == action implies all[i].event
                    == event by {
                    if i < log.len() {
                        assert(log[i].action == action);
                    }
                }
                assert(trace::was_told_only(all, action, event));
                lemma_follow(all, ShelfView { client, books, progress_only }, 0, now, po, dir);
            }
        },
        ForcePullView::Noted => {
            let shelf = choose|shelf: ShelfView| #[trigger] is_through(log, shelf, po, dir);
            lemma_grows(log, last, shelf, 0, po, dir);
            pushed::lemma_noted_grows(
                log,
                last,
                pull_name(po),
                "Force pulled cloud data to local"@,
            );
            assert(is_through(all, shelf, po, dir));
        },
        ForcePullView::Stamped => {
            let shelf = choose|shelf: ShelfView| #[trigger] is_through(log, shelf, po, dir);
            lemma_grows(log, last, shelf, 0, po, dir);
            pushed::lemma_noted_grows(
                log,
                last,
                pull_name(po),
                "Force pulled cloud data to local"@,
            );
            trace::lemma_log_grows(log, last, action, event);
            assert(is_through(all, shelf, po, dir));
        },
        _ => {
            let (shelf, at) = state.place()->0;
            lemma_grows(log, last, shelf, at, po, dir);
            if next matches MoveView::Next(ForcePullView::Progress { .. }, _) || next
                matches MoveView::Next(ForcePullView::Noted, _) {
                assert(fetched(all, shelf, at + 1));
                lemma_follow(all, shelf, at + 1, now, po, dir);
            }
        },
    }
}

proof fn lemma_story(po: bool, dir: Seq<char>, replies: Seq<(EventView, Instant)>)
    ensures
        story(pull_log(po, dir, replies), pull_run(po, dir, replies), po, dir),
{
    let holds = |log: Seq<Exchange>, m: MoveView<ForcePullView, SyncResultView>|
        story(log, m, po, dir);
    assert forall|
        log: Seq<Exchange>,
        state: ForcePullView,
        action: ActionView,
        event: EventView,
        now: Instant,
    |
        #![trigger holds(log, MoveView::Next(state, action)), pull_after()(state, event, now)]
        holds(log, MoveView::Next(state, action)) implies holds(
        log.push(Exchange { action, event, now }),
        pull_after()(state, event, now),
    ) by {
        lemma_step(log, state, action, event, now, po, dir);
    }
    trace::lemma_story(ForcePullView::start(po, dir), pull_after(), holds, replies);
}

/// Whether what belongs to a book was fetched from the server.
pub open spec fn is_fetched(log: Seq<Exchange>, client: ClientView, uuid: Seq<char>) -> bool {
    &&& trace::has_asked(log, ActionView::Download(client, progress_place(uuid)))
    &&& trace::has_asked(log, ActionView::Download(client, bookmarks_place(uuid)))
    &&& trace::has_asked(log, ActionView::Download(client, highlights_place(uuid)))
}

/// Whether a pull has dealt with all books of the device.
pub open spec fn is_covered(log: Seq<Exchange>, client: ClientView, books: Seq<BookView>) -> bool {
    &&& trace::was_told_only(log, ActionView::GetAllBooks, EventView::Books(Ok(books)))
    &&& trace::was_told_only(
        log,
        ActionView::Run(TaskView::Client),
        EventView::Client(Ok(client)),
    )
    &&& forall|k: int| 0 <= k < books.len() ==> is_fetched(log, client, (#[trigger] books[k]).uuid)
}

/// Whether every book that the server lists was copied into the library.
pub open spec fn has_copied(log: Seq<Exchange>, cloud: Seq<CloudBookView>, dir: Seq<char>) -> bool {
    &&& trace::was_told_only(
        log,
        ActionView::Run(TaskView::FetchCloudBooks(Some(dir))),
        EventView::CloudBooks(Ok(cloud)),
    )
    &&& forall|k: int| 0 <= k < cloud.len() ==> trace::has_asked(
        log,
        ActionView::Run(TaskView::ImportBook((#[trigger] cloud[k]).uuid, dir)),
    )
}

/// A pull that succeeds has fetched the progress, the bookmarks and the highlights of every book
/// that the device told it of, from the place of that book. Unless it was to pull progress only,
/// it has had every book copied before that the server lists. The history and the settings are
/// told, and this device is said to have changed.
pub proof fn law_a_pull_covers_every_book(
    progress_only: bool,
    dir: Seq<char>,
    replies: Seq<(EventView, Instant)>,
)
    ensures
        pull_run(progress_only, dir, replies) matches MoveView::End(Ok(result)) ==> {
            let log = pull_log(progress_only, dir, replies);
            &&& result.success && result.local_changed
            &&& result.message == "Force pull completed successfully"@
            &&& trace::has_asked(log, ActionView::Run(TaskView::RecordTimestamp))
            &&& pushed::is_noted(
                log,
                pull_name(progress_only),
                "Force pulled cloud data to local"@,
            )
            &&& exists|client: ClientView, books: Seq<BookView>| #[trigger]
                is_covered(log, client, books)
            &&& !progress_only ==> exists|cloud: Seq<CloudBookView>| #[trigger]
                has_copied(log, cloud, dir)
        },
{
    lemma_story(progress_only, dir, replies);
    let log = pull_log(progress_only, dir, replies);
    if let MoveView::End(Ok(_)) = pull_run(progress_only, dir, replies) {
        let shelf = choose|shelf: ShelfView| #[trigger] is_through(log, shelf, progress_only, dir);
        let (c, books) = (shelf.client, shelf.books);
        assert forall|k: int| 0 <= k < books.len() implies is_fetched(log, c, (#[trigger] books[k]).uuid) by {
            assert(trace::has_asked(log, progress_of(c, books)(k)));
            assert(trace::has_asked(log, bookmarks_of(c, books)(k)));
            assert(trace::has_asked(log, highlights_of(c, books)(k)));
        }
        assert(is_covered(log, c, books));
        if !progress_only {
            let cloud = choose|cloud: Seq<CloudBookView>| #[trigger] is_imported(log, cloud, dir);
            assert forall|k: int| 0 <= k < cloud.len() implies trace::has_asked(
                log,
                ActionView::Run(TaskView::ImportBook((#[trigger] cloud[k]).uuid, dir)),
            ) by {
                assert(trace::has_asked(log, imports_of(cloud, dir)(k)));
            }
            assert(has_copied(log, cloud, dir));
        }
    }
}

/// Whether the last exchange brought bytes from a place of a book of the device.
pub open spec fn brought_of(
    log: Seq<Exchange>,
    books: Seq<BookView>,
    k: int,
    path: Seq<char>,
    bytes: Seq<u8>,
) -> bool {
    &&& 0 <= k < books.len()
    &&& trace::was_told_only(log, ActionView::GetAllBooks, EventView::Books(Ok(books)))
    &&& exists|client: ClientView| #[trigger] has_brought(log, client, path, bytes)
}

/// What a pull fetches is what this device gets: the bytes that came from the place of a book are
/// read, and the progress, the bookmarks or the highlights that they hold replace those of that
/// very book, unchanged.
pub proof fn law_a_pull_hands_over_what_the_server_has(
    progress_only: bool,
    dir: Seq<char>,
    replies: Seq<(EventView, Instant)>,
    reply: (EventView, Instant),
)
    ensures
        ({
            let log = pull_log(progress_only, dir, replies);
            let now = pull_run(progress_only, dir, replies);
            let next = pull_run(progress_only, dir, replies.push(reply));
            &&& now matches MoveView::Next(_, ActionView::Download(client, path)) ==> (
            reply.0 matches EventView::Bytes(Ok(bytes)) ==> {
                ||| trace::asks(next, ActionView::DecodeProgress(bytes))
                ||| trace::asks(next, ActionView::DecodeBookmarks(bytes))
                ||| trace::asks(next, ActionView::DecodeHighlights(bytes))
            })
            &&& now matches MoveView::Next(_, ActionView::DecodeProgress(bytes)) ==> exists|
                books: Seq<BookView>,
                k: int,
            |
                #![trigger brought_of(log, books, k, progress_place(books[k].uuid), bytes)]
                brought_of(log, books, k, progress_place(books[k].uuid), bytes) && (
                reply.0 matches EventView::CloudProgress(Ok(cloud)) ==> (next matches MoveView::Next(
                    _,
                    ActionView::SaveProgress(progress),
                ) && {
                    &&& progress.book_uuid == books[k].uuid
                    &&& progress.current_chapter_index == cloud.chapter_index
                    &&& progress.current_paragraph_index == cloud.paragraph_index
                    &&& progress.current_character_offset == cloud.character_offset
                    &&& progress.last_read == cloud.last_read
                }))
            &&& now matches MoveView::Next(_, ActionView::DecodeBookmarks(bytes)) ==> exists|
                books: Seq<BookView>,
                k: int,
            |
                #![trigger brought_of(log, books, k, bookmarks_place(books[k].uuid), bytes)]
                brought_of(log, books, k, bookmarks_place(books[k].uuid), bytes) && (
                reply.0 matches EventView::CloudBookmarks(Ok(file)) ==> trace::asks(
                    next,
                    ActionView::ReplaceBookmarks(books[k].uuid, file.bookmarks),
                ))
            &&& now matches MoveView::Next(_, ActionView::DecodeHighlights(bytes)) ==> exists|
                books: Seq<BookView>,
                k: int,
            |
                #![trigger brought_of(log, books, k, highlights_place(books[k].uuid), bytes)]
                brought_of(log, books, k, highlights_place(books[k].uuid), bytes) && (
                reply.0 matches EventView::CloudHighlights(Ok(file)) ==> trace::asks(
                    next,
                    ActionView::ReplaceHighlights(books[k].uuid, file.highlights),
                ))
        }),
{
    lemma_story(progress_only, dir, replies);
    trace::lemma_one_more(ForcePullView::start(progress_only, dir), pull_after(), replies, reply);
    let log = pull_log(progress_only, dir, replies);
    if let MoveView::Next(state, action) = pull_run(progress_only, dir, replies) {
        if let Some((shelf, at)) = state.place() {
            let (c, b) = (shelf.client, shelf.books);
            if let ActionView::DecodeProgress(bytes) = action {
                assert(has_brought(log, c, progress_place(b[at].uuid), bytes));
                assert(brought_of(log, b, at, progress_place(b[at].uuid), bytes));
            }
            if let ActionView::DecodeBookmarks(bytes) = action {
                assert(has_brought(log, c, bookmarks_place(b[at].uuid), bytes));
                assert(brought_of(log, b, at, bookmarks_place(b[at].uuid), bytes));
            }
            if let ActionView::DecodeHighlights(bytes) = action {
                assert(has_brought(log, c, highlights_place(b[at].uuid), bytes));
                assert(brought_of(log, b, at, highlights_place(b[at].uuid), bytes));
            }
        }
    }
}

/// Whether an action leaves the server as it is.
pub open spec fn only_fetches(action: ActionView) -> bool {
    match action {
        ActionView::GetAllBooks => true,
        ActionView::Download(_, _) => true,
        ActionView::DecodeProgress(_) => true,
        ActionView::DecodeBookmarks(_) => true,
        ActionView::DecodeHighlights(_) => true,
        ActionView::SaveProgress(_) => true,
        ActionView::ReplaceBookmarks(_, _) => true,
        ActionView::ReplaceHighlights(_, _) => true,
        ActionView::InsertHistory(_) => true,
        ActionView::Run(task) => task is Client || task is FetchCloudBooks || task is ImportBook
            || task is RecordTimestamp,
        _ => false,
    }
}

/// A pull sends nothing to the server, and deletes nothing anywhere.
pub proof fn law_a_pull_only_fetches(
    progress_only: bool,
    dir: Seq<char>,
    replies: Seq<(EventView, Instant)>,
)
    ensures
        pull_run(progress_only, dir, replies) matches MoveView::Next(_, action) ==> only_fetches(
            action,
        ),
{
    lemma_story(progress_only, dir, replies);
}

} // verus!
