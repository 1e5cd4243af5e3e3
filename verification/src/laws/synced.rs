//! What holds of synchronising the library, of what is asked for and told, whatever the replies are.
use vstd::prelude::*;

use crate::client::ClientView;
use crate::laws::library as library_laws;
use crate::laws::pushed;
use crate::laws::trace;
use crate::laws::trace::Exchange;
use crate::models::{BookView, SyncResultView};
use crate::number;
use crate::protocol::{ActionView, EventView, MoveView, TaskView};
use crate::tasks::library::{LibraryView, RoundView, SyncLibraryView};
use crate::time::Instant;

verus! {

/// What a synchronisation of the library has asked for and was told by then.
pub open spec fn library_log(dir: Option<Seq<char>>, replies: Seq<(EventView, Instant)>) -> Seq<Exchange> {
    trace::exchanges(SyncLibraryView::start(dir), library_laws::library_after(), replies)
}

/// Having the progress of each book synchronised.
pub open spec fn progress_of(books: Seq<BookView>) -> spec_fn(int) -> ActionView {
    |k: int| ActionView::Run(TaskView::SyncProgress(books[k].uuid))
}

/// Having the bookmarks of each book synchronised.
pub open spec fn bookmarks_of(books: Seq<BookView>) -> spec_fn(int) -> ActionView {
    |k: int| ActionView::Run(TaskView::SyncBookmarks(books[k].uuid))
}

/// Having the highlights of each book synchronised.
pub open spec fn highlights_of(books: Seq<BookView>) -> spec_fn(int) -> ActionView {
    |k: int| ActionView::Run(TaskView::SyncHighlights(books[k].uuid))
}

/// Whether an exchange confirms that the server has taken an index.
pub open spec fn confirms(exchange: Exchange) -> bool {
    &&& exchange.action matches ActionView::Upload(_, path, _) && path
        == "/AudireReader/sync_data.json"@
    &&& exchange.event == EventView::Flag(Ok(true))
}

/// Whether the server has confirmed that it has taken an index.
pub open spec fn is_confirmed(log: Seq<Exchange>) -> bool {
    exists|i: int| 0 <= i < log.len() && confirms(#[trigger] log[i])
}

/// Whether a book was deleted from this device.
pub open spec fn has_deleted(log: Seq<Exchange>) -> bool {
    exists|i: int| 0 <= i < log.len() && (#[trigger] log[i]).action is DeleteBook
}

/// Whether all that belongs to a book was synchronised.
pub open spec fn is_followed(log: Seq<Exchange>, uuid: Seq<char>) -> bool {
    &&& trace::has_asked(log, ActionView::Run(TaskView::SyncProgress(uuid)))
    &&& trace::has_asked(log, ActionView::Run(TaskView::SyncBookmarks(uuid)))
    &&& trace::has_asked(log, ActionView::Run(TaskView::SyncHighlights(uuid)))
}

/// Where the contents of a book stand on the server.
pub open spec fn contents_place(uuid: Seq<char>) -> Seq<char> {
    "/AudireReader/books/"@ + uuid + ".json.gz"@
}

/// Whether a book was seen to: it was deleted here, or its contents were looked for on the server.
pub open spec fn is_visited(log: Seq<Exchange>, client: ClientView, uuid: Seq<char>) -> bool {
    ||| trace::has_asked(log, ActionView::DeleteBook(uuid))
    ||| trace::has_asked(log, ActionView::ExistsNonEmpty(client, contents_place(uuid)))
}

/// Whether each of the first books was seen to.
spec fn visited(log: Seq<Exchange>, client: ClientView, books: Seq<BookView>, n: int) -> bool {
    forall|k: int| 0 <= k < n ==> is_visited(log, client, (#[trigger] books[k]).uuid)
}

/// What the history tells of so many books.
pub open spec fn library_note(count: nat) -> Seq<char> {
    "Synced "@ + number::decimal(count) + " local books successfully"@
}

spec fn followed(log: Seq<Exchange>, books: Seq<BookView>, n: int) -> bool {
    &&& trace::asked_all(log, progress_of(books), n)
    &&& trace::asked_all(log, bookmarks_of(books), n)
    &&& trace::asked_all(log, highlights_of(books), n)
}

/// What holds of the client, the books and the changes once they are known.
spec fn is_known(log: Seq<Exchange>, library: LibraryView, dir: Option<Seq<char>>) -> bool {
    &&& library.dir == dir
    &&& trace::was_told_only(log, ActionView::GetAllBooks, EventView::Books(Ok(library.books)))
    &&& is_client(log, library.client)
}

spec fn is_client(log: Seq<Exchange>, client: ClientView) -> bool {
    &&& trace::was_told_only(
        log,
        ActionView::Run(TaskView::Client),
        EventView::Client(Ok(client)),
    )
    &&& trace::asked_all(log, pushed::folders_of(client), 6)
}

spec fn is_amid(
    log: Seq<Exchange>,
    library: LibraryView,
    at: int,
    dir: Option<Seq<char>>,
) -> bool {
    &&& is_known(log, library, dir)
    &&& is_confirmed(log)
    &&& followed(log, library.books, at)
    &&& 0 <= at < library.books.len()
    &&& library.changed == has_deleted(log)
}

spec fn is_through(log: Seq<Exchange>, books: Seq<BookView>) -> bool {
    &&& trace::was_told_only(log, ActionView::GetAllBooks, EventView::Books(Ok(books)))
    &&& is_confirmed(log)
    &&& followed(log, books, books.len() as int)
}

spec fn is_begun(log: Seq<Exchange>) -> bool {
    &&& !trace::has_asked(log, ActionView::GetAllBooks)
    &&& !has_deleted(log)
}

spec fn in_round(
    log: Seq<Exchange>,
    library: LibraryView,
    round: RoundView,
    dir: Option<Seq<char>>,
) -> bool {
    &&& is_known(log, library, dir)
    &&& 0 <= round.at < library.books.len()
    &&& visited(log, library.client, library.books, round.at)
}

/// Whether the covers were fetched, if there is a folder for them.
spec fn has_covers(log: Seq<Exchange>, dir: Option<Seq<char>>) -> bool {
    dir is Some ==> trace::has_asked(log, ActionView::Run(TaskView::FetchCloudBooks(dir)))
}

/// What holds of a synchronisation of the library at any time.
spec fn story(
    log: Seq<Exchange>,
    m: MoveView<SyncLibraryView, SyncResultView>,
    start: Option<Seq<char>>,
) -> bool {
    match m {
        MoveView::Next(state, action) => match state {
            SyncLibraryView::Started { dir } => log.len() == 0 && dir == start && action is Emit,
            SyncLibraryView::Client { dir } => {
                &&& is_begun(log) && dir == start
                &&& action == ActionView::Run(TaskView::Client)
                &&& !trace::has_asked(log, action)
            },
            SyncLibraryView::Folders { client, dir, made } => {
                &&& is_begun(log) && dir == start
                &&& 1 <= made <= 6
                &&& trace::was_told_only(
                    log,
                    ActionView::Run(TaskView::Client),
                    EventView::Client(Ok(client)),
                )
                &&& trace::asked_all(log, pushed::folders_of(client), made - 1)
                &&& action == ActionView::Mkdir(client, pushed::folder(made - 1))
            },
            SyncLibraryView::LegacyLooked { client, dir } => is_begun(log) && dir == start
                && is_client(log, client) && action == ActionView::Exists(
                client,
                "/NovelReader/sync_data.json"@,
            ),
            SyncLibraryView::CurrentLooked { client, dir } => is_begun(log) && dir == start
                && is_client(log, client) && action == ActionView::Exists(
                client,
                "/AudireReader/sync_data.json"@,
            ),
            SyncLibraryView::LegacyFetched { client, dir } => is_begun(log) && dir == start
                && is_client(log, client) && action == ActionView::Download(
                client,
                "/NovelReader/sync_data.json"@,
            ),
            SyncLibraryView::Migrated { client, dir } => is_begun(log) && dir == start
                && is_client(log, client) && action is Upload,
            SyncLibraryView::Books { client, dir } => is_begun(log) && dir == start && is_client(
                log,
                client,
            ) && action == ActionView::GetAllBooks,
            SyncLibraryView::IndexLooked { library, .. } => {
                &&& is_known(log, library, start)
                &&& library.changed == has_deleted(log)
                &&& action == ActionView::Exists(library.client, "/AudireReader/sync_data.json"@)
            },
            SyncLibraryView::IndexFetched { library, .. } => {
                &&& is_known(log, library, start)
                &&& library.changed == has_deleted(log)
                &&& action == ActionView::Download(library.client, "/AudireReader/sync_data.json"@)
            },
            SyncLibraryView::IndexDecoded { library, .. } => {
                &&& is_known(log, library, start)
                &&& library.changed == has_deleted(log)
                &&& action is DecodeIndex
            },
            SyncLibraryView::BookDeleted { library, round } => {
                &&& in_round(log, library, round, start)
                &&& library.changed
                &&& action == ActionView::DeleteBook(library.books[round.at].uuid)
            },
            SyncLibraryView::BookLooked { library, round } => {
                &&& in_round(log, library, round, start)
                &&& library.changed == has_deleted(log)
                &&& action == ActionView::ExistsNonEmpty(
                    library.client,
                    contents_place(library.books[round.at].uuid),
                )
            },
            SyncLibraryView::Announced { library, round } => {
                &&& in_round(log, library, round, start)
                &&& library.changed == has_deleted(log)
                &&& is_visited(log, library.client, library.books[round.at].uuid)
                &&& action matches ActionView::Emit(event) && event.book_uuid == Some(
                    library.books[round.at].uuid,
                )
            },
            SyncLibraryView::Exported { library, round } => {
                &&& in_round(log, library, round, start)
                &&& library.changed == has_deleted(log)
                &&& is_visited(log, library.client, library.books[round.at].uuid)
                &&& action == ActionView::Run(TaskView::ExportBook(library.books[round.at].uuid))
            },
            SyncLibraryView::Extended { library, round } => {
                &&& in_round(log, library, round, start)
                &&& library.changed == has_deleted(log)
                &&& is_visited(log, library.client, library.books[round.at].uuid)
                &&& action matches ActionView::CoverExtension(path)
                    && library.books[round.at].cover_path == Some(path)
            },
            SyncLibraryView::IndexEncoded { library, .. } => {
                &&& is_known(log, library, start)
                &&& visited(log, library.client, library.books, library.books.len() as int)
                &&& library.changed == has_deleted(log)
                &&& action is EncodeIndex
            },
            SyncLibraryView::IndexSaved { library, .. } => {
                &&& is_known(log, library, start)
                &&& library.changed == has_deleted(log)
                &&& action matches ActionView::Upload(client, path, _) && client == library.client
                    && path == "/AudireReader/sync_data.json"@
            },
            SyncLibraryView::ProgressSynced { library, at } => {
                &&& is_amid(log, library, at, start)
                &&& action == ActionView::Run(TaskView::SyncProgress(library.books[at].uuid))
            },
            SyncLibraryView::BookmarksSynced { library, at } => {
                &&& is_amid(log, library, at, start)
                &&& trace::has_asked(log, progress_of(library.books)(at))
                &&& action == ActionView::Run(TaskView::SyncBookmarks(library.books[at].uuid))
            },
            SyncLibraryView::HighlightsSynced { library, at } => {
                &&& is_amid(log, library, at, start)
                &&& trace::has_asked(log, progress_of(library.books)(at))
                &&& trace::has_asked(log, bookmarks_of(library.books)(at))
                &&& action == ActionView::Run(TaskView::SyncHighlights(library.books[at].uuid))
            },
            SyncLibraryView::CoversFetched { count, changed } => {
                &&& start is Some
                &&& changed == has_deleted(log)
                &&& action == ActionView::Run(TaskView::FetchCloudBooks(start))
                &&& exists|books: Seq<BookView>| #[trigger]
                    is_through(log, books) && count == books.len()
            },
            SyncLibraryView::Noted { changed } => {
                &&& changed == has_deleted(log)
                &&& has_covers(log, start)
                &&& exists|books: Seq<BookView>| #[trigger]
                    is_through(log, books) && pushed::notes(
                        action,
                        "sync_library"@,
                        library_note(books.len()),
                    )
            },
            SyncLibraryView::Stamped { changed } => {
                &&& changed == has_deleted(log)
                &&& has_covers(log, start)
                &&& action == ActionView::Run(TaskView::RecordTimestamp)
                &&& exists|books: Seq<BookView>| #[trigger]
                    is_through(log, books) && pushed::is_noted(
                        log,
                        "sync_library"@,
                        library_note(books.len()),
                    )
            },
            SyncLibraryView::Finished { changed } => {
                &&& changed == has_deleted(log)
                &&& has_covers(log, start)
                &&& action is Emit
                &&& trace::has_asked(log, ActionView::Run(TaskView::RecordTimestamp))
                &&& exists|books: Seq<BookView>| #[trigger]
                    is_through(log, books) && pushed::is_noted(
                        log,
                        "sync_library"@,
                        library_note(books.len()),
                    )
            },
        },
        MoveView::End(Ok(result)) => {
            &&& has_covers(log, start)
            &&& result.success
            &&& result.local_changed == has_deleted(log)
            &&& result.message == "Library and progress synchronized successfully"@
            &&& trace::has_asked(log, ActionView::Run(TaskView::RecordTimestamp))
            &&& exists|books: Seq<BookView>| #[trigger]
                is_through(log, books) && pushed::is_noted(
                    log,
                    "sync_library"@,
                    library_note(books.len()),
                )
        },
        MoveView::End(Err(_)) => true,
    }
}

proof fn lemma_flags_grow(log: Seq<Exchange>, last: Exchange)
    ensures
        is_confirmed(log.push(last)) <==> is_confirmed(log) || confirms(last),
        has_deleted(log.push(last)) <==> has_deleted(log) || last.action is DeleteBook,
{
    let all = log.push(last);
    assert(all[log.len() as int] == last);
    if is_confirmed(log) {
        let i = choose|i: int| 0 <= i < log.len() && confirms(#[trigger] log[i]);
        assert(confirms(all[i]));
    }
    if has_deleted(log) {
        let i = choose|i: int| 0 <= i < log.len() && (#[trigger] log[i]).action is DeleteBook;
        assert(all[i].action is DeleteBook);
    }
    if is_confirmed(all) && !confirms(last) {
        let i = choose|i: int| 0 <= i < all.len() && confirms(#[trigger] all[i]);
        assert(confirms(log[i]));
    }
    if has_deleted(all) && !(last.action is DeleteBook) {
        let i = choose|i: int| 0 <= i < all.len() && (#[trigger] all[i]).action is DeleteBook;
        assert(log[i].action is DeleteBook);
    }
}

proof fn lemma_visited(
    log: Seq<Exchange>,
    last: Exchange,
    client: ClientView,
    books: Seq<BookView>,
    n: int,
)
    ensures
        visited(log, client, books, n) ==> visited(log.push(last), client, books, n),
        is_visited(log, client, books[n].uuid) || last.action == ActionView::DeleteBook(
            books[n].uuid,
        ) || last.action == ActionView::ExistsNonEmpty(client, contents_place(books[n].uuid))
            ==> is_visited(log.push(last), client, books[n].uuid),
{
    assert forall|k: int|
        is_visited(log, client, (#[trigger] books[k]).uuid) || k == n && (last.action
            == ActionView::DeleteBook(books[n].uuid) || last.action == ActionView::ExistsNonEmpty(
            client,
            contents_place(books[n].uuid),
        )) implies is_visited(log.push(last), client, books[k].uuid) by {
        let uuid = books[k].uuid;
        trace::lemma_log_grows(log, last, ActionView::DeleteBook(uuid), last.event);
        trace::lemma_log_grows(
            log,
            last,
            ActionView::ExistsNonEmpty(client, contents_place(uuid)),
            last.event,
        );
    }
}

proof fn lemma_grows(
    log: Seq<Exchange>,
    last: Exchange,
    client: ClientView,
    books: Seq<BookView>,
    at: int,
)
    ensures
        ({
            let all = log.push(last);
            let told = ActionView::GetAllBooks;
            let reply = EventView::Books(Ok(books));
            let made = ActionView::Run(TaskView::Client);
            let given = EventView::Client(Ok(client));
            &&& last.action != told && trace::was_told_only(log, told, reply)
                ==> trace::was_told_only(all, told, reply)
            &&& last.action != made && trace::was_told_only(log, made, given)
                ==> trace::was_told_only(all, made, given)
            &&& last.action != told && !trace::has_asked(log, told) ==> !trace::has_asked(all, told)
            &&& last.action != made && is_client(log, client) ==> is_client(all, client)
            &&& followed(log, books, at) ==> followed(all, books, at)
            &&& followed(log, books, books.len() as int) ==> followed(all, books, books.len() as int)
            &&& trace::has_asked(log, progress_of(books)(at)) || last.action == progress_of(
                books,
            )(at) ==> trace::has_asked(all, progress_of(books)(at))
            &&& trace::has_asked(log, bookmarks_of(books)(at)) || last.action == bookmarks_of(
                books,
            )(at) ==> trace::has_asked(all, bookmarks_of(books)(at))
            &&& trace::has_asked(log, highlights_of(books)(at)) || last.action == highlights_of(
                books,
            )(at) ==> trace::has_asked(all, highlights_of(books)(at))
        }),
{
    let n = books.len() as int;
    trace::lemma_log_grows(log, last, ActionView::GetAllBooks, EventView::Books(Ok(books)));
    trace::lemma_log_grows(
        log,
        last,
        ActionView::Run(TaskView::Client),
        EventView::Client(Ok(client)),
    );
    trace::lemma_log_grows(log, last, progress_of(books)(at), last.event);
    trace::lemma_log_grows(log, last, bookmarks_of(books)(at), last.event);
    trace::lemma_log_grows(log, last, highlights_of(books)(at), last.event);
    trace::lemma_asked_all(log, last, pushed::folders_of(client), 6);
    trace::lemma_asked_all(log, last, progress_of(books), at);
    trace::lemma_asked_all(log, last, bookmarks_of(books), at);
    trace::lemma_asked_all(log, last, highlights_of(books), at);
    trace::lemma_asked_all(log, last, progress_of(books), n);
    trace::lemma_asked_all(log, last, bookmarks_of(books), n);
    trace::lemma_asked_all(log, last, highlights_of(books), n);
}

proof fn lemma_follow(
    log: Seq<Exchange>,
    library: LibraryView,
    at: int,
    now: Instant,
    dir: Option<Seq<char>>,
)
    requires
        0 <= at <= library.books.len(),
        is_known(log, library, dir),
        is_confirmed(log),
        followed(log, library.books, at),
        library.changed == has_deleted(log),
    ensures
        story(log, SyncLibraryView::follow(library, at, now), dir),
{
    if at == library.books.len() {
        assert(is_through(log, library.books));
    }
}

proof fn lemma_visit(
    log: Seq<Exchange>,
    library: LibraryView,
    round: RoundView,
    now: Instant,
    dir: Option<Seq<char>>,
)
    requires
        0 <= round.at <= library.books.len(),
        is_known(log, library, dir),
        visited(log, library.client, library.books, round.at),
        library.changed == has_deleted(log),
    ensures
        story(log, SyncLibraryView::visit(library, round, now), dir),
{
}

#[verifier::rlimit(40)]
proof fn lemma_step(
    log: Seq<Exchange>,
    state: SyncLibraryView,
    action: ActionView,
    event: EventView,
    now: Instant,
    dir: Option<Seq<char>>,
)
    requires
        story(log, MoveView::Next(state, action), dir),
    ensures
        story(log.push(Exchange { action, event, now }), state.after(event, now), dir),
{
    let last = Exchange { action, event, now };
    let all = log.push(last);
    assert(all[log.len() as int] == last);
    lemma_flags_grow(log, last);
    match state {
        SyncLibraryView::Started { .. } => {
            assert(all[0] == last);
            assert(!trace::has_asked(all, ActionView::GetAllBooks));
            assert(!trace::has_asked(all, ActionView::Run(TaskView::Client)));
        },
        SyncLibraryView::Client { .. } => {
            trace::lemma_log_grows(log, last, ActionView::GetAllBooks, event);
            if let EventView::Client(Ok(client)) = event {
                assert forall|i: int|
                    0 <= i < all.len() && (#[trigger] all[i]).action == action implies all[i].event
                    == event by {
                    if i < log.len() {
                        assert(log[i].action == action);
                    }
                }
                assert(trace::was_told_only(all, action, event));
            }
        },
        SyncLibraryView::Folders { client, made, .. } => {
            lemma_grows(log, last, client, Seq::empty(), 0);
            trace::lemma_asked_all(log, last, pushed::folders_of(client), made - 1);
            assert(pushed::folders_of(client)(made - 1) == action);
        },
        SyncLibraryView::LegacyLooked { client, .. } => {
            lemma_grows(log, last, client, Seq::empty(), 0);
        },
        SyncLibraryView::CurrentLooked { client, .. } => {
            lemma_grows(log, last, client, Seq::empty(), 0);
        },
        SyncLibraryView::LegacyFetched { client, .. } => {
            lemma_grows(log, last, client, Seq::empty(), 0);
        },
        SyncLibraryView::Migrated { client, .. } => {
            lemma_grows(log, last, client, Seq::empty(), 0);
        },
        SyncLibraryView::Books { client, .. } => {
            lemma_grows(log, last, client, Seq::empty(), 0);
            if let EventView::Books(Ok(books)) = event {
                assert forall|i: int|
                    0 <= i < all.len() && (#[trigger] all[i]).action == action implies all[i].event
                    == event by {
                    if i < log.len() {
                        assert(log[i].action == action);
                    }
                }
                assert(trace::was_told_only(all, action, event));
            }
        },
        SyncLibraryView::CoversFetched { count, changed } => {
            let books = choose|books: Seq<BookView>| #[trigger]
                is_through(log, books) && count == books.len();
            lemma_grows(log, last, arbitrary(), books, 0);
            trace::lemma_log_grows(log, last, action, event);
            assert(is_through(all, books));
        },
        SyncLibraryView::Noted { changed } => {
            let books = choose|books: Seq<BookView>| #[trigger]
                is_through(log, books) && pushed::notes(
                    action,
                    "sync_library"@,
                    library_note(books.len()),
                );
            lemma_ending(log, last, books, dir);
            assert(is_through(all, books));
        },
        SyncLibraryView::Stamped { changed } => {
            let books = choose|books: Seq<BookView>| #[trigger]
                is_through(log, books) && pushed::is_noted(
                    log,
                    "sync_library"@,
                    library_note(books.len()),
                );
            lemma_ending(log, last, books, dir);
            assert(is_through(all, books));
        },
        SyncLibraryView::Finished { changed } => {
            let books = choose|books: Seq<BookView>| #[trigger]
                is_through(log, books) && pushed::is_noted(
                    log,
                    "sync_library"@,
                    library_note(books.len()),
                );
            lemma_ending(log, last, books, dir);
            assert(is_through(all, books));
        },
        SyncLibraryView::IndexLooked { library, attempt } => {
            lemma_grows(log, last, library.client, library.books, 0);
            lemma_begin(all, library, attempt, event, now, dir);
        },
        SyncLibraryView::IndexFetched { library, attempt } => {
            lemma_grows(log, last, library.client, library.books, 0);
            lemma_begin(all, library, attempt, event, now, dir);
        },
        SyncLibraryView::IndexDecoded { library, attempt } => {
            lemma_grows(log, last, library.client, library.books, 0);
            lemma_begin(all, library, attempt, event, now, dir);
        },
        SyncLibraryView::IndexEncoded { library, .. } => {
            lemma_grows(log, last, library.client, library.books, 0);
        },
        SyncLibraryView::IndexSaved { library, .. } => {
            lemma_grows(log, last, library.client, library.books, 0);
            if event == EventView::Flag(Ok(true)) {
                assert(confirms(last));
                lemma_follow(all, library, 0, now, dir);
            }
        },
        SyncLibraryView::ProgressSynced { library, at } => {
            lemma_grows(log, last, library.client, library.books, at);
        },
        SyncLibraryView::BookmarksSynced { library, at } => {
            lemma_grows(log, last, library.client, library.books, at);
        },
        SyncLibraryView::HighlightsSynced { library, at } => {
            lemma_grows(log, last, library.client, library.books, at);
            lemma_follow(all, library, at + 1, now, dir);
        },
        _ => {
            let (library, round) = library_laws::round_of(state)->0;
            lemma_grows(log, last, library.client, library.books, 0);
            lemma_visited(log, last, library.client, library.books, round.at);
            if is_visited(all, library.client, library.books[round.at].uuid) {
                lemma_entered(all, library, round, event, now, dir);
            }
        },
    }
}

proof fn lemma_ending(
    log: Seq<Exchange>,
    last: Exchange,
    books: Seq<BookView>,
    dir: Option<Seq<char>>,
)
    ensures
        last.action != ActionView::GetAllBooks && trace::was_told_only(
            log,
            ActionView::GetAllBooks,
            EventView::Books(Ok(books)),
        ) ==> trace::was_told_only(
            log.push(last),
            ActionView::GetAllBooks,
            EventView::Books(Ok(books)),
        ),
        followed(log, books, books.len() as int) ==> followed(
            log.push(last),
            books,
            books.len() as int,
        ),
        has_covers(log, dir) ==> has_covers(log.push(last), dir),
        trace::has_asked(log, ActionView::Run(TaskView::RecordTimestamp)) || last.action
            == ActionView::Run(TaskView::RecordTimestamp) ==> trace::has_asked(
            log.push(last),
            ActionView::Run(TaskView::RecordTimestamp),
        ),
        pushed::is_noted(log, "sync_library"@, library_note(books.len())) || pushed::notes(
            last.action,
            "sync_library"@,
            library_note(books.len()),
        ) ==> pushed::is_noted(log.push(last), "sync_library"@, library_note(books.len())),
{
    lemma_grows(log, last, arbitrary(), books, 0);
    trace::lemma_log_grows(log, last, ActionView::Run(TaskView::FetchCloudBooks(dir)), last.event);
    trace::lemma_log_grows(log, last, ActionView::Run(TaskView::RecordTimestamp), last.event);
    pushed::lemma_noted_grows(log, last, "sync_library"@, library_note(books.len()));
}

proof fn lemma_begin(
    log: Seq<Exchange>,
    library: LibraryView,
    attempt: u8,
    event: EventView,
    now: Instant,
    dir: Option<Seq<char>>,
)
    requires
        is_known(log, library, dir),
        library.changed == has_deleted(log),
    ensures
        forall|index|
            #![trigger SyncLibraryView::begin(library, attempt, index, now)]
            story(log, SyncLibraryView::begin(library, attempt, index, now), dir),
{
    assert forall|index|
        #![trigger SyncLibraryView::begin(library, attempt, index, now)]
        story(log, SyncLibraryView::begin(library, attempt, index, now), dir) by {
        let kept = crate::payload::SyncDataFileView {
            deleted: crate::index::still_deleted(index.deleted, now),
            ..index
        };
        lemma_visit(log, library, RoundView { attempt, index: kept, at: 0 }, now, dir);
    }
}

proof fn lemma_entered(
    log: Seq<Exchange>,
    library: LibraryView,
    round: RoundView,
    event: EventView,
    now: Instant,
    dir: Option<Seq<char>>,
)
    requires
        in_round(log, library, round, dir),
        is_visited(log, library.client, library.books[round.at].uuid),
        library.changed == has_deleted(log),
    ensures
        story(log, SyncLibraryView::next(library, round, now), dir),
        forall|extension: Option<Seq<char>>|
            #![trigger SyncLibraryView::enter(library, round, extension, now)]
            story(log, SyncLibraryView::enter(library, round, extension, now), dir),
{
    assert(visited(log, library.client, library.books, round.at + 1));
    lemma_visit(log, library, RoundView { at: round.at + 1, ..round }, now, dir);
    assert forall|extension: Option<Seq<char>>|
        #![trigger SyncLibraryView::enter(library, round, extension, now)]
        story(log, SyncLibraryView::enter(library, round, extension, now), dir) by {
        let item = crate::index::entry(library.books[round.at], extension, now);
        let index = crate::index::with_book(round.index, item);
        lemma_visit(log, library, RoundView { at: round.at + 1, index, ..round }, now, dir);
    }
}

proof fn lemma_story(dir: Option<Seq<char>>, replies: Seq<(EventView, Instant)>)
    ensures
        story(library_log(dir, replies), library_laws::library_run(dir, replies), dir),
{
    let after = library_laws::library_after();
    let holds = |log: Seq<Exchange>, m: MoveView<SyncLibraryView, SyncResultView>|
        story(log, m, dir);
    assert forall|
        log: Seq<Exchange>,
        state: SyncLibraryView,
        action: ActionView,
        event: EventView,
        now: Instant,
    |
        #![trigger holds(log, MoveView::Next(state, action)), after(state, event, now)]
        holds(log, MoveView::Next(state, action)) implies holds(
        log.push(Exchange { action, event, now }),
        after(state, event, now),
    ) by {
        lemma_step(log, state, action, event, now, dir);
    }
    trace::lemma_story(SyncLibraryView::start(dir), after, holds, replies);
}

/// Whether a synchronisation has dealt with all books of the device.
pub open spec fn is_covered(log: Seq<Exchange>, books: Seq<BookView>) -> bool {
    &&& trace::was_told_only(log, ActionView::GetAllBooks, EventView::Books(Ok(books)))
    &&& forall|k: int| 0 <= k < books.len() ==> is_followed(log, (#[trigger] books[k]).uuid)
    &&& pushed::is_noted(log, "sync_library"@, library_note(books.len()))
}

/// A synchronisation of the library that succeeds has had the progress, the bookmarks and the
/// highlights of every book synchronised that the device told it of, each under the book's own
/// identifier. The server has taken an index; the covers were fetched if there is a folder for
/// them; the history and the settings are told. It reports that this device has changed exactly if
/// a book was deleted from it.
pub proof fn law_a_synchronisation_covers_every_book(
    dir: Option<Seq<char>>,
    replies: Seq<(EventView, Instant)>,
)
    ensures
        library_laws::library_run(dir, replies) matches MoveView::End(Ok(result)) ==> {
            let log = library_log(dir, replies);
            &&& exists|books: Seq<BookView>| #[trigger] is_covered(log, books)
            &&& is_confirmed(log)
            &&& dir is Some ==> trace::has_asked(
                log,
                ActionView::Run(TaskView::FetchCloudBooks(dir)),
            )
            &&& trace::has_asked(log, ActionView::Run(TaskView::RecordTimestamp))
            &&& result.success
            &&& result.local_changed == has_deleted(log)
            &&& result.message == "Library and progress synchronized successfully"@
        },
{
    lemma_story(dir, replies);
    let log = library_log(dir, replies);
    if let MoveView::End(Ok(_)) = library_laws::library_run(dir, replies) {
        let books = choose|books: Seq<BookView>| #[trigger]
            is_through(log, books) && pushed::is_noted(
                log,
                "sync_library"@,
                library_note(books.len()),
            );
        assert forall|k: int| 0 <= k < books.len() implies is_followed(log, (#[trigger] books[k]).uuid) by {
            assert(trace::has_asked(log, progress_of(books)(k)));
            assert(trace::has_asked(log, bookmarks_of(books)(k)));
            assert(trace::has_asked(log, highlights_of(books)(k)));
        }
        assert(is_covered(log, books));
    }
}

/// Whether an action has something that belongs to a book synchronised.
pub open spec fn follows_a_book(action: ActionView, uuid: Seq<char>) -> bool {
    ||| action == ActionView::Run(TaskView::SyncProgress(uuid))
    ||| action == ActionView::Run(TaskView::SyncBookmarks(uuid))
    ||| action == ActionView::Run(TaskView::SyncHighlights(uuid))
}

/// What belongs to a book is synchronised only once the server has confirmed the index. Before an
/// index is written down, each book of the device was deleted here or looked for on the server,
/// in all six folders made before.
pub proof fn law_the_index_comes_first(dir: Option<Seq<char>>, replies: Seq<(EventView, Instant)>)
    ensures
        library_laws::library_run(dir, replies) matches MoveView::Next(_, action) ==> {
            let log = library_log(dir, replies);
            &&& forall|uuid: Seq<char>| #[trigger]
                follows_a_book(action, uuid) ==> is_confirmed(log)
            &&& action is EncodeIndex ==> exists|client: ClientView, books: Seq<BookView>| #[trigger]
                is_surveyed(log, client, books)
        },
{
    lemma_story(dir, replies);
    let log = library_log(dir, replies);
    if let MoveView::Next(SyncLibraryView::IndexEncoded { library, .. }, _) =
        library_laws::library_run(dir, replies) {
        assert forall|k: int| 0 <= k < 6 implies trace::has_asked(
            log,
            ActionView::Mkdir(library.client, #[trigger] pushed::folder(k)),
        ) by {
            assert(trace::has_asked(log, pushed::folders_of(library.client)(k)));
        }
        assert(is_surveyed(log, library.client, library.books));
    }
}

/// Whether all books of the device were seen to, and the folders made.
pub open spec fn is_surveyed(log: Seq<Exchange>, client: ClientView, books: Seq<BookView>) -> bool {
    &&& trace::was_told_only(log, ActionView::GetAllBooks, EventView::Books(Ok(books)))
    &&& trace::was_told_only(
        log,
        ActionView::Run(TaskView::Client),
        EventView::Client(Ok(client)),
    )
    &&& forall|k: int| 0 <= k < 6 ==> trace::has_asked(
        log,
        ActionView::Mkdir(client, #[trigger] pushed::folder(k)),
    )
    &&& forall|k: int| 0 <= k < books.len() ==> is_visited(log, client, (#[trigger] books[k]).uuid)
}

/// Whether a task sends bytes to the place of the index, by the client that was told of.
pub open spec fn sends_index(
    log: Seq<Exchange>,
    at: MoveView<SyncLibraryView, SyncResultView>,
    bytes: Seq<u8>,
) -> bool {
    at matches MoveView::Next(_, ActionView::Upload(client, path, sent)) && {
        &&& path == "/AudireReader/sync_data.json"@
        &&& sent == bytes
        &&& trace::was_told_only(
            log,
            ActionView::Run(TaskView::Client),
            EventView::Client(Ok(client)),
        )
    }
}

/// Whether a task announces that a book of a list is to be sent.
pub open spec fn announces(
    at: MoveView<SyncLibraryView, SyncResultView>,
    books: Seq<BookView>,
    k: int,
) -> bool {
    at matches MoveView::Next(_, ActionView::Emit(event)) && {
        &&& event.event_type == "bookStatus"@
        &&& event.book_uuid == Some(books[k].uuid)
        &&& event.status == Some("syncing"@)
        &&& event.current == (k + 1) as i32
        &&& event.total == books.len() as i32
        &&& event.message == Some("Uploading book: "@ + books[k].title)
    }
}

/// Whether what a task asks for is whether the server has the contents of a book of a list.
pub open spec fn looks_for(action: ActionView, books: Seq<BookView>, k: int) -> bool {
    &&& 0 <= k < books.len()
    &&& action matches ActionView::ExistsNonEmpty(_, path) && path == contents_place(books[k].uuid)
}

/// How a synchronisation goes on. A book whose contents the server lacks is announced, and then
/// sent. An index of the old place is copied to the new one, where there is none yet; the index of
/// the new place is read; the new index is sent as it was written down.
pub proof fn law_what_the_server_lacks_is_sent(
    dir: Option<Seq<char>>,
    replies: Seq<(EventView, Instant)>,
    reply: (EventView, Instant),
)
    ensures
        ({
            let log = library_log(dir, replies);
            let now = library_laws::library_run(dir, replies);
            let next = library_laws::library_run(dir, replies.push(reply));
            let old = "/NovelReader/sync_data.json"@;
            let new = "/AudireReader/sync_data.json"@;
            &&& now matches MoveView::Next(_, ActionView::ExistsNonEmpty(client, path)) ==> exists|
                books: Seq<BookView>,
                k: int,
            |
                #![trigger looks_for(now->Next_1, books, k)]
                {
                    &&& looks_for(now->Next_1, books, k)
                    &&& trace::was_told_only(
                        log,
                        ActionView::GetAllBooks,
                        EventView::Books(Ok(books)),
                    )
                    &&& reply.0 != EventView::Flag(Ok(true)) ==> announces(next, books, k)
                }
            &&& now matches MoveView::Next(_, ActionView::Emit(event)) ==> (event.book_uuid matches Some(
                uuid,
            ) ==> trace::asks(next, ActionView::Run(TaskView::ExportBook(uuid))))
            &&& now matches MoveView::Next(_, ActionView::EncodeIndex(file)) ==> (
            reply.0 matches EventView::Bytes(Ok(bytes)) ==> sends_index(log, next, bytes))
            &&& now matches MoveView::Next(_, ActionView::Exists(client, path)) ==> {
                let there = reply.0 == EventView::Flag(Ok(true));
                &&& path == old ==> trace::asks(
                    next,
                    if there {
                        ActionView::Exists(client, new)
                    } else {
                        ActionView::GetAllBooks
                    },
                )
                &&& path == new && !trace::has_asked(log, ActionView::GetAllBooks) ==> trace::asks(
                    next,
                    if there {
                        ActionView::GetAllBooks
                    } else {
                        ActionView::Download(client, old)
                    },
                )
                &&& path == new && trace::has_asked(log, ActionView::GetAllBooks) && there
                    ==> trace::asks(next, ActionView::Download(client, new))
            }
            &&& now matches MoveView::Next(_, ActionView::Download(client, path)) ==> (
            reply.0 matches EventView::Bytes(Ok(bytes)) ==> {
                &&& path == old ==> sends_index(log, next, bytes)
                &&& path == new ==> trace::asks(next, ActionView::DecodeIndex(bytes))
            })
        }),
{
    lemma_story(dir, replies);
    trace::lemma_one_more(
        SyncLibraryView::start(dir),
        library_laws::library_after(),
        replies,
        reply,
    );
    reveal_strlit("/NovelReader/sync_data.json");
    reveal_strlit("/AudireReader/sync_data.json");
    let log = library_log(dir, replies);
    let now = library_laws::library_run(dir, replies);
    assert("/NovelReader/sync_data.json"@[1] == 'N');
    assert("/AudireReader/sync_data.json"@[1] == 'A');
    if let MoveView::Next(SyncLibraryView::BookLooked { library, round }, action) = now {
        assert(looks_for(action, library.books, round.at));
    }
    if let MoveView::Next(state, action) = now {
        if trace::was_told(log, ActionView::GetAllBooks, EventView::Books(Ok(told_of(state)))) {
            let i = choose|i: int|
                0 <= i < log.len() && (#[trigger] log[i]).action == ActionView::GetAllBooks
                    && log[i].event == EventView::Books(Ok(told_of(state)));
            assert(trace::has_asked(log, ActionView::GetAllBooks));
        }
    }
}

/// The books that a state holds.
spec fn told_of(state: SyncLibraryView) -> Seq<BookView> {
    match state {
        SyncLibraryView::IndexLooked { library, .. } => library.books,
        SyncLibraryView::IndexFetched { library, .. } => library.books,
        _ => arbitrary(),
    }
}

/// Synchronising the library begins and ends with an announcement.
pub proof fn law_the_beginning_and_the_end_are_announced(
    dir: Option<Seq<char>>,
    replies: Seq<(EventView, Instant)>,
    reply: (EventView, Instant),
)
    ensures
        SyncLibraryView::start(dir) matches MoveView::Next(_, ActionView::Emit(event)) && {
            &&& event.event_type == "syncStarted"@
            &&& event.book_uuid is None
            &&& event.status == Some("syncing"@)
            &&& event.current == 0 && event.total == 100
            &&& event.message == Some("Initializing WebDAV sync..."@)
        },
        library_laws::library_run(dir, replies) matches MoveView::Next(
            _,
            ActionView::Run(TaskView::RecordTimestamp),
        ) ==> library_laws::library_run(dir, replies.push(reply)) matches MoveView::Next(
            _,
            ActionView::Emit(event),
        ) && {
            &&& event.event_type == "syncFinished"@
            &&& event.book_uuid is None
            &&& event.status == Some("success"@)
            &&& event.current == 100 && event.total == 100
            &&& event.message == Some("Sync completed successfully"@)
        },
{
    lemma_story(dir, replies);
    trace::lemma_one_more(
        SyncLibraryView::start(dir),
        library_laws::library_after(),
        replies,
        reply,
    );
}

} // verus!
