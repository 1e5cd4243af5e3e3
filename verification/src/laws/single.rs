//! What holds of copying a single book, either way, whatever the replies are.
use vstd::prelude::*;

use crate::client::ClientView;
use crate::laws::pulled;
use crate::laws::synced;
use crate::laws::trace;
use crate::laws::trace::Exchange;
use crate::models::{BookView, SyncResultView};
use crate::payload::{SyncDataBookItemView, SyncDataFileView};
use crate::protocol::{ActionView, EventView, MoveView, TaskView};
use crate::tasks::single::{DownloadVirtualBookView, ForcePullBookView, ForcePushBookView};
use crate::time;
use crate::time::Instant;
use crate::world;

verus! {

/// How copying a book to the server goes on.
pub open spec fn push_after() -> spec_fn(ForcePushBookView, EventView, Instant) -> MoveView<
    ForcePushBookView,
    SyncResultView,
> {
    |s: ForcePushBookView, e: EventView, now: Instant| s.after(e, now)
}

/// Where copying a book to the server has come to after some replies.
pub open spec fn push_run(uuid: Seq<char>, replies: Seq<(EventView, Instant)>) -> MoveView<
    ForcePushBookView,
    SyncResultView,
> {
    world::brought_to(ForcePushBookView::start(uuid), push_after(), replies)
}

/// What it has asked for and was told by then.
pub open spec fn push_log(uuid: Seq<char>, replies: Seq<(EventView, Instant)>) -> Seq<Exchange> {
    trace::exchanges(ForcePushBookView::start(uuid), push_after(), replies)
}

/// How copying a book from the server goes on.
pub open spec fn pull_after() -> spec_fn(ForcePullBookView, EventView, Instant) -> MoveView<
    ForcePullBookView,
    SyncResultView,
> {
    |s: ForcePullBookView, e: EventView, now: Instant| s.after(e)
}

/// Where copying a book from the server has come to after some replies.
pub open spec fn pull_run(
    uuid: Seq<char>,
    dir: Seq<char>,
    replies: Seq<(EventView, Instant)>,
) -> MoveView<ForcePullBookView, SyncResultView> {
    world::brought_to(ForcePullBookView::start(uuid, dir), pull_after(), replies)
}

/// What it has asked for and was told by then.
pub open spec fn pull_log(
    uuid: Seq<char>,
    dir: Seq<char>,
    replies: Seq<(EventView, Instant)>,
) -> Seq<Exchange> {
    trace::exchanges(ForcePullBookView::start(uuid, dir), pull_after(), replies)
}

/// How fetching a book that is only listed goes on.
pub open spec fn fetch_after() -> spec_fn(DownloadVirtualBookView, EventView, Instant) -> MoveView<
    DownloadVirtualBookView,
    SyncResultView,
> {
    |s: DownloadVirtualBookView, e: EventView, now: Instant| s.after(e)
}

/// Where fetching a book that is only listed has come to after some replies.
pub open spec fn fetch_run(
    uuid: Seq<char>,
    dir: Seq<char>,
    replies: Seq<(EventView, Instant)>,
) -> MoveView<DownloadVirtualBookView, SyncResultView> {
    world::brought_to(DownloadVirtualBookView::start(uuid, dir), fetch_after(), replies)
}

/// What it has asked for and was told by then.
pub open spec fn fetch_log(
    uuid: Seq<char>,
    dir: Seq<char>,
    replies: Seq<(EventView, Instant)>,
) -> Seq<Exchange> {
    trace::exchanges(DownloadVirtualBookView::start(uuid, dir), fetch_after(), replies)
}

/// Where the index stands on the server.
pub open spec fn index_place() -> Seq<char> {
    "/AudireReader/sync_data.json"@
}

/// Whether an index lists a book.
pub open spec fn lists(index: SyncDataFileView, uuid: Seq<char>) -> bool {
    exists|i: int| 0 <= i < index.books.len() && (#[trigger] index.books[i]).uuid == uuid
}

/// Whether an exchange tells what the index of the server is.
pub open spec fn tells_index(exchange: Exchange) -> bool {
    exchange.action is DecodeIndex && (exchange.event matches EventView::Index(Ok(_)))
}

/// Whether no index of the server is known.
pub open spec fn knows_no_index(log: Seq<Exchange>) -> bool {
    forall|i: int| 0 <= i < log.len() ==> !tells_index(#[trigger] log[i])
}

pub proof fn lemma_knows_no_index(log: Seq<Exchange>, last: Exchange)
    ensures
        knows_no_index(log) && !tells_index(last) ==> knows_no_index(log.push(last)),
{
    let all = log.push(last);
    if knows_no_index(log) && !tells_index(last) {
        assert forall|i: int| 0 <= i < all.len() implies !tells_index(#[trigger] all[i]) by {
            if i < log.len() {
                assert(!tells_index(log[i]));
            }
        }
    }
}

/// Whether an index is the one that the server has, or else, where none is known, a new one.
pub open spec fn is_base(log: Seq<Exchange>, index: SyncDataFileView) -> bool {
    ||| exists|bytes: Seq<u8>| #[trigger]
        trace::was_told(log, ActionView::DecodeIndex(bytes), EventView::Index(Ok(index)))
    ||| knows_no_index(log) && index.version == 1 && index.books.len() == 0 && index.deleted.len()
        == 0
}

/// Whether an entry tells what a book is.
pub open spec fn describes(item: SyncDataBookItemView, book: BookView) -> bool {
    &&& item.uuid == book.uuid
    &&& item.title == book.title
    &&& item.author == book.author
    &&& item.total_chapters == book.total_chapters
    &&& item.has_cover == (book.cover_path is Some)
    &&& book.cover_path is None ==> item.cover_extension is None
    &&& Instant::at_millis(book.date_added) matches Some(at) ==> item.date_added
        == time::rfc3339_text(at)
}

/// Whether an index is another one with an entry for a book at its end.
pub open spec fn extends(file: SyncDataFileView, base: SyncDataFileView, book: BookView) -> bool {
    &&& file.version == base.version
    &&& file.deleted == base.deleted
    &&& file.books.len() == base.books.len() + 1
    &&& forall|i: int| 0 <= i < base.books.len() ==> #[trigger] file.books[i] == base.books[i]
    &&& describes(file.books[base.books.len() as int], book)
}

spec fn is_told(log: Seq<Exchange>, uuid: Seq<char>, ok: bool) -> bool {
    trace::was_told_only(
        log,
        ActionView::Run(TaskView::ExportBook(uuid)),
        EventView::Flag(Ok(ok)),
    )
}

spec fn is_client(log: Seq<Exchange>, client: ClientView) -> bool {
    trace::was_told_only(
        log,
        ActionView::Run(TaskView::Client),
        EventView::Client(Ok(client)),
    )
}

/// What holds once the book was looked up.
spec fn is_amid(
    log: Seq<Exchange>,
    uuid: Seq<char>,
    ok: bool,
    client: ClientView,
    book: BookView,
) -> bool {
    &&& is_told(log, uuid, ok)
    &&& synced::is_followed(log, uuid)
    &&& is_client(log, client)
    &&& trace::was_told_only(log, ActionView::GetBook(uuid), EventView::Book(Ok(Some(book))))
    &&& trace::has_asked(log, ActionView::Exists(client, index_place()))
}

/// Whether an index is to be written down for a book.
pub open spec fn enters(
    log: Seq<Exchange>,
    uuid: Seq<char>,
    file: SyncDataFileView,
    base: SyncDataFileView,
    book: BookView,
) -> bool {
    &&& trace::was_told_only(log, ActionView::GetBook(uuid), EventView::Book(Ok(Some(book))))
    &&& is_base(log, base)
    &&& !lists(base, uuid)
    &&& extends(file, base, book)
    &&& log.len() > 0
    &&& file.last_sync_time == time::rfc3339_text(log.last().now)
}

/// Whether copying a book to the server has come to nothing: the book could not be copied, or a
/// reply of the wrong kind came, either to that or when all that belongs to the book had been synchronised.
pub open spec fn is_cut_short(log: Seq<Exchange>, uuid: Seq<char>, error: Seq<char>) -> bool {
    &&& log.len() > 0
    &&& {
        ||| log.last().action == ActionView::Run(TaskView::ExportBook(uuid)) && (log.last().event
            matches EventView::Flag(told) ==> told == Err::<bool, Seq<char>>(error))
        ||| log.last().action is CoverExtension && log.last().event !is Extension
            && synced::is_followed(log, uuid)
    }
}

spec fn story(
    log: Seq<Exchange>,
    m: MoveView<ForcePushBookView, SyncResultView>,
    id: Seq<char>,
) -> bool {
    match m {
        MoveView::Next(state, action) => match state {
            ForcePushBookView::Exported { uuid } => log.len() == 0 && uuid == id && knows_no_index(log)
                && action == ActionView::Run(TaskView::ExportBook(id)),
            ForcePushBookView::ProgressSynced { uuid, ok } => {
                &&& knows_no_index(log)
                &&& uuid == id && is_told(log, id, ok)
                &&& !trace::has_asked(log, ActionView::Run(TaskView::Client))
                &&& !trace::has_asked(log, ActionView::GetBook(id))
                &&& action == ActionView::Run(TaskView::SyncProgress(id))
            },
            ForcePushBookView::BookmarksSynced { uuid, ok } => {
                &&& knows_no_index(log)
                &&& uuid == id && is_told(log, id, ok)
                &&& !trace::has_asked(log, ActionView::Run(TaskView::Client))
                &&& !trace::has_asked(log, ActionView::GetBook(id))
                &&& trace::has_asked(log, ActionView::Run(TaskView::SyncProgress(id)))
                &&& action == ActionView::Run(TaskView::SyncBookmarks(id))
            },
            ForcePushBookView::HighlightsSynced { uuid, ok } => {
                &&& knows_no_index(log)
                &&& uuid == id && is_told(log, id, ok)
                &&& !trace::has_asked(log, ActionView::Run(TaskView::Client))
                &&& !trace::has_asked(log, ActionView::GetBook(id))
                &&& trace::has_asked(log, ActionView::Run(TaskView::SyncProgress(id)))
                &&& trace::has_asked(log, ActionView::Run(TaskView::SyncBookmarks(id)))
                &&& action == ActionView::Run(TaskView::SyncHighlights(id))
            },
            ForcePushBookView::Client { uuid, ok } => {
                &&& knows_no_index(log)
                &&& uuid == id && is_told(log, id, ok) && synced::is_followed(log, id)
                &&& !trace::has_asked(log, ActionView::Run(TaskView::Client))
                &&& !trace::has_asked(log, ActionView::GetBook(id))
                &&& action == ActionView::Run(TaskView::Client)
            },
            ForcePushBookView::Book { client, uuid, ok } => {
                &&& knows_no_index(log)
                &&& uuid == id && is_told(log, id, ok) && synced::is_followed(log, id)
                &&& is_client(log, client)
                &&& !trace::has_asked(log, ActionView::GetBook(id))
                &&& action == ActionView::GetBook(id)
            },
            ForcePushBookView::IndexLooked { client, uuid, ok, book } => {
                &&& knows_no_index(log)
                &&& uuid == id && is_told(log, id, ok) && synced::is_followed(log, id)
                &&& is_client(log, client)
                &&& trace::was_told_only(
                    log,
                    ActionView::GetBook(id),
                    EventView::Book(Ok(Some(book))),
                )
                &&& action == ActionView::Exists(client, index_place())
            },
            ForcePushBookView::IndexFetched { client, uuid, ok, book } => {
                &&& knows_no_index(log)
                &&& uuid == id && is_amid(log, id, ok, client, book)
                &&& action == ActionView::Download(client, index_place())
            },
            ForcePushBookView::IndexDecoded { client, uuid, ok, book } => {
                &&& knows_no_index(log)
                &&& uuid == id && is_amid(log, id, ok, client, book)
                &&& action matches ActionView::DecodeIndex(bytes) && pulled::has_brought(
                    log,
                    client,
                    index_place(),
                    bytes,
                )
            },
            ForcePushBookView::Extended { client, uuid, ok, book, index } => {
                &&& uuid == id && is_amid(log, id, ok, client, book)
                &&& is_base(log, index) && !lists(index, id)
                &&& action matches ActionView::CoverExtension(path) && book.cover_path == Some(path)
            },
            ForcePushBookView::IndexEncoded { client, uuid, ok } => {
                &&& uuid == id && is_told(log, id, ok) && synced::is_followed(log, id)
                &&& is_client(log, client) && trace::has_asked(
                    log,
                    ActionView::Run(TaskView::Client),
                )
                &&& action matches ActionView::EncodeIndex(file) && (exists|
                    base: SyncDataFileView,
                    book: BookView,
                |
                    #[trigger] enters(log, id, file, base, book))
            },
            ForcePushBookView::IndexSaved { uuid, ok } => {
                &&& uuid == id && is_told(log, id, ok) && synced::is_followed(log, id)
                &&& trace::has_asked(log, ActionView::Run(TaskView::Client))
                &&& log.len() > 0
                &&& action matches ActionView::Upload(client, path, bytes) && path == index_place()
                    && is_client(log, client) && log.last().action is EncodeIndex
                    && log.last().event == EventView::Bytes(Ok(bytes))
            },
            ForcePushBookView::Stamped { uuid, ok } => {
                &&& trace::has_asked(log, ActionView::Run(TaskView::Client))
                &&& uuid == id && ok && is_told(log, id, ok) && synced::is_followed(log, id)
                &&& action == ActionView::Run(TaskView::RecordTimestamp)
            },
        },
        MoveView::End(Ok(result)) => {
            &&& is_told(log, id, result.success)
            &&& synced::is_followed(log, id)
            &&& result.message == "Pushed book "@ + id + " to cloud"@
            &&& !result.local_changed
            &&& result.success ==> trace::has_asked(log, ActionView::Run(TaskView::RecordTimestamp))
            &&& trace::has_asked(log, ActionView::Run(TaskView::Client))
        },
        MoveView::End(Err(e)) => is_cut_short(log, id, e),
    }
}

proof fn lemma_entered(
    log: Seq<Exchange>,
    client: ClientView,
    uuid: Seq<char>,
    ok: bool,
    book: BookView,
    index: SyncDataFileView,
    extension: Option<Seq<char>>,
    now: Instant,
)
    requires
        is_amid(log, uuid, ok, client, book),
        is_base(log, index),
        !lists(index, uuid),
        log.last().now == now,
        log.len() > 0,
        book.cover_path is None ==> extension is None,
    ensures
        story(log, ForcePushBookView::enter(client, uuid, ok, book, index, extension, now), uuid),
{
    let next = ForcePushBookView::enter(client, uuid, ok, book, index, extension, now);
    let file = next->1->EncodeIndex_0;
    assert(enters(log, uuid, file, index, book));
}

proof fn lemma_listed(
    log: Seq<Exchange>,
    client: ClientView,
    uuid: Seq<char>,
    ok: bool,
    book: BookView,
    index: SyncDataFileView,
    now: Instant,
)
    requires
        is_amid(log, uuid, ok, client, book),
        is_base(log, index),
        log.last().now == now,
        log.len() > 0,
    ensures
        story(log, ForcePushBookView::list(client, uuid, ok, book, index, now), uuid),
{
    if !lists(index, uuid) && book.cover_path is None {
        lemma_entered(log, client, uuid, ok, book, index, None, now);
    }
}

#[verifier::rlimit(40)]
proof fn lemma_step(
    log: Seq<Exchange>,
    state: ForcePushBookView,
    action: ActionView,
    event: EventView,
    now: Instant,
    id: Seq<char>,
)
    requires
        story(log, MoveView::Next(state, action), id),
    ensures
        story(log.push(Exchange { action, event, now }), state.after(event, now), id),
{
    let last = Exchange { action, event, now };
    let all = log.push(last);
    trace::lemma_all_grows(log, last);
    lemma_knows_no_index(log, last);
    match state {
        ForcePushBookView::IndexLooked { client, uuid, ok, book } => {
            let index = crate::index::empty_index(now);
            lemma_listed(all, client, uuid, ok, book, index, now);
        },
        ForcePushBookView::IndexFetched { client, uuid, ok, book } => {
            let index = crate::index::empty_index(now);
            lemma_listed(all, client, uuid, ok, book, index, now);
        },
        ForcePushBookView::IndexDecoded { client, uuid, ok, book } => {
            if !tells_index(last) {
                let index = crate::index::empty_index(now);
                lemma_listed(all, client, uuid, ok, book, index, now);
            }
            if let EventView::Index(Ok(index)) = event {
                assert(trace::was_told(
                    all,
                    ActionView::DecodeIndex(action->DecodeIndex_0),
                    EventView::Index(Ok(index)),
                ));
                lemma_listed(all, client, uuid, ok, book, index, now);
            }
        },
        ForcePushBookView::Extended { client, uuid, ok, book, index } => {
            assert(is_base(all, index)) by {
                if exists|bytes: Seq<u8>| #[trigger]
                    trace::was_told(
                        log,
                        ActionView::DecodeIndex(bytes),
                        EventView::Index(Ok(index)),
                    ) {
                    let bytes = choose|bytes: Seq<u8>| #[trigger]
                        trace::was_told(
                            log,
                            ActionView::DecodeIndex(bytes),
                            EventView::Index(Ok(index)),
                        );
                    assert(trace::was_told(
                        all,
                        ActionView::DecodeIndex(bytes),
                        EventView::Index(Ok(index)),
                    ));
                }
            }
            if let EventView::Extension(extension) = event {
                lemma_entered(all, client, uuid, ok, book, index, extension, now);
            }
        },
        _ => {},
    }
}

proof fn lemma_story(uuid: Seq<char>, replies: Seq<(EventView, Instant)>)
    ensures
        story(push_log(uuid, replies), push_run(uuid, replies), uuid),
{
    let holds = |log: Seq<Exchange>, m: MoveView<ForcePushBookView, SyncResultView>|
        story(log, m, uuid);
    assert forall|
        log: Seq<Exchange>,
        state: ForcePushBookView,
        action: ActionView,
        event: EventView,
        now: Instant,
    |
        #![trigger holds(log, MoveView::Next(state, action)), push_after()(state, event, now)]
        holds(log, MoveView::Next(state, action)) implies holds(
        log.push(Exchange { action, event, now }),
        push_after()(state, event, now),
    ) by {
        lemma_step(log, state, action, event, now, uuid);
    }
    trace::lemma_story(ForcePushBookView::start(uuid), push_after(), holds, replies);
}

/// Copying a book to the server ends in a report, unless the book could not be copied. By then the
/// progress, the bookmarks and the highlights of that very book were synchronised. The report tells
/// whether the book was copied, and if it was, the settings were told.
pub proof fn law_a_pushed_book_is_synchronised(uuid: Seq<char>, replies: Seq<(EventView, Instant)>)
    ensures
        push_run(uuid, replies) matches MoveView::End(Ok(result)) ==> {
            let log = push_log(uuid, replies);
            &&& trace::was_told_only(
                log,
                ActionView::Run(TaskView::ExportBook(uuid)),
                EventView::Flag(Ok(result.success)),
            )
            &&& trace::has_asked(log, ActionView::Run(TaskView::SyncProgress(uuid)))
            &&& trace::has_asked(log, ActionView::Run(TaskView::SyncBookmarks(uuid)))
            &&& trace::has_asked(log, ActionView::Run(TaskView::SyncHighlights(uuid)))
            &&& result.success ==> trace::has_asked(
                log,
                ActionView::Run(TaskView::RecordTimestamp),
            )
            &&& trace::has_asked(log, ActionView::Run(TaskView::Client))
            &&& result.message == "Pushed book "@ + uuid + " to cloud"@
            &&& !result.local_changed
        },
        push_run(uuid, replies) matches MoveView::End(Err(e)) ==> is_cut_short(
            push_log(uuid, replies),
            uuid,
            e,
        ),
{
    lemma_story(uuid, replies);
}

/// The index that is sent for a pushed book is the one that the server has, or else a new one, which
/// does not list the book yet, with one more entry at its end that describes the book, and
/// nothing else but its date changed.
pub proof fn law_a_pushed_book_is_entered(
    uuid: Seq<char>,
    replies: Seq<(EventView, Instant)>,
    reply: (EventView, Instant),
)
    ensures
        ({
            let log = push_log(uuid, replies);
            let now = push_run(uuid, replies);
            let next = push_run(uuid, replies.push(reply));
            &&& now matches MoveView::Next(_, ActionView::Run(TaskView::Client)) ==> (
            reply.0 matches EventView::Client(Ok(client)) ==> trace::asks(
                next,
                ActionView::GetBook(uuid),
            ))
            &&& now matches MoveView::Next(_, ActionView::GetBook(_)) ==> (
            reply.0 matches EventView::Book(Ok(Some(book))) ==> (next matches MoveView::Next(
                _,
                ActionView::Exists(_, path),
            ) && path == "/AudireReader/sync_data.json"@))
            &&& now matches MoveView::Next(_, ActionView::Exists(client, path)) ==> if reply.0
                == EventView::Flag(Ok(true)) {
                trace::asks(next, ActionView::Download(client, path))
            } else {
                next matches MoveView::Next(_, action) && (action is CoverExtension
                    || action is EncodeIndex)
            }
            &&& now matches MoveView::Next(_, ActionView::Download(_, _)) ==> (
            reply.0 matches EventView::Bytes(Ok(bytes)) ==> trace::asks(
                next,
                ActionView::DecodeIndex(bytes),
            ))
            &&& now matches MoveView::Next(_, ActionView::EncodeIndex(file)) ==> exists|
                base: SyncDataFileView,
                book: BookView,
            |
                #[trigger] enters(log, uuid, file, base, book)
            &&& now matches MoveView::Next(_, ActionView::EncodeIndex(file)) ==> (
            reply.0 matches EventView::Bytes(Ok(bytes)) ==> (next matches MoveView::Next(
                _,
                ActionView::Upload(client, path, sent),
            ) && path == "/AudireReader/sync_data.json"@ && sent == bytes))
            &&& now matches MoveView::Next(_, ActionView::DecodeIndex(bytes)) ==> (
            reply.0 matches EventView::Index(Ok(index)) ==> (!lists(index, uuid) ==> (next
                matches MoveView::Next(_, action) && (action is CoverExtension
                || action is EncodeIndex))))
            &&& now matches MoveView::Next(_, ActionView::CoverExtension(path)) ==> (
            reply.0 matches EventView::Extension(Some(extension)) ==> (next matches MoveView::Next(
                _,
                ActionView::EncodeIndex(file),
            ) && file.books.last().cover_extension == Some("."@ + extension)))
        }),
{
    lemma_story(uuid, replies);
    trace::lemma_one_more(ForcePushBookView::start(uuid), push_after(), replies, reply);
}

/// Copying a book to the server leaves this device to the tasks that synchronise it: nothing is
/// saved, replaced or deleted here, and nothing is removed there.
pub proof fn law_pushing_a_book_only_sends(uuid: Seq<char>, replies: Seq<(EventView, Instant)>)
    ensures
        push_run(uuid, replies) matches MoveView::Next(_, action) ==> match action {
            ActionView::GetBook(id) => id == uuid,
            ActionView::Exists(_, path) => path == "/AudireReader/sync_data.json"@,
            ActionView::Download(_, path) => path == "/AudireReader/sync_data.json"@,
            ActionView::Upload(_, path, _) => path == "/AudireReader/sync_data.json"@,
            ActionView::DecodeIndex(_) => true,
            ActionView::CoverExtension(_) => true,
            ActionView::EncodeIndex(_) => true,
            ActionView::Run(task) => {
                ||| task == TaskView::ExportBook(uuid)
                ||| task == TaskView::SyncProgress(uuid)
                ||| task == TaskView::SyncBookmarks(uuid)
                ||| task == TaskView::SyncHighlights(uuid)
                ||| task == TaskView::Client
                ||| task == TaskView::RecordTimestamp
            },
            _ => false,
        },
{
    lemma_story(uuid, replies);
}

spec fn pull_story(
    log: Seq<Exchange>,
    m: MoveView<ForcePullBookView, SyncResultView>,
    id: Seq<char>,
    dir: Seq<char>,
) -> bool {
    let copy = ActionView::Run(TaskView::ImportBook(id, dir));
    match m {
        MoveView::Next(state, action) => match state {
            ForcePullBookView::Imported { uuid } => uuid == id && action == copy,
            ForcePullBookView::ProgressSynced { uuid } => uuid == id && trace::has_asked(log, copy)
                && action == ActionView::Run(TaskView::SyncProgress(id)),
            ForcePullBookView::BookmarksSynced { uuid } => {
                &&& uuid == id && trace::has_asked(log, copy)
                &&& trace::has_asked(log, ActionView::Run(TaskView::SyncProgress(id)))
                &&& action == ActionView::Run(TaskView::SyncBookmarks(id))
            },
            ForcePullBookView::HighlightsSynced { uuid } => {
                &&& uuid == id && trace::has_asked(log, copy)
                &&& trace::has_asked(log, ActionView::Run(TaskView::SyncProgress(id)))
                &&& trace::has_asked(log, ActionView::Run(TaskView::SyncBookmarks(id)))
                &&& action == ActionView::Run(TaskView::SyncHighlights(id))
            },
            ForcePullBookView::Stamped { uuid } => {
                &&& uuid == id && trace::has_asked(log, copy)
                &&& synced::is_followed(log, id)
                &&& action == ActionView::Run(TaskView::RecordTimestamp)
            },
        },
        MoveView::End(Ok(result)) => {
            &&& trace::has_asked(log, copy)
            &&& synced::is_followed(log, id)
            &&& trace::has_asked(log, ActionView::Run(TaskView::RecordTimestamp))
            &&& result.success && result.local_changed
            &&& result.message == "Pulled book "@ + id + " from cloud"@
        },
        MoveView::End(Err(e)) => log.len() > 0 && log.last().action == copy && (log.last().event
            matches EventView::Imported(told) ==> told == Err::<BookView, Seq<char>>(e)),
    }
}

/// Copying a book from the server ends in a report, unless the book could not be copied. By then that
/// book was copied into the folder, its progress, its bookmarks and its highlights were
/// synchronised, and the settings were told.
pub proof fn law_a_pulled_book_is_synchronised(
    uuid: Seq<char>,
    dir: Seq<char>,
    replies: Seq<(EventView, Instant)>,
)
    ensures
        pull_run(uuid, dir, replies) matches MoveView::End(Ok(result)) ==> {
            let log = pull_log(uuid, dir, replies);
            &&& trace::has_asked(log, ActionView::Run(TaskView::ImportBook(uuid, dir)))
            &&& trace::has_asked(log, ActionView::Run(TaskView::SyncProgress(uuid)))
            &&& trace::has_asked(log, ActionView::Run(TaskView::SyncBookmarks(uuid)))
            &&& trace::has_asked(log, ActionView::Run(TaskView::SyncHighlights(uuid)))
            &&& trace::has_asked(log, ActionView::Run(TaskView::RecordTimestamp))
            &&& result.success && result.local_changed
            &&& result.message == "Pulled book "@ + uuid + " from cloud"@
        },
        pull_run(uuid, dir, replies) matches MoveView::End(Err(e)) ==> {
            let log = pull_log(uuid, dir, replies);
            &&& log.len() > 0
            &&& log.last().action == ActionView::Run(TaskView::ImportBook(uuid, dir))
            &&& log.last().event matches EventView::Imported(told) ==> told == Err::<
                BookView,
                Seq<char>,
            >(e)
        },
{
    let holds = |log: Seq<Exchange>, m: MoveView<ForcePullBookView, SyncResultView>|
        pull_story(log, m, uuid, dir);
    assert forall|
        log: Seq<Exchange>,
        state: ForcePullBookView,
        action: ActionView,
        event: EventView,
        now: Instant,
    |
        #![trigger holds(log, MoveView::Next(state, action)), pull_after()(state, event, now)]
        holds(log, MoveView::Next(state, action)) implies holds(
        log.push(Exchange { action, event, now }),
        pull_after()(state, event, now),
    ) by {
        trace::lemma_all_grows(log, Exchange { action, event, now });
    }
    trace::lemma_story(ForcePullBookView::start(uuid, dir), pull_after(), holds, replies);
}

/// Whether a book was copied from the server, and what belongs to it synchronised.
pub open spec fn is_fetched(
    log: Seq<Exchange>,
    uuid: Seq<char>,
    dir: Seq<char>,
    book: BookView,
) -> bool {
    &&& trace::was_told(
        log,
        ActionView::Run(TaskView::ImportBook(uuid, dir)),
        EventView::Imported(Ok(book)),
    )
    &&& trace::has_asked(log, ActionView::Run(TaskView::SyncProgress(book.uuid)))
}

spec fn fetch_story(
    log: Seq<Exchange>,
    m: MoveView<DownloadVirtualBookView, SyncResultView>,
    id: Seq<char>,
    dir: Seq<char>,
) -> bool {
    let copy = ActionView::Run(TaskView::ImportBook(id, dir));
    match m {
        MoveView::Next(state, action) => match state {
            DownloadVirtualBookView::Imported => action == copy,
            DownloadVirtualBookView::ProgressSynced { title } => exists|book: BookView|
                book.title == title && action == ActionView::Run(TaskView::SyncProgress(book.uuid))
                    && #[trigger] trace::was_told(log, copy, EventView::Imported(Ok(book))),
            DownloadVirtualBookView::Stamped { title } => {
                &&& action == ActionView::Run(TaskView::RecordTimestamp)
                &&& exists|book: BookView|
                    book.title == title && #[trigger] is_fetched(log, id, dir, book)
            },
        },
        MoveView::End(Ok(result)) => {
            &&& result.success && result.local_changed
            &&& trace::has_asked(log, ActionView::Run(TaskView::RecordTimestamp))
            &&& exists|book: BookView|
                result.message == "Downloaded virtual book "@ + book.title && #[trigger] is_fetched(
                    log,
                    id,
                    dir,
                    book,
                )
        },
        MoveView::End(Err(e)) => log.len() > 0 && log.last().action == copy && (log.last().event
            matches EventView::Imported(told) ==> told == Err::<BookView, Seq<char>>(e)),
    }
}

/// Fetching a book that is only listed ends in a report that names its title, unless the book could
/// not be copied. By then that book was copied into the folder, its progress was synchronised,
/// and the settings were told.
pub proof fn law_a_listed_book_is_fetched(
    uuid: Seq<char>,
    dir: Seq<char>,
    replies: Seq<(EventView, Instant)>,
)
    ensures
        fetch_run(uuid, dir, replies) matches MoveView::End(Ok(result)) ==> {
            let log = fetch_log(uuid, dir, replies);
            &&& result.success && result.local_changed
            &&& trace::has_asked(log, ActionView::Run(TaskView::RecordTimestamp))
            &&& exists|book: BookView|
                result.message == "Downloaded virtual book "@ + book.title && #[trigger] is_fetched(
                    log,
                    uuid,
                    dir,
                    book,
                )
        },
        fetch_run(uuid, dir, replies) matches MoveView::End(Err(e)) ==> {
            let log = fetch_log(uuid, dir, replies);
            &&& log.len() > 0
            &&& log.last().action == ActionView::Run(TaskView::ImportBook(uuid, dir))
            &&& log.last().event matches EventView::Imported(told) ==> told == Err::<
                BookView,
                Seq<char>,
            >(e)
        },
{
    let copy = ActionView::Run(TaskView::ImportBook(uuid, dir));
    let holds = |log: Seq<Exchange>, m: MoveView<DownloadVirtualBookView, SyncResultView>|
        fetch_story(log, m, uuid, dir);
    assert forall|
        log: Seq<Exchange>,
        state: DownloadVirtualBookView,
        action: ActionView,
        event: EventView,
        now: Instant,
    |
        #![trigger holds(log, MoveView::Next(state, action)), fetch_after()(state, event, now)]
        holds(log, MoveView::Next(state, action)) implies holds(
        log.push(Exchange { action, event, now }),
        fetch_after()(state, event, now),
    ) by {
        let last = Exchange { action, event, now };
        let all = log.push(last);
        trace::lemma_all_grows(log, last);
        match state {
            DownloadVirtualBookView::Imported => {
                if let EventView::Imported(Ok(book)) = event {
                    assert(trace::was_told(all, copy, EventView::Imported(Ok(book))));
                }
            },
            DownloadVirtualBookView::ProgressSynced { title } => {
                let book = choose|book: BookView|
                    book.title == title && action == ActionView::Run(
                        TaskView::SyncProgress(book.uuid),
                    ) && #[trigger] trace::was_told(log, copy, EventView::Imported(Ok(book)));
                assert(is_fetched(all, uuid, dir, book));
            },
            DownloadVirtualBookView::Stamped { title } => {
                let book = choose|book: BookView|
                    book.title == title && #[trigger] is_fetched(log, uuid, dir, book);
                assert(is_fetched(all, uuid, dir, book));
            },
        }
    }
    trace::lemma_story(DownloadVirtualBookView::start(uuid, dir), fetch_after(), holds, replies);
}

} // verus!
