//! What holds of copying a book from the server, of what is asked for and told, whatever the replies
//! are.
use vstd::prelude::*;

use crate::client::ClientView;
use crate::codec;
use crate::laws::books;
use crate::laws::trace;
use crate::laws::trace::Exchange;
use crate::models::{BookView, ChapterView};
use crate::number;
use crate::payload::SyncBookPayloadView;
use crate::protocol::{ActionView, EventView, LocalFileView, MoveView, TaskView};
use crate::tasks::import;
use crate::tasks::import::ImportBookView;
use crate::time;
use crate::time::Instant;
use crate::world;

verus! {

/// Where copying a book has come to after some replies.
pub open spec fn import_run(
    uuid: Seq<char>,
    dir: Seq<char>,
    replies: Seq<(EventView, Instant)>,
) -> MoveView<ImportBookView, BookView> {
    world::brought_to(ImportBookView::start(uuid, dir), books::import_after(), replies)
}

/// What it has asked for and was told by then.
pub open spec fn import_log(
    uuid: Seq<char>,
    dir: Seq<char>,
    replies: Seq<(EventView, Instant)>,
) -> Seq<Exchange> {
    trace::exchanges(ImportBookView::start(uuid, dir), books::import_after(), replies)
}

/// Where the contents of a book may stand on the server.
pub open spec fn place(uuid: Seq<char>, k: int) -> Seq<char> {
    if k == 0 {
        "/AudireReader/books/"@ + uuid + ".json.gz"@
    } else if k == 1 {
        "/AudireReader/books/"@ + uuid + ".json"@
    } else if k == 2 {
        "/NovelReader/books/"@ + uuid + ".json.gz"@
    } else {
        "/NovelReader/books/"@ + uuid + ".json"@
    }
}

/// Asking for the contents of a book in one place after the other.
pub open spec fn fetches_of(client: ClientView, uuid: Seq<char>) -> spec_fn(int) -> ActionView {
    |k: int| ActionView::Download(client, place(uuid, k))
}

/// Whether a book is the one that the server stores, unread and without tags.
pub open spec fn restores(book: BookView, payload: SyncBookPayloadView) -> bool {
    &&& book.id is None
    &&& book.uuid == payload.uuid
    &&& book.title == payload.title
    &&& book.author == payload.author
    &&& book.total_chapters == payload.total_chapters
    &&& time::rfc3339_instant(payload.date_added) matches Some(at) ==> book.date_added
        == at.millis() as i64
    &&& book.status == "unread"@
    &&& book.tags.len() == 0
}

/// Whether chapters are those that the server stores, all of them, in their order.
pub open spec fn restores_chapters(chapters: Seq<ChapterView>, payload: SyncBookPayloadView) -> bool {
    &&& chapters.len() == payload.chapters.len()
    &&& forall|i: int|
        #![trigger chapters[i]]
        0 <= i < chapters.len() ==> {
            &&& chapters[i].id is None
            &&& chapters[i].book_uuid == payload.uuid
            &&& chapters[i].chapter_index == payload.chapters[i].chapter_index
            &&& chapters[i].title == payload.chapters[i].title
            &&& chapters[i].paragraphs == payload.chapters[i].paragraphs
        }
}

/// Whether the contents of a book were read.
pub open spec fn is_read(log: Seq<Exchange>, payload: SyncBookPayloadView) -> bool {
    exists|json: Seq<u8>| #[trigger]
        trace::was_told(log, ActionView::DecodeBook(json), EventView::BookPayload(Ok(payload)))
}

/// Whether a book that was read has gone into the library, with its chapters.
pub open spec fn is_inserted(
    log: Seq<Exchange>,
    book: BookView,
    chapters: Seq<ChapterView>,
    payload: SyncBookPayloadView,
) -> bool {
    &&& is_read(log, payload)
    &&& restores(book, payload)
    &&& restores_chapters(chapters, payload)
    &&& trace::has_asked(log, ActionView::InsertBook(book))
    &&& trace::has_asked(log, ActionView::InsertChapters(chapters))
}

/// An extension with one dot before it.
pub open spec fn with_dot(extension: Seq<char>) -> Seq<char> {
    if extension.len() > 0 && extension[0] == '.' {
        extension
    } else {
        seq!['.'] + extension
    }
}

/// Where the cover of a book stands on the server.
pub open spec fn cover_place(uuid: Seq<char>, extension: Seq<char>) -> Seq<char> {
    "/AudireReader/covers/"@ + uuid + with_dot(extension)
}

/// Whether a book that was read is ready to go into the library.
spec fn is_ready(
    log: Seq<Exchange>,
    book: BookView,
    chapters: Seq<ChapterView>,
    payload: SyncBookPayloadView,
) -> bool {
    &&& is_read(log, payload)
    &&& restores(book, payload)
    &&& restores_chapters(chapters, payload)
}

spec fn ready(log: Seq<Exchange>, book: BookView, chapters: Seq<ChapterView>) -> bool {
    exists|payload: SyncBookPayloadView| #[trigger] is_ready(log, book, chapters, payload)
}

/// Whether a book has gone into the library.
pub open spec fn has_inserted(log: Seq<Exchange>, book: BookView) -> bool {
    exists|chapters: Seq<ChapterView>, payload: SyncBookPayloadView| #[trigger]
        is_inserted(log, book, chapters, payload)
}

spec fn is_client(log: Seq<Exchange>, client: ClientView) -> bool {
    trace::was_told_only(
        log,
        ActionView::Run(TaskView::Client),
        EventView::Client(Ok(client)),
    )
}

/// The message for contents that are missing or empty.
pub open spec fn missing_message(uuid: Seq<char>) -> Seq<char> {
    "File nội dung truyện '"@ + uuid
        + "' trên WebDAV bị thiếu hoặc rỗng (0 bytes). Vui lòng mở thiết bị có truyện và bấm 'Đồng bộ' (hoặc 'Đẩy lên Cloud') để tải lại nội dung."@
}

spec fn story(
    log: Seq<Exchange>,
    m: MoveView<ImportBookView, BookView>,
    id: Seq<char>,
    folder: Seq<char>,
) -> bool {
    match m {
        MoveView::Next(state, action) => match state {
            ImportBookView::Client { uuid, dir } => log.len() == 0 && uuid == id && dir == folder
                && action == ActionView::Run(TaskView::Client),
            ImportBookView::Contents { client, uuid, dir, tried } => {
                &&& uuid == id && dir == folder && is_client(log, client) && 1 <= tried <= 4
                &&& trace::asked_all(log, fetches_of(client, id), tried - 1)
                &&& action == fetches_of(client, id)(tried - 1)
            },
            ImportBookView::Decoded { client, uuid, dir, received } => {
                &&& uuid == id && dir == folder && is_client(log, client)
                &&& action matches ActionView::DecodeBook(json) && json.len() == received
            },
            ImportBookView::Cover { client, uuid, dir, payload, extension } => {
                &&& uuid == id && dir == folder && is_client(log, client)
                &&& is_read(log, payload)
                &&& payload.cover_extension matches Some(given) && extension == with_dot(given)
                    && action == ActionView::Exists(client, cover_place(id, given))
            },
            ImportBookView::Placed { client, remote, payload } => {
                &&& is_client(log, client) && is_read(log, payload)
                &&& payload.cover_extension matches Some(given) && remote == cover_place(id, given)
                    && action == ActionView::Locate(
                    LocalFileView { dir: folder, folder: "covers"@, name: id + with_dot(given) },
                )
            },
            ImportBookView::Fetched { payload, path } => {
                &&& is_read(log, payload)
                &&& payload.cover_extension matches Some(given) && (action matches ActionView::Run(
                    TaskView::DownloadFile(client, remote, local),
                ) && local == path && remote == cover_place(id, given) && is_client(log, client))
            },
            ImportBookView::Book { book, chapters } => {
                &&& action == ActionView::InsertBook(book)
                &&& ready(log, book, chapters)
            },
            ImportBookView::Chapters { book } => {
                &&& action matches ActionView::InsertChapters(chapters) && ready(
                    log,
                    book,
                    chapters,
                ) && trace::has_asked(log, ActionView::InsertBook(book))
            },
            ImportBookView::Shrunk { book } => action == ActionView::ShrinkMemory && has_inserted(
                log,
                book,
            ),
        },
        MoveView::End(Ok(book)) => has_inserted(log, book) && trace::has_asked(
            log,
            ActionView::ShrinkMemory,
        ),
        MoveView::End(Err(_)) => true,
    }
}

proof fn lemma_dotted(extension: Seq<char>)
    ensures
        import::dotted(extension) == with_dot(extension),
{
    reveal_strlit(".");
    assert("."@ =~= seq!['.']);
    if extension.len() > 0 && extension[0] == '.' {
        assert("."@.is_prefix_of(extension));
    }
    if "."@.is_prefix_of(extension) {
        assert(extension.subrange(0, 1)[0] == "."@[0]);
    }
}

proof fn lemma_read_grows(log: Seq<Exchange>, last: Exchange, payload: SyncBookPayloadView)
    ensures
        is_read(log, payload) ==> is_read(log.push(last), payload),
        last.action is DecodeBook && last.event == EventView::BookPayload(Ok(payload)) ==> is_read(
            log.push(last),
            payload,
        ),
{
    trace::lemma_all_grows(log, last);
    let all = log.push(last);
    if is_read(log, payload) {
        let json = choose|json: Seq<u8>| #[trigger]
            trace::was_told(log, ActionView::DecodeBook(json), EventView::BookPayload(Ok(payload)));
        assert(trace::was_told(
            all,
            ActionView::DecodeBook(json),
            EventView::BookPayload(Ok(payload)),
        ));
    }
    if last.action is DecodeBook && last.event == EventView::BookPayload(Ok(payload)) {
        let json = last.action->DecodeBook_0;
        assert(trace::was_told(
            all,
            ActionView::DecodeBook(json),
            EventView::BookPayload(Ok(payload)),
        ));
    }
}

proof fn lemma_insert(
    log: Seq<Exchange>,
    payload: SyncBookPayloadView,
    cover: Option<Seq<char>>,
    now: Instant,
    id: Seq<char>,
    dir: Seq<char>,
)
    requires
        is_read(log, payload),
    ensures
        story(log, ImportBookView::insert(payload, cover, now), id, dir),
{
    let book = crate::contents::restored_book(payload, cover, now);
    let chapters = crate::contents::restored_chapters(payload);
    assert(is_ready(log, book, chapters, payload));
}

#[verifier::rlimit(40)]
proof fn lemma_step(
    log: Seq<Exchange>,
    state: ImportBookView,
    action: ActionView,
    event: EventView,
    now: Instant,
    id: Seq<char>,
    dir: Seq<char>,
)
    requires
        story(log, MoveView::Next(state, action), id, dir),
    ensures
        story(log.push(Exchange { action, event, now }), state.after(event, now), id, dir),
{
    let last = Exchange { action, event, now };
    let all = log.push(last);
    trace::lemma_all_grows(log, last);
    match state {
        ImportBookView::Contents { client, tried, .. } => {
            trace::lemma_asked_all(log, last, fetches_of(client, id), tried - 1);
        },
        ImportBookView::Decoded { .. } => {
            if let EventView::BookPayload(Ok(payload)) = event {
                lemma_read_grows(log, last, payload);
                match payload.cover_extension {
                    Some(extension) => {
                        lemma_dotted(extension);
                    },
                    None => {
                        lemma_insert(all, payload, None, now, id, dir);
                    },
                }
            }
        },
        ImportBookView::Cover { payload, .. } => {
            lemma_read_grows(log, last, payload);
            lemma_insert(all, payload, None, now, id, dir);
        },
        ImportBookView::Placed { payload, .. } => {
            lemma_read_grows(log, last, payload);
        },
        ImportBookView::Fetched { payload, path } => {
            lemma_read_grows(log, last, payload);
            lemma_insert(all, payload, None, now, id, dir);
            lemma_insert(all, payload, Some(path), now, id, dir);
        },
        ImportBookView::Book { book, chapters } => {
            let payload = choose|payload: SyncBookPayloadView| #[trigger]
                is_ready(log, book, chapters, payload);
            lemma_read_grows(log, last, payload);
            assert(is_ready(all, book, chapters, payload));
        },
        ImportBookView::Chapters { book } => {
            let chapters = action->InsertChapters_0;
            let payload = choose|payload: SyncBookPayloadView| #[trigger]
                is_ready(log, book, chapters, payload);
            lemma_read_grows(log, last, payload);
            assert(is_inserted(all, book, chapters, payload));
        },
        ImportBookView::Shrunk { book } => {
            let (chapters, payload) = choose|
                chapters: Seq<ChapterView>,
                payload: SyncBookPayloadView,
            |
                #[trigger] is_inserted(log, book, chapters, payload);
            lemma_read_grows(log, last, payload);
            assert(is_inserted(all, book, chapters, payload));
        },
        _ => {},
    }
}

proof fn lemma_story(uuid: Seq<char>, dir: Seq<char>, replies: Seq<(EventView, Instant)>)
    ensures
        story(import_log(uuid, dir, replies), import_run(uuid, dir, replies), uuid, dir),
{
    let after = books::import_after();
    let holds = |log: Seq<Exchange>, m: MoveView<ImportBookView, BookView>|
        story(log, m, uuid, dir);
    assert forall|
        log: Seq<Exchange>,
        state: ImportBookView,
        action: ActionView,
        event: EventView,
        now: Instant,
    |
        #![trigger holds(log, MoveView::Next(state, action)), after(state, event, now)]
        holds(log, MoveView::Next(state, action)) implies holds(
        log.push(Exchange { action, event, now }),
        after(state, event, now),
    ) by {
        lemma_step(log, state, action, event, now, uuid, dir);
    }
    trace::lemma_story(ImportBookView::start(uuid, dir), after, holds, replies);
}

/// Copying a book that succeeds has put the book into the library that was read from the contents on
/// the server, with all its chapters, and it is what comes out.
pub proof fn law_the_whole_book_is_inserted(
    uuid: Seq<char>,
    dir: Seq<char>,
    replies: Seq<(EventView, Instant)>,
)
    ensures
        import_run(uuid, dir, replies) matches MoveView::End(Ok(book)) ==> has_inserted(
            import_log(uuid, dir, replies),
            book,
        ) && trace::has_asked(import_log(uuid, dir, replies), ActionView::ShrinkMemory),
{
    lemma_story(uuid, dir, replies);
}

/// The contents are asked for in one place after the other until there are any: packed or not, and
/// where an earlier release kept them. What is found is unpacked, if it is packed, and read. If
/// nothing is found, the message says so.
pub proof fn law_contents_are_looked_for(
    uuid: Seq<char>,
    dir: Seq<char>,
    replies: Seq<(EventView, Instant)>,
    reply: (EventView, Instant),
)
    ensures
        ({
            let log = import_log(uuid, dir, replies);
            let now = import_run(uuid, dir, replies);
            let next = import_run(uuid, dir, replies.push(reply));
            &&& replies.len() == 0 ==> trace::asks(now, ActionView::Run(TaskView::Client))
            &&& now matches MoveView::Next(_, ActionView::Run(TaskView::Client)) ==> (
            reply.0 matches EventView::Client(Ok(client)) ==> trace::asks(
                next,
                ActionView::Download(client, place(uuid, 0)),
            ))
            &&& now matches MoveView::Next(_, ActionView::Download(client, path)) ==> exists|
                k: int,
            |
                #![trigger place(uuid, k)]
                0 <= k < 4 && path == place(uuid, k) && if reply.0 matches EventView::Bytes(Ok(file))
                    && file.len() > 0 {
                    is_unpacked(next, uuid, reply.0->Bytes_0->Ok_0)
                } else if k < 3 {
                    trace::asks(next, ActionView::Download(client, place(uuid, k + 1)))
                } else {
                    next == MoveView::<ImportBookView, BookView>::End(Err(missing_message(uuid)))
                }
        }),
{
    lemma_story(uuid, dir, replies);
    trace::lemma_one_more(ImportBookView::start(uuid, dir), books::import_after(), replies, reply);
    if let MoveView::Next(state, ActionView::Download(client, path)) = import_run(
        uuid,
        dir,
        replies,
    ) {
        let k = state->Contents_tried - 1;
        assert(path == place(uuid, k));
        if k < 3 {
            assert(fetches_of(client, uuid)(k + 1) == ActionView::Download(
                client,
                place(uuid, k + 1),
            ));
        }
    }
}

/// Whether what was found is read next, unpacked if it is packed, or else the reason why not is told.
pub open spec fn is_unpacked(
    next: MoveView<ImportBookView, BookView>,
    uuid: Seq<char>,
    file: Seq<u8>,
) -> bool {
    if file.len() >= 2 && file[0] == 0x1f && file[1] == 0x8b {
        match codec::gzip_decoding(file) {
            Ok(json) => if json.len() > 0 {
                trace::asks(next, ActionView::DecodeBook(json))
            } else {
                next == MoveView::<ImportBookView, BookView>::End(
                    Err("Decoded JSON data for book '"@ + uuid + "' is empty (0 bytes)"@),
                )
            },
            Err(e) => next == MoveView::<ImportBookView, BookView>::End(
                Err("Failed to decompress gzip book data: "@ + e),
            ),
        }
    } else {
        trace::asks(next, ActionView::DecodeBook(file))
    }
}

/// The cover of a book that has one is looked for in its place on the server, and fetched into the
/// folder of covers, under the book's name. The book goes into the library with that cover if it was fetched,
/// and else without one.
pub proof fn law_the_cover_comes_along(
    uuid: Seq<char>,
    dir: Seq<char>,
    replies: Seq<(EventView, Instant)>,
    reply: (EventView, Instant),
)
    ensures
        ({
            let log = import_log(uuid, dir, replies);
            let now = import_run(uuid, dir, replies);
            let next = import_run(uuid, dir, replies.push(reply));
            &&& now matches MoveView::Next(_, ActionView::DecodeBook(json)) ==> match reply.0 {
                EventView::BookPayload(Ok(payload)) => match payload.cover_extension {
                    Some(extension) => next matches MoveView::Next(_, ActionView::Exists(_, path))
                        && path == cover_place(uuid, extension),
                    None => inserts(next, payload, None),
                },
                EventView::BookPayload(Err(e)) => next == MoveView::<ImportBookView, BookView>::End(
                    Err(
                        "Failed to parse book JSON ("@ + number::decimal(json.len())
                            + " bytes received): "@ + e,
                    ),
                ),
                _ => true,
            }
            &&& now matches MoveView::Next(_, ActionView::Exists(client, path)) ==> exists|
                payload: SyncBookPayloadView,
            |
                #[trigger] is_read(log, payload) && payload.cover_extension is Some && path
                    == cover_place(uuid, payload.cover_extension->0) && if reply.0
                    == EventView::Flag(Ok(true)) {
                    trace::asks(
                        next,
                        ActionView::Locate(
                            LocalFileView {
                                dir,
                                folder: "covers"@,
                                name: uuid + with_dot(payload.cover_extension->0),
                            },
                        ),
                    )
                } else {
                    inserts(next, payload, None)
                }
            &&& now matches MoveView::Next(_, ActionView::Locate(_)) ==> (
            reply.0 matches EventView::Located(path) ==> exists|payload: SyncBookPayloadView|
                #[trigger] is_read(log, payload) && payload.cover_extension is Some && (next
                    matches MoveView::Next(
                    _,
                    ActionView::Run(TaskView::DownloadFile(_, remote, local)),
                ) && remote == cover_place(uuid, payload.cover_extension->0) && local == path))
            &&& now matches MoveView::Next(
                _,
                ActionView::Run(TaskView::DownloadFile(_, _, local)),
            ) ==> exists|payload: SyncBookPayloadView| #[trigger]
                is_read(log, payload) && inserts(
                    next,
                    payload,
                    if reply.0 matches EventView::Flag(Ok(_)) {
                        Some(local)
                    } else {
                        None
                    },
                )
            &&& now matches MoveView::Next(_, ActionView::InsertBook(_)) ==> (reply.0
                == EventView::Unit(Ok(())) ==> (next matches MoveView::Next(_, action)
                && action is InsertChapters))
        }),
{
    lemma_story(uuid, dir, replies);
    trace::lemma_one_more(ImportBookView::start(uuid, dir), books::import_after(), replies, reply);
    if let EventView::BookPayload(Ok(payload)) = reply.0 {
        if let Some(extension) = payload.cover_extension {
            lemma_dotted(extension);
        }
    }
    if let MoveView::Next(state, action) = import_run(uuid, dir, replies) {
        let log = import_log(uuid, dir, replies);
        match state {
            ImportBookView::Cover { payload, .. } => {
                assert(is_read(log, payload));
            },
            ImportBookView::Placed { payload, .. } => {
                assert(is_read(log, payload));
            },
            ImportBookView::Fetched { payload, .. } => {
                assert(is_read(log, payload));
            },
            _ => {},
        }
    }
}

/// Whether the book of some contents goes into the library next, with a given cover.
pub open spec fn inserts(
    next: MoveView<ImportBookView, BookView>,
    payload: SyncBookPayloadView,
    cover: Option<Seq<char>>,
) -> bool {
    next matches MoveView::Next(_, ActionView::InsertBook(book)) && restores(book, payload)
        && book.cover_path == cover
}

} // verus!
