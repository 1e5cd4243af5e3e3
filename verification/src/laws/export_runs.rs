//! What holds of copying a book to the server, of what is asked for and told, whatever the replies
//! are.
use vstd::prelude::*;

use crate::client::ClientView;
use crate::codec;
use crate::laws::books;
use crate::laws::synced;
use crate::laws::trace;
use crate::laws::trace::Exchange;
use crate::models::{BookView, ChapterView};
use crate::payload::SyncBookPayloadView;
use crate::protocol::{ActionView, EventView, MoveView, TaskView};
use crate::tasks::export::ExportBookView;
use crate::time;
use crate::time::Instant;
use crate::world;

verus! {

/// Where copying a book has come to after some replies.
pub open spec fn export_run(uuid: Seq<char>, replies: Seq<(EventView, Instant)>) -> MoveView<
    ExportBookView,
    bool,
> {
    world::brought_to(ExportBookView::start(uuid), books::export_after(), replies)
}

/// What it has asked for and was told by then.
pub open spec fn export_log(uuid: Seq<char>, replies: Seq<(EventView, Instant)>) -> Seq<Exchange> {
    trace::exchanges(ExportBookView::start(uuid), books::export_after(), replies)
}

/// A book on its way to the server: what this device has of it, how it is stored, and the bytes that
/// stand for that, written down and packed.
pub struct Parcel {
    pub book: BookView,
    pub chapters: Seq<ChapterView>,
    pub extension: Option<Seq<char>>,
    pub payload: SyncBookPayloadView,
    pub json: Seq<u8>,
    pub packed: Seq<u8>,
}

/// Whether a book is stored as it is, with all its chapters.
pub open spec fn stores(
    payload: SyncBookPayloadView,
    book: BookView,
    chapters: Seq<ChapterView>,
    extension: Option<Seq<char>>,
) -> bool {
    &&& payload.uuid == book.uuid
    &&& payload.title == book.title
    &&& payload.author == book.author
    &&& payload.total_chapters == book.total_chapters
    &&& match (book.cover_path, extension) {
        (None, _) => payload.cover_extension is None,
        (Some(_), Some(extension)) => payload.cover_extension == Some("."@ + extension),
        (Some(_), None) => payload.cover_extension == Some(".jpg"@),
    }
    &&& Instant::at_millis(book.date_added) matches Some(at) ==> payload.date_added
        == time::rfc3339_text(at)
    &&& payload.chapters.len() == chapters.len()
    &&& forall|i: int|
        #![trigger payload.chapters[i]]
        0 <= i < chapters.len() ==> {
            &&& payload.chapters[i].chapter_index == chapters[i].chapter_index
            &&& payload.chapters[i].title == chapters[i].title
            &&& payload.chapters[i].paragraphs == chapters[i].paragraphs
        }
}

/// Whether this is what the device has of a book.
pub open spec fn is_known(log: Seq<Exchange>, uuid: Seq<char>, parcel: Parcel) -> bool {
    &&& trace::was_told_only(
        log,
        ActionView::GetBook(uuid),
        EventView::Book(Ok(Some(parcel.book))),
    )
    &&& trace::was_told_only(
        log,
        ActionView::GetChapters(uuid),
        EventView::Chapters(Ok(parcel.chapters)),
    )
    &&& match parcel.book.cover_path {
        Some(path) => trace::was_told(
            log,
            ActionView::CoverExtension(path),
            EventView::Extension(parcel.extension),
        ),
        None => parcel.extension is None,
    }
    &&& stores(parcel.payload, parcel.book, parcel.chapters, parcel.extension)
}

/// Whether a book was written down and packed.
pub open spec fn is_packed(log: Seq<Exchange>, uuid: Seq<char>, parcel: Parcel) -> bool {
    &&& is_known(log, uuid, parcel)
    &&& trace::was_told(
        log,
        ActionView::EncodeBook(parcel.payload),
        EventView::Bytes(Ok(parcel.json)),
    )
    &&& codec::gzip_encoding(parcel.json) == Ok::<Seq<u8>, Seq<char>>(parcel.packed)
}

/// The folders on the server.
pub open spec fn folder(k: int) -> Seq<char> {
    if k == 0 {
        "/AudireReader"@
    } else if k == 1 {
        "/AudireReader/books"@
    } else if k == 2 {
        "/AudireReader/covers"@
    } else if k == 3 {
        "/AudireReader/progress"@
    } else if k == 4 {
        "/AudireReader/bookmarks"@
    } else {
        "/AudireReader/highlights"@
    }
}

/// Making the folders.
pub open spec fn folders_of(client: ClientView) -> spec_fn(int) -> ActionView {
    |k: int| ActionView::Mkdir(client, folder(k))
}

spec fn is_client(log: Seq<Exchange>, client: ClientView) -> bool {
    trace::was_told_only(
        log,
        ActionView::Run(TaskView::Client),
        EventView::Client(Ok(client)),
    )
}

/// Whether a packed book was sent to its place, once the folders had been asked for.
pub open spec fn is_sent(
    log: Seq<Exchange>,
    uuid: Seq<char>,
    parcel: Parcel,
    client: ClientView,
) -> bool {
    &&& is_packed(log, uuid, parcel)
    &&& trace::was_told_only(
        log,
        ActionView::Run(TaskView::Client),
        EventView::Client(Ok(client)),
    )
    &&& trace::asked_all(log, folders_of(client), 6)
    &&& trace::has_asked(
        log,
        ActionView::Upload(client, synced::contents_place(uuid), parcel.packed),
    )
}

/// Where the cover of a book stands on the server.
pub open spec fn cover_place(uuid: Seq<char>, extension: Option<Seq<char>>) -> Seq<char> {
    "/AudireReader/covers/"@ + uuid + ("."@ + match extension {
        Some(extension) => extension,
        None => "jpg"@,
    })
}

/// Whether the cover of a book, if it has one that is there, was sent to its place.
pub open spec fn is_covered(
    log: Seq<Exchange>,
    uuid: Seq<char>,
    parcel: Parcel,
    client: ClientView,
) -> bool {
    parcel.book.cover_path matches Some(path) ==> {
        &&& trace::has_asked(log, ActionView::FileExists(path))
        &&& trace::was_told(log, ActionView::FileExists(path), EventView::Present(true))
            ==> trace::has_asked(
            log,
            ActionView::Run(
                TaskView::UploadFile(client, cover_place(uuid, parcel.extension), path),
            ),
        )
    }
}

spec fn fits(parcel: Parcel, cover: Option<Seq<char>>, extension: Option<Seq<char>>) -> bool {
    parcel.book.cover_path == cover && parcel.extension == extension
}

/// Whether no file was looked for yet.
spec fn is_unlooked(log: Seq<Exchange>) -> bool {
    forall|i: int| 0 <= i < log.len() ==> !((#[trigger] log[i]).action is FileExists)
}

proof fn lemma_unlooked(log: Seq<Exchange>, last: Exchange)
    ensures
        is_unlooked(log) && !(last.action is FileExists) ==> is_unlooked(log.push(last)),
        is_unlooked(log) && last.event != EventView::Present(true) ==> !trace::was_told(
            log.push(last),
            last.action,
            EventView::Present(true),
        ) || !(last.action is FileExists),
{
    let all = log.push(last);
    if is_unlooked(log) && !(last.action is FileExists) {
        assert forall|i: int| 0 <= i < all.len() implies !((
        #[trigger] all[i]).action is FileExists) by {
            if i < log.len() {
                assert(!(log[i].action is FileExists));
            }
        }
    }
    if is_unlooked(log) && last.event != EventView::Present(true) && last.action is FileExists {
        trace::lemma_log_grows(log, last, last.action, EventView::Present(true));
    }
}

spec fn is_pristine(log: Seq<Exchange>) -> bool {
    !trace::has_asked(log, ActionView::Run(TaskView::Client)) && is_unlooked(log)
}

spec fn is_ready(
    log: Seq<Exchange>,
    uuid: Seq<char>,
    cover: Option<Seq<char>>,
    extension: Option<Seq<char>>,
    client: ClientView,
) -> bool {
    exists|parcel: Parcel|
        fits(parcel, cover, extension) && #[trigger] is_sent(log, uuid, parcel, client)
}

spec fn is_due(
    log: Seq<Exchange>,
    uuid: Seq<char>,
    place: Seq<char>,
    path: Seq<char>,
    client: ClientView,
) -> bool {
    exists|parcel: Parcel|
        place == cover_place(uuid, parcel.extension) && parcel.book.cover_path == Some(path)
            && trace::has_asked(log, ActionView::FileExists(path)) && #[trigger] is_sent(
            log,
            uuid,
            parcel,
            client,
        )
}

spec fn story(log: Seq<Exchange>, m: MoveView<ExportBookView, bool>, id: Seq<char>) -> bool {
    match m {
        MoveView::Next(state, action) => match state {
            ExportBookView::Book { uuid } => log.len() == 0 && uuid == id && action
                == ActionView::GetBook(id),
            ExportBookView::Chapters { uuid, book } => {
                &&& uuid == id && is_pristine(log)
                &&& trace::was_told_only(
                    log,
                    ActionView::GetBook(id),
                    EventView::Book(Ok(Some(book))),
                )
                &&& action == ActionView::GetChapters(id) && !trace::has_asked(log, action)
            },
            ExportBookView::Extension { uuid, book, chapters } => {
                &&& uuid == id && is_pristine(log)
                &&& trace::was_told_only(
                    log,
                    ActionView::GetBook(id),
                    EventView::Book(Ok(Some(book))),
                )
                &&& trace::was_told_only(
                    log,
                    ActionView::GetChapters(id),
                    EventView::Chapters(Ok(chapters)),
                )
                &&& action matches ActionView::CoverExtension(path) && book.cover_path == Some(path)
            },
            ExportBookView::Encoded { uuid, cover, extension } => {
                &&& uuid == id && is_pristine(log)
                &&& action matches ActionView::EncodeBook(payload) && (exists|parcel: Parcel|
                    parcel.payload == payload && fits(parcel, cover, extension)
                        && #[trigger] is_known(log, id, parcel))
            },
            ExportBookView::Client { uuid, cover, extension, packed } => {
                &&& uuid == id && is_pristine(log)
                &&& action == ActionView::Run(TaskView::Client)
                &&& exists|parcel: Parcel|
                    parcel.packed == packed && fits(parcel, cover, extension)
                        && #[trigger] is_packed(log, id, parcel)
            },
            ExportBookView::Folders { client, uuid, cover, extension, packed, made } => {
                &&& uuid == id && is_client(log, client) && 1 <= made <= 6
                &&& is_unlooked(log)
                &&& trace::asked_all(log, folders_of(client), made - 1)
                &&& action == folders_of(client)(made - 1)
                &&& exists|parcel: Parcel|
                    parcel.packed == packed && fits(parcel, cover, extension)
                        && #[trigger] is_packed(log, id, parcel)
            },
            ExportBookView::Uploaded { client, uuid, cover, extension } => {
                &&& uuid == id && is_client(log, client)
                &&& is_unlooked(log)
                &&& trace::asked_all(log, folders_of(client), 6)
                &&& action matches ActionView::Upload(c, path, packed) && c == client && path
                    == synced::contents_place(id) && (exists|parcel: Parcel|
                    parcel.packed == packed && fits(parcel, cover, extension)
                        && #[trigger] is_packed(log, id, parcel))
            },
            ExportBookView::Cover { client, uuid, path, extension } => {
                &&& uuid == id && action == ActionView::FileExists(path)
                &&& is_unlooked(log)
                &&& is_ready(log, id, Some(path), extension, client)
            },
            ExportBookView::Sent => {
                &&& action matches ActionView::Run(TaskView::UploadFile(client, place, path))
                    && is_due(log, id, place, path, client)
            },
        },
        MoveView::End(Ok(done)) => done && exists|parcel: Parcel, client: ClientView| #[trigger]
            is_sent(log, id, parcel, client) && is_covered(log, id, parcel, client),
        MoveView::End(Err(_)) => true,
    }
}

proof fn lemma_known_grows(log: Seq<Exchange>, last: Exchange, id: Seq<char>, parcel: Parcel)
    ensures
        last.action != ActionView::GetBook(id) && last.action != ActionView::GetChapters(id)
            && is_known(log, id, parcel) ==> is_known(log.push(last), id, parcel),
        last.action != ActionView::GetBook(id) && last.action != ActionView::GetChapters(id)
            && is_packed(log, id, parcel) ==> is_packed(log.push(last), id, parcel),
{
    trace::lemma_all_grows(log, last);
}

proof fn lemma_encoded(
    log: Seq<Exchange>,
    id: Seq<char>,
    book: BookView,
    chapters: Seq<ChapterView>,
    extension: Option<Seq<char>>,
    now: Instant,
)
    requires
        is_pristine(log),
        trace::was_told_only(log, ActionView::GetBook(id), EventView::Book(Ok(Some(book)))),
        trace::was_told_only(
            log,
            ActionView::GetChapters(id),
            EventView::Chapters(Ok(chapters)),
        ),
        match book.cover_path {
            Some(path) => trace::was_told(
                log,
                ActionView::CoverExtension(path),
                EventView::Extension(extension),
            ),
            None => extension is None,
        },
    ensures
        story(log, ExportBookView::encode(id, book, chapters, extension, now), id),
{
    let payload = crate::contents::stored_book(book, chapters, extension, now);
    let parcel = Parcel {
        book,
        chapters,
        extension,
        payload,
        json: Seq::empty(),
        packed: Seq::empty(),
    };
    assert(is_known(log, id, parcel));
}

#[verifier::rlimit(40)]
proof fn lemma_step(
    log: Seq<Exchange>,
    state: ExportBookView,
    action: ActionView,
    event: EventView,
    now: Instant,
    id: Seq<char>,
)
    requires
        story(log, MoveView::Next(state, action), id),
    ensures
        story(log.push(Exchange { action, event, now }), state.after(event, now), id),
{
    let last = Exchange { action, event, now };
    let all = log.push(last);
    let next = state.after(event, now);
    trace::lemma_all_grows(log, last);
    lemma_unlooked(log, last);
    match state {
        ExportBookView::Book { .. } => {},
        ExportBookView::Chapters { book, .. } => {
            if let EventView::Chapters(Ok(chapters)) = event {
                if book.cover_path is None {
                    lemma_encoded(all, id, book, chapters, None, now);
                }
            }
        },
        ExportBookView::Extension { book, chapters, .. } => {
            if let EventView::Extension(extension) = event {
                lemma_encoded(all, id, book, chapters, extension, now);
            }
        },
        ExportBookView::Encoded { cover, extension, .. } => {
            let payload = action->EncodeBook_0;
            let known = choose|parcel: Parcel|
                parcel.payload == payload && fits(parcel, cover, extension)
                    && #[trigger] is_known(log, id, parcel);
            if let EventView::Bytes(Ok(json)) = event {
                if let Ok(packed) = codec::gzip_encoding(json) {
                    let parcel = Parcel { json, packed, ..known };
                    lemma_known_grows(log, last, id, known);
                    assert(is_packed(all, id, parcel));
                }
            }
        },
        ExportBookView::Client { cover, extension, packed, .. } => {
            let parcel = choose|parcel: Parcel|
                parcel.packed == packed && fits(parcel, cover, extension)
                    && #[trigger] is_packed(log, id, parcel);
            lemma_known_grows(log, last, id, parcel);
            if let EventView::Client(Ok(client)) = event {
                assert(is_packed(all, id, parcel));
            }
        },
        ExportBookView::Folders { client, cover, extension, packed, made, .. } => {
            let parcel = choose|parcel: Parcel|
                parcel.packed == packed && fits(parcel, cover, extension)
                    && #[trigger] is_packed(log, id, parcel);
            lemma_known_grows(log, last, id, parcel);
            trace::lemma_asked_all(log, last, folders_of(client), made - 1);
            assert(is_packed(all, id, parcel));
        },
        ExportBookView::Uploaded { client, cover, extension, .. } => {
            let packed = action->Upload_2;
            let parcel = choose|parcel: Parcel|
                parcel.packed == packed && fits(parcel, cover, extension)
                    && #[trigger] is_packed(log, id, parcel);
            lemma_known_grows(log, last, id, parcel);
            trace::lemma_asked_all(log, last, folders_of(client), 6);
            assert(is_sent(all, id, parcel, client));
            assert(is_ready(all, id, cover, extension, client));
        },
        ExportBookView::Cover { client, path, extension, .. } => {
            let parcel = choose|parcel: Parcel|
                fits(parcel, Some(path), extension) && #[trigger] is_sent(
                    log,
                    id,
                    parcel,
                    client,
                );
            lemma_known_grows(log, last, id, parcel);
            trace::lemma_asked_all(log, last, folders_of(client), 6);
            assert(is_sent(all, id, parcel, client));
            if event == EventView::Present(true) {
                assert(is_due(all, id, cover_place(id, extension), path, client));
            } else {
                assert(is_covered(all, id, parcel, client));
            }
        },
        ExportBookView::Sent => {
            let (client, place, path) = match action {
                ActionView::Run(TaskView::UploadFile(client, place, path)) => (client, place, path),
                _ => arbitrary(),
            };
            let parcel = choose|parcel: Parcel|
                place == cover_place(id, parcel.extension) && parcel.book.cover_path == Some(path)
                    && trace::has_asked(log, ActionView::FileExists(path)) && #[trigger] is_sent(
                    log,
                    id,
                    parcel,
                    client,
                );
            lemma_known_grows(log, last, id, parcel);
            trace::lemma_asked_all(log, last, folders_of(client), 6);
            assert(is_sent(all, id, parcel, client));
            assert(is_covered(all, id, parcel, client));
        },
    }
}

proof fn lemma_story(uuid: Seq<char>, replies: Seq<(EventView, Instant)>)
    ensures
        story(export_log(uuid, replies), export_run(uuid, replies), uuid),
{
    let after = books::export_after();
    let holds = |log: Seq<Exchange>, m: MoveView<ExportBookView, bool>| story(log, m, uuid);
    assert forall|
        log: Seq<Exchange>,
        state: ExportBookView,
        action: ActionView,
        event: EventView,
        now: Instant,
    |
        #![trigger holds(log, MoveView::Next(state, action)), after(state, event, now)]
        holds(log, MoveView::Next(state, action)) implies holds(
        log.push(Exchange { action, event, now }),
        after(state, event, now),
    ) by {
        lemma_step(log, state, action, event, now, uuid);
    }
    trace::lemma_story(ExportBookView::start(uuid), after, holds, replies);
}

/// Copying a book that succeeds has sent the book to its place: all that this device has of it and
/// of its chapters, written down and packed. The cover, if the book has one that is there, was sent
/// too.
pub proof fn law_the_whole_book_is_sent(uuid: Seq<char>, replies: Seq<(EventView, Instant)>)
    ensures
        export_run(uuid, replies) matches MoveView::End(Ok(done)) ==> done && exists|
            parcel: Parcel,
            client: ClientView,
        |
            #[trigger] is_sent(export_log(uuid, replies), uuid, parcel, client) && is_covered(
                export_log(uuid, replies),
                uuid,
                parcel,
                client,
            ),
{
    lemma_story(uuid, replies);
}

/// A book that this device does not have is not sent, and what goes wrong is told. Nothing is asked
/// for but what concerns the book at hand.
pub proof fn law_a_book_that_cannot_be_sent(
    uuid: Seq<char>,
    replies: Seq<(EventView, Instant)>,
    reply: (EventView, Instant),
    error: Seq<char>,
)
    ensures
        ({
            let now = export_run(uuid, replies);
            let next = export_run(uuid, replies.push(reply));
            let failed = MoveView::<ExportBookView, bool>::End(Err(error));
            &&& now matches MoveView::Next(_, action) ==> match action {
                ActionView::GetBook(id) => id == uuid,
                ActionView::GetChapters(id) => id == uuid,
                ActionView::CoverExtension(_) => true,
                ActionView::EncodeBook(_) => true,
                ActionView::Mkdir(_, path) => exists|k: int|
                    0 <= k < 6 && path == #[trigger] folder(k),
                ActionView::Upload(_, path, _) => path == synced::contents_place(uuid),
                ActionView::FileExists(_) => true,
                ActionView::Run(task) => task is Client || task is UploadFile,
                _ => false,
            }
            &&& now matches MoveView::Next(_, ActionView::GetBook(_)) ==> {
                &&& reply.0 == EventView::Book(Ok(None)) ==> next == MoveView::<
                    ExportBookView,
                    bool,
                >::End(Err("Book not found: "@ + uuid))
                &&& reply.0 == EventView::Book(Err(error)) ==> next == failed
            }
            &&& now matches MoveView::Next(_, ActionView::GetChapters(_)) ==> (reply.0
                == EventView::Chapters(Err(error)) ==> next == failed)
            &&& now matches MoveView::Next(_, ActionView::EncodeBook(_)) ==> (reply.0
                == EventView::Bytes(Err(error)) ==> next == failed)
            &&& now matches MoveView::Next(_, ActionView::Run(TaskView::Client)) ==> (reply.0
                == EventView::Client(Err(error)) ==> next == failed)
            &&& now matches MoveView::Next(_, ActionView::Upload(_, _, _)) ==> (reply.0
                == EventView::Flag(Err(error)) ==> next == failed)
        }),
{
    lemma_story(uuid, replies);
    trace::lemma_one_more(ExportBookView::start(uuid), books::export_after(), replies, reply);
    if let MoveView::Next(ExportBookView::Folders { made, .. }, ActionView::Mkdir(_, path))
        = export_run(uuid, replies) {
        assert(path == folder(made - 1));
    }
}

} // verus!
