//! Copying a book to the server.
use vstd::prelude::*;

use crate::client::{ClientView, WebDavClient};
use crate::codec;
use crate::contents;
use crate::models::{Book, BookView, Chapter, ChapterView};
use crate::protocol;
use crate::protocol::{Action, ActionView, Event, EventView, Move, MoveView, Task, TaskView};
use crate::remote;
use crate::reply;
use crate::text;
use crate::time::Instant;

verus! {

/// Copying a book to the server.
pub enum ExportBook {
    /// The book was looked up.
    Book { uuid: String },
    /// Its chapters were asked for.
    Chapters { uuid: String, book: Book },
    /// The extension of its cover was asked for.
    Extension { uuid: String, book: Book, chapters: Vec<Chapter> },
    /// It was handed over to be written as JSON.
    Encoded { uuid: String, cover: Option<String>, extension: Option<String> },
    /// The client was asked for.
    Client { uuid: String, cover: Option<String>, extension: Option<String>, packed: Vec<u8> },
    /// Folders are being made; so many were asked for.
    Folders {
        client: WebDavClient,
        uuid: String,
        cover: Option<String>,
        extension: Option<String>,
        packed: Vec<u8>,
        made: usize,
    },
    /// The contents were sent.
    Uploaded {
        client: WebDavClient,
        uuid: String,
        cover: Option<String>,
        extension: Option<String>,
    },
    /// The cover was looked for.
    Cover { client: WebDavClient, uuid: String, path: String, extension: Option<String> },
    /// The cover was sent.
    Sent,
}

/// What an `ExportBook` holds.
pub enum ExportBookView {
    Book { uuid: Seq<char> },
    Chapters { uuid: Seq<char>, book: BookView },
    Extension { uuid: Seq<char>, book: BookView, chapters: Seq<ChapterView> },
    Encoded { uuid: Seq<char>, cover: Option<Seq<char>>, extension: Option<Seq<char>> },
    Client {
        uuid: Seq<char>,
        cover: Option<Seq<char>>,
        extension: Option<Seq<char>>,
        packed: Seq<u8>,
    },
    Folders {
        client: ClientView,
        uuid: Seq<char>,
        cover: Option<Seq<char>>,
        extension: Option<Seq<char>>,
        packed: Seq<u8>,
        made: int,
    },
    Uploaded {
        client: ClientView,
        uuid: Seq<char>,
        cover: Option<Seq<char>>,
        extension: Option<Seq<char>>,
    },
    Cover { client: ClientView, uuid: Seq<char>, path: Seq<char>, extension: Option<Seq<char>> },
    Sent,
}

impl DeepView for ExportBook {
    type V = ExportBookView;

    open spec fn deep_view(&self) -> ExportBookView {
        match self {
            ExportBook::Book { uuid } => ExportBookView::Book { uuid: uuid@ },
            ExportBook::Chapters { uuid, book } => ExportBookView::Chapters {
                uuid: uuid@,
                book: book.deep_view(),
            },
            ExportBook::Extension { uuid, book, chapters } => ExportBookView::Extension {
                uuid: uuid@,
                book: book.deep_view(),
                chapters: chapters.deep_view(),
            },
            ExportBook::Encoded { uuid, cover, extension } => ExportBookView::Encoded {
                uuid: uuid@,
                cover: cover.deep_view(),
                extension: extension.deep_view(),
            },
            ExportBook::Client { uuid, cover, extension, packed } => ExportBookView::Client {
                uuid: uuid@,
                cover: cover.deep_view(),
                extension: extension.deep_view(),
                packed: packed@,
            },
            ExportBook::Folders { client, uuid, cover, extension, packed, made } => ExportBookView::Folders {
                client: client.deep_view(),
                uuid: uuid@,
                cover: cover.deep_view(),
                extension: extension.deep_view(),
                packed: packed@,
                made: *made as int,
            },
            ExportBook::Uploaded { client, uuid, cover, extension } => ExportBookView::Uploaded {
                client: client.deep_view(),
                uuid: uuid@,
                cover: cover.deep_view(),
                extension: extension.deep_view(),
            },
            ExportBook::Cover { client, uuid, path, extension } => ExportBookView::Cover {
                client: client.deep_view(),
                uuid: uuid@,
                path: path@,
                extension: extension.deep_view(),
            },
            ExportBook::Sent => ExportBookView::Sent,
        }
    }
}

impl ExportBookView {
    /// The beginning.
    pub open spec fn start(uuid: Seq<char>) -> MoveView<ExportBookView, bool> {
        MoveView::Next(ExportBookView::Book { uuid }, ActionView::GetBook(uuid))
    }

    /// The book is written as JSON.
    pub open spec fn encode(
        uuid: Seq<char>,
        book: BookView,
        chapters: Seq<ChapterView>,
        extension: Option<Seq<char>>,
        now: Instant,
    ) -> MoveView<ExportBookView, bool> {
        MoveView::Next(
            ExportBookView::Encoded { uuid, cover: book.cover_path, extension },
            ActionView::EncodeBook(contents::stored_book(book, chapters, extension, now)),
        )
    }

    /// The contents were packed, or could not be.
    pub open spec fn ready(
        uuid: Seq<char>,
        cover: Option<Seq<char>>,
        extension: Option<Seq<char>>,
        packed: Result<Seq<u8>, Seq<char>>,
    ) -> MoveView<ExportBookView, bool> {
        match packed {
            Ok(packed) => MoveView::Next(
                ExportBookView::Client { uuid, cover, extension, packed },
                ActionView::Run(TaskView::Client),
            ),
            Err(e) => MoveView::End(Err(e)),
        }
    }

    /// The folders are made, one after the other, and then the contents are sent.
    pub open spec fn fill(
        client: ClientView,
        uuid: Seq<char>,
        cover: Option<Seq<char>>,
        extension: Option<Seq<char>>,
        packed: Seq<u8>,
        made: int,
    ) -> MoveView<ExportBookView, bool> {
        if made < 6 {
            MoveView::Next(
                ExportBookView::Folders { client, uuid, cover, extension, packed, made: made + 1 },
                ActionView::Mkdir(client, remote::book_folders()[made]),
            )
        } else {
            MoveView::Next(
                ExportBookView::Uploaded { client, uuid, cover, extension },
                ActionView::Upload(client, remote::book_path(uuid), packed),
            )
        }
    }

    /// What follows a reply.
    pub open spec fn after(self, event: EventView, now: Instant) -> MoveView<ExportBookView, bool> {
        match self {
            ExportBookView::Book { uuid } => match event {
                EventView::Book(Ok(Some(book))) => MoveView::Next(
                    ExportBookView::Chapters { uuid, book },
                    ActionView::GetChapters(uuid),
                ),
                EventView::Book(Ok(None)) => MoveView::End(Err("Book not found: "@ + uuid)),
                EventView::Book(Err(e)) => MoveView::End(Err(e)),
                _ => protocol::unexpected(),
            },
            ExportBookView::Chapters { uuid, book } => match event {
                EventView::Chapters(Ok(chapters)) => match book.cover_path {
                    Some(path) => MoveView::Next(
                        ExportBookView::Extension { uuid, book, chapters },
                        ActionView::CoverExtension(path),
                    ),
                    None => ExportBookView::encode(uuid, book, chapters, None, now),
                },
                EventView::Chapters(Err(e)) => MoveView::End(Err(e)),
                _ => protocol::unexpected(),
            },
            ExportBookView::Extension { uuid, book, chapters } => match event {
                EventView::Extension(extension) => ExportBookView::encode(
                    uuid,
                    book,
                    chapters,
                    extension,
                    now,
                ),
                _ => protocol::unexpected(),
            },
            ExportBookView::Encoded { uuid, cover, extension } => match event {
                EventView::Bytes(Ok(json)) => ExportBookView::ready(
                    uuid,
                    cover,
                    extension,
                    codec::gzip_encoding(json),
                ),
                EventView::Bytes(Err(e)) => MoveView::End(Err(e)),
                _ => protocol::unexpected(),
            },
            ExportBookView::Client { uuid, cover, extension, packed } => match event {
                EventView::Client(Ok(client)) => ExportBookView::fill(
                    client,
                    uuid,
                    cover,
                    extension,
                    packed,
                    0,
                ),
                EventView::Client(Err(e)) => MoveView::End(Err(e)),
                _ => protocol::unexpected(),
            },
            ExportBookView::Folders { client, uuid, cover, extension, packed, made } => {
                ExportBookView::fill(client, uuid, cover, extension, packed, made)
            },
            ExportBookView::Uploaded { client, uuid, cover, extension } => match event {
                EventView::Flag(Ok(_)) => match cover {
                    Some(path) => MoveView::Next(
                        ExportBookView::Cover { client, uuid, path, extension },
                        ActionView::FileExists(path),
                    ),
                    None => MoveView::End(Ok(true)),
                },
                EventView::Flag(Err(e)) => MoveView::End(Err(e)),
                _ => protocol::unexpected(),
            },
            ExportBookView::Cover { client, uuid, path, extension } => match event {
                EventView::Present(true) => MoveView::Next(
                    ExportBookView::Sent,
                    ActionView::Run(
                        TaskView::UploadFile(
                            client,
                            remote::cover_path(uuid, "."@ + extension.unwrap_or("jpg"@)),
                            path,
                        ),
                    ),
                ),
                _ => MoveView::End(Ok(true)),
            },
            ExportBookView::Sent => MoveView::End(Ok(true)),
        }
    }
}

/// Copies a book to the server: its contents, packed, and its cover, if there is one. A cover
/// that cannot be sent is passed over.
pub fn export_and_upload_book(book_uuid: String) -> (r: Move<ExportBook, bool>)
    ensures
        r.deep_view() == MoveView::<ExportBookView, bool>::Next(
            ExportBookView::Book { uuid: book_uuid@ },
            ActionView::GetBook(book_uuid@),
        ),
        r.deep_view() == ExportBookView::start(book_uuid@),
{
    let uuid = book_uuid.clone();
    Move::Next(ExportBook::Book { uuid }, Action::GetBook(book_uuid))
}

impl ExportBook {
    fn encode(
        uuid: String,
        book: Book,
        chapters: Vec<Chapter>,
        extension: Option<String>,
        now: Instant,
    ) -> (r: Move<ExportBook, bool>)
        requires
            now.valid(),
        ensures
            r.deep_view() == ExportBookView::encode(
                uuid@,
                book.deep_view(),
                chapters.deep_view(),
                extension.deep_view(),
                now,
            ),
            r.deep_view() matches MoveView::Next(_, ActionView::EncodeBook(payload))
                ==> contents::keeps_time(payload.date_added, book.date_added),
    {
        let payload = contents::store_book(&book, chapters, &extension, now);
        Move::Next(
            ExportBook::Encoded { uuid, cover: book.cover_path, extension },
            Action::EncodeBook(payload),
        )
    }

    /// Goes on with what came of packing the contents.
    pub fn ready(
        uuid: String,
        cover: Option<String>,
        extension: Option<String>,
        packed: Result<Vec<u8>, String>,
    ) -> (r: Move<ExportBook, bool>)
        ensures
            r.deep_view() == ExportBookView::ready(
                uuid@,
                cover.deep_view(),
                extension.deep_view(),
                reply::bytes_outcome(packed),
            ),
    {
        match packed {
            Ok(packed) => Move::Next(
                ExportBook::Client { uuid, cover, extension, packed },
                Action::Run(Task::Client),
            ),
            Err(e) => Move::End(Err(e)),
        }
    }

    fn fill(
        client: WebDavClient,
        uuid: String,
        cover: Option<String>,
        extension: Option<String>,
        packed: Vec<u8>,
        made: usize,
    ) -> (r: Move<ExportBook, bool>)
        ensures
            r.deep_view() == ExportBookView::fill(
                client.deep_view(),
                uuid@,
                cover.deep_view(),
                extension.deep_view(),
                packed@,
                made as int,
            ),
    {
        let handle = client.clone();
        if made < 6 {
            Move::Next(
                ExportBook::Folders { client, uuid, cover, extension, packed, made: made + 1 },
                Action::Mkdir(handle, remote::book_folder(made)),
            )
        } else {
            let path = remote::book_file(&uuid);
            Move::Next(
                ExportBook::Uploaded { client, uuid, cover, extension },
                Action::Upload(handle, path, packed),
            )
        }
    }

    /// What follows a reply. What is written down and packed can be had back: the date of the
    /// book, and all of its JSON.
    pub fn advance(self, event: Event, now: Instant) -> (r: Move<ExportBook, bool>)
        requires
            now.valid(),
        ensures
            r.deep_view() == self.deep_view().after(event.deep_view(), now),
            r.deep_view() matches MoveView::Next(_, ActionView::EncodeBook(payload))
                ==> match self.deep_view() {
                ExportBookView::Chapters { book, .. } => contents::keeps_time(
                    payload.date_added,
                    book.date_added,
                ),
                ExportBookView::Extension { book, .. } => contents::keeps_time(
                    payload.date_added,
                    book.date_added,
                ),
                _ => false,
            },
            r.deep_view() matches MoveView::Next(ExportBookView::Client { packed, .. }, _)
                ==> event.deep_view() matches EventView::Bytes(Ok(json)) && contents::keeps_bytes(
                packed,
                json,
            ),
    {
        match self {
            ExportBook::Book { uuid } => match event {
                Event::Book(Ok(Some(book))) => {
                    let id = uuid.clone();
                    Move::Next(ExportBook::Chapters { uuid, book }, Action::GetChapters(id))
                },
                Event::Book(Ok(None)) => Move::End(Err(text::concat2("Book not found: ", &uuid))),
                Event::Book(Err(e)) => Move::End(Err(e)),
                _ => protocol::unexpected_reply(),
            },
            ExportBook::Chapters { uuid, book } => match event {
                Event::Chapters(Ok(chapters)) => match &book.cover_path {
                    Some(path) => {
                        let path = path.clone();
                        Move::Next(
                            ExportBook::Extension { uuid, book, chapters },
                            Action::CoverExtension(path),
                        )
                    },
                    None => ExportBook::encode(uuid, book, chapters, None, now),
                },
                Event::Chapters(Err(e)) => Move::End(Err(e)),
                _ => protocol::unexpected_reply(),
            },
            ExportBook::Extension { uuid, book, chapters } => match event {
                Event::Extension(extension) => ExportBook::encode(
                    uuid,
                    book,
                    chapters,
                    extension,
                    now,
                ),
                _ => protocol::unexpected_reply(),
            },
            ExportBook::Encoded { uuid, cover, extension } => match event {
                Event::Bytes(Ok(json)) => ExportBook::ready(
                    uuid,
                    cover,
                    extension,
                    contents::pack(&json),
                ),
                Event::Bytes(Err(e)) => Move::End(Err(e)),
                _ => protocol::unexpected_reply(),
            },
            ExportBook::Client { uuid, cover, extension, packed } => match event {
                Event::Client(Ok(client)) => ExportBook::fill(
                    client,
                    uuid,
                    cover,
                    extension,
                    packed,
                    0,
                ),
                Event::Client(Err(e)) => Move::End(Err(e)),
                _ => protocol::unexpected_reply(),
            },
            ExportBook::Folders { client, uuid, cover, extension, packed, made } => {
                ExportBook::fill(client, uuid, cover, extension, packed, made)
            },
            ExportBook::Uploaded { client, uuid, cover, extension } => match event {
                Event::Flag(Ok(_)) => match cover {
                    Some(path) => {
                        let file = path.clone();
                        Move::Next(
                            ExportBook::Cover { client, uuid, path, extension },
                            Action::FileExists(file),
                        )
                    },
                    None => Move::End(Ok(true)),
                },
                Event::Flag(Err(e)) => Move::End(Err(e)),
                _ => protocol::unexpected_reply(),
            },
            ExportBook::Cover { client, uuid, path, extension } => match event {
                Event::Present(true) => {
                    let suffix = match extension {
                        Some(extension) => text::concat2(".", &extension),
                        None => text::concat2(".", "jpg"),
                    };
                    Move::Next(
                        ExportBook::Sent,
                        Action::Run(
                            Task::UploadFile(client, remote::cover_file(&uuid, &suffix), path),
                        ),
                    )
                },
                _ => Move::End(Ok(true)),
            },
            ExportBook::Sent => Move::End(Ok(true)),
        }
    }
}

} // verus!
