//! Copying a book from the server.
use vstd::prelude::*;

use crate::client::{ClientView, WebDavClient};
use crate::contents;
use crate::models::{Book, BookView, Chapter, ChapterView};
use crate::number;
use crate::payload::{SyncBookPayload, SyncBookPayloadView};
use crate::protocol;
use crate::protocol::{
    Action, ActionView, Event, EventView, LocalFile, LocalFileView, Move, MoveView, Task, TaskView,
};
use crate::remote;
use crate::reply;
use crate::text;
use crate::time::Instant;

verus! {

/// Copying a book from the server.
pub enum ImportBook {
    /// The client was asked for.
    Client { uuid: String, dir: String },
    /// The contents were asked for, at so many places.
    Contents { client: WebDavClient, uuid: String, dir: String, tried: usize },
    /// So many bytes of JSON were handed over to be read.
    Decoded { client: WebDavClient, uuid: String, dir: String, received: usize },
    /// The cover was looked for.
    Cover {
        client: WebDavClient,
        uuid: String,
        dir: String,
        payload: SyncBookPayload,
        extension: String,
    },
    /// It is there; where it belongs on this device was asked.
    Placed { client: WebDavClient, remote: String, payload: SyncBookPayload },
    /// The cover was asked for.
    Fetched { payload: SyncBookPayload, path: String },
    /// The book was handed over.
    Book { book: Book, chapters: Vec<Chapter> },
    /// The chapters were handed over.
    Chapters { book: Book },
    /// The database was told that the work is done.
    Shrunk { book: Book },
}

/// What an `ImportBook` holds.
pub enum ImportBookView {
    Client { uuid: Seq<char>, dir: Seq<char> },
    Contents { client: ClientView, uuid: Seq<char>, dir: Seq<char>, tried: int },
    Decoded { client: ClientView, uuid: Seq<char>, dir: Seq<char>, received: int },
    Cover {
        client: ClientView,
        uuid: Seq<char>,
        dir: Seq<char>,
        payload: SyncBookPayloadView,
        extension: Seq<char>,
    },
    Placed { client: ClientView, remote: Seq<char>, payload: SyncBookPayloadView },
    Fetched { payload: SyncBookPayloadView, path: Seq<char> },
    Book { book: BookView, chapters: Seq<ChapterView> },
    Chapters { book: BookView },
    Shrunk { book: BookView },
}

impl DeepView for ImportBook {
    type V = ImportBookView;

    open spec fn deep_view(&self) -> ImportBookView {
        match self {
            ImportBook::Client { uuid, dir } => ImportBookView::Client { uuid: uuid@, dir: dir@ },
            ImportBook::Contents { client, uuid, dir, tried } => ImportBookView::Contents {
                client: client.deep_view(),
                uuid: uuid@,
                dir: dir@,
                tried: *tried as int,
            },
            ImportBook::Decoded { client, uuid, dir, received } => ImportBookView::Decoded {
                client: client.deep_view(),
                uuid: uuid@,
                dir: dir@,
                received: *received as int,
            },
            ImportBook::Cover { client, uuid, dir, payload, extension } => ImportBookView::Cover {
                client: client.deep_view(),
                uuid: uuid@,
                dir: dir@,
                payload: payload.deep_view(),
                extension: extension@,
            },
            ImportBook::Placed { client, remote, payload } => ImportBookView::Placed {
                client: client.deep_view(),
                remote: remote@,
                payload: payload.deep_view(),
            },
            ImportBook::Fetched { payload, path } => ImportBookView::Fetched {
                payload: payload.deep_view(),
                path: path@,
            },
            ImportBook::Book { book, chapters } => ImportBookView::Book {
                book: book.deep_view(),
                chapters: chapters.deep_view(),
            },
            ImportBook::Chapters { book } => ImportBookView::Chapters { book: book.deep_view() },
            ImportBook::Shrunk { book } => ImportBookView::Shrunk { book: book.deep_view() },
        }
    }
}

/// The folder for covers, below the folder for documents.
pub const COVERS: &'static str = "covers";

/// The message for a book whose contents are nowhere to be found.
pub open spec fn missing_error(uuid: Seq<char>) -> Seq<char> {
    "File nội dung truyện '"@ + uuid
        + "' trên WebDAV bị thiếu hoặc rỗng (0 bytes). Vui lòng mở thiết bị có truyện và bấm 'Đồng bộ' (hoặc 'Đẩy lên Cloud') để tải lại nội dung."@
}

/// The message for a book whose contents are empty.
pub open spec fn no_data_error(uuid: Seq<char>) -> Seq<char> {
    "Decoded JSON data for book '"@ + uuid + "' is empty (0 bytes)"@
}

/// The message for contents that are no book.
pub open spec fn book_parse_error(received: int, e: Seq<char>) -> Seq<char> {
    "Failed to parse book JSON ("@ + number::decimal(received as nat) + " bytes received): "@ + e
}

/// An extension with the dot before it.
pub open spec fn dotted(extension: Seq<char>) -> Seq<char> {
    if "."@.is_prefix_of(extension) {
        extension
    } else {
        "."@ + extension
    }
}

/// Where the cover of a book belongs on this device.
pub open spec fn local_cover(
    dir: Seq<char>,
    uuid: Seq<char>,
    extension: Seq<char>,
) -> LocalFileView {
    LocalFileView { dir, folder: COVERS@, name: uuid + extension }
}

/// Where the cover of a book belongs on this device.
pub fn cover_location(dir: String, uuid: &str, extension: &str) -> (r: LocalFile)
    ensures
        r.deep_view() == local_cover(dir@, uuid@, extension@),
{
    LocalFile { dir, folder: COVERS.to_string(), name: text::concat2(uuid, extension) }
}

impl ImportBookView {
    /// The beginning.
    pub open spec fn start(uuid: Seq<char>, dir: Seq<char>) -> MoveView<ImportBookView, BookView> {
        MoveView::Next(ImportBookView::Client { uuid, dir }, ActionView::Run(TaskView::Client))
    }

    /// The contents are asked for at one place after the other.
    pub open spec fn fetch(
        client: ClientView,
        uuid: Seq<char>,
        dir: Seq<char>,
        tried: int,
    ) -> MoveView<ImportBookView, BookView> {
        if tried < 4 {
            MoveView::Next(
                ImportBookView::Contents { client, uuid, dir, tried: tried + 1 },
                ActionView::Download(client, remote::book_places(uuid)[tried]),
            )
        } else {
            MoveView::End(Err(missing_error(uuid)))
        }
    }

    /// What was found was unpacked, or could not be, and is read.
    pub open spec fn decode(
        client: ClientView,
        uuid: Seq<char>,
        dir: Seq<char>,
        data: Result<Seq<u8>, Seq<char>>,
    ) -> MoveView<ImportBookView, BookView> {
        match data {
            Ok(json) => if json.len() == 0 {
                MoveView::End(Err(no_data_error(uuid)))
            } else {
                MoveView::Next(
                    ImportBookView::Decoded { client, uuid, dir, received: json.len() as int },
                    ActionView::DecodeBook(json),
                )
            },
            Err(e) => MoveView::End(Err(e)),
        }
    }

    /// The book goes into the library.
    pub open spec fn insert(
        payload: SyncBookPayloadView,
        cover: Option<Seq<char>>,
        now: Instant,
    ) -> MoveView<ImportBookView, BookView> {
        let book = contents::restored_book(payload, cover, now);
        MoveView::Next(
            ImportBookView::Book { book, chapters: contents::restored_chapters(payload) },
            ActionView::InsertBook(book),
        )
    }

    /// What follows a reply.
    pub open spec fn after(self, event: EventView, now: Instant) -> MoveView<ImportBookView, BookView> {
        match self {
            ImportBookView::Client { uuid, dir } => match event {
                EventView::Client(Ok(client)) => ImportBookView::fetch(client, uuid, dir, 0),
                EventView::Client(Err(e)) => MoveView::End(Err(e)),
                _ => protocol::unexpected(),
            },
            ImportBookView::Contents { client, uuid, dir, tried } => match event {
                EventView::Bytes(Ok(file)) => if file.len() > 0 {
                    ImportBookView::decode(client, uuid, dir, contents::unpacked(file))
                } else {
                    ImportBookView::fetch(client, uuid, dir, tried)
                },
                _ => ImportBookView::fetch(client, uuid, dir, tried),
            },
            ImportBookView::Decoded { client, uuid, dir, received } => match event {
                EventView::BookPayload(Ok(payload)) => match payload.cover_extension {
                    Some(extension) => MoveView::Next(
                        ImportBookView::Cover {
                            client,
                            uuid,
                            dir,
                            payload,
                            extension: dotted(extension),
                        },
                        ActionView::Exists(client, remote::cover_path(uuid, dotted(extension))),
                    ),
                    None => ImportBookView::insert(payload, None, now),
                },
                EventView::BookPayload(Err(e)) => MoveView::End(
                    Err(book_parse_error(received, e)),
                ),
                _ => protocol::unexpected(),
            },
            ImportBookView::Cover { client, uuid, dir, payload, extension } => match event {
                EventView::Flag(Ok(true)) => MoveView::Next(
                    ImportBookView::Placed {
                        client,
                        remote: remote::cover_path(uuid, extension),
                        payload,
                    },
                    ActionView::Locate(local_cover(dir, uuid, extension)),
                ),
                _ => ImportBookView::insert(payload, None, now),
            },
            ImportBookView::Placed { client, remote, payload } => match event {
                EventView::Located(path) => MoveView::Next(
                    ImportBookView::Fetched { payload, path },
                    ActionView::Run(TaskView::DownloadFile(client, remote, path)),
                ),
                _ => protocol::unexpected(),
            },
            ImportBookView::Fetched { payload, path } => match event {
                EventView::Flag(Ok(_)) => ImportBookView::insert(payload, Some(path), now),
                _ => ImportBookView::insert(payload, None, now),
            },
            ImportBookView::Book { book, chapters } => match event {
                EventView::Unit(Ok(_)) => MoveView::Next(
                    ImportBookView::Chapters { book },
                    ActionView::InsertChapters(chapters),
                ),
                EventView::Unit(Err(e)) => MoveView::End(Err(e)),
                _ => protocol::unexpected(),
            },
            ImportBookView::Chapters { book } => match event {
                EventView::Unit(Ok(_)) => MoveView::Next(
                    ImportBookView::Shrunk { book },
                    ActionView::ShrinkMemory,
                ),
                EventView::Unit(Err(e)) => MoveView::End(Err(e)),
                _ => protocol::unexpected(),
            },
            ImportBookView::Shrunk { book } => MoveView::End(Ok(book)),
        }
    }
}

/// Copies a book from the server into the library: its contents, wherever they stand, and its
/// cover, if it can be had.
pub fn download_and_import_book(book_uuid: String, documents_dir: String) -> (r: Move<
    ImportBook,
    Book,
>)
    ensures
        r.deep_view() == MoveView::<ImportBookView, BookView>::Next(
            ImportBookView::Client { uuid: book_uuid@, dir: documents_dir@ },
            ActionView::Run(TaskView::Client),
        ),
        r.deep_view() == ImportBookView::start(book_uuid@, documents_dir@),
{
    Move::Next(
        ImportBook::Client { uuid: book_uuid, dir: documents_dir },
        Action::Run(Task::Client),
    )
}

impl ImportBook {
    fn fetch(client: WebDavClient, uuid: String, dir: String, tried: usize) -> (r: Move<
        ImportBook,
        Book,
    >)
        ensures
            r.deep_view() == ImportBookView::fetch(
                client.deep_view(),
                uuid@,
                dir@,
                tried as int,
            ),
    {
        if tried < 4 {
            let handle = client.clone();
            let path = remote::book_place(&uuid, tried);
            Move::Next(
                ImportBook::Contents { client, uuid, dir, tried: tried + 1 },
                Action::Download(handle, path),
            )
        } else {
            Move::End(
                Err(
                    text::concat3(
                        "File nội dung truyện '",
                        &uuid,
                        "' trên WebDAV bị thiếu hoặc rỗng (0 bytes). Vui lòng mở thiết bị có truyện và bấm 'Đồng bộ' (hoặc 'Đẩy lên Cloud') để tải lại nội dung.",
                    ),
                ),
            )
        }
    }

    /// Goes on with what came of unpacking the contents.
    pub fn decode(
        client: WebDavClient,
        uuid: String,
        dir: String,
        data: Result<Vec<u8>, String>,
    ) -> (r: Move<ImportBook, Book>)
        ensures
            r.deep_view() == ImportBookView::decode(
                client.deep_view(),
                uuid@,
                dir@,
                reply::bytes_outcome(data),
            ),
    {
        match data {
            Ok(json) => if json.len() == 0 {
                Move::End(
                    Err(
                        text::concat3(
                            "Decoded JSON data for book '",
                            &uuid,
                            "' is empty (0 bytes)",
                        ),
                    ),
                )
            } else {
                Move::Next(
                    ImportBook::Decoded { client, uuid, dir, received: json.len() },
                    Action::DecodeBook(json),
                )
            },
            Err(e) => Move::End(Err(e)),
        }
    }

    fn insert(payload: SyncBookPayload, cover: Option<String>, now: Instant) -> (r: Move<
        ImportBook,
        Book,
    >)
        requires
            now.valid(),
        ensures
            r.deep_view() == ImportBookView::insert(payload.deep_view(), cover.deep_view(), now),
    {
        let (book, chapters) = contents::restore_book(payload, cover, now);
        let record = book.clone();
        Move::Next(ImportBook::Book { book, chapters }, Action::InsertBook(record))
    }

    /// What follows a reply.
    pub fn advance(self, event: Event, now: Instant) -> (r: Move<ImportBook, Book>)
        requires
            now.valid(),
        ensures
            r.deep_view() == self.deep_view().after(event.deep_view(), now),
    {
        match self {
            ImportBook::Client { uuid, dir } => match event {
                Event::Client(Ok(client)) => ImportBook::fetch(client, uuid, dir, 0),
                Event::Client(Err(e)) => Move::End(Err(e)),
                _ => protocol::unexpected_reply(),
            },
            ImportBook::Contents { client, uuid, dir, tried } => match event {
                Event::Bytes(Ok(file)) => if file.len() > 0 {
                    ImportBook::decode(client, uuid, dir, contents::unpack(file))
                } else {
                    ImportBook::fetch(client, uuid, dir, tried)
                },
                _ => ImportBook::fetch(client, uuid, dir, tried),
            },
            ImportBook::Decoded { client, uuid, dir, received } => match event {
                Event::BookPayload(Ok(payload)) => match &payload.cover_extension {
                    Some(extension) => {
                        let extension = if text::starts_with(extension, ".") {
                            extension.clone()
                        } else {
                            text::concat2(".", extension)
                        };
                        let handle = client.clone();
                        let path = remote::cover_file(&uuid, &extension);
                        Move::Next(
                            ImportBook::Cover { client, uuid, dir, payload, extension },
                            Action::Exists(handle, path),
                        )
                    },
                    None => ImportBook::insert(payload, None, now),
                },
                Event::BookPayload(Err(e)) => {
                    let head = text::concat3(
                        "Failed to parse book JSON (",
                        &number::decimal_text(received as u64),
                        " bytes received): ",
                    );
                    Move::End(Err(text::concat2(&head, &e)))
                },
                _ => protocol::unexpected_reply(),
            },
            ImportBook::Cover { client, uuid, dir, payload, extension } => match event {
                Event::Flag(Ok(true)) => {
                    let remote = remote::cover_file(&uuid, &extension);
                    let local = cover_location(dir, &uuid, &extension);
                    Move::Next(
                        ImportBook::Placed { client, remote, payload },
                        Action::Locate(local),
                    )
                },
                _ => ImportBook::insert(payload, None, now),
            },
            ImportBook::Placed { client, remote, payload } => match event {
                Event::Located(path) => Move::Next(
                    ImportBook::Fetched { payload, path: path.clone() },
                    Action::Run(Task::DownloadFile(client, remote, path)),
                ),
                _ => protocol::unexpected_reply(),
            },
            ImportBook::Fetched { payload, path } => match event {
                Event::Flag(Ok(_)) => ImportBook::insert(payload, Some(path), now),
                _ => ImportBook::insert(payload, None, now),
            },
            ImportBook::Book { book, chapters } => match event {
                Event::Unit(Ok(_)) => Move::Next(
                    ImportBook::Chapters { book },
                    Action::InsertChapters(chapters),
                ),
                Event::Unit(Err(e)) => Move::End(Err(e)),
                _ => protocol::unexpected_reply(),
            },
            ImportBook::Chapters { book } => match event {
                Event::Unit(Ok(_)) => Move::Next(ImportBook::Shrunk { book }, Action::ShrinkMemory),
                Event::Unit(Err(e)) => Move::End(Err(e)),
                _ => protocol::unexpected_reply(),
            },
            ImportBook::Shrunk { book } => Move::End(Ok(book)),
        }
    }
}

} // verus!
