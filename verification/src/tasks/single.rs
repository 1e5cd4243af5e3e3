//! Single books: copying one to the server or from it, and deleting one there.
use vstd::prelude::*;

use crate::client::{ClientView, WebDavClient};
use crate::index;
use crate::laws::spread;
use crate::models::{Book, BookView, SyncResult, SyncResultView};
use crate::payload::{SyncDataFile, SyncDataFileView};
use crate::protocol;
use crate::protocol::{Action, ActionView, Event, EventView, Move, MoveView, Task, TaskView};
use crate::remote;
use crate::text;
use crate::time;
use crate::time::Instant;

verus! {

/// What is reported of a pushed book.
pub open spec fn pushed_result(uuid: Seq<char>, success: bool) -> SyncResultView {
    SyncResultView {
        success,
        message: "Pushed book "@ + uuid + " to cloud"@,
        local_changed: false,
    }
}

/// What is reported of a pulled book.
pub open spec fn pulled_result(uuid: Seq<char>) -> SyncResultView {
    SyncResultView {
        success: true,
        message: "Pulled book "@ + uuid + " from cloud"@,
        local_changed: true,
    }
}

/// What is reported of a deleted book.
pub open spec fn deleted_result(uuid: Seq<char>) -> SyncResultView {
    SyncResultView {
        success: true,
        message: "Deleted book "@ + uuid + " from cloud"@,
        local_changed: false,
    }
}

/// What is reported of a fetched book.
pub open spec fn fetched_result(title: Seq<char>) -> SyncResultView {
    SyncResultView {
        success: true,
        message: "Downloaded virtual book "@ + title,
        local_changed: true,
    }
}

/// Copying a book to the server, and listing it there.
pub enum ForcePushBook {
    /// The book was copied.
    Exported { uuid: String },
    /// Its progress was synchronised.
    ProgressSynced { uuid: String, ok: bool },
    /// Its bookmarks were synchronised.
    BookmarksSynced { uuid: String, ok: bool },
    /// Its highlights were synchronised.
    HighlightsSynced { uuid: String, ok: bool },
    /// The client was asked for.
    Client { uuid: String, ok: bool },
    /// The book was looked up.
    Book { client: WebDavClient, uuid: String, ok: bool },
    /// The index was looked for.
    IndexLooked { client: WebDavClient, uuid: String, ok: bool, book: Book },
    /// The index was asked for.
    IndexFetched { client: WebDavClient, uuid: String, ok: bool, book: Book },
    /// The index was handed over to be read.
    IndexDecoded { client: WebDavClient, uuid: String, ok: bool, book: Book },
    /// The kind of the book's cover was asked for.
    Extended { client: WebDavClient, uuid: String, ok: bool, book: Book, index: SyncDataFile },
    /// The new index was handed over to be written down.
    IndexEncoded { client: WebDavClient, uuid: String, ok: bool },
    /// The server was sent the new index.
    IndexSaved { uuid: String, ok: bool },
    /// The settings were told.
    Stamped { uuid: String, ok: bool },
}

/// What a `ForcePushBook` holds.
pub enum ForcePushBookView {
    Exported { uuid: Seq<char> },
    ProgressSynced { uuid: Seq<char>, ok: bool },
    BookmarksSynced { uuid: Seq<char>, ok: bool },
    HighlightsSynced { uuid: Seq<char>, ok: bool },
    Client { uuid: Seq<char>, ok: bool },
    Book { client: ClientView, uuid: Seq<char>, ok: bool },
    IndexLooked { client: ClientView, uuid: Seq<char>, ok: bool, book: BookView },
    IndexFetched { client: ClientView, uuid: Seq<char>, ok: bool, book: BookView },
    IndexDecoded { client: ClientView, uuid: Seq<char>, ok: bool, book: BookView },
    Extended {
        client: ClientView,
        uuid: Seq<char>,
        ok: bool,
        book: BookView,
        index: SyncDataFileView,
    },
    IndexEncoded { client: ClientView, uuid: Seq<char>, ok: bool },
    IndexSaved { uuid: Seq<char>, ok: bool },
    Stamped { uuid: Seq<char>, ok: bool },
}

impl DeepView for ForcePushBook {
    type V = ForcePushBookView;

    open spec fn deep_view(&self) -> ForcePushBookView {
        match self {
            ForcePushBook::Exported { uuid } => ForcePushBookView::Exported { uuid: uuid@ },
            ForcePushBook::ProgressSynced { uuid, ok } => ForcePushBookView::ProgressSynced {
                uuid: uuid@,
                ok: *ok,
            },
            ForcePushBook::BookmarksSynced { uuid, ok } => ForcePushBookView::BookmarksSynced {
                uuid: uuid@,
                ok: *ok,
            },
            ForcePushBook::HighlightsSynced { uuid, ok } => ForcePushBookView::HighlightsSynced {
                uuid: uuid@,
                ok: *ok,
            },
            ForcePushBook::Client { uuid, ok } => ForcePushBookView::Client {
                uuid: uuid@,
                ok: *ok,
            },
            ForcePushBook::Book { client, uuid, ok } => ForcePushBookView::Book {
                client: client.deep_view(),
                uuid: uuid@,
                ok: *ok,
            },
            ForcePushBook::IndexLooked { client, uuid, ok, book } => ForcePushBookView::IndexLooked {
                client: client.deep_view(),
                uuid: uuid@,
                ok: *ok,
                book: book.deep_view(),
            },
            ForcePushBook::IndexFetched { client, uuid, ok, book } => ForcePushBookView::IndexFetched {
                client: client.deep_view(),
                uuid: uuid@,
                ok: *ok,
                book: book.deep_view(),
            },
            ForcePushBook::IndexDecoded { client, uuid, ok, book } => ForcePushBookView::IndexDecoded {
                client: client.deep_view(),
                uuid: uuid@,
                ok: *ok,
                book: book.deep_view(),
            },
            ForcePushBook::Extended { client, uuid, ok, book, index } => ForcePushBookView::Extended {
                client: client.deep_view(),
                uuid: uuid@,
                ok: *ok,
                book: book.deep_view(),
                index: index.deep_view(),
            },
            ForcePushBook::IndexEncoded { client, uuid, ok } => ForcePushBookView::IndexEncoded {
                client: client.deep_view(),
                uuid: uuid@,
                ok: *ok,
            },
            ForcePushBook::IndexSaved { uuid, ok } => ForcePushBookView::IndexSaved {
                uuid: uuid@,
                ok: *ok,
            },
            ForcePushBook::Stamped { uuid, ok } => ForcePushBookView::Stamped {
                uuid: uuid@,
                ok: *ok,
            },
        }
    }
}

impl ForcePushBookView {
    /// The beginning.
    pub open spec fn start(uuid: Seq<char>) -> MoveView<ForcePushBookView, SyncResultView> {
        MoveView::Next(
            ForcePushBookView::Exported { uuid },
            ActionView::Run(TaskView::ExportBook(uuid)),
        )
    }

    /// Tells the settings, if the book was copied.
    pub open spec fn finish(uuid: Seq<char>, ok: bool) -> MoveView<
        ForcePushBookView,
        SyncResultView,
    > {
        if ok {
            MoveView::Next(
                ForcePushBookView::Stamped { uuid, ok },
                ActionView::Run(TaskView::RecordTimestamp),
            )
        } else {
            MoveView::End(Ok(pushed_result(uuid, ok)))
        }
    }

    /// Goes on from the index that the server has: a book that it lists already is left alone.
    pub open spec fn list(
        client: ClientView,
        uuid: Seq<char>,
        ok: bool,
        book: BookView,
        index: SyncDataFileView,
        now: Instant,
    ) -> MoveView<ForcePushBookView, SyncResultView> {
        if index::is_listed(index.books, uuid) {
            ForcePushBookView::finish(uuid, ok)
        } else {
            match book.cover_path {
                Some(path) => MoveView::Next(
                    ForcePushBookView::Extended { client, uuid, ok, book, index },
                    ActionView::CoverExtension(path),
                ),
                None => ForcePushBookView::enter(client, uuid, ok, book, index, None, now),
            }
        }
    }

    /// Lists the book in the index.
    pub open spec fn enter(
        client: ClientView,
        uuid: Seq<char>,
        ok: bool,
        book: BookView,
        index: SyncDataFileView,
        extension: Option<Seq<char>>,
        now: Instant,
    ) -> MoveView<ForcePushBookView, SyncResultView> {
        let item = index::entry(book, extension, now);
        MoveView::Next(
            ForcePushBookView::IndexEncoded { client, uuid, ok },
            ActionView::EncodeIndex(index::dated(index::with_book(index, item), now)),
        )
    }

    /// What follows a reply.
    pub open spec fn after(self, event: EventView, now: Instant) -> MoveView<
        ForcePushBookView,
        SyncResultView,
    > {
        match self {
            ForcePushBookView::Exported { uuid } => match event {
                EventView::Flag(Ok(ok)) => MoveView::Next(
                    ForcePushBookView::ProgressSynced { uuid, ok },
                    ActionView::Run(TaskView::SyncProgress(uuid)),
                ),
                EventView::Flag(Err(e)) => MoveView::End(Err(e)),
                _ => protocol::unexpected(),
            },
            ForcePushBookView::ProgressSynced { uuid, ok } => MoveView::Next(
                ForcePushBookView::BookmarksSynced { uuid, ok },
                ActionView::Run(TaskView::SyncBookmarks(uuid)),
            ),
            ForcePushBookView::BookmarksSynced { uuid, ok } => MoveView::Next(
                ForcePushBookView::HighlightsSynced { uuid, ok },
                ActionView::Run(TaskView::SyncHighlights(uuid)),
            ),
            ForcePushBookView::HighlightsSynced { uuid, ok } => MoveView::Next(
                ForcePushBookView::Client { uuid, ok },
                ActionView::Run(TaskView::Client),
            ),
            ForcePushBookView::Client { uuid, ok } => match event {
                EventView::Client(Ok(client)) => MoveView::Next(
                    ForcePushBookView::Book { client, uuid, ok },
                    ActionView::GetBook(uuid),
                ),
                _ => ForcePushBookView::finish(uuid, ok),
            },
            ForcePushBookView::Book { client, uuid, ok } => match event {
                EventView::Book(Ok(Some(book))) => MoveView::Next(
                    ForcePushBookView::IndexLooked { client, uuid, ok, book },
                    ActionView::Exists(client, remote::INDEX@),
                ),
                _ => ForcePushBookView::finish(uuid, ok),
            },
            ForcePushBookView::IndexLooked { client, uuid, ok, book } => match event {
                EventView::Flag(Ok(true)) => MoveView::Next(
                    ForcePushBookView::IndexFetched { client, uuid, ok, book },
                    ActionView::Download(client, remote::INDEX@),
                ),
                _ => ForcePushBookView::list(
                    client,
                    uuid,
                    ok,
                    book,
                    index::empty_index(now),
                    now,
                ),
            },
            ForcePushBookView::IndexFetched { client, uuid, ok, book } => match event {
                EventView::Bytes(Ok(bytes)) => MoveView::Next(
                    ForcePushBookView::IndexDecoded { client, uuid, ok, book },
                    ActionView::DecodeIndex(bytes),
                ),
                _ => ForcePushBookView::list(
                    client,
                    uuid,
                    ok,
                    book,
                    index::empty_index(now),
                    now,
                ),
            },
            ForcePushBookView::IndexDecoded { client, uuid, ok, book } => match event {
                EventView::Index(Ok(index)) => ForcePushBookView::list(
                    client,
                    uuid,
                    ok,
                    book,
                    index,
                    now,
                ),
                _ => ForcePushBookView::list(
                    client,
                    uuid,
                    ok,
                    book,
                    index::empty_index(now),
                    now,
                ),
            },
            ForcePushBookView::Extended { client, uuid, ok, book, index } => match event {
                EventView::Extension(extension) => ForcePushBookView::enter(
                    client,
                    uuid,
                    ok,
                    book,
                    index,
                    extension,
                    now,
                ),
                _ => protocol::unexpected(),
            },
            ForcePushBookView::IndexEncoded { client, uuid, ok } => match event {
                EventView::Bytes(Ok(bytes)) => MoveView::Next(
                    ForcePushBookView::IndexSaved { uuid, ok },
                    ActionView::Upload(client, remote::INDEX@, bytes),
                ),
                _ => ForcePushBookView::finish(uuid, ok),
            },
            ForcePushBookView::IndexSaved { uuid, ok } => ForcePushBookView::finish(uuid, ok),
            ForcePushBookView::Stamped { uuid, ok } => MoveView::End(Ok(pushed_result(uuid, ok))),
        }
    }
}

/// Copies a book to the server, synchronises what belongs to it, and sees to it that the index
/// lists it.
pub fn force_push_book(book_uuid: String) -> (r: Move<ForcePushBook, SyncResult>)
    ensures
        r.deep_view() == MoveView::<ForcePushBookView, SyncResultView>::Next(
            ForcePushBookView::Exported { uuid: book_uuid@ },
            ActionView::Run(TaskView::ExportBook(book_uuid@)),
        ),
        r.deep_view() == ForcePushBookView::start(book_uuid@),
{
    let uuid = book_uuid.clone();
    Move::Next(ForcePushBook::Exported { uuid }, Action::Run(Task::ExportBook(book_uuid)))
}

/// Copies a single book to the server: `force_push_book` under another name.
pub fn upload_single_book(book_uuid: String) -> (r: Move<ForcePushBook, SyncResult>)
    ensures
        r.deep_view() == MoveView::<ForcePushBookView, SyncResultView>::Next(
            ForcePushBookView::Exported { uuid: book_uuid@ },
            ActionView::Run(TaskView::ExportBook(book_uuid@)),
        ),
        r.deep_view() == ForcePushBookView::start(book_uuid@),
{
    force_push_book(book_uuid)
}

impl ForcePushBook {
    fn finish(uuid: String, ok: bool) -> (r: Move<ForcePushBook, SyncResult>)
        ensures
            r.deep_view() == ForcePushBookView::finish(uuid@, ok),
    {
        if ok {
            Move::Next(ForcePushBook::Stamped { uuid, ok }, Action::Run(Task::RecordTimestamp))
        } else {
            Move::End(Ok(ForcePushBook::report(&uuid, ok)))
        }
    }

    fn report(uuid: &str, success: bool) -> (r: SyncResult)
        ensures
            r.deep_view() == pushed_result(uuid@, success),
    {
        SyncResult {
            success,
            message: text::concat3("Pushed book ", uuid, " to cloud"),
            local_changed: false,
        }
    }

    fn list(
        client: WebDavClient,
        uuid: String,
        ok: bool,
        book: Book,
        index: SyncDataFile,
        now: Instant,
    ) -> (r: Move<ForcePushBook, SyncResult>)
        requires
            now.valid(),
        ensures
            r.deep_view() == ForcePushBookView::list(
                client.deep_view(),
                uuid@,
                ok,
                book.deep_view(),
                index.deep_view(),
                now,
            ),
    {
        if index::books_contain(&index.books, &uuid) {
            ForcePushBook::finish(uuid, ok)
        } else {
            let cover = book.cover_path.clone();
            match cover {
                Some(path) => Move::Next(
                    ForcePushBook::Extended { client, uuid, ok, book, index },
                    Action::CoverExtension(path),
                ),
                None => ForcePushBook::enter(client, uuid, ok, book, index, None, now),
            }
        }
    }

    fn enter(
        client: WebDavClient,
        uuid: String,
        ok: bool,
        book: Book,
        index: SyncDataFile,
        extension: Option<String>,
        now: Instant,
    ) -> (r: Move<ForcePushBook, SyncResult>)
        requires
            now.valid(),
        ensures
            r.deep_view() == ForcePushBookView::enter(
                client.deep_view(),
                uuid@,
                ok,
                book.deep_view(),
                index.deep_view(),
                extension.deep_view(),
                now,
            ),
    {
        let mut index = index;
        index::add_book(&mut index, index::make_entry(&book, &extension, now));
        let index = SyncDataFile {
            version: index.version,
            last_sync_time: time::format_rfc3339(now),
            books: index.books,
            deleted: index.deleted,
        };
        Move::Next(
            ForcePushBook::IndexEncoded { client, uuid, ok },
            Action::EncodeIndex(index),
        )
    }

    /// What follows a reply.
    pub fn advance(self, event: Event, now: Instant) -> (r: Move<ForcePushBook, SyncResult>)
        requires
            now.valid(),
        ensures
            r.deep_view() == self.deep_view().after(event.deep_view(), now),
    {
        match self {
            ForcePushBook::Exported { uuid } => match event {
                Event::Flag(Ok(ok)) => {
                    let id = uuid.clone();
                    Move::Next(
                        ForcePushBook::ProgressSynced { uuid, ok },
                        Action::Run(Task::SyncProgress(id)),
                    )
                },
                Event::Flag(Err(e)) => Move::End(Err(e)),
                _ => protocol::unexpected_reply(),
            },
            ForcePushBook::ProgressSynced { uuid, ok } => {
                let id = uuid.clone();
                Move::Next(
                    ForcePushBook::BookmarksSynced { uuid, ok },
                    Action::Run(Task::SyncBookmarks(id)),
                )
            },
            ForcePushBook::BookmarksSynced { uuid, ok } => {
                let id = uuid.clone();
                Move::Next(
                    ForcePushBook::HighlightsSynced { uuid, ok },
                    Action::Run(Task::SyncHighlights(id)),
                )
            },
            ForcePushBook::HighlightsSynced { uuid, ok } => Move::Next(
                ForcePushBook::Client { uuid, ok },
                Action::Run(Task::Client),
            ),
            ForcePushBook::Client { uuid, ok } => match event {
                Event::Client(Ok(client)) => {
                    let id = uuid.clone();
                    Move::Next(ForcePushBook::Book { client, uuid, ok }, Action::GetBook(id))
                },
                _ => ForcePushBook::finish(uuid, ok),
            },
            ForcePushBook::Book { client, uuid, ok } => match event {
                Event::Book(Ok(Some(book))) => {
                    let handle = client.clone();
                    Move::Next(
                        ForcePushBook::IndexLooked { client, uuid, ok, book },
                        Action::Exists(handle, remote::INDEX.to_string()),
                    )
                },
                _ => ForcePushBook::finish(uuid, ok),
            },
            ForcePushBook::IndexLooked { client, uuid, ok, book } => match event {
                Event::Flag(Ok(true)) => {
                    let handle = client.clone();
                    Move::Next(
                        ForcePushBook::IndexFetched { client, uuid, ok, book },
                        Action::Download(handle, remote::INDEX.to_string()),
                    )
                },
                _ => ForcePushBook::list(client, uuid, ok, book, index::new_index(now), now),
            },
            ForcePushBook::IndexFetched { client, uuid, ok, book } => match event {
                Event::Bytes(Ok(bytes)) => Move::Next(
                    ForcePushBook::IndexDecoded { client, uuid, ok, book },
                    Action::DecodeIndex(bytes),
                ),
                _ => ForcePushBook::list(client, uuid, ok, book, index::new_index(now), now),
            },
            ForcePushBook::IndexDecoded { client, uuid, ok, book } => match event {
                Event::Index(Ok(index)) => ForcePushBook::list(client, uuid, ok, book, index, now),
                _ => ForcePushBook::list(client, uuid, ok, book, index::new_index(now), now),
            },
            ForcePushBook::Extended { client, uuid, ok, book, index } => match event {
                Event::Extension(extension) => ForcePushBook::enter(
                    client,
                    uuid,
                    ok,
                    book,
                    index,
                    extension,
                    now,
                ),
                _ => protocol::unexpected_reply(),
            },
            ForcePushBook::IndexEncoded { client, uuid, ok } => match event {
                Event::Bytes(Ok(bytes)) => Move::Next(
                    ForcePushBook::IndexSaved { uuid, ok },
                    Action::Upload(client, remote::INDEX.to_string(), bytes),
                ),
                _ => ForcePushBook::finish(uuid, ok),
            },
            ForcePushBook::IndexSaved { uuid, ok } => ForcePushBook::finish(uuid, ok),
            ForcePushBook::Stamped { uuid, ok } => Move::End(Ok(ForcePushBook::report(&uuid, ok))),
        }
    }
}

/// Copying a book from the server, and synchronising what belongs to it.
pub enum ForcePullBook {
    /// The book was copied.
    Imported { uuid: String },
    /// Its progress was synchronised.
    ProgressSynced { uuid: String },
    /// Its bookmarks were synchronised.
    BookmarksSynced { uuid: String },
    /// Its highlights were synchronised.
    HighlightsSynced { uuid: String },
    /// The settings were told.
    Stamped { uuid: String },
}

/// What a `ForcePullBook` holds.
pub enum ForcePullBookView {
    Imported { uuid: Seq<char> },
    ProgressSynced { uuid: Seq<char> },
    BookmarksSynced { uuid: Seq<char> },
    HighlightsSynced { uuid: Seq<char> },
    Stamped { uuid: Seq<char> },
}

impl DeepView for ForcePullBook {
    type V = ForcePullBookView;

    open spec fn deep_view(&self) -> ForcePullBookView {
        match self {
            ForcePullBook::Imported { uuid } => ForcePullBookView::Imported { uuid: uuid@ },
            ForcePullBook::ProgressSynced { uuid } => ForcePullBookView::ProgressSynced {
                uuid: uuid@,
            },
            ForcePullBook::BookmarksSynced { uuid } => ForcePullBookView::BookmarksSynced {
                uuid: uuid@,
            },
            ForcePullBook::HighlightsSynced { uuid } => ForcePullBookView::HighlightsSynced {
                uuid: uuid@,
            },
            ForcePullBook::Stamped { uuid } => ForcePullBookView::Stamped { uuid: uuid@ },
        }
    }
}

impl ForcePullBookView {
    /// The beginning.
    pub open spec fn start(
        uuid: Seq<char>,
        dir: Seq<char>,
    ) -> MoveView<ForcePullBookView, SyncResultView> {
        MoveView::Next(
            ForcePullBookView::Imported { uuid },
            ActionView::Run(TaskView::ImportBook(uuid, dir)),
        )
    }

    /// What follows a reply.
    pub open spec fn after(self, event: EventView) -> MoveView<ForcePullBookView, SyncResultView> {
        match self {
            ForcePullBookView::Imported { uuid } => match event {
                EventView::Imported(Ok(_)) => MoveView::Next(
                    ForcePullBookView::ProgressSynced { uuid },
                    ActionView::Run(TaskView::SyncProgress(uuid)),
                ),
                EventView::Imported(Err(e)) => MoveView::End(Err(e)),
                _ => protocol::unexpected(),
            },
            ForcePullBookView::ProgressSynced { uuid } => MoveView::Next(
                ForcePullBookView::BookmarksSynced { uuid },
                ActionView::Run(TaskView::SyncBookmarks(uuid)),
            ),
            ForcePullBookView::BookmarksSynced { uuid } => MoveView::Next(
                ForcePullBookView::HighlightsSynced { uuid },
                ActionView::Run(TaskView::SyncHighlights(uuid)),
            ),
            ForcePullBookView::HighlightsSynced { uuid } => MoveView::Next(
                ForcePullBookView::Stamped { uuid },
                ActionView::Run(TaskView::RecordTimestamp),
            ),
            ForcePullBookView::Stamped { uuid } => MoveView::End(Ok(pulled_result(uuid))),
        }
    }
}

/// Copies a book from the server, and synchronises what belongs to it.
pub fn force_pull_book(book_uuid: String, documents_dir: String) -> (r: Move<
    ForcePullBook,
    SyncResult,
>)
    ensures
        r.deep_view() == MoveView::<ForcePullBookView, SyncResultView>::Next(
            ForcePullBookView::Imported { uuid: book_uuid@ },
            ActionView::Run(TaskView::ImportBook(book_uuid@, documents_dir@)),
        ),
        r.deep_view() == ForcePullBookView::start(book_uuid@, documents_dir@),
{
    let uuid = book_uuid.clone();
    Move::Next(
        ForcePullBook::Imported { uuid },
        Action::Run(Task::ImportBook(book_uuid, documents_dir)),
    )
}

impl ForcePullBook {
    /// What follows a reply.
    pub fn advance(self, event: Event) -> (r: Move<ForcePullBook, SyncResult>)
        ensures
            r.deep_view() == self.deep_view().after(event.deep_view()),
    {
        match self {
            ForcePullBook::Imported { uuid } => match event {
                Event::Imported(Ok(_)) => {
                    let id = uuid.clone();
                    Move::Next(
                        ForcePullBook::ProgressSynced { uuid },
                        Action::Run(Task::SyncProgress(id)),
                    )
                },
                Event::Imported(Err(e)) => Move::End(Err(e)),
                _ => protocol::unexpected_reply(),
            },
            ForcePullBook::ProgressSynced { uuid } => {
                let id = uuid.clone();
                Move::Next(
                    ForcePullBook::BookmarksSynced { uuid },
                    Action::Run(Task::SyncBookmarks(id)),
                )
            },
            ForcePullBook::BookmarksSynced { uuid } => {
                let id = uuid.clone();
                Move::Next(
                    ForcePullBook::HighlightsSynced { uuid },
                    Action::Run(Task::SyncHighlights(id)),
                )
            },
            ForcePullBook::HighlightsSynced { uuid } => Move::Next(
                ForcePullBook::Stamped { uuid },
                Action::Run(Task::RecordTimestamp),
            ),
            ForcePullBook::Stamped { uuid } => Move::End(
                Ok(
                    SyncResult {
                        success: true,
                        message: text::concat3("Pulled book ", &uuid, " from cloud"),
                        local_changed: true,
                    },
                ),
            ),
        }
    }
}

/// Deleting a book from the server.
pub enum DeleteFromCloud {
    /// The client was asked for.
    Client { uuid: String },
    /// So many of the book's files were deleted.
    Removed { client: WebDavClient, uuid: String, done: usize },
    /// The index was looked for.
    IndexLooked { client: WebDavClient, uuid: String },
    /// The index was asked for.
    IndexFetched { client: WebDavClient, uuid: String },
    /// The index was handed over to be read.
    IndexDecoded { client: WebDavClient, uuid: String },
    /// The new index was handed over to be written down.
    IndexEncoded { client: WebDavClient, uuid: String },
    /// The server was sent the new index.
    IndexSaved { uuid: String },
}

/// What a `DeleteFromCloud` holds.
pub enum DeleteFromCloudView {
    Client { uuid: Seq<char> },
    Removed { client: ClientView, uuid: Seq<char>, done: int },
    IndexLooked { client: ClientView, uuid: Seq<char> },
    IndexFetched { client: ClientView, uuid: Seq<char> },
    IndexDecoded { client: ClientView, uuid: Seq<char> },
    IndexEncoded { client: ClientView, uuid: Seq<char> },
    IndexSaved { uuid: Seq<char> },
}

impl DeepView for DeleteFromCloud {
    type V = DeleteFromCloudView;

    open spec fn deep_view(&self) -> DeleteFromCloudView {
        match self {
            DeleteFromCloud::Client { uuid } => DeleteFromCloudView::Client { uuid: uuid@ },
            DeleteFromCloud::Removed { client, uuid, done } => DeleteFromCloudView::Removed {
                client: client.deep_view(),
                uuid: uuid@,
                done: *done as int,
            },
            DeleteFromCloud::IndexLooked { client, uuid } => DeleteFromCloudView::IndexLooked {
                client: client.deep_view(),
                uuid: uuid@,
            },
            DeleteFromCloud::IndexFetched { client, uuid } => DeleteFromCloudView::IndexFetched {
                client: client.deep_view(),
                uuid: uuid@,
            },
            DeleteFromCloud::IndexDecoded { client, uuid } => DeleteFromCloudView::IndexDecoded {
                client: client.deep_view(),
                uuid: uuid@,
            },
            DeleteFromCloud::IndexEncoded { client, uuid } => DeleteFromCloudView::IndexEncoded {
                client: client.deep_view(),
                uuid: uuid@,
            },
            DeleteFromCloud::IndexSaved { uuid } => DeleteFromCloudView::IndexSaved { uuid: uuid@ },
        }
    }
}

impl DeleteFromCloudView {
    /// The beginning.
    pub open spec fn start(uuid: Seq<char>) -> MoveView<DeleteFromCloudView, SyncResultView> {
        MoveView::Next(DeleteFromCloudView::Client { uuid }, ActionView::Run(TaskView::Client))
    }

    /// Deletes the book's files, one after the other, and then looks for the index.
    pub open spec fn clear(client: ClientView, uuid: Seq<char>, done: int) -> MoveView<
        DeleteFromCloudView,
        SyncResultView,
    > {
        if done < 7 {
            MoveView::Next(
                DeleteFromCloudView::Removed { client, uuid, done: done + 1 },
                ActionView::Remove(client, remote::book_traces(uuid)[done]),
            )
        } else {
            MoveView::Next(
                DeleteFromCloudView::IndexLooked { client, uuid },
                ActionView::Exists(client, remote::INDEX@),
            )
        }
    }

    /// What follows a reply.
    pub open spec fn after(self, event: EventView, now: Instant) -> MoveView<
        DeleteFromCloudView,
        SyncResultView,
    > {
        match self {
            DeleteFromCloudView::Client { uuid } => match event {
                EventView::Client(Ok(client)) => DeleteFromCloudView::clear(client, uuid, 0),
                EventView::Client(Err(e)) => MoveView::End(Err(e)),
                _ => protocol::unexpected(),
            },
            DeleteFromCloudView::Removed { client, uuid, done } => DeleteFromCloudView::clear(
                client,
                uuid,
                done,
            ),
            DeleteFromCloudView::IndexLooked { client, uuid } => match event {
                EventView::Flag(Ok(true)) => MoveView::Next(
                    DeleteFromCloudView::IndexFetched { client, uuid },
                    ActionView::Download(client, remote::INDEX@),
                ),
                _ => MoveView::End(Ok(deleted_result(uuid))),
            },
            DeleteFromCloudView::IndexFetched { client, uuid } => match event {
                EventView::Bytes(Ok(bytes)) => MoveView::Next(
                    DeleteFromCloudView::IndexDecoded { client, uuid },
                    ActionView::DecodeIndex(bytes),
                ),
                _ => MoveView::End(Ok(deleted_result(uuid))),
            },
            DeleteFromCloudView::IndexDecoded { client, uuid } => match event {
                EventView::Index(Ok(index)) => MoveView::Next(
                    DeleteFromCloudView::IndexEncoded { client, uuid },
                    ActionView::EncodeIndex(index::without_book(index, uuid, now)),
                ),
                _ => MoveView::End(Ok(deleted_result(uuid))),
            },
            DeleteFromCloudView::IndexEncoded { client, uuid } => match event {
                EventView::Bytes(Ok(bytes)) => MoveView::Next(
                    DeleteFromCloudView::IndexSaved { uuid },
                    ActionView::Upload(client, remote::INDEX@, bytes),
                ),
                _ => MoveView::End(Ok(deleted_result(uuid))),
            },
            DeleteFromCloudView::IndexSaved { uuid } => MoveView::End(Ok(deleted_result(uuid))),
        }
    }
}

/// Deletes a book from the server: its files, and its entry in the index. What was deleted is
/// noted there, so that other devices delete it too.
pub fn delete_book_from_cloud(book_uuid: String) -> (r: Move<DeleteFromCloud, SyncResult>)
    ensures
        r.deep_view() == MoveView::<DeleteFromCloudView, SyncResultView>::Next(
            DeleteFromCloudView::Client { uuid: book_uuid@ },
            ActionView::Run(TaskView::Client),
        ),
        r.deep_view() == DeleteFromCloudView::start(book_uuid@),
{
    Move::Next(DeleteFromCloud::Client { uuid: book_uuid }, Action::Run(Task::Client))
}

impl DeleteFromCloud {
    fn clear(client: WebDavClient, uuid: String, done: usize) -> (r: Move<
        DeleteFromCloud,
        SyncResult,
    >)
        ensures
            r.deep_view() == DeleteFromCloudView::clear(client.deep_view(), uuid@, done as int),
    {
        let handle = client.clone();
        if done < 7 {
            let path = remote::book_trace(&uuid, done);
            Move::Next(
                DeleteFromCloud::Removed { client, uuid, done: done + 1 },
                Action::Remove(handle, path),
            )
        } else {
            Move::Next(
                DeleteFromCloud::IndexLooked { client, uuid },
                Action::Exists(handle, remote::INDEX.to_string()),
            )
        }
    }

    fn report(uuid: String) -> (r: Move<DeleteFromCloud, SyncResult>)
        ensures
            r.deep_view() == MoveView::<DeleteFromCloudView, SyncResultView>::End(
                Ok(deleted_result(uuid@)),
            ),
    {
        Move::End(
            Ok(
                SyncResult {
                    success: true,
                    message: text::concat3("Deleted book ", &uuid, " from cloud"),
                    local_changed: false,
                },
            ),
        )
    }

    /// What follows a reply. An index that is written down has the deletion carried out on every
    /// other device that synchronises with it in time.
    pub fn advance(self, event: Event, now: Instant) -> (r: Move<DeleteFromCloud, SyncResult>)
        requires
            now.valid(),
        ensures
            r.deep_view() == self.deep_view().after(event.deep_view(), now),
            self.deep_view() matches DeleteFromCloudView::IndexDecoded { uuid, .. } ==> (
            r.deep_view() matches MoveView::Next(_, ActionView::EncodeIndex(file))
                ==> spread::reaches_every_device(file, uuid, now)),
    {
        match self {
            DeleteFromCloud::Client { uuid } => match event {
                Event::Client(Ok(client)) => DeleteFromCloud::clear(client, uuid, 0),
                Event::Client(Err(e)) => Move::End(Err(e)),
                _ => protocol::unexpected_reply(),
            },
            DeleteFromCloud::Removed { client, uuid, done } => DeleteFromCloud::clear(
                client,
                uuid,
                done,
            ),
            DeleteFromCloud::IndexLooked { client, uuid } => match event {
                Event::Flag(Ok(true)) => {
                    let handle = client.clone();
                    Move::Next(
                        DeleteFromCloud::IndexFetched { client, uuid },
                        Action::Download(handle, remote::INDEX.to_string()),
                    )
                },
                _ => DeleteFromCloud::report(uuid),
            },
            DeleteFromCloud::IndexFetched { client, uuid } => match event {
                Event::Bytes(Ok(bytes)) => Move::Next(
                    DeleteFromCloud::IndexDecoded { client, uuid },
                    Action::DecodeIndex(bytes),
                ),
                _ => DeleteFromCloud::report(uuid),
            },
            DeleteFromCloud::IndexDecoded { client, uuid } => match event {
                Event::Index(Ok(index)) => {
                    let rest = index::delete_book(index, uuid.clone(), now);
                    Move::Next(
                        DeleteFromCloud::IndexEncoded { client, uuid },
                        Action::EncodeIndex(rest),
                    )
                },
                _ => DeleteFromCloud::report(uuid),
            },
            DeleteFromCloud::IndexEncoded { client, uuid } => match event {
                Event::Bytes(Ok(bytes)) => Move::Next(
                    DeleteFromCloud::IndexSaved { uuid },
                    Action::Upload(client, remote::INDEX.to_string(), bytes),
                ),
                _ => DeleteFromCloud::report(uuid),
            },
            DeleteFromCloud::IndexSaved { uuid } => DeleteFromCloud::report(uuid),
        }
    }
}

/// Fetching a book that is only listed so far.
pub enum DownloadVirtualBook {
    /// The book was copied.
    Imported,
    /// Its progress was synchronised.
    ProgressSynced { title: String },
    /// The settings were told.
    Stamped { title: String },
}

/// What a `DownloadVirtualBook` holds.
pub enum DownloadVirtualBookView {
    Imported,
    ProgressSynced { title: Seq<char> },
    Stamped { title: Seq<char> },
}

impl DeepView for DownloadVirtualBook {
    type V = DownloadVirtualBookView;

    open spec fn deep_view(&self) -> DownloadVirtualBookView {
        match self {
            DownloadVirtualBook::Imported => DownloadVirtualBookView::Imported,
            DownloadVirtualBook::ProgressSynced { title } => DownloadVirtualBookView::ProgressSynced {
                title: title@,
            },
            DownloadVirtualBook::Stamped { title } => DownloadVirtualBookView::Stamped {
                title: title@,
            },
        }
    }
}

impl DownloadVirtualBookView {
    /// The beginning.
    pub open spec fn start(
        uuid: Seq<char>,
        dir: Seq<char>,
    ) -> MoveView<DownloadVirtualBookView, SyncResultView> {
        MoveView::Next(
            DownloadVirtualBookView::Imported,
            ActionView::Run(TaskView::ImportBook(uuid, dir)),
        )
    }

    /// What follows a reply.
    pub open spec fn after(self, event: EventView) -> MoveView<
        DownloadVirtualBookView,
        SyncResultView,
    > {
        match self {
            DownloadVirtualBookView::Imported => match event {
                EventView::Imported(Ok(book)) => MoveView::Next(
                    DownloadVirtualBookView::ProgressSynced { title: book.title },
                    ActionView::Run(TaskView::SyncProgress(book.uuid)),
                ),
                EventView::Imported(Err(e)) => MoveView::End(Err(e)),
                _ => protocol::unexpected(),
            },
            DownloadVirtualBookView::ProgressSynced { title } => MoveView::Next(
                DownloadVirtualBookView::Stamped { title },
                ActionView::Run(TaskView::RecordTimestamp),
            ),
            DownloadVirtualBookView::Stamped { title } => MoveView::End(Ok(fetched_result(title))),
        }
    }
}

/// Fetches a book that is only listed so far, and synchronises how far it has been read.
pub fn download_virtual_book(book_uuid: String, documents_dir: String) -> (r: Move<
    DownloadVirtualBook,
    SyncResult,
>)
    ensures
        r.deep_view() == MoveView::<DownloadVirtualBookView, SyncResultView>::Next(
            DownloadVirtualBookView::Imported,
            ActionView::Run(TaskView::ImportBook(book_uuid@, documents_dir@)),
        ),
        r.deep_view() == DownloadVirtualBookView::start(book_uuid@, documents_dir@),
{
    Move::Next(
        DownloadVirtualBook::Imported,
        Action::Run(Task::ImportBook(book_uuid, documents_dir)),
    )
}

impl DownloadVirtualBook {
    /// What follows a reply.
    pub fn advance(self, event: Event) -> (r: Move<DownloadVirtualBook, SyncResult>)
        ensures
            r.deep_view() == self.deep_view().after(event.deep_view()),
    {
        match self {
            DownloadVirtualBook::Imported => match event {
                Event::Imported(Ok(book)) => Move::Next(
                    DownloadVirtualBook::ProgressSynced { title: book.title },
                    Action::Run(Task::SyncProgress(book.uuid)),
                ),
                Event::Imported(Err(e)) => Move::End(Err(e)),
                _ => protocol::unexpected_reply(),
            },
            DownloadVirtualBook::ProgressSynced { title } => Move::Next(
                DownloadVirtualBook::Stamped { title },
                Action::Run(Task::RecordTimestamp),
            ),
            DownloadVirtualBook::Stamped { title } => Move::End(
                Ok(
                    SyncResult {
                        success: true,
                        message: text::concat2("Downloaded virtual book ", &title),
                        local_changed: true,
                    },
                ),
            ),
        }
    }
}

} // verus!
