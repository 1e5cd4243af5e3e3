//! Synchronising the library: the books themselves, the index of the server, and what belongs to
//! each book.
use vstd::prelude::*;

use crate::client::{ClientView, WebDavClient};
use crate::index;
use crate::models::{
    Book, BookView, SyncProgressEvent, SyncProgressEventView, SyncResult, SyncResultView,
};
use crate::number;
use crate::payload::{SyncDataFile, SyncDataFileView};
use crate::protocol;
use crate::protocol::{Action, ActionView, Event, EventView, Move, MoveView, Task, TaskView};
use crate::remote;
use crate::tasks::record;
use crate::text;
use crate::time;
use crate::time::Instant;

verus! {

/// How often saving the index is tried.
pub const ATTEMPTS: u8 = 3;

/// What is being synchronised, and whether this device has changed so far.
pub struct Library {
    pub client: WebDavClient,
    pub books: Vec<Book>,
    pub dir: Option<String>,
    pub changed: bool,
}

/// What a `Library` holds.
pub struct LibraryView {
    pub client: ClientView,
    pub books: Seq<BookView>,
    pub dir: Option<Seq<char>>,
    pub changed: bool,
}

impl DeepView for Library {
    type V = LibraryView;

    open spec fn deep_view(&self) -> LibraryView {
        LibraryView {
            client: self.client.deep_view(),
            books: self.books.deep_view(),
            dir: self.dir.deep_view(),
            changed: self.changed,
        }
    }
}

/// One attempt at bringing the index up to date: how many were begun, the index as far as it has
/// come, and which book of the library is next.
pub struct Round {
    pub attempt: u8,
    pub index: SyncDataFile,
    pub at: usize,
}

/// What a `Round` holds.
pub struct RoundView {
    pub attempt: u8,
    pub index: SyncDataFileView,
    pub at: int,
}

impl DeepView for Round {
    type V = RoundView;

    open spec fn deep_view(&self) -> RoundView {
        RoundView { attempt: self.attempt, index: self.index.deep_view(), at: self.at as int }
    }
}

/// Synchronising the library.
pub enum SyncLibrary {
    /// The beginning was announced.
    Started { dir: Option<String> },
    /// The client was asked for.
    Client { dir: Option<String> },
    /// So many of the folders were asked for.
    Folders { client: WebDavClient, dir: Option<String>, made: usize },
    /// An index in the old place was looked for.
    LegacyLooked { client: WebDavClient, dir: Option<String> },
    /// There is one; an index in the new place was looked for.
    CurrentLooked { client: WebDavClient, dir: Option<String> },
    /// There is none; the old one was asked for.
    LegacyFetched { client: WebDavClient, dir: Option<String> },
    /// The old index was copied to the new place.
    Migrated { client: WebDavClient, dir: Option<String> },
    /// The books of this device were asked for.
    Books { client: WebDavClient, dir: Option<String> },
    /// The index was looked for.
    IndexLooked { library: Library, attempt: u8 },
    /// The index was asked for.
    IndexFetched { library: Library, attempt: u8 },
    /// The index was handed over to be read.
    IndexDecoded { library: Library, attempt: u8 },
    /// A book that was deleted elsewhere was deleted here.
    BookDeleted { library: Library, round: Round },
    /// The contents of a book were looked for on the server.
    BookLooked { library: Library, round: Round },
    /// That a book is to be copied was announced.
    Announced { library: Library, round: Round },
    /// A book was copied to the server.
    Exported { library: Library, round: Round },
    /// The kind of its cover was asked for.
    Extended { library: Library, round: Round },
    /// The new index was handed over to be written down.
    IndexEncoded { library: Library, attempt: u8 },
    /// The server was sent the new index.
    IndexSaved { library: Library, attempt: u8 },
    /// The progress of a book was synchronised.
    ProgressSynced { library: Library, at: usize },
    /// The bookmarks of a book were synchronised.
    BookmarksSynced { library: Library, at: usize },
    /// The highlights of a book were synchronised.
    HighlightsSynced { library: Library, at: usize },
    /// The books of the server were listed, for their covers.
    CoversFetched { count: usize, changed: bool },
    /// The history was told.
    Noted { changed: bool },
    /// The settings were told.
    Stamped { changed: bool },
    /// The end was announced.
    Finished { changed: bool },
}

/// What a `SyncLibrary` holds.
pub enum SyncLibraryView {
    Started { dir: Option<Seq<char>> },
    Client { dir: Option<Seq<char>> },
    Folders { client: ClientView, dir: Option<Seq<char>>, made: int },
    LegacyLooked { client: ClientView, dir: Option<Seq<char>> },
    CurrentLooked { client: ClientView, dir: Option<Seq<char>> },
    LegacyFetched { client: ClientView, dir: Option<Seq<char>> },
    Migrated { client: ClientView, dir: Option<Seq<char>> },
    Books { client: ClientView, dir: Option<Seq<char>> },
    IndexLooked { library: LibraryView, attempt: u8 },
    IndexFetched { library: LibraryView, attempt: u8 },
    IndexDecoded { library: LibraryView, attempt: u8 },
    BookDeleted { library: LibraryView, round: RoundView },
    BookLooked { library: LibraryView, round: RoundView },
    Announced { library: LibraryView, round: RoundView },
    Exported { library: LibraryView, round: RoundView },
    Extended { library: LibraryView, round: RoundView },
    IndexEncoded { library: LibraryView, attempt: u8 },
    IndexSaved { library: LibraryView, attempt: u8 },
    ProgressSynced { library: LibraryView, at: int },
    BookmarksSynced { library: LibraryView, at: int },
    HighlightsSynced { library: LibraryView, at: int },
    CoversFetched { count: int, changed: bool },
    Noted { changed: bool },
    Stamped { changed: bool },
    Finished { changed: bool },
}

impl DeepView for SyncLibrary {
    type V = SyncLibraryView;

    open spec fn deep_view(&self) -> SyncLibraryView {
        match self {
            SyncLibrary::Started { dir } => SyncLibraryView::Started { dir: dir.deep_view() },
            SyncLibrary::Client { dir } => SyncLibraryView::Client { dir: dir.deep_view() },
            SyncLibrary::Folders { client, dir, made } => SyncLibraryView::Folders {
                client: client.deep_view(),
                dir: dir.deep_view(),
                made: *made as int,
            },
            SyncLibrary::LegacyLooked { client, dir } => SyncLibraryView::LegacyLooked {
                client: client.deep_view(),
                dir: dir.deep_view(),
            },
            SyncLibrary::CurrentLooked { client, dir } => SyncLibraryView::CurrentLooked {
                client: client.deep_view(),
                dir: dir.deep_view(),
            },
            SyncLibrary::LegacyFetched { client, dir } => SyncLibraryView::LegacyFetched {
                client: client.deep_view(),
                dir: dir.deep_view(),
            },
            SyncLibrary::Migrated { client, dir } => SyncLibraryView::Migrated {
                client: client.deep_view(),
                dir: dir.deep_view(),
            },
            SyncLibrary::Books { client, dir } => SyncLibraryView::Books {
                client: client.deep_view(),
                dir: dir.deep_view(),
            },
            SyncLibrary::IndexLooked { library, attempt } => SyncLibraryView::IndexLooked {
                library: library.deep_view(),
                attempt: *attempt,
            },
            SyncLibrary::IndexFetched { library, attempt } => SyncLibraryView::IndexFetched {
                library: library.deep_view(),
                attempt: *attempt,
            },
            SyncLibrary::IndexDecoded { library, attempt } => SyncLibraryView::IndexDecoded {
                library: library.deep_view(),
                attempt: *attempt,
            },
            SyncLibrary::BookDeleted { library, round } => SyncLibraryView::BookDeleted {
                library: library.deep_view(),
                round: round.deep_view(),
            },
            SyncLibrary::BookLooked { library, round } => SyncLibraryView::BookLooked {
                library: library.deep_view(),
                round: round.deep_view(),
            },
            SyncLibrary::Announced { library, round } => SyncLibraryView::Announced {
                library: library.deep_view(),
                round: round.deep_view(),
            },
            SyncLibrary::Exported { library, round } => SyncLibraryView::Exported {
                library: library.deep_view(),
                round: round.deep_view(),
            },
            SyncLibrary::Extended { library, round } => SyncLibraryView::Extended {
                library: library.deep_view(),
                round: round.deep_view(),
            },
            SyncLibrary::IndexEncoded { library, attempt } => SyncLibraryView::IndexEncoded {
                library: library.deep_view(),
                attempt: *attempt,
            },
            SyncLibrary::IndexSaved { library, attempt } => SyncLibraryView::IndexSaved {
                library: library.deep_view(),
                attempt: *attempt,
            },
            SyncLibrary::ProgressSynced { library, at } => SyncLibraryView::ProgressSynced {
                library: library.deep_view(),
                at: *at as int,
            },
            SyncLibrary::BookmarksSynced { library, at } => SyncLibraryView::BookmarksSynced {
                library: library.deep_view(),
                at: *at as int,
            },
            SyncLibrary::HighlightsSynced { library, at } => SyncLibraryView::HighlightsSynced {
                library: library.deep_view(),
                at: *at as int,
            },
            SyncLibrary::CoversFetched { count, changed } => SyncLibraryView::CoversFetched {
                count: *count as int,
                changed: *changed,
            },
            SyncLibrary::Noted { changed } => SyncLibraryView::Noted { changed: *changed },
            SyncLibrary::Stamped { changed } => SyncLibraryView::Stamped { changed: *changed },
            SyncLibrary::Finished { changed } => SyncLibraryView::Finished { changed: *changed },
        }
    }
}

/// The announcement of the beginning.
pub open spec fn started_event() -> SyncProgressEventView {
    SyncProgressEventView {
        event_type: "syncStarted"@,
        book_uuid: None,
        status: Some("syncing"@),
        current: 0,
        total: 100,
        message: Some("Initializing WebDAV sync..."@),
    }
}

/// The announcement that a book is to be copied.
pub open spec fn book_event(books: Seq<BookView>, at: int) -> SyncProgressEventView {
    SyncProgressEventView {
        event_type: "bookStatus"@,
        book_uuid: Some(books[at].uuid),
        status: Some("syncing"@),
        current: (at + 1) as i32,
        total: books.len() as i32,
        message: Some("Uploading book: "@ + books[at].title),
    }
}

/// The announcement of the end.
pub open spec fn finished_event() -> SyncProgressEventView {
    SyncProgressEventView {
        event_type: "syncFinished"@,
        book_uuid: None,
        status: Some("success"@),
        current: 100,
        total: 100,
        message: Some("Sync completed successfully"@),
    }
}

/// What the history tells of a synchronised library.
pub open spec fn library_details(count: nat) -> Seq<char> {
    "Synced "@ + number::decimal(count) + " local books successfully"@
}

/// What is reported of a synchronised library.
pub open spec fn library_result(changed: bool) -> SyncResultView {
    SyncResultView {
        success: true,
        message: "Library and progress synchronized successfully"@,
        local_changed: changed,
    }
}

/// What is reported where the index could not be saved.
pub const INDEX_NOT_SAVED: &'static str = "Failed to save sync index on WebDAV after 3 attempts";

impl SyncLibraryView {
    /// The beginning.
    pub open spec fn start(dir: Option<Seq<char>>) -> MoveView<SyncLibraryView, SyncResultView> {
        MoveView::Next(SyncLibraryView::Started { dir }, ActionView::Emit(started_event()))
    }

    /// Asks for the folders, one after the other, and then for an index in the old place.
    pub open spec fn fill(client: ClientView, dir: Option<Seq<char>>, made: int) -> MoveView<
        SyncLibraryView,
        SyncResultView,
    > {
        if made < 6 {
            MoveView::Next(
                SyncLibraryView::Folders { client, dir, made: made + 1 },
                ActionView::Mkdir(client, remote::folders()[made]),
            )
        } else {
            MoveView::Next(
                SyncLibraryView::LegacyLooked { client, dir },
                ActionView::Exists(client, remote::LEGACY_INDEX@),
            )
        }
    }

    /// Asks for the books of this device.
    pub open spec fn list(client: ClientView, dir: Option<Seq<char>>) -> MoveView<
        SyncLibraryView,
        SyncResultView,
    > {
        MoveView::Next(SyncLibraryView::Books { client, dir }, ActionView::GetAllBooks)
    }

    /// Begins an attempt.
    pub open spec fn look(library: LibraryView, attempt: u8) -> MoveView<
        SyncLibraryView,
        SyncResultView,
    > {
        MoveView::Next(
            SyncLibraryView::IndexLooked { library, attempt },
            ActionView::Exists(library.client, remote::INDEX@),
        )
    }

    /// Goes on from the index that the server has. Deletions of long ago are forgotten.
    pub open spec fn begin(
        library: LibraryView,
        attempt: u8,
        index: SyncDataFileView,
        now: Instant,
    ) -> MoveView<SyncLibraryView, SyncResultView> {
        let index = SyncDataFileView {
            deleted: index::still_deleted(index.deleted, now),
            ..index
        };
        SyncLibraryView::visit(library, RoundView { attempt, index, at: 0 }, now)
    }

    /// Turns to the next book: one that was deleted elsewhere is deleted here, the contents of
    /// any other are looked for on the server. After the last book the index is written down.
    pub open spec fn visit(library: LibraryView, round: RoundView, now: Instant) -> MoveView<
        SyncLibraryView,
        SyncResultView,
    > {
        if round.at < library.books.len() {
            let uuid = library.books[round.at].uuid;
            if index::is_deleted(round.index.deleted, uuid) {
                MoveView::Next(
                    SyncLibraryView::BookDeleted {
                        library: LibraryView { changed: true, ..library },
                        round,
                    },
                    ActionView::DeleteBook(uuid),
                )
            } else {
                MoveView::Next(
                    SyncLibraryView::BookLooked { library, round },
                    ActionView::ExistsNonEmpty(library.client, remote::book_path(uuid)),
                )
            }
        } else {
            MoveView::Next(
                SyncLibraryView::IndexEncoded { library, attempt: round.attempt },
                ActionView::EncodeIndex(index::dated(round.index, now)),
            )
        }
    }

    /// Is done with a book, and turns to the next one.
    pub open spec fn next(library: LibraryView, round: RoundView, now: Instant) -> MoveView<
        SyncLibraryView,
        SyncResultView,
    > {
        SyncLibraryView::visit(library, RoundView { at: round.at + 1, ..round }, now)
    }

    /// Lists a book in the index, and turns to the next one.
    pub open spec fn enter(
        library: LibraryView,
        round: RoundView,
        extension: Option<Seq<char>>,
        now: Instant,
    ) -> MoveView<SyncLibraryView, SyncResultView> {
        let item = index::entry(library.books[round.at], extension, now);
        SyncLibraryView::next(
            library,
            RoundView { index: index::with_book(round.index, item), ..round },
            now,
        )
    }

    /// Synchronises what belongs to each book, one after the other, and then sees to the covers.
    pub open spec fn follow(library: LibraryView, at: int, now: Instant) -> MoveView<
        SyncLibraryView,
        SyncResultView,
    > {
        if at < library.books.len() {
            MoveView::Next(
                SyncLibraryView::ProgressSynced { library, at },
                ActionView::Run(TaskView::SyncProgress(library.books[at].uuid)),
            )
        } else {
            match library.dir {
                Some(dir) => MoveView::Next(
                    SyncLibraryView::CoversFetched {
                        count: library.books.len() as int,
                        changed: library.changed,
                    },
                    ActionView::Run(TaskView::FetchCloudBooks(Some(dir))),
                ),
                None => SyncLibraryView::note(library.books.len() as int, library.changed, now),
            }
        }
    }

    /// Tells the history.
    pub open spec fn note(count: int, changed: bool, now: Instant) -> MoveView<
        SyncLibraryView,
        SyncResultView,
    > {
        MoveView::Next(
            SyncLibraryView::Noted { changed },
            ActionView::InsertHistory(
                record::success_entry(now, "sync_library"@, library_details(count as nat)),
            ),
        )
    }

    /// What follows a reply.
    pub open spec fn after(self, event: EventView, now: Instant) -> MoveView<
        SyncLibraryView,
        SyncResultView,
    > {
        match self {
            SyncLibraryView::Started { dir } => MoveView::Next(
                SyncLibraryView::Client { dir },
                ActionView::Run(TaskView::Client),
            ),
            SyncLibraryView::Client { dir } => match event {
                EventView::Client(Ok(client)) => SyncLibraryView::fill(client, dir, 0),
                EventView::Client(Err(e)) => MoveView::End(Err(e)),
                _ => protocol::unexpected(),
            },
            SyncLibraryView::Folders { client, dir, made } => SyncLibraryView::fill(
                client,
                dir,
                made,
            ),
            SyncLibraryView::LegacyLooked { client, dir } => match event {
                EventView::Flag(Ok(true)) => MoveView::Next(
                    SyncLibraryView::CurrentLooked { client, dir },
                    ActionView::Exists(client, remote::INDEX@),
                ),
                _ => SyncLibraryView::list(client, dir),
            },
            SyncLibraryView::CurrentLooked { client, dir } => match event {
                EventView::Flag(Ok(true)) => SyncLibraryView::list(client, dir),
                _ => MoveView::Next(
                    SyncLibraryView::LegacyFetched { client, dir },
                    ActionView::Download(client, remote::LEGACY_INDEX@),
                ),
            },
            SyncLibraryView::LegacyFetched { client, dir } => match event {
                EventView::Bytes(Ok(bytes)) => MoveView::Next(
                    SyncLibraryView::Migrated { client, dir },
                    ActionView::Upload(client, remote::INDEX@, bytes),
                ),
                _ => SyncLibraryView::list(client, dir),
            },
            SyncLibraryView::Migrated { client, dir } => SyncLibraryView::list(client, dir),
            SyncLibraryView::Books { client, dir } => match event {
                EventView::Books(Ok(books)) => SyncLibraryView::look(
                    LibraryView { client, books, dir, changed: false },
                    1,
                ),
                EventView::Books(Err(e)) => MoveView::End(Err(e)),
                _ => protocol::unexpected(),
            },
            SyncLibraryView::IndexLooked { library, attempt } => match event {
                EventView::Flag(Ok(true)) => MoveView::Next(
                    SyncLibraryView::IndexFetched { library, attempt },
                    ActionView::Download(library.client, remote::INDEX@),
                ),
                _ => SyncLibraryView::begin(library, attempt, index::empty_index(now), now),
            },
            SyncLibraryView::IndexFetched { library, attempt } => match event {
                EventView::Bytes(Ok(bytes)) => MoveView::Next(
                    SyncLibraryView::IndexDecoded { library, attempt },
                    ActionView::DecodeIndex(bytes),
                ),
                _ => SyncLibraryView::begin(library, attempt, index::empty_index(now), now),
            },
            SyncLibraryView::IndexDecoded { library, attempt } => match event {
                EventView::Index(Ok(index)) => SyncLibraryView::begin(library, attempt, index, now),
                _ => SyncLibraryView::begin(library, attempt, index::empty_index(now), now),
            },
            SyncLibraryView::BookDeleted { library, round } => if round.at < library.books.len() {
                SyncLibraryView::next(library, round, now)
            } else {
                protocol::unexpected()
            },
            SyncLibraryView::BookLooked { library, round } => if round.at < library.books.len() {
                let uuid = library.books[round.at].uuid;
                let there = event == EventView::Flag(Ok(true));
                if there && index::is_listed(round.index.books, uuid) {
                    SyncLibraryView::next(library, round, now)
                } else {
                    MoveView::Next(
                        SyncLibraryView::Announced { library, round },
                        ActionView::Emit(book_event(library.books, round.at)),
                    )
                }
            } else {
                protocol::unexpected()
            },
            SyncLibraryView::Announced { library, round } => if round.at < library.books.len() {
                MoveView::Next(
                    SyncLibraryView::Exported { library, round },
                    ActionView::Run(TaskView::ExportBook(library.books[round.at].uuid)),
                )
            } else {
                protocol::unexpected()
            },
            SyncLibraryView::Exported { library, round } => if round.at < library.books.len() {
                let book = library.books[round.at];
                let sent = event == EventView::Flag(Ok(true));
                if sent && !index::is_listed(round.index.books, book.uuid) {
                    match book.cover_path {
                        Some(path) => MoveView::Next(
                            SyncLibraryView::Extended { library, round },
                            ActionView::CoverExtension(path),
                        ),
                        None => SyncLibraryView::enter(library, round, None, now),
                    }
                } else {
                    SyncLibraryView::next(library, round, now)
                }
            } else {
                protocol::unexpected()
            },
            SyncLibraryView::Extended { library, round } => match event {
                EventView::Extension(extension) => if round.at < library.books.len() {
                    SyncLibraryView::enter(library, round, extension, now)
                } else {
                    protocol::unexpected()
                },
                _ => protocol::unexpected(),
            },
            SyncLibraryView::IndexEncoded { library, attempt } => match event {
                EventView::Bytes(Ok(bytes)) => MoveView::Next(
                    SyncLibraryView::IndexSaved { library, attempt },
                    ActionView::Upload(library.client, remote::INDEX@, bytes),
                ),
                EventView::Bytes(Err(e)) => MoveView::End(Err(e)),
                _ => protocol::unexpected(),
            },
            SyncLibraryView::IndexSaved { library, attempt } => match event {
                EventView::Flag(Ok(true)) => SyncLibraryView::follow(library, 0, now),
                _ => if attempt < ATTEMPTS {
                    SyncLibraryView::look(library, (attempt + 1) as u8)
                } else {
                    MoveView::End(Err(INDEX_NOT_SAVED@))
                },
            },
            SyncLibraryView::ProgressSynced { library, at } => if at < library.books.len() {
                MoveView::Next(
                    SyncLibraryView::BookmarksSynced { library, at },
                    ActionView::Run(TaskView::SyncBookmarks(library.books[at].uuid)),
                )
            } else {
                protocol::unexpected()
            },
            SyncLibraryView::BookmarksSynced { library, at } => if at < library.books.len() {
                MoveView::Next(
                    SyncLibraryView::HighlightsSynced { library, at },
                    ActionView::Run(TaskView::SyncHighlights(library.books[at].uuid)),
                )
            } else {
                protocol::unexpected()
            },
            SyncLibraryView::HighlightsSynced { library, at } => if at < library.books.len() {
                SyncLibraryView::follow(library, at + 1, now)
            } else {
                protocol::unexpected()
            },
            SyncLibraryView::CoversFetched { count, changed } => SyncLibraryView::note(
                count,
                changed,
                now,
            ),
            SyncLibraryView::Noted { changed } => MoveView::Next(
                SyncLibraryView::Stamped { changed },
                ActionView::Run(TaskView::RecordTimestamp),
            ),
            SyncLibraryView::Stamped { changed } => MoveView::Next(
                SyncLibraryView::Finished { changed },
                ActionView::Emit(finished_event()),
            ),
            SyncLibraryView::Finished { changed } => MoveView::End(Ok(library_result(changed))),
        }
    }
}

/// Synchronises the library: books that the server lacks are copied there, books that were
/// deleted elsewhere are deleted here, the index is brought up to date, and progress, bookmarks
/// and highlights of every book are synchronised. If a folder for documents is given, the covers
/// of the books on the server are fetched.
pub fn sync_library(documents_dir: Option<String>) -> (r: Move<SyncLibrary, SyncResult>)
    ensures
        r.deep_view() == MoveView::<SyncLibraryView, SyncResultView>::Next(
            SyncLibraryView::Started { dir: documents_dir.deep_view() },
            ActionView::Emit(started_event()),
        ),
        r.deep_view() == SyncLibraryView::start(documents_dir.deep_view()),
{
    Move::Next(
        SyncLibrary::Started { dir: documents_dir },
        Action::Emit(
            SyncProgressEvent {
                event_type: "syncStarted".to_string(),
                book_uuid: None,
                status: Some("syncing".to_string()),
                current: 0,
                total: 100,
                message: Some("Initializing WebDAV sync...".to_string()),
            },
        ),
    )
}

/// Synchronises everything there is: the library, with all that belongs to it.
pub fn sync_all(documents_dir: Option<String>) -> (r: Move<SyncLibrary, SyncResult>)
    ensures
        r.deep_view() == MoveView::<SyncLibraryView, SyncResultView>::Next(
            SyncLibraryView::Started { dir: documents_dir.deep_view() },
            ActionView::Emit(started_event()),
        ),
        r.deep_view() == SyncLibraryView::start(documents_dir.deep_view()),
{
    sync_library(documents_dir)
}

impl SyncLibrary {
    fn fill(client: WebDavClient, dir: Option<String>, made: usize) -> (r: Move<
        SyncLibrary,
        SyncResult,
    >)
        ensures
            r.deep_view() == SyncLibraryView::fill(client.deep_view(), dir.deep_view(), made as int),
    {
        let handle = client.clone();
        if made < 6 {
            Move::Next(
                SyncLibrary::Folders { client, dir, made: made + 1 },
                Action::Mkdir(handle, remote::folder(made)),
            )
        } else {
            Move::Next(
                SyncLibrary::LegacyLooked { client, dir },
                Action::Exists(handle, remote::LEGACY_INDEX.to_string()),
            )
        }
    }

    fn list(client: WebDavClient, dir: Option<String>) -> (r: Move<SyncLibrary, SyncResult>)
        ensures
            r.deep_view() == SyncLibraryView::list(client.deep_view(), dir.deep_view()),
    {
        Move::Next(SyncLibrary::Books { client, dir }, Action::GetAllBooks)
    }

    fn look(library: Library, attempt: u8) -> (r: Move<SyncLibrary, SyncResult>)
        ensures
            r.deep_view() == SyncLibraryView::look(library.deep_view(), attempt),
    {
        let handle = library.client.clone();
        Move::Next(
            SyncLibrary::IndexLooked { library, attempt },
            Action::Exists(handle, remote::INDEX.to_string()),
        )
    }

    fn begin(library: Library, attempt: u8, index: SyncDataFile, now: Instant) -> (r: Move<
        SyncLibrary,
        SyncResult,
    >)
        requires
            now.valid(),
        ensures
            r.deep_view() == SyncLibraryView::begin(
                library.deep_view(),
                attempt,
                index.deep_view(),
                now,
            ),
    {
        let index = SyncDataFile {
            version: index.version,
            last_sync_time: index.last_sync_time,
            books: index.books,
            deleted: index::forget_old_deletions(index.deleted, now),
        };
        SyncLibrary::visit(library, Round { attempt, index, at: 0 }, now)
    }

    fn visit(library: Library, round: Round, now: Instant) -> (r: Move<SyncLibrary, SyncResult>)
        requires
            now.valid(),
        ensures
            r.deep_view() == SyncLibraryView::visit(library.deep_view(), round.deep_view(), now),
    {
        if round.at < library.books.len() {
            let uuid = library.books[round.at].uuid.clone();
            if index::deleted_contains(&round.index.deleted, &uuid) {
                let library = Library {
                    client: library.client,
                    books: library.books,
                    dir: library.dir,
                    changed: true,
                };
                Move::Next(SyncLibrary::BookDeleted { library, round }, Action::DeleteBook(uuid))
            } else {
                let handle = library.client.clone();
                let path = remote::book_file(&uuid);
                Move::Next(
                    SyncLibrary::BookLooked { library, round },
                    Action::ExistsNonEmpty(handle, path),
                )
            }
        } else {
            let index = SyncDataFile {
                version: round.index.version,
                last_sync_time: time::format_rfc3339(now),
                books: round.index.books,
                deleted: round.index.deleted,
            };
            Move::Next(
                SyncLibrary::IndexEncoded { library, attempt: round.attempt },
                Action::EncodeIndex(index),
            )
        }
    }

    fn next(library: Library, round: Round, now: Instant) -> (r: Move<SyncLibrary, SyncResult>)
        requires
            now.valid(),
            round.at < library.books.len(),
        ensures
            r.deep_view() == SyncLibraryView::next(library.deep_view(), round.deep_view(), now),
    {
        let round = Round { attempt: round.attempt, index: round.index, at: round.at + 1 };
        SyncLibrary::visit(library, round, now)
    }

    fn enter(library: Library, round: Round, extension: Option<String>, now: Instant) -> (r: Move<
        SyncLibrary,
        SyncResult,
    >)
        requires
            now.valid(),
            round.at < library.books.len(),
        ensures
            r.deep_view() == SyncLibraryView::enter(
                library.deep_view(),
                round.deep_view(),
                extension.deep_view(),
                now,
            ),
    {
        let item = index::make_entry(&library.books[round.at], &extension, now);
        let mut index = round.index;
        index::add_book(&mut index, item);
        let round = Round { attempt: round.attempt, index, at: round.at };
        SyncLibrary::next(library, round, now)
    }

    fn follow(library: Library, at: usize, now: Instant) -> (r: Move<SyncLibrary, SyncResult>)
        requires
            now.valid(),
        ensures
            r.deep_view() == SyncLibraryView::follow(library.deep_view(), at as int, now),
    {
        if at < library.books.len() {
            let uuid = library.books[at].uuid.clone();
            Move::Next(
                SyncLibrary::ProgressSynced { library, at },
                Action::Run(Task::SyncProgress(uuid)),
            )
        } else {
            let count = library.books.len();
            let changed = library.changed;
            match library.dir {
                Some(dir) => Move::Next(
                    SyncLibrary::CoversFetched { count, changed },
                    Action::Run(Task::FetchCloudBooks(Some(dir))),
                ),
                None => SyncLibrary::note(count, changed, now),
            }
        }
    }

    fn note(count: usize, changed: bool, now: Instant) -> (r: Move<SyncLibrary, SyncResult>)
        requires
            now.valid(),
        ensures
            r.deep_view() == SyncLibraryView::note(count as int, changed, now),
    {
        let details = text::concat3(
            "Synced ",
            &number::decimal_text(count as u64),
            " local books successfully",
        );
        Move::Next(
            SyncLibrary::Noted { changed },
            Action::InsertHistory(record::history_entry(now, "sync_library".to_string(), details)),
        )
    }

    fn announce(library: Library, round: Round) -> (r: Move<SyncLibrary, SyncResult>)
        requires
            round.at < library.books.len(),
        ensures
            r.deep_view() == MoveView::<SyncLibraryView, SyncResultView>::Next(
                SyncLibraryView::Announced {
                    library: library.deep_view(),
                    round: round.deep_view(),
                },
                ActionView::Emit(book_event(library.deep_view().books, round.at as int)),
            ),
    {
        let book = &library.books[round.at];
        let event = SyncProgressEvent {
            event_type: "bookStatus".to_string(),
            book_uuid: Some(book.uuid.clone()),
            status: Some("syncing".to_string()),
            current: #[verifier::truncate]
            ((round.at + 1) as i32),
            total: #[verifier::truncate]
            (library.books.len() as i32),
            message: Some(text::concat2("Uploading book: ", &book.title)),
        };
        Move::Next(SyncLibrary::Announced { library, round }, Action::Emit(event))
    }

    /// What follows a reply.
    pub fn advance(self, event: Event, now: Instant) -> (r: Move<SyncLibrary, SyncResult>)
        requires
            now.valid(),
        ensures
            r.deep_view() == self.deep_view().after(event.deep_view(), now),
    {
        match self {
            SyncLibrary::Started { dir } => Move::Next(
                SyncLibrary::Client { dir },
                Action::Run(Task::Client),
            ),
            SyncLibrary::Client { dir } => match event {
                Event::Client(Ok(client)) => SyncLibrary::fill(client, dir, 0),
                Event::Client(Err(e)) => Move::End(Err(e)),
                _ => protocol::unexpected_reply(),
            },
            SyncLibrary::Folders { client, dir, made } => SyncLibrary::fill(client, dir, made),
            SyncLibrary::LegacyLooked { client, dir } => match event {
                Event::Flag(Ok(true)) => {
                    let handle = client.clone();
                    Move::Next(
                        SyncLibrary::CurrentLooked { client, dir },
                        Action::Exists(handle, remote::INDEX.to_string()),
                    )
                },
                _ => SyncLibrary::list(client, dir),
            },
            SyncLibrary::CurrentLooked { client, dir } => match event {
                Event::Flag(Ok(true)) => SyncLibrary::list(client, dir),
                _ => {
                    let handle = client.clone();
                    Move::Next(
                        SyncLibrary::LegacyFetched { client, dir },
                        Action::Download(handle, remote::LEGACY_INDEX.to_string()),
                    )
                },
            },
            SyncLibrary::LegacyFetched { client, dir } => match event {
                Event::Bytes(Ok(bytes)) => {
                    let handle = client.clone();
                    Move::Next(
                        SyncLibrary::Migrated { client, dir },
                        Action::Upload(handle, remote::INDEX.to_string(), bytes),
                    )
                },
                _ => SyncLibrary::list(client, dir),
            },
            SyncLibrary::Migrated { client, dir } => SyncLibrary::list(client, dir),
            SyncLibrary::Books { client, dir } => match event {
                Event::Books(Ok(books)) => SyncLibrary::look(
                    Library { client, books, dir, changed: false },
                    1,
                ),
                Event::Books(Err(e)) => Move::End(Err(e)),
                _ => protocol::unexpected_reply(),
            },
            SyncLibrary::IndexLooked { library, attempt } => match event {
                Event::Flag(Ok(true)) => {
                    let handle = library.client.clone();
                    Move::Next(
                        SyncLibrary::IndexFetched { library, attempt },
                        Action::Download(handle, remote::INDEX.to_string()),
                    )
                },
                _ => SyncLibrary::begin(library, attempt, index::new_index(now), now),
            },
            SyncLibrary::IndexFetched { library, attempt } => match event {
                Event::Bytes(Ok(bytes)) => Move::Next(
                    SyncLibrary::IndexDecoded { library, attempt },
                    Action::DecodeIndex(bytes),
                ),
                _ => SyncLibrary::begin(library, attempt, index::new_index(now), now),
            },
            SyncLibrary::IndexDecoded { library, attempt } => match event {
                Event::Index(Ok(index)) => SyncLibrary::begin(library, attempt, index, now),
                _ => SyncLibrary::begin(library, attempt, index::new_index(now), now),
            },
            SyncLibrary::BookDeleted { library, round } => if round.at < library.books.len() {
                SyncLibrary::next(library, round, now)
            } else {
                protocol::unexpected_reply()
            },
            SyncLibrary::BookLooked { library, round } => if round.at < library.books.len() {
                let there = matches!(event, Event::Flag(Ok(true)));
                let uuid = &library.books[round.at].uuid;
                if there && index::books_contain(&round.index.books, uuid) {
                    SyncLibrary::next(library, round, now)
                } else {
                    SyncLibrary::announce(library, round)
                }
            } else {
                protocol::unexpected_reply()
            },
            SyncLibrary::Announced { library, round } => if round.at < library.books.len() {
                let uuid = library.books[round.at].uuid.clone();
                Move::Next(
                    SyncLibrary::Exported { library, round },
                    Action::Run(Task::ExportBook(uuid)),
                )
            } else {
                protocol::unexpected_reply()
            },
            SyncLibrary::Exported { library, round } => if round.at < library.books.len() {
                let sent = matches!(event, Event::Flag(Ok(true)));
                let uuid = &library.books[round.at].uuid;
                if sent && !index::books_contain(&round.index.books, uuid) {
                    let cover = library.books[round.at].cover_path.clone();
                    match cover {
                        Some(path) => Move::Next(
                            SyncLibrary::Extended { library, round },
                            Action::CoverExtension(path),
                        ),
                        None => SyncLibrary::enter(library, round, None, now),
                    }
                } else {
                    SyncLibrary::next(library, round, now)
                }
            } else {
                protocol::unexpected_reply()
            },
            SyncLibrary::Extended { library, round } => match event {
                Event::Extension(extension) => if round.at < library.books.len() {
                    SyncLibrary::enter(library, round, extension, now)
                } else {
                    protocol::unexpected_reply()
                },
                _ => protocol::unexpected_reply(),
            },
            SyncLibrary::IndexEncoded { library, attempt } => match event {
                Event::Bytes(Ok(bytes)) => {
                    let handle = library.client.clone();
                    Move::Next(
                        SyncLibrary::IndexSaved { library, attempt },
                        Action::Upload(handle, remote::INDEX.to_string(), bytes),
                    )
                },
                Event::Bytes(Err(e)) => Move::End(Err(e)),
                _ => protocol::unexpected_reply(),
            },
            SyncLibrary::IndexSaved { library, attempt } => match event {
                Event::Flag(Ok(true)) => SyncLibrary::follow(library, 0, now),
                _ => if attempt < ATTEMPTS {
                    SyncLibrary::look(library, attempt + 1)
                } else {
                    Move::End(Err(INDEX_NOT_SAVED.to_string()))
                },
            },
            SyncLibrary::ProgressSynced { library, at } => if at < library.books.len() {
                let uuid = library.books[at].uuid.clone();
                Move::Next(
                    SyncLibrary::BookmarksSynced { library, at },
                    Action::Run(Task::SyncBookmarks(uuid)),
                )
            } else {
                protocol::unexpected_reply()
            },
            SyncLibrary::BookmarksSynced { library, at } => if at < library.books.len() {
                let uuid = library.books[at].uuid.clone();
                Move::Next(
                    SyncLibrary::HighlightsSynced { library, at },
                    Action::Run(Task::SyncHighlights(uuid)),
                )
            } else {
                protocol::unexpected_reply()
            },
            SyncLibrary::HighlightsSynced { library, at } => if at < library.books.len() {
                SyncLibrary::follow(library, at + 1, now)
            } else {
                protocol::unexpected_reply()
            },
            SyncLibrary::CoversFetched { count, changed } => SyncLibrary::note(count, changed, now),
            SyncLibrary::Noted { changed } => Move::Next(
                SyncLibrary::Stamped { changed },
                Action::Run(Task::RecordTimestamp),
            ),
            SyncLibrary::Stamped { changed } => Move::Next(
                SyncLibrary::Finished { changed },
                Action::Emit(
                    SyncProgressEvent {
                        event_type: "syncFinished".to_string(),
                        book_uuid: None,
                        status: Some("success".to_string()),
                        current: 100,
                        total: 100,
                        message: Some("Sync completed successfully".to_string()),
                    },
                ),
            ),
            SyncLibrary::Finished { changed } => Move::End(
                Ok(
                    SyncResult {
                        success: true,
                        message: "Library and progress synchronized successfully".to_string(),
                        local_changed: changed,
                    },
                ),
            ),
        }
    }
}

} // verus!
