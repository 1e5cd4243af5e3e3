//! The vocabulary of synchronisation. A task asks for one action at a time and is told what came
//! of it; it touches nothing by itself.
use vstd::prelude::*;

use crate::client::{ClientView, WebDavClient};
use crate::models::{
    Book, BookView, Bookmark, BookmarkView, Chapter, ChapterView, CloudBook, CloudBookView,
    Highlight, HighlightView, ProgressSyncResult, ProgressSyncResultView, ReadingProgress,
    ReadingProgressView, Settings, SettingsView, SyncHistoryEntry, SyncHistoryEntryView,
    SyncProgressEvent, SyncProgressEventView, SyncResult, SyncResultView,
};
use crate::payload::{
    BookBookmarksFile, BookBookmarksFileView, BookHighlightsFile, BookHighlightsFileView,
    SyncBookPayload, SyncBookPayloadView, SyncDataFile, SyncDataFileView, SyncProgressPayload,
    SyncProgressPayloadView,
};
use crate::reply;

verus! {

/// A file on this device: a folder, a folder in it, and a name.
#[derive(Debug)]
pub struct LocalFile {
    pub dir: String,
    pub folder: String,
    pub name: String,
}

/// What a `LocalFile` holds.
pub struct LocalFileView {
    pub dir: Seq<char>,
    pub folder: Seq<char>,
    pub name: Seq<char>,
}

impl DeepView for LocalFile {
    type V = LocalFileView;

    open spec fn deep_view(&self) -> LocalFileView {
        LocalFileView {
            dir: self.dir@,
            folder: self.folder@,
            name: self.name@,
        }
    }
}

impl Clone for LocalFile {
    fn clone(&self) -> (r: LocalFile)
        ensures
            r.deep_view() == self.deep_view(),
    {
        let r = LocalFile {
            dir: self.dir.clone(),
            folder: self.folder.clone(),
            name: self.name.clone(),
        };
        r
    }
}

/// A cover on the server, and where it belongs on this device.
#[derive(Debug)]
pub struct CoverFetch {
    pub remote: String,
    pub local: LocalFile,
}

/// What a `CoverFetch` holds.
pub struct CoverFetchView {
    pub remote: Seq<char>,
    pub local: LocalFileView,
}

impl DeepView for CoverFetch {
    type V = CoverFetchView;

    open spec fn deep_view(&self) -> CoverFetchView {
        CoverFetchView {
            remote: self.remote@,
            local: self.local.deep_view(),
        }
    }
}

/// What can be carried out.
pub enum Task {
    /// Make a client from the settings.
    Client,
    /// Save the address, the account and perhaps the password of the server.
    SaveConfig(String, String, Option<String>),
    /// Test the connection, with the account given or the one configured.
    TestConnection(Option<String>, Option<String>, Option<String>),
    /// Copy a local file to the server.
    UploadFile(WebDavClient, String, String),
    /// Copy a file of the server to this device.
    DownloadFile(WebDavClient, String, String),
    /// Note in the history that the progress of a book was synchronised.
    RecordProgress(String, String, i32, i32, Option<String>),
    /// Note in the settings when synchronisation went through.
    RecordTimestamp,
    /// Copy a book to the server.
    ExportBook(String),
    /// Copy a book from the server.
    ImportBook(String, String),
    /// List the books on the server.
    FetchCloudBooks(Option<String>),
    /// Fetch the covers that this device does not have yet.
    FetchMissingCovers(WebDavClient, Vec<CoverFetch>),
    /// Synchronise the progress of a book.
    SyncProgress(String),
    /// Synchronise the bookmarks of a book.
    SyncBookmarks(String),
    /// Synchronise the highlights of a book.
    SyncHighlights(String),
    /// Synchronise the library.
    SyncLibrary(Option<String>),
    /// Overwrite what the server has.
    ForcePush(bool),
    /// Overwrite what this device has.
    ForcePull(bool, String),
    /// Copy a book to the server and list it there.
    ForcePushBook(String),
    /// Copy a book from the server and synchronise it.
    ForcePullBook(String, String),
    /// Delete a book from the server.
    DeleteFromCloud(String),
    /// Fetch a book that is only listed so far.
    DownloadVirtualBook(String, String),
}

/// What a `Task` holds.
pub enum TaskView {
    Client,
    SaveConfig(Seq<char>, Seq<char>, Option<Seq<char>>),
    TestConnection(Option<Seq<char>>, Option<Seq<char>>, Option<Seq<char>>),
    UploadFile(ClientView, Seq<char>, Seq<char>),
    DownloadFile(ClientView, Seq<char>, Seq<char>),
    RecordProgress(Seq<char>, Seq<char>, i32, i32, Option<Seq<char>>),
    RecordTimestamp,
    ExportBook(Seq<char>),
    ImportBook(Seq<char>, Seq<char>),
    FetchCloudBooks(Option<Seq<char>>),
    FetchMissingCovers(ClientView, Seq<CoverFetchView>),
    SyncProgress(Seq<char>),
    SyncBookmarks(Seq<char>),
    SyncHighlights(Seq<char>),
    SyncLibrary(Option<Seq<char>>),
    ForcePush(bool),
    ForcePull(bool, Seq<char>),
    ForcePushBook(Seq<char>),
    ForcePullBook(Seq<char>, Seq<char>),
    DeleteFromCloud(Seq<char>),
    DownloadVirtualBook(Seq<char>, Seq<char>),
}

impl DeepView for Task {
    type V = TaskView;

    open spec fn deep_view(&self) -> TaskView {
        match self {
            Task::Client => TaskView::Client,
            Task::SaveConfig(a, b, c) => TaskView::SaveConfig(a@, b@, c.deep_view()),
            Task::TestConnection(a, b, c) => TaskView::TestConnection(a.deep_view(), b.deep_view(), c.deep_view()),
            Task::UploadFile(a, b, c) => TaskView::UploadFile(a.deep_view(), b@, c@),
            Task::DownloadFile(a, b, c) => TaskView::DownloadFile(a.deep_view(), b@, c@),
            Task::RecordProgress(a, b, c, d, e) => TaskView::RecordProgress(a@, b@, *c, *d, e.deep_view()),
            Task::RecordTimestamp => TaskView::RecordTimestamp,
            Task::ExportBook(a) => TaskView::ExportBook(a@),
            Task::ImportBook(a, b) => TaskView::ImportBook(a@, b@),
            Task::FetchCloudBooks(a) => TaskView::FetchCloudBooks(a.deep_view()),
            Task::FetchMissingCovers(a, b) => TaskView::FetchMissingCovers(a.deep_view(), b.deep_view()),
            Task::SyncProgress(a) => TaskView::SyncProgress(a@),
            Task::SyncBookmarks(a) => TaskView::SyncBookmarks(a@),
            Task::SyncHighlights(a) => TaskView::SyncHighlights(a@),
            Task::SyncLibrary(a) => TaskView::SyncLibrary(a.deep_view()),
            Task::ForcePush(a) => TaskView::ForcePush(*a),
            Task::ForcePull(a, b) => TaskView::ForcePull(*a, b@),
            Task::ForcePushBook(a) => TaskView::ForcePushBook(a@),
            Task::ForcePullBook(a, b) => TaskView::ForcePullBook(a@, b@),
            Task::DeleteFromCloud(a) => TaskView::DeleteFromCloud(a@),
            Task::DownloadVirtualBook(a, b) => TaskView::DownloadVirtualBook(a@, b@),
        }
    }
}

/// What a task asks for.
pub enum Action {
    /// Read the settings.
    GetSettings,
    /// Write the settings.
    SaveSettings(Settings),
    /// Read a secret by its key.
    GetSecret(String),
    /// Write a secret under its key.
    SetSecret(String, String),
    /// Delete a secret by its key.
    DeleteSecret(String),
    /// Keep the client that was made, in place of the one kept so far.
    CacheClient(WebDavClient),
    /// Look up a book.
    GetBook(String),
    /// Read the local library.
    GetAllBooks,
    /// Read the chapters of a book.
    GetChapters(String),
    /// Add a book.
    InsertBook(Book),
    /// Add chapters.
    InsertChapters(Vec<Chapter>),
    /// Delete a book.
    DeleteBook(String),
    /// Let the database give memory back.
    ShrinkMemory,
    /// Read how far a book has been read.
    GetProgress(String),
    /// Write how far a book has been read.
    SaveProgress(ReadingProgress),
    /// Read the bookmarks of a book.
    GetBookmarks(String),
    /// Replace the bookmarks of a book.
    ReplaceBookmarks(String, Vec<Bookmark>),
    /// Read the highlights of a book.
    GetHighlights(String),
    /// Replace the highlights of a book.
    ReplaceHighlights(String, Vec<Highlight>),
    /// Add a line to the sync history.
    InsertHistory(SyncHistoryEntry),
    /// Test the connection to the server.
    Probe(WebDavClient),
    /// Make a folder on the server.
    Mkdir(WebDavClient, String),
    /// Store bytes under a path on the server.
    Upload(WebDavClient, String, Vec<u8>),
    /// Fetch the bytes under a path on the server.
    Download(WebDavClient, String),
    /// Find out whether the server has a file.
    Exists(WebDavClient, String),
    /// Find out whether the server has a file that holds something.
    ExistsNonEmpty(WebDavClient, String),
    /// Remove a path from the server.
    Remove(WebDavClient, String),
    /// Find the extension of a local file's name.
    CoverExtension(String),
    /// Find out whether there is a local file.
    FileExists(String),
    /// Find the path of a file.
    Locate(LocalFile),
    /// Read a local file.
    ReadFile(String),
    /// Write a local file, with the folders above it.
    WriteFile(String, Vec<u8>),
    /// Have the covers that this device does not have yet fetched in the background.
    FetchCovers(WebDavClient, Vec<CoverFetch>),
    /// Write a book as JSON.
    EncodeBook(SyncBookPayload),
    /// Write progress as JSON.
    EncodeProgress(SyncProgressPayload),
    /// Write bookmarks as JSON.
    EncodeBookmarks(BookBookmarksFile),
    /// Write highlights as JSON.
    EncodeHighlights(BookHighlightsFile),
    /// Write the sync index as JSON.
    EncodeIndex(SyncDataFile),
    /// Read a book from JSON.
    DecodeBook(Vec<u8>),
    /// Read progress from JSON.
    DecodeProgress(Vec<u8>),
    /// Read bookmarks from JSON.
    DecodeBookmarks(Vec<u8>),
    /// Read highlights from JSON.
    DecodeHighlights(Vec<u8>),
    /// Read the sync index from JSON.
    DecodeIndex(Vec<u8>),
    /// Tell whoever listens how far the synchronisation is.
    Emit(SyncProgressEvent),
    /// Carry out another task, and report how it ended.
    Run(Task),
}

/// What an `Action` holds.
pub enum ActionView {
    GetSettings,
    SaveSettings(SettingsView),
    GetSecret(Seq<char>),
    SetSecret(Seq<char>, Seq<char>),
    DeleteSecret(Seq<char>),
    CacheClient(ClientView),
    GetBook(Seq<char>),
    GetAllBooks,
    GetChapters(Seq<char>),
    InsertBook(BookView),
    InsertChapters(Seq<ChapterView>),
    DeleteBook(Seq<char>),
    ShrinkMemory,
    GetProgress(Seq<char>),
    SaveProgress(ReadingProgressView),
    GetBookmarks(Seq<char>),
    ReplaceBookmarks(Seq<char>, Seq<BookmarkView>),
    GetHighlights(Seq<char>),
    ReplaceHighlights(Seq<char>, Seq<HighlightView>),
    InsertHistory(SyncHistoryEntryView),
    Probe(ClientView),
    Mkdir(ClientView, Seq<char>),
    Upload(ClientView, Seq<char>, Seq<u8>),
    Download(ClientView, Seq<char>),
    Exists(ClientView, Seq<char>),
    ExistsNonEmpty(ClientView, Seq<char>),
    Remove(ClientView, Seq<char>),
    CoverExtension(Seq<char>),
    FileExists(Seq<char>),
    Locate(LocalFileView),
    ReadFile(Seq<char>),
    WriteFile(Seq<char>, Seq<u8>),
    FetchCovers(ClientView, Seq<CoverFetchView>),
    EncodeBook(SyncBookPayloadView),
    EncodeProgress(SyncProgressPayloadView),
    EncodeBookmarks(BookBookmarksFileView),
    EncodeHighlights(BookHighlightsFileView),
    EncodeIndex(SyncDataFileView),
    DecodeBook(Seq<u8>),
    DecodeProgress(Seq<u8>),
    DecodeBookmarks(Seq<u8>),
    DecodeHighlights(Seq<u8>),
    DecodeIndex(Seq<u8>),
    Emit(SyncProgressEventView),
    Run(TaskView),
}

impl DeepView for Action {
    type V = ActionView;

    open spec fn deep_view(&self) -> ActionView {
        match self {
            Action::GetSettings => ActionView::GetSettings,
            Action::SaveSettings(a) => ActionView::SaveSettings(a.deep_view()),
            Action::GetSecret(a) => ActionView::GetSecret(a@),
            Action::SetSecret(a, b) => ActionView::SetSecret(a@, b@),
            Action::DeleteSecret(a) => ActionView::DeleteSecret(a@),
            Action::CacheClient(a) => ActionView::CacheClient(a.deep_view()),
            Action::GetBook(a) => ActionView::GetBook(a@),
            Action::GetAllBooks => ActionView::GetAllBooks,
            Action::GetChapters(a) => ActionView::GetChapters(a@),
            Action::InsertBook(a) => ActionView::InsertBook(a.deep_view()),
            Action::InsertChapters(a) => ActionView::InsertChapters(a.deep_view()),
            Action::DeleteBook(a) => ActionView::DeleteBook(a@),
            Action::ShrinkMemory => ActionView::ShrinkMemory,
            Action::GetProgress(a) => ActionView::GetProgress(a@),
            Action::SaveProgress(a) => ActionView::SaveProgress(a.deep_view()),
            Action::GetBookmarks(a) => ActionView::GetBookmarks(a@),
            Action::ReplaceBookmarks(a, b) => ActionView::ReplaceBookmarks(a@, b.deep_view()),
            Action::GetHighlights(a) => ActionView::GetHighlights(a@),
            Action::ReplaceHighlights(a, b) => ActionView::ReplaceHighlights(a@, b.deep_view()),
            Action::InsertHistory(a) => ActionView::InsertHistory(a.deep_view()),
            Action::Probe(a) => ActionView::Probe(a.deep_view()),
            Action::Mkdir(a, b) => ActionView::Mkdir(a.deep_view(), b@),
            Action::Upload(a, b, c) => ActionView::Upload(a.deep_view(), b@, c@),
            Action::Download(a, b) => ActionView::Download(a.deep_view(), b@),
            Action::Exists(a, b) => ActionView::Exists(a.deep_view(), b@),
            Action::ExistsNonEmpty(a, b) => ActionView::ExistsNonEmpty(a.deep_view(), b@),
            Action::Remove(a, b) => ActionView::Remove(a.deep_view(), b@),
            Action::CoverExtension(a) => ActionView::CoverExtension(a@),
            Action::FileExists(a) => ActionView::FileExists(a@),
            Action::Locate(a) => ActionView::Locate(a.deep_view()),
            Action::ReadFile(a) => ActionView::ReadFile(a@),
            Action::WriteFile(a, b) => ActionView::WriteFile(a@, b@),
            Action::FetchCovers(a, b) => ActionView::FetchCovers(a.deep_view(), b.deep_view()),
            Action::EncodeBook(a) => ActionView::EncodeBook(a.deep_view()),
            Action::EncodeProgress(a) => ActionView::EncodeProgress(a.deep_view()),
            Action::EncodeBookmarks(a) => ActionView::EncodeBookmarks(a.deep_view()),
            Action::EncodeHighlights(a) => ActionView::EncodeHighlights(a.deep_view()),
            Action::EncodeIndex(a) => ActionView::EncodeIndex(a.deep_view()),
            Action::DecodeBook(a) => ActionView::DecodeBook(a@),
            Action::DecodeProgress(a) => ActionView::DecodeProgress(a@),
            Action::DecodeBookmarks(a) => ActionView::DecodeBookmarks(a@),
            Action::DecodeHighlights(a) => ActionView::DecodeHighlights(a@),
            Action::DecodeIndex(a) => ActionView::DecodeIndex(a@),
            Action::Emit(a) => ActionView::Emit(a.deep_view()),
            Action::Run(a) => ActionView::Run(a.deep_view()),
        }
    }
}

/// What came of an action.
pub enum Event {
    /// Something was done.
    Unit(Result<(), String>),
    /// Yes or no.
    Flag(Result<bool, String>),
    /// Bytes came.
    Bytes(Result<Vec<u8>, String>),
    /// The settings, if there are any yet.
    Settings(Result<Option<Settings>, String>),
    /// A secret, if it is there.
    Secret(Result<Option<String>, String>),
    /// A book, if it is there.
    Book(Result<Option<Book>, String>),
    /// The local library.
    Books(Result<Vec<Book>, String>),
    /// The chapters of a book.
    Chapters(Result<Vec<Chapter>, String>),
    /// How far a book has been read here, if at all.
    Progress(Result<Option<ReadingProgress>, String>),
    /// The bookmarks of a book.
    Bookmarks(Result<Vec<Bookmark>, String>),
    /// The highlights of a book.
    Highlights(Result<Vec<Highlight>, String>),
    /// The extension of a local file's name, if it has one.
    Extension(Option<String>),
    /// Whether a local file is there.
    Present(bool),
    /// A local file's contents, if there is such a file.
    File(Option<Result<Vec<u8>, String>>),
    /// The path of a file.
    Located(String),
    /// A book, read from JSON.
    BookPayload(Result<SyncBookPayload, String>),
    /// Progress, read from JSON.
    CloudProgress(Result<SyncProgressPayload, String>),
    /// Bookmarks, read from JSON.
    CloudBookmarks(Result<BookBookmarksFile, String>),
    /// Highlights, read from JSON.
    CloudHighlights(Result<BookHighlightsFile, String>),
    /// The sync index, read from JSON.
    Index(Result<SyncDataFile, String>),
    /// It was seen to; there is nothing to report.
    Done,
    /// A client for the configured server.
    Client(Result<WebDavClient, String>),
    /// A book that was fetched from the server.
    Imported(Result<Book, String>),
    /// The books on the server.
    CloudBooks(Result<Vec<CloudBook>, String>),
    /// How synchronising progress ended.
    ProgressSynced(Result<ProgressSyncResult, String>),
    /// How a synchronisation ended.
    Synced(Result<SyncResult, String>),
}

/// What an `Event` holds.
pub enum EventView {
    Unit(Result<(), Seq<char>>),
    Flag(Result<bool, Seq<char>>),
    Bytes(Result<Seq<u8>, Seq<char>>),
    Settings(Result<Option<SettingsView>, Seq<char>>),
    Secret(Result<Option<Seq<char>>, Seq<char>>),
    Book(Result<Option<BookView>, Seq<char>>),
    Books(Result<Seq<BookView>, Seq<char>>),
    Chapters(Result<Seq<ChapterView>, Seq<char>>),
    Progress(Result<Option<ReadingProgressView>, Seq<char>>),
    Bookmarks(Result<Seq<BookmarkView>, Seq<char>>),
    Highlights(Result<Seq<HighlightView>, Seq<char>>),
    Extension(Option<Seq<char>>),
    Present(bool),
    File(Option<Result<Seq<u8>, Seq<char>>>),
    Located(Seq<char>),
    BookPayload(Result<SyncBookPayloadView, Seq<char>>),
    CloudProgress(Result<SyncProgressPayloadView, Seq<char>>),
    CloudBookmarks(Result<BookBookmarksFileView, Seq<char>>),
    CloudHighlights(Result<BookHighlightsFileView, Seq<char>>),
    Index(Result<SyncDataFileView, Seq<char>>),
    Done,
    Client(Result<ClientView, Seq<char>>),
    Imported(Result<BookView, Seq<char>>),
    CloudBooks(Result<Seq<CloudBookView>, Seq<char>>),
    ProgressSynced(Result<ProgressSyncResultView, Seq<char>>),
    Synced(Result<SyncResultView, Seq<char>>),
}

impl DeepView for Event {
    type V = EventView;

    open spec fn deep_view(&self) -> EventView {
        match self {
            Event::Unit(a) => EventView::Unit(reply::outcome(*a)),
            Event::Flag(a) => EventView::Flag(reply::outcome(*a)),
            Event::Bytes(a) => EventView::Bytes(reply::bytes_outcome(*a)),
            Event::Settings(a) => EventView::Settings(reply::outcome(*a)),
            Event::Secret(a) => EventView::Secret(reply::outcome(*a)),
            Event::Book(a) => EventView::Book(reply::outcome(*a)),
            Event::Books(a) => EventView::Books(reply::outcome(*a)),
            Event::Chapters(a) => EventView::Chapters(reply::outcome(*a)),
            Event::Progress(a) => EventView::Progress(reply::outcome(*a)),
            Event::Bookmarks(a) => EventView::Bookmarks(reply::outcome(*a)),
            Event::Highlights(a) => EventView::Highlights(reply::outcome(*a)),
            Event::Extension(a) => EventView::Extension(a.deep_view()),
            Event::Present(a) => EventView::Present(*a),
            Event::File(a) => EventView::File(match a {
                Some(r) => Some(reply::bytes_outcome(*r)),
                None => None,
            }),
            Event::Located(a) => EventView::Located(a@),
            Event::BookPayload(a) => EventView::BookPayload(reply::outcome(*a)),
            Event::CloudProgress(a) => EventView::CloudProgress(reply::outcome(*a)),
            Event::CloudBookmarks(a) => EventView::CloudBookmarks(reply::outcome(*a)),
            Event::CloudHighlights(a) => EventView::CloudHighlights(reply::outcome(*a)),
            Event::Index(a) => EventView::Index(reply::outcome(*a)),
            Event::Done => EventView::Done,
            Event::Client(a) => EventView::Client(reply::outcome(*a)),
            Event::Imported(a) => EventView::Imported(reply::outcome(*a)),
            Event::CloudBooks(a) => EventView::CloudBooks(reply::outcome(*a)),
            Event::ProgressSynced(a) => EventView::ProgressSynced(reply::outcome(*a)),
            Event::Synced(a) => EventView::Synced(reply::outcome(*a)),
        }
    }
}

/// What a task does next: it goes on as `S` once an action is seen to, or it has ended.
pub enum Move<S, R> {
    Next(S, Action),
    End(Result<R, String>),
}

/// What a `Move` holds.
pub enum MoveView<S, R> {
    Next(S, ActionView),
    End(Result<R, Seq<char>>),
}

impl<S: DeepView, R: DeepView> DeepView for Move<S, R> {
    type V = MoveView<S::V, R::V>;

    open spec fn deep_view(&self) -> MoveView<S::V, R::V> {
        match self {
            Move::Next(state, action) => MoveView::Next(state.deep_view(), action.deep_view()),
            Move::End(result) => MoveView::End(reply::outcome(*result)),
        }
    }
}

/// What is said where the reply to an action is of another kind than was asked for.
pub const UNEXPECTED_REPLY: &'static str = "Unexpected reply";

/// The end of a task that got a reply of the wrong kind.
pub open spec fn unexpected<S, R>() -> MoveView<S, R> {
    MoveView::End(Err(UNEXPECTED_REPLY@))
}

/// Ends a task that got a reply of the wrong kind.
pub fn unexpected_reply<S: DeepView, R: DeepView>() -> (r: Move<S, R>)
    ensures
        r.deep_view() == unexpected::<S::V, R::V>(),
{
    Move::End(Err(UNEXPECTED_REPLY.to_string()))
}

} // verus!
