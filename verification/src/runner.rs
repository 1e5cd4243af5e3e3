//! Running tasks. A task may have another one run on its behalf; it goes on once that one has
//! ended. What is left to the outside are the plain actions.
use vstd::prelude::*;

use crate::protocol::{Action, ActionView, Event, EventView, Move, MoveView, Task, TaskView};
use crate::tasks::bookmarks;
use crate::tasks::bookmarks::{SyncBookmarks, SyncBookmarksView};
use crate::tasks::cloud_books;
use crate::tasks::cloud_books::{
    FetchCloudBooks, FetchCloudBooksView, FetchMissingCovers, FetchMissingCoversView,
};
use crate::tasks::config;
use crate::tasks::config::{
    MakeClient, MakeClientView, SaveConfig, SaveConfigView, TestConnection, TestConnectionView,
};
use crate::tasks::export;
use crate::tasks::export::{ExportBook, ExportBookView};
use crate::tasks::files::{DownloadFile, DownloadFileView, UploadFile, UploadFileView};
use crate::tasks::highlights;
use crate::tasks::highlights::{SyncHighlights, SyncHighlightsView};
use crate::tasks::import;
use crate::tasks::import::{ImportBook, ImportBookView};
use crate::tasks::library;
use crate::tasks::library::{SyncLibrary, SyncLibraryView};
use crate::tasks::progress;
use crate::tasks::progress::{SyncProgress, SyncProgressView};
use crate::tasks::pull;
use crate::tasks::pull::{ForcePull, ForcePullView};
use crate::tasks::push;
use crate::tasks::push::{ForcePush, ForcePushView};
use crate::tasks::record;
use crate::tasks::record::{
    RecordProgress, RecordProgressView, RecordTimestamp, RecordTimestampView,
};
use crate::tasks::single;
use crate::tasks::single::{
    DeleteFromCloud, DeleteFromCloudView, DownloadVirtualBook, DownloadVirtualBookView, ForcePullBook, ForcePullBookView, ForcePushBook, ForcePushBookView,
};
use crate::time;
use crate::time::Instant;

verus! {

/// A task that is being carried out.
pub enum Machine {
    /// Making a client.
    Client(MakeClient),
    /// Saving the address, the account and the password.
    SaveConfig(SaveConfig),
    /// Testing the connection.
    TestConnection(TestConnection),
    /// Copying a local file to the server.
    UploadFile(UploadFile),
    /// Copying a file of the server to this device.
    DownloadFile(DownloadFile),
    /// Telling the history.
    RecordProgress(RecordProgress),
    /// Telling the settings.
    RecordTimestamp(RecordTimestamp),
    /// Copying a book to the server.
    ExportBook(ExportBook),
    /// Copying a book from the server.
    ImportBook(ImportBook),
    /// Listing the books on the server.
    FetchCloudBooks(FetchCloudBooks),
    /// Fetching the covers that this device does not have yet.
    FetchMissingCovers(FetchMissingCovers),
    /// Synchronising the progress of a book.
    SyncProgress(SyncProgress),
    /// Synchronising the bookmarks of a book.
    SyncBookmarks(SyncBookmarks),
    /// Synchronising the highlights of a book.
    SyncHighlights(SyncHighlights),
    /// Synchronising the library.
    SyncLibrary(SyncLibrary),
    /// Overwriting what the server has.
    ForcePush(ForcePush),
    /// Overwriting what this device has.
    ForcePull(ForcePull),
    /// Copying a book to the server and listing it there.
    ForcePushBook(ForcePushBook),
    /// Copying a book from the server and synchronising it.
    ForcePullBook(ForcePullBook),
    /// Deleting a book from the server.
    DeleteFromCloud(DeleteFromCloud),
    /// Fetching a book that is only listed so far.
    DownloadVirtualBook(DownloadVirtualBook),
}

/// What a `Machine` holds.
pub enum MachineView {
    Client(MakeClientView),
    SaveConfig(SaveConfigView),
    TestConnection(TestConnectionView),
    UploadFile(UploadFileView),
    DownloadFile(DownloadFileView),
    RecordProgress(RecordProgressView),
    RecordTimestamp(RecordTimestampView),
    ExportBook(ExportBookView),
    ImportBook(ImportBookView),
    FetchCloudBooks(FetchCloudBooksView),
    FetchMissingCovers(FetchMissingCoversView),
    SyncProgress(SyncProgressView),
    SyncBookmarks(SyncBookmarksView),
    SyncHighlights(SyncHighlightsView),
    SyncLibrary(SyncLibraryView),
    ForcePush(ForcePushView),
    ForcePull(ForcePullView),
    ForcePushBook(ForcePushBookView),
    ForcePullBook(ForcePullBookView),
    DeleteFromCloud(DeleteFromCloudView),
    DownloadVirtualBook(DownloadVirtualBookView),
}

impl DeepView for Machine {
    type V = MachineView;

    open spec fn deep_view(&self) -> MachineView {
        match self {
            Machine::Client(m) => MachineView::Client(m.deep_view()),
            Machine::SaveConfig(m) => MachineView::SaveConfig(m.deep_view()),
            Machine::TestConnection(m) => MachineView::TestConnection(m.deep_view()),
            Machine::UploadFile(m) => MachineView::UploadFile(m.deep_view()),
            Machine::DownloadFile(m) => MachineView::DownloadFile(m.deep_view()),
            Machine::RecordProgress(m) => MachineView::RecordProgress(m.deep_view()),
            Machine::RecordTimestamp(m) => MachineView::RecordTimestamp(m.deep_view()),
            Machine::ExportBook(m) => MachineView::ExportBook(m.deep_view()),
            Machine::ImportBook(m) => MachineView::ImportBook(m.deep_view()),
            Machine::FetchCloudBooks(m) => MachineView::FetchCloudBooks(m.deep_view()),
            Machine::FetchMissingCovers(m) => MachineView::FetchMissingCovers(m.deep_view()),
            Machine::SyncProgress(m) => MachineView::SyncProgress(m.deep_view()),
            Machine::SyncBookmarks(m) => MachineView::SyncBookmarks(m.deep_view()),
            Machine::SyncHighlights(m) => MachineView::SyncHighlights(m.deep_view()),
            Machine::SyncLibrary(m) => MachineView::SyncLibrary(m.deep_view()),
            Machine::ForcePush(m) => MachineView::ForcePush(m.deep_view()),
            Machine::ForcePull(m) => MachineView::ForcePull(m.deep_view()),
            Machine::ForcePushBook(m) => MachineView::ForcePushBook(m.deep_view()),
            Machine::ForcePullBook(m) => MachineView::ForcePullBook(m.deep_view()),
            Machine::DeleteFromCloud(m) => MachineView::DeleteFromCloud(m.deep_view()),
            Machine::DownloadVirtualBook(m) => MachineView::DownloadVirtualBook(m.deep_view()),
        }
    }
}

/// What a task does next: it goes on once an action is seen to, or it tells what came of it.
pub enum Step {
    Next(Machine, Action),
    End(Event),
}

/// What a `Step` holds.
pub enum StepView {
    Next(MachineView, ActionView),
    End(EventView),
}

impl DeepView for Step {
    type V = StepView;

    open spec fn deep_view(&self) -> StepView {
        match self {
            Step::Next(machine, action) => StepView::Next(machine.deep_view(), action.deep_view()),
            Step::End(event) => StepView::End(event.deep_view()),
        }
    }
}

/// Whether a task may begin with `step`. All of it is settled but whether an HTTP client can be
/// built for an account that is given.
#[verifier::opaque]
pub open spec fn starts(task: TaskView, step: StepView) -> bool {
    match task {
        TaskView::TestConnection(Some(url), Some(username), Some(password)) => exists|
            built: Result<(), Seq<char>>,
        |
            step == match #[trigger] TestConnectionView::probed(url, username, password, built) {
                MoveView::Next(next, action) => StepView::Next(
                    MachineView::TestConnection(next),
                    action,
                ),
                MoveView::End(r) => StepView::End(EventView::Flag(r)),
            },
        TaskView::TestConnection(_, _, _) => step == StepView::Next(
            MachineView::TestConnection(TestConnectionView::Client),
            ActionView::Run(TaskView::Client),
        ),
        TaskView::FetchMissingCovers(a, b) => step == match FetchMissingCoversView::visit(a, b, 0) {
            MoveView::Next(next, action) => StepView::Next(
                MachineView::FetchMissingCovers(next),
                action,
            ),
            MoveView::End(r) => StepView::End(EventView::Unit(r)),
        },
        TaskView::Client => step == StepView::Next(
            MachineView::Client(MakeClientView::Settings),
            ActionView::GetSettings,
        ),
        TaskView::SaveConfig(a, b, c) => step == StepView::Next(
            MachineView::SaveConfig(SaveConfigView::Settings { url: a, username: b, password: c }),
            ActionView::GetSettings,
        ),
        TaskView::UploadFile(a, b, c) => step == StepView::Next(
            MachineView::UploadFile(UploadFileView::Read { client: a, remote: b, local: c }),
            ActionView::ReadFile(c),
        ),
        TaskView::DownloadFile(a, b, c) => step == StepView::Next(
            MachineView::DownloadFile(DownloadFileView::Fetched { local: c }),
            ActionView::Download(a, b),
        ),
        TaskView::RecordProgress(a, b, c, d, e) => step == StepView::Next(
            MachineView::RecordProgress(RecordProgressView::Book { action: b, chapter: c, paragraph: d, device: e }),
            ActionView::GetBook(a),
        ),
        TaskView::RecordTimestamp => step == StepView::Next(
            MachineView::RecordTimestamp(RecordTimestampView::Settings),
            ActionView::GetSettings,
        ),
        TaskView::ExportBook(a) => step == StepView::Next(
            MachineView::ExportBook(ExportBookView::Book { uuid: a }),
            ActionView::GetBook(a),
        ),
        TaskView::ImportBook(a, b) => step == StepView::Next(
            MachineView::ImportBook(ImportBookView::Client { uuid: a, dir: b }),
            ActionView::Run(TaskView::Client),
        ),
        TaskView::FetchCloudBooks(a) => step == StepView::Next(
            MachineView::FetchCloudBooks(FetchCloudBooksView::Client { dir: a }),
            ActionView::Run(TaskView::Client),
        ),
        TaskView::SyncProgress(a) => step == StepView::Next(
            MachineView::SyncProgress(SyncProgressView::Client { uuid: a }),
            ActionView::Run(TaskView::Client),
        ),
        TaskView::SyncBookmarks(a) => step == StepView::Next(
            MachineView::SyncBookmarks(SyncBookmarksView::Client { uuid: a }),
            ActionView::Run(TaskView::Client),
        ),
        TaskView::SyncHighlights(a) => step == StepView::Next(
            MachineView::SyncHighlights(SyncHighlightsView::Client { uuid: a }),
            ActionView::Run(TaskView::Client),
        ),
        TaskView::SyncLibrary(a) => step == StepView::Next(
            MachineView::SyncLibrary(SyncLibraryView::Started { dir: a }),
            ActionView::Emit(library::started_event()),
        ),
        TaskView::ForcePush(a) => step == StepView::Next(
            MachineView::ForcePush(ForcePushView::Books { progress_only: a }),
            ActionView::GetAllBooks,
        ),
        TaskView::ForcePull(a, b) => step == StepView::Next(
            MachineView::ForcePull(ForcePullView::Client { progress_only: a, dir: b }),
            ActionView::Run(TaskView::Client),
        ),
        TaskView::ForcePushBook(a) => step == StepView::Next(
            MachineView::ForcePushBook(ForcePushBookView::Exported { uuid: a }),
            ActionView::Run(TaskView::ExportBook(a)),
        ),
        TaskView::ForcePullBook(a, b) => step == StepView::Next(
            MachineView::ForcePullBook(ForcePullBookView::Imported { uuid: a }),
            ActionView::Run(TaskView::ImportBook(a, b)),
        ),
        TaskView::DeleteFromCloud(a) => step == StepView::Next(
            MachineView::DeleteFromCloud(DeleteFromCloudView::Client { uuid: a }),
            ActionView::Run(TaskView::Client),
        ),
        TaskView::DownloadVirtualBook(a, b) => step == StepView::Next(
            MachineView::DownloadVirtualBook(DownloadVirtualBookView::Imported),
            ActionView::Run(TaskView::ImportBook(a, b)),
        ),
    }
}

impl MachineView {
    /// Whether `step` may follow a reply that comes at an instant. All of it is settled but
    /// whether an HTTP client can be built.
    #[verifier::opaque]
    pub open spec fn follows(self, event: EventView, now: Instant, step: StepView) -> bool {
        match self {
            MachineView::Client(m) => exists|built: Result<(), Seq<char>>|
                step == match #[trigger] m.after(event, built) {
                    MoveView::Next(next, action) => StepView::Next(
                        MachineView::Client(next),
                        action,
                    ),
                    MoveView::End(r) => StepView::End(EventView::Client(r)),
                },
            MachineView::SaveConfig(m) => step == match m.after(event) {
                MoveView::Next(next, action) => StepView::Next(
                    MachineView::SaveConfig(next),
                    action,
                ),
                MoveView::End(r) => StepView::End(EventView::Unit(r)),
            },
            MachineView::TestConnection(m) => step == match m.after(event) {
                MoveView::Next(next, action) => StepView::Next(
                    MachineView::TestConnection(next),
                    action,
                ),
                MoveView::End(r) => StepView::End(EventView::Flag(r)),
            },
            MachineView::UploadFile(m) => step == match m.after(event) {
                MoveView::Next(next, action) => StepView::Next(
                    MachineView::UploadFile(next),
                    action,
                ),
                MoveView::End(r) => StepView::End(EventView::Flag(r)),
            },
            MachineView::DownloadFile(m) => step == match m.after(event) {
                MoveView::Next(next, action) => StepView::Next(
                    MachineView::DownloadFile(next),
                    action,
                ),
                MoveView::End(r) => StepView::End(EventView::Flag(r)),
            },
            MachineView::RecordProgress(m) => step == match m.after(event, now) {
                MoveView::Next(next, action) => StepView::Next(
                    MachineView::RecordProgress(next),
                    action,
                ),
                MoveView::End(r) => StepView::End(EventView::Unit(r)),
            },
            MachineView::RecordTimestamp(m) => step == match m.after(event, now) {
                MoveView::Next(next, action) => StepView::Next(
                    MachineView::RecordTimestamp(next),
                    action,
                ),
                MoveView::End(r) => StepView::End(EventView::Unit(r)),
            },
            MachineView::ExportBook(m) => step == match m.after(event, now) {
                MoveView::Next(next, action) => StepView::Next(
                    MachineView::ExportBook(next),
                    action,
                ),
                MoveView::End(r) => StepView::End(EventView::Flag(r)),
            },
            MachineView::ImportBook(m) => step == match m.after(event, now) {
                MoveView::Next(next, action) => StepView::Next(
                    MachineView::ImportBook(next),
                    action,
                ),
                MoveView::End(r) => StepView::End(EventView::Imported(r)),
            },
            MachineView::FetchCloudBooks(m) => step == match m.after(event) {
                MoveView::Next(next, action) => StepView::Next(
                    MachineView::FetchCloudBooks(next),
                    action,
                ),
                MoveView::End(r) => StepView::End(EventView::CloudBooks(r)),
            },
            MachineView::FetchMissingCovers(m) => step == match m.after(event) {
                MoveView::Next(next, action) => StepView::Next(
                    MachineView::FetchMissingCovers(next),
                    action,
                ),
                MoveView::End(r) => StepView::End(EventView::Unit(r)),
            },
            MachineView::SyncProgress(m) => step == match m.after(event) {
                MoveView::Next(next, action) => StepView::Next(
                    MachineView::SyncProgress(next),
                    action,
                ),
                MoveView::End(r) => StepView::End(EventView::ProgressSynced(r)),
            },
            MachineView::SyncBookmarks(m) => step == match m.after(event, now) {
                MoveView::Next(next, action) => StepView::Next(
                    MachineView::SyncBookmarks(next),
                    action,
                ),
                MoveView::End(r) => StepView::End(EventView::Flag(r)),
            },
            MachineView::SyncHighlights(m) => step == match m.after(event, now) {
                MoveView::Next(next, action) => StepView::Next(
                    MachineView::SyncHighlights(next),
                    action,
                ),
                MoveView::End(r) => StepView::End(EventView::Flag(r)),
            },
            MachineView::SyncLibrary(m) => step == match m.after(event, now) {
                MoveView::Next(next, action) => StepView::Next(
                    MachineView::SyncLibrary(next),
                    action,
                ),
                MoveView::End(r) => StepView::End(EventView::Synced(r)),
            },
            MachineView::ForcePush(m) => step == match m.after(event, now) {
                MoveView::Next(next, action) => StepView::Next(
                    MachineView::ForcePush(next),
                    action,
                ),
                MoveView::End(r) => StepView::End(EventView::Synced(r)),
            },
            MachineView::ForcePull(m) => step == match m.after(event, now) {
                MoveView::Next(next, action) => StepView::Next(
                    MachineView::ForcePull(next),
                    action,
                ),
                MoveView::End(r) => StepView::End(EventView::Synced(r)),
            },
            MachineView::ForcePushBook(m) => step == match m.after(event, now) {
                MoveView::Next(next, action) => StepView::Next(
                    MachineView::ForcePushBook(next),
                    action,
                ),
                MoveView::End(r) => StepView::End(EventView::Synced(r)),
            },
            MachineView::ForcePullBook(m) => step == match m.after(event) {
                MoveView::Next(next, action) => StepView::Next(
                    MachineView::ForcePullBook(next),
                    action,
                ),
                MoveView::End(r) => StepView::End(EventView::Synced(r)),
            },
            MachineView::DeleteFromCloud(m) => step == match m.after(event, now) {
                MoveView::Next(next, action) => StepView::Next(
                    MachineView::DeleteFromCloud(next),
                    action,
                ),
                MoveView::End(r) => StepView::End(EventView::Synced(r)),
            },
            MachineView::DownloadVirtualBook(m) => step == match m.after(event) {
                MoveView::Next(next, action) => StepView::Next(
                    MachineView::DownloadVirtualBook(next),
                    action,
                ),
                MoveView::End(r) => StepView::End(EventView::Synced(r)),
            },
        }
    }
}

/// Begins a task.
pub fn begin(task: Task) -> (r: Step)
    ensures
        starts(task.deep_view(), r.deep_view()),
{
    reveal(starts);
    match task {
        Task::Client => match config::get_or_init_client() {
            Move::Next(next, action) => Step::Next(Machine::Client(next), action),
            Move::End(r) => Step::End(Event::Client(r)),
        },
        Task::SaveConfig(a, b, c) => match config::save_webdav_config(a, b, c) {
            Move::Next(next, action) => Step::Next(Machine::SaveConfig(next), action),
            Move::End(r) => Step::End(Event::Unit(r)),
        },
        Task::TestConnection(a, b, c) => match config::test_webdav_connection(a, b, c) {
            Move::Next(next, action) => Step::Next(Machine::TestConnection(next), action),
            Move::End(r) => Step::End(Event::Flag(r)),
        },
        Task::UploadFile(a, b, c) => match a.upload_file(&b, &c) {
            Move::Next(next, action) => Step::Next(Machine::UploadFile(next), action),
            Move::End(r) => Step::End(Event::Flag(r)),
        },
        Task::DownloadFile(a, b, c) => match a.download_file(&b, &c) {
            Move::Next(next, action) => Step::Next(Machine::DownloadFile(next), action),
            Move::End(r) => Step::End(Event::Flag(r)),
        },
        Task::RecordProgress(a, b, c, d, e) => match record::record_book_progress_sync(a, b, c, d, e) {
            Move::Next(next, action) => Step::Next(Machine::RecordProgress(next), action),
            Move::End(r) => Step::End(Event::Unit(r)),
        },
        Task::RecordTimestamp => match record::record_sync_success_timestamp() {
            Move::Next(next, action) => Step::Next(Machine::RecordTimestamp(next), action),
            Move::End(r) => Step::End(Event::Unit(r)),
        },
        Task::ExportBook(a) => match export::export_and_upload_book(a) {
            Move::Next(next, action) => Step::Next(Machine::ExportBook(next), action),
            Move::End(r) => Step::End(Event::Flag(r)),
        },
        Task::ImportBook(a, b) => match import::download_and_import_book(a, b) {
            Move::Next(next, action) => Step::Next(Machine::ImportBook(next), action),
            Move::End(r) => Step::End(Event::Imported(r)),
        },
        Task::FetchCloudBooks(a) => match cloud_books::fetch_cloud_books(a) {
            Move::Next(next, action) => Step::Next(Machine::FetchCloudBooks(next), action),
            Move::End(r) => Step::End(Event::CloudBooks(r)),
        },
        Task::FetchMissingCovers(a, b) => match cloud_books::fetch_missing_covers(a, b) {
            Move::Next(next, action) => Step::Next(Machine::FetchMissingCovers(next), action),
            Move::End(r) => Step::End(Event::Unit(r)),
        },
        Task::SyncProgress(a) => match progress::sync_book_progress(a) {
            Move::Next(next, action) => Step::Next(Machine::SyncProgress(next), action),
            Move::End(r) => Step::End(Event::ProgressSynced(r)),
        },
        Task::SyncBookmarks(a) => match bookmarks::sync_book_bookmarks(a) {
            Move::Next(next, action) => Step::Next(Machine::SyncBookmarks(next), action),
            Move::End(r) => Step::End(Event::Flag(r)),
        },
        Task::SyncHighlights(a) => match highlights::sync_book_highlights(a) {
            Move::Next(next, action) => Step::Next(Machine::SyncHighlights(next), action),
            Move::End(r) => Step::End(Event::Flag(r)),
        },
        Task::SyncLibrary(a) => match library::sync_library(a) {
            Move::Next(next, action) => Step::Next(Machine::SyncLibrary(next), action),
            Move::End(r) => Step::End(Event::Synced(r)),
        },
        Task::ForcePush(a) => match push::force_push(a) {
            Move::Next(next, action) => Step::Next(Machine::ForcePush(next), action),
            Move::End(r) => Step::End(Event::Synced(r)),
        },
        Task::ForcePull(a, b) => match pull::force_pull(a, b) {
            Move::Next(next, action) => Step::Next(Machine::ForcePull(next), action),
            Move::End(r) => Step::End(Event::Synced(r)),
        },
        Task::ForcePushBook(a) => match single::force_push_book(a) {
            Move::Next(next, action) => Step::Next(Machine::ForcePushBook(next), action),
            Move::End(r) => Step::End(Event::Synced(r)),
        },
        Task::ForcePullBook(a, b) => match single::force_pull_book(a, b) {
            Move::Next(next, action) => Step::Next(Machine::ForcePullBook(next), action),
            Move::End(r) => Step::End(Event::Synced(r)),
        },
        Task::DeleteFromCloud(a) => match single::delete_book_from_cloud(a) {
            Move::Next(next, action) => Step::Next(Machine::DeleteFromCloud(next), action),
            Move::End(r) => Step::End(Event::Synced(r)),
        },
        Task::DownloadVirtualBook(a, b) => match single::download_virtual_book(a, b) {
            Move::Next(next, action) => Step::Next(Machine::DownloadVirtualBook(next), action),
            Move::End(r) => Step::End(Event::Synced(r)),
        },
    }
}

impl Machine {
    /// What follows a reply.
    pub fn advance(self, event: Event, now: Instant) -> (r: Step)
        requires
            now.valid(),
        ensures
            self.deep_view().follows(event.deep_view(), now, r.deep_view()),
    {
        reveal(MachineView::follows);
        match self {
            Machine::Client(m) => match m.advance(event) {
                Move::Next(next, action) => Step::Next(Machine::Client(next), action),
                Move::End(r) => Step::End(Event::Client(r)),
            },
            Machine::SaveConfig(m) => match m.advance(event) {
                Move::Next(next, action) => Step::Next(Machine::SaveConfig(next), action),
                Move::End(r) => Step::End(Event::Unit(r)),
            },
            Machine::TestConnection(m) => match m.advance(event) {
                Move::Next(next, action) => Step::Next(Machine::TestConnection(next), action),
                Move::End(r) => Step::End(Event::Flag(r)),
            },
            Machine::UploadFile(m) => match m.advance(event) {
                Move::Next(next, action) => Step::Next(Machine::UploadFile(next), action),
                Move::End(r) => Step::End(Event::Flag(r)),
            },
            Machine::DownloadFile(m) => match m.advance(event) {
                Move::Next(next, action) => Step::Next(Machine::DownloadFile(next), action),
                Move::End(r) => Step::End(Event::Flag(r)),
            },
            Machine::RecordProgress(m) => match m.advance(event, now) {
                Move::Next(next, action) => Step::Next(Machine::RecordProgress(next), action),
                Move::End(r) => Step::End(Event::Unit(r)),
            },
            Machine::RecordTimestamp(m) => match m.advance(event, now) {
                Move::Next(next, action) => Step::Next(Machine::RecordTimestamp(next), action),
                Move::End(r) => Step::End(Event::Unit(r)),
            },
            Machine::ExportBook(m) => match m.advance(event, now) {
                Move::Next(next, action) => Step::Next(Machine::ExportBook(next), action),
                Move::End(r) => Step::End(Event::Flag(r)),
            },
            Machine::ImportBook(m) => match m.advance(event, now) {
                Move::Next(next, action) => Step::Next(Machine::ImportBook(next), action),
                Move::End(r) => Step::End(Event::Imported(r)),
            },
            Machine::FetchCloudBooks(m) => match m.advance(event) {
                Move::Next(next, action) => Step::Next(Machine::FetchCloudBooks(next), action),
                Move::End(r) => Step::End(Event::CloudBooks(r)),
            },
            Machine::FetchMissingCovers(m) => match m.advance(event) {
                Move::Next(next, action) => Step::Next(Machine::FetchMissingCovers(next), action),
                Move::End(r) => Step::End(Event::Unit(r)),
            },
            Machine::SyncProgress(m) => match m.advance(event) {
                Move::Next(next, action) => Step::Next(Machine::SyncProgress(next), action),
                Move::End(r) => Step::End(Event::ProgressSynced(r)),
            },
            Machine::SyncBookmarks(m) => match m.advance(event, now) {
                Move::Next(next, action) => Step::Next(Machine::SyncBookmarks(next), action),
                Move::End(r) => Step::End(Event::Flag(r)),
            },
            Machine::SyncHighlights(m) => match m.advance(event, now) {
                Move::Next(next, action) => Step::Next(Machine::SyncHighlights(next), action),
                Move::End(r) => Step::End(Event::Flag(r)),
            },
            Machine::SyncLibrary(m) => match m.advance(event, now) {
                Move::Next(next, action) => Step::Next(Machine::SyncLibrary(next), action),
                Move::End(r) => Step::End(Event::Synced(r)),
            },
            Machine::ForcePush(m) => match m.advance(event, now) {
                Move::Next(next, action) => Step::Next(Machine::ForcePush(next), action),
                Move::End(r) => Step::End(Event::Synced(r)),
            },
            Machine::ForcePull(m) => match m.advance(event, now) {
                Move::Next(next, action) => Step::Next(Machine::ForcePull(next), action),
                Move::End(r) => Step::End(Event::Synced(r)),
            },
            Machine::ForcePushBook(m) => match m.advance(event, now) {
                Move::Next(next, action) => Step::Next(Machine::ForcePushBook(next), action),
                Move::End(r) => Step::End(Event::Synced(r)),
            },
            Machine::ForcePullBook(m) => match m.advance(event) {
                Move::Next(next, action) => Step::Next(Machine::ForcePullBook(next), action),
                Move::End(r) => Step::End(Event::Synced(r)),
            },
            Machine::DeleteFromCloud(m) => match m.advance(event, now) {
                Move::Next(next, action) => Step::Next(Machine::DeleteFromCloud(next), action),
                Move::End(r) => Step::End(Event::Synced(r)),
            },
            Machine::DownloadVirtualBook(m) => match m.advance(event) {
                Move::Next(next, action) => Step::Next(Machine::DownloadVirtualBook(next), action),
                Move::End(r) => Step::End(Event::Synced(r)),
            },
        }
    }
}

/// What a runner is left with: an action is to be seen to, or what came of the task.
pub enum Outcome {
    Ask(Action),
    Tell(Event),
}

/// What an `Outcome` holds.
pub enum OutcomeView {
    Ask(ActionView),
    Tell(EventView),
}

impl DeepView for Outcome {
    type V = OutcomeView;

    open spec fn deep_view(&self) -> OutcomeView {
        match self {
            Outcome::Ask(action) => OutcomeView::Ask(action.deep_view()),
            Outcome::Tell(event) => OutcomeView::Tell(event.deep_view()),
        }
    }
}

/// The tasks that are being carried out, the one that others wait for last, and where that one
/// has come to.
pub struct Situation {
    pub running: Seq<MachineView>,
    pub outcome: OutcomeView,
}

impl Situation {
    /// The situation after a step of the task that others wait for.
    pub open spec fn stepped(waiting: Seq<MachineView>, step: StepView) -> Situation {
        match step {
            StepView::Next(machine, action) => Situation {
                running: waiting.push(machine),
                outcome: OutcomeView::Ask(action),
            },
            StepView::End(event) => Situation {
                running: waiting,
                outcome: OutcomeView::Tell(event),
            },
        }
    }

    /// Whether nothing more can be done from within: a plain action is to be seen to, or the
    /// first task has ended.
    pub open spec fn at_rest(self) -> bool {
        match self.outcome {
            OutcomeView::Ask(action) => !(action is Run),
            OutcomeView::Tell(_) => self.running.len() == 0,
        }
    }

    /// Whether `next` comes about from within: a task that is asked for begins, or one that has
    /// ended tells the one that waits for it.
    #[verifier::opaque]
    pub open spec fn turns_into(self, next: Situation) -> bool {
        match self.outcome {
            OutcomeView::Ask(ActionView::Run(task)) => exists|step: StepView| #[trigger]
                starts(task, step) && next == Situation::stepped(self.running, step),
            OutcomeView::Ask(_) => false,
            OutcomeView::Tell(event) => self.running.len() > 0 && exists|now: Instant, step: StepView|
                now.valid() && #[trigger] self.running.last().follows(event, now, step) && next
                    == Situation::stepped(self.running.drop_last(), step),
        }
    }

    /// Whether `last` comes about from within, in `n` turns.
    pub open spec fn comes_to(self, last: Situation, n: nat) -> bool
        decreases n,
    {
        if n == 0 {
            self == last
        } else {
            exists|before: Situation|
                self.comes_to(before, (n - 1) as nat) && #[trigger] before.turns_into(last)
        }
    }

    /// Whether `last` is where things come to rest.
    pub open spec fn settles_in(self, last: Situation) -> bool {
        last.at_rest() && exists|n: nat| #[trigger] self.comes_to(last, n)
    }
}

/// How many tasks begin on behalf of each other before a plain action is asked for.
spec fn depth(task: TaskView) -> nat {
    match task {
        TaskView::ForcePushBook(_) => 2,
        TaskView::ForcePullBook(_, _) => 2,
        TaskView::DownloadVirtualBook(_, _) => 2,
        TaskView::TestConnection(_, _, _) => 1,
        TaskView::ImportBook(_, _) => 1,
        TaskView::FetchCloudBooks(_) => 1,
        TaskView::SyncProgress(_) => 1,
        TaskView::SyncBookmarks(_) => 1,
        TaskView::SyncHighlights(_) => 1,
        TaskView::ForcePull(_, _) => 1,
        TaskView::DeleteFromCloud(_) => 1,
        _ => 0,
    }
}

impl Situation {
    /// Whether a task that waits for an answer comes before one that is to begin.
    spec fn phase(self) -> nat {
        match self.outcome {
            OutcomeView::Tell(_) => 1,
            OutcomeView::Ask(_) => 0,
        }
    }

    /// How many more turns of the same kind there can be.
    spec fn height(self) -> nat {
        match self.outcome {
            OutcomeView::Tell(_) => self.running.len(),
            OutcomeView::Ask(ActionView::Run(task)) => depth(task) + 1,
            OutcomeView::Ask(_) => 0,
        }
    }

    /// Whether fewer turns are left than in another situation.
    spec fn below(self, other: Situation) -> bool {
        ||| self.phase() < other.phase()
        ||| self.phase() == other.phase() && self.height() < other.height()
    }

    /// Whether no task asks for one that is carried out for its own sake only.
    spec fn is_sound(self) -> bool {
        self.outcome matches OutcomeView::Ask(action) ==> !is_outermost(action)
    }
}

/// Whether an action asks for a task that is carried out for its own sake only.
spec fn is_outermost(action: ActionView) -> bool {
    action matches ActionView::Run(task) && (task is TestConnection || task is FetchMissingCovers)
}

proof fn lemma_sync_library(m: SyncLibraryView, event: EventView, now: Instant)
    ensures
        m.after(event, now) matches MoveView::Next(_, action) ==> !is_outermost(action),
{
}

proof fn lemma_force_push(m: ForcePushView, event: EventView, now: Instant)
    ensures
        m.after(event, now) matches MoveView::Next(_, action) ==> !is_outermost(action),
{
}

proof fn lemma_force_pull(m: ForcePullView, event: EventView, now: Instant)
    ensures
        m.after(event, now) matches MoveView::Next(_, action) ==> !is_outermost(action),
{
}

proof fn lemma_force_push_book(m: ForcePushBookView, event: EventView, now: Instant)
    ensures
        m.after(event, now) matches MoveView::Next(_, action) ==> !is_outermost(action),
{
}

proof fn lemma_export_book(m: ExportBookView, event: EventView, now: Instant)
    ensures
        m.after(event, now) matches MoveView::Next(_, action) ==> !is_outermost(action),
{
}

proof fn lemma_import_book(m: ImportBookView, event: EventView, now: Instant)
    ensures
        m.after(event, now) matches MoveView::Next(_, action) ==> !is_outermost(action),
{
}

/// No task asks for one that is carried out for its own sake only.
proof fn lemma_not_outermost(machine: MachineView, event: EventView, now: Instant, step: StepView)
    requires
        machine.follows(event, now, step),
    ensures
        step matches StepView::Next(_, action) ==> !is_outermost(action),
{
    reveal(MachineView::follows);
    match machine {
        MachineView::SyncLibrary(m) => {
            lemma_sync_library(m, event, now);
        },
        MachineView::ForcePush(m) => {
            lemma_force_push(m, event, now);
        },
        MachineView::ForcePull(m) => {
            lemma_force_pull(m, event, now);
        },
        MachineView::ForcePushBook(m) => {
            lemma_force_push_book(m, event, now);
        },
        MachineView::ExportBook(m) => {
            lemma_export_book(m, event, now);
        },
        MachineView::ImportBook(m) => {
            lemma_import_book(m, event, now);
        },
        _ => {},
    }
}

/// A task that is asked for by another begins with an action, and with a plain one before long.
proof fn lemma_start(task: TaskView, step: StepView)
    requires
        starts(task, step),
    ensures
        !(task is TestConnection || task is FetchMissingCovers) ==> step is Next,
        step matches StepView::Next(_, action) ==> !is_outermost(action),
        step matches StepView::Next(_, ActionView::Run(next)) ==> depth(next) < depth(task),
{
    reveal(starts);
}

/// A turn may come first.
proof fn lemma_turn_first(first: Situation, second: Situation, last: Situation, n: nat)
    requires
        first.turns_into(second),
        second.comes_to(last, n),
    ensures
        first.comes_to(last, n + 1),
    decreases n,
{
    if n == 0 {
        assert(first.comes_to(first, 0));
    } else {
        let before = choose|before: Situation|
            second.comes_to(before, (n - 1) as nat) && #[trigger] before.turns_into(last);
        lemma_turn_first(first, second, before, (n - 1) as nat);
    }
}

/// Carries tasks out.
pub struct Runner {
    stack: Vec<Machine>,
}

impl Runner {
    /// The tasks that are being carried out.
    pub closed spec fn running(self) -> Seq<MachineView> {
        self.stack.deep_view()
    }

    /// Where the tasks have come to, given what is to be done.
    pub open spec fn situation(self, outcome: Outcome) -> Situation {
        Situation { running: self.running(), outcome: outcome.deep_view() }
    }

    /// Takes a step on.
    fn take(&mut self, step: Step) -> (r: Outcome)
        ensures
            final(self).situation(r) == Situation::stepped(
                old(self).running(),
                step.deep_view(),
            ),
    {
        match step {
            Step::Next(machine, action) => {
                let ghost before = self.running();
                let ghost v = machine.deep_view();
                self.stack.push(machine);
                assert(self.running() =~= before.push(v));
                Outcome::Ask(action)
            },
            Step::End(event) => Outcome::Tell(event),
        }
    }

    /// Hands a reply that comes at an instant to the task that others wait for; with no task
    /// running, the reply is what came of it all.
    pub fn resume(&mut self, event: Event, now: Instant) -> (r: Outcome)
        requires
            now.valid(),
        ensures
            old(self).running().len() == 0 ==> final(self).running() == old(self).running()
                && r.deep_view() == OutcomeView::Tell(event.deep_view()),
            old(self).running().len() > 0 ==> exists|step: StepView| #[trigger]
                old(self).running().last().follows(event.deep_view(), now, step)
                    && final(self).situation(r) == Situation::stepped(
                    old(self).running().drop_last(),
                    step,
                ),
    {
        let ghost before = self.running();
        match self.stack.pop() {
            Some(machine) => {
                assert(before.last() == machine.deep_view());
                assert(self.running() =~= before.drop_last());
                let step = machine.advance(event, now);
                assert(before.last().follows(event.deep_view(), now, step.deep_view()));
                self.take(step)
            },
            None => Outcome::Tell(event),
        }
    }

    /// Whether nothing more can be done from within.
    fn is_at_rest(&self, outcome: &Outcome) -> (r: bool)
        ensures
            r == self.situation(*outcome).at_rest(),
    {
        match outcome {
            Outcome::Ask(Action::Run(_)) => false,
            Outcome::Ask(_) => true,
            Outcome::Tell(_) => self.stack.len() == 0,
        }
    }

    /// Begins a task on behalf of the one that others wait for.
    fn enter(&mut self, task: Task) -> (r: Outcome)
        ensures
            (Situation {
                running: old(self).running(),
                outcome: OutcomeView::Ask(ActionView::Run(task.deep_view())),
            }).turns_into(final(self).situation(r)),
            exists|step: StepView| #[trigger]
                starts(task.deep_view(), step) && final(self).situation(r) == Situation::stepped(
                    old(self).running(),
                    step,
                ),
    {
        let step = begin(task);
        reveal(Situation::turns_into);
        self.take(step)
    }

    /// Does one thing that can be done from within.
    fn turn(&mut self, outcome: Outcome) -> (r: Outcome)
        requires
            !old(self).situation(outcome).at_rest(),
            old(self).situation(outcome).is_sound(),
        ensures
            old(self).situation(outcome).turns_into(final(self).situation(r)),
            final(self).situation(r).is_sound(),
            final(self).situation(r).below(old(self).situation(outcome)),
    {
        let ghost here = self.situation(outcome);
        match outcome {
            Outcome::Ask(Action::Run(task)) => {
                let r = self.enter(task);
                proof {
                    let step = choose|step: StepView| #[trigger]
                        starts(task.deep_view(), step) && self.situation(r) == Situation::stepped(
                            here.running,
                            step,
                        );
                    lemma_start(task.deep_view(), step);
                }
                r
            },
            Outcome::Ask(action) => Outcome::Ask(action),
            Outcome::Tell(event) => {
                let now = time::utc_now();
                let r = self.resume(event, now);
                proof {
                    let top = here.running.last();
                    let step = choose|step: StepView| #[trigger]
                        top.follows(event.deep_view(), now, step) && self.situation(r)
                            == Situation::stepped(here.running.drop_last(), step);
                    lemma_not_outermost(top, event.deep_view(), now, step);
                    reveal(Situation::turns_into);
                }
                r
            },
        }
    }

    /// Goes on until nothing more can be done from within.
    fn settle(&mut self, begun: Outcome) -> (r: Outcome)
        requires
            old(self).situation(begun).is_sound(),
        ensures
            old(self).situation(begun).settles_in(final(self).situation(r)),
    {
        let ghost first = self.situation(begun);
        let ghost mut n: nat = 0;
        let mut outcome = begun;
        while !self.is_at_rest(&outcome)
            invariant
                first == old(self).situation(begun),
                first.comes_to(self.situation(outcome), n),
                self.situation(outcome).is_sound(),
            decreases self.situation(outcome).phase(), self.situation(outcome).height(),
        {
            let ghost here = self.situation(outcome);
            outcome = self.turn(outcome);
            proof {
                n = n + 1;
                assert(first.comes_to(here, (n - 1) as nat));
            }
        }
        outcome
    }

    /// Begins a task, and goes on until there is something to be seen to or the task has ended.
    pub fn start(task: Task) -> (r: (Runner, Outcome))
        ensures
            (Situation {
                running: Seq::empty(),
                outcome: OutcomeView::Ask(ActionView::Run(task.deep_view())),
            }).settles_in(r.0.situation(r.1)),
    {
        let mut runner = Runner { stack: Vec::new() };
        assert(runner.running() =~= Seq::empty());
        let step = begin(task);
        proof {
            lemma_start(task.deep_view(), step.deep_view());
            reveal(Situation::turns_into);
        }
        let begun = runner.take(step);
        let ghost second = runner.situation(begun);
        let outcome = runner.settle(begun);
        proof {
            let first = Situation {
                running: Seq::empty(),
                outcome: OutcomeView::Ask(ActionView::Run(task.deep_view())),
            };
            let last = runner.situation(outcome);
            let n = choose|n: nat| #[trigger] second.comes_to(last, n);
            lemma_turn_first(first, second, last, n);
        }
        (runner, outcome)
    }

    /// Takes what came of an action, and goes on until there is something more to be seen to or
    /// the first task has ended.
    pub fn answer(&mut self, event: Event) -> (r: Outcome)
        ensures
            (Situation {
                running: old(self).running(),
                outcome: OutcomeView::Tell(event.deep_view()),
            }).settles_in(final(self).situation(r)),
    {
        self.settle(Outcome::Tell(event))
    }
}

} // verus!
