//! What holds of carrying out tasks: each one begins and goes on as what it is, and tells what came of
//! it.
use vstd::prelude::*;

use crate::client::ClientView;
use crate::protocol::{ActionView, EventView, MoveView, TaskView};
use crate::runner;
use crate::runner::{MachineView, StepView};
use crate::tasks::bookmarks::SyncBookmarksView;
use crate::tasks::cloud_books::{FetchCloudBooksView, FetchMissingCoversView};
use crate::tasks::config::{MakeClientView, SaveConfigView, TestConnectionView};
use crate::tasks::export::ExportBookView;
use crate::tasks::files::{DownloadFileView, UploadFileView};
use crate::tasks::highlights::SyncHighlightsView;
use crate::tasks::import::ImportBookView;
use crate::tasks::library::SyncLibraryView;
use crate::tasks::progress::SyncProgressView;
use crate::tasks::pull::ForcePullView;
use crate::tasks::push::ForcePushView;
use crate::tasks::record::{RecordProgressView, RecordTimestampView};
use crate::tasks::single::{DeleteFromCloudView, DownloadVirtualBookView, ForcePullBookView, ForcePushBookView};
use crate::time::Instant;

verus! {

/// Whether a step is where a task of a kind begins.
pub open spec fn begins<S, R>(
    step: StepView,
    first: MoveView<S, R>,
    machine: spec_fn(S) -> MachineView,
) -> bool {
    first matches MoveView::Next(state, action) && step == StepView::Next(machine(state), action)
}

/// Whether a step is where a task of a kind has come to. Once it has ended, what came of it is told.
pub open spec fn goes_on<S, R>(
    step: StepView,
    next: MoveView<S, R>,
    machine: spec_fn(S) -> MachineView,
    event: spec_fn(Result<R, Seq<char>>) -> EventView,
) -> bool {
    match next {
        MoveView::Next(state, action) => step == StepView::Next(machine(state), action),
        MoveView::End(result) => step == StepView::End(event(result)),
    }
}

/// A task that is begun is the one that was asked for, with what was given for it.
pub proof fn law_tasks_begin_as_themselves(task: TaskView, step: StepView)
    requires
        runner::starts(task, step),
    ensures
        match task {
            TaskView::Client => begins(
                step,
                MakeClientView::start(),
                |s: MakeClientView| MachineView::Client(s),
            ),
            TaskView::SaveConfig(a, b, c) => begins(
                step,
                SaveConfigView::start(a, b, c),
                |s: SaveConfigView| MachineView::SaveConfig(s),
            ),
            TaskView::UploadFile(a, b, c) => begins(
                step,
                UploadFileView::start(a, b, c),
                |s: UploadFileView| MachineView::UploadFile(s),
            ),
            TaskView::DownloadFile(a, b, c) => begins(
                step,
                DownloadFileView::start(a, b, c),
                |s: DownloadFileView| MachineView::DownloadFile(s),
            ),
            TaskView::RecordProgress(a, b, c, d, e) => begins(
                step,
                RecordProgressView::start(a, b, c, d, e),
                |s: RecordProgressView| MachineView::RecordProgress(s),
            ),
            TaskView::RecordTimestamp => begins(
                step,
                RecordTimestampView::start(),
                |s: RecordTimestampView| MachineView::RecordTimestamp(s),
            ),
            TaskView::ExportBook(a) => begins(
                step,
                ExportBookView::start(a),
                |s: ExportBookView| MachineView::ExportBook(s),
            ),
            TaskView::ImportBook(a, b) => begins(
                step,
                ImportBookView::start(a, b),
                |s: ImportBookView| MachineView::ImportBook(s),
            ),
            TaskView::FetchCloudBooks(a) => begins(
                step,
                FetchCloudBooksView::start(a),
                |s: FetchCloudBooksView| MachineView::FetchCloudBooks(s),
            ),
            TaskView::SyncProgress(a) => begins(
                step,
                SyncProgressView::start(a),
                |s: SyncProgressView| MachineView::SyncProgress(s),
            ),
            TaskView::SyncBookmarks(a) => begins(
                step,
                SyncBookmarksView::start(a),
                |s: SyncBookmarksView| MachineView::SyncBookmarks(s),
            ),
            TaskView::SyncHighlights(a) => begins(
                step,
                SyncHighlightsView::start(a),
                |s: SyncHighlightsView| MachineView::SyncHighlights(s),
            ),
            TaskView::SyncLibrary(a) => begins(
                step,
                SyncLibraryView::start(a),
                |s: SyncLibraryView| MachineView::SyncLibrary(s),
            ),
            TaskView::ForcePush(a) => begins(
                step,
                ForcePushView::start(a),
                |s: ForcePushView| MachineView::ForcePush(s),
            ),
            TaskView::ForcePull(a, b) => begins(
                step,
                ForcePullView::start(a, b),
                |s: ForcePullView| MachineView::ForcePull(s),
            ),
            TaskView::ForcePushBook(a) => begins(
                step,
                ForcePushBookView::start(a),
                |s: ForcePushBookView| MachineView::ForcePushBook(s),
            ),
            TaskView::ForcePullBook(a, b) => begins(
                step,
                ForcePullBookView::start(a, b),
                |s: ForcePullBookView| MachineView::ForcePullBook(s),
            ),
            TaskView::DeleteFromCloud(a) => begins(
                step,
                DeleteFromCloudView::start(a),
                |s: DeleteFromCloudView| MachineView::DeleteFromCloud(s),
            ),
            TaskView::DownloadVirtualBook(a, b) => begins(
                step,
                DownloadVirtualBookView::start(a, b),
                |s: DownloadVirtualBookView| MachineView::DownloadVirtualBook(s),
            ),
            TaskView::TestConnection(_, _, _) => true,
            TaskView::FetchMissingCovers(client, covers) => goes_on(
                step,
                FetchMissingCoversView::visit(client, covers, 0),
                |s: FetchMissingCoversView| MachineView::FetchMissingCovers(s),
                |r| EventView::Unit(r),
            ),
        },
{
    reveal(runner::starts);
}

/// A task that is told of a reply goes on from where it was, and once it has ended it tells just
/// what came of it.
pub proof fn law_tasks_go_on_as_themselves(
    machine: MachineView,
    event: EventView,
    now: Instant,
    step: StepView,
)
    requires
        machine.follows(event, now, step),
    ensures
        match machine {
            MachineView::Client(m) => exists|built: Result<(), Seq<char>>| goes_on(
                step,
                #[trigger] m.after(event, built),
                |s: MakeClientView| MachineView::Client(s),
                |r| EventView::Client(r),
            ),
            MachineView::TestConnection(m) => goes_on(
                step,
                m.after(event),
                |s: TestConnectionView| MachineView::TestConnection(s),
                |r| EventView::Flag(r),
            ),
            MachineView::FetchMissingCovers(m) => goes_on(
                step,
                m.after(event),
                |s: FetchMissingCoversView| MachineView::FetchMissingCovers(s),
                |r| EventView::Unit(r),
            ),
            MachineView::SaveConfig(m) => goes_on(
                step,
                m.after(event),
                |s: SaveConfigView| MachineView::SaveConfig(s),
                |r| EventView::Unit(r),
            ),
            MachineView::UploadFile(m) => goes_on(
                step,
                m.after(event),
                |s: UploadFileView| MachineView::UploadFile(s),
                |r| EventView::Flag(r),
            ),
            MachineView::DownloadFile(m) => goes_on(
                step,
                m.after(event),
                |s: DownloadFileView| MachineView::DownloadFile(s),
                |r| EventView::Flag(r),
            ),
            MachineView::RecordProgress(m) => goes_on(
                step,
                m.after(event, now),
                |s: RecordProgressView| MachineView::RecordProgress(s),
                |r| EventView::Unit(r),
            ),
            MachineView::RecordTimestamp(m) => goes_on(
                step,
                m.after(event, now),
                |s: RecordTimestampView| MachineView::RecordTimestamp(s),
                |r| EventView::Unit(r),
            ),
            MachineView::ExportBook(m) => goes_on(
                step,
                m.after(event, now),
                |s: ExportBookView| MachineView::ExportBook(s),
                |r| EventView::Flag(r),
            ),
            MachineView::ImportBook(m) => goes_on(
                step,
                m.after(event, now),
                |s: ImportBookView| MachineView::ImportBook(s),
                |r| EventView::Imported(r),
            ),
            MachineView::FetchCloudBooks(m) => goes_on(
                step,
                m.after(event),
                |s: FetchCloudBooksView| MachineView::FetchCloudBooks(s),
                |r| EventView::CloudBooks(r),
            ),
            MachineView::SyncProgress(m) => goes_on(
                step,
                m.after(event),
                |s: SyncProgressView| MachineView::SyncProgress(s),
                |r| EventView::ProgressSynced(r),
            ),
            MachineView::SyncBookmarks(m) => goes_on(
                step,
                m.after(event, now),
                |s: SyncBookmarksView| MachineView::SyncBookmarks(s),
                |r| EventView::Flag(r),
            ),
            MachineView::SyncHighlights(m) => goes_on(
                step,
                m.after(event, now),
                |s: SyncHighlightsView| MachineView::SyncHighlights(s),
                |r| EventView::Flag(r),
            ),
            MachineView::SyncLibrary(m) => goes_on(
                step,
                m.after(event, now),
                |s: SyncLibraryView| MachineView::SyncLibrary(s),
                |r| EventView::Synced(r),
            ),
            MachineView::ForcePush(m) => goes_on(
                step,
                m.after(event, now),
                |s: ForcePushView| MachineView::ForcePush(s),
                |r| EventView::Synced(r),
            ),
            MachineView::ForcePull(m) => goes_on(
                step,
                m.after(event, now),
                |s: ForcePullView| MachineView::ForcePull(s),
                |r| EventView::Synced(r),
            ),
            MachineView::ForcePushBook(m) => goes_on(
                step,
                m.after(event, now),
                |s: ForcePushBookView| MachineView::ForcePushBook(s),
                |r| EventView::Synced(r),
            ),
            MachineView::ForcePullBook(m) => goes_on(
                step,
                m.after(event),
                |s: ForcePullBookView| MachineView::ForcePullBook(s),
                |r| EventView::Synced(r),
            ),
            MachineView::DeleteFromCloud(m) => goes_on(
                step,
                m.after(event, now),
                |s: DeleteFromCloudView| MachineView::DeleteFromCloud(s),
                |r| EventView::Synced(r),
            ),
            MachineView::DownloadVirtualBook(m) => goes_on(
                step,
                m.after(event),
                |s: DownloadVirtualBookView| MachineView::DownloadVirtualBook(s),
                |r| EventView::Synced(r),
            ),
        },
{
    reveal(MachineView::follows);
}

/// The connection is tested with the account that is given, if all of it is, and else with the one of
/// the settings; what comes of it is told.
pub proof fn law_the_given_account_is_tested(
    url: Option<Seq<char>>,
    username: Option<Seq<char>>,
    password: Option<Seq<char>>,
    step: StepView,
    client: ClientView,
    outcome: Result<bool, Seq<char>>,
    error: Seq<char>,
)
    requires
        runner::starts(TaskView::TestConnection(url, username, password), step),
    ensures
        ({
            let given = url is Some && username is Some && password is Some;
            &&& given ==> match step {
                StepView::Next(MachineView::TestConnection(m), action) => {
                    &&& action == ActionView::Probe(
                        ClientView::of(url->0, username->0, password->0),
                    )
                    &&& m.after(EventView::Flag(outcome)) == MoveView::<
                        TestConnectionView,
                        bool,
                    >::End(outcome)
                },
                StepView::End(EventView::Flag(Err(e))) => exists|detail: Seq<char>|
                    e == #[trigger] client_error(detail),
                _ => false,
            }
            &&& !given ==> match step {
                StepView::Next(MachineView::TestConnection(m), action) => {
                    &&& action == ActionView::Run(TaskView::Client)
                    &&& m.after(EventView::Client(Err(error))) == MoveView::<
                        TestConnectionView,
                        bool,
                    >::End(Err(error))
                    &&& m.after(EventView::Client(Ok(client))) matches MoveView::Next(next, probe)
                        && probe == ActionView::Probe(client) && next.after(
                        EventView::Flag(outcome),
                    ) == MoveView::<TestConnectionView, bool>::End(outcome)
                },
                _ => false,
            }
        }),
{
    reveal(runner::starts);
    if let StepView::End(EventView::Flag(Err(e))) = step {
        if url is Some && username is Some && password is Some {
            let built = choose|built: Result<(), Seq<char>>|
                step == match #[trigger] TestConnectionView::probed(
                    url->0,
                    username->0,
                    password->0,
                    built,
                ) {
                    MoveView::Next(next, action) => StepView::Next(
                        MachineView::TestConnection(next),
                        action,
                    ),
                    MoveView::End(r) => StepView::End(EventView::Flag(r)),
                };
            assert(e == client_error(built->Err_0));
        }
    }
}

/// The message for a client that could not be built.
pub open spec fn client_error(detail: Seq<char>) -> Seq<char> {
    "Failed to build HTTP client: "@ + detail
}

} // verus!
