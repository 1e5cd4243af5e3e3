//! Synchronising how far a book has been read.
use vstd::prelude::*;

use crate::client::{ClientView, WebDavClient};
use crate::models::{
    ProgressSyncResult, ProgressSyncResultView, ReadingProgress, ReadingProgressView,
};
use crate::payload::{SyncProgressPayload, SyncProgressPayloadView};
use crate::progress;
use crate::progress::ProgressPlan;
use crate::protocol;
use crate::protocol::{Action, ActionView, Event, EventView, Move, MoveView, Task, TaskView};
use crate::remote;

verus! {

/// Synchronising how far a book has been read.
pub enum SyncProgress {
    /// The client was asked for.
    Client { uuid: String },
    /// The progress of this device was asked for.
    Local { client: WebDavClient, uuid: String },
    /// The progress of the server was looked for.
    Looked { client: WebDavClient, uuid: String, local: Option<ReadingProgress> },
    /// The progress of the server was asked for.
    Fetched { client: WebDavClient, uuid: String, local: Option<ReadingProgress> },
    /// The progress of the server was handed over to be read.
    Decoded { client: WebDavClient, uuid: String, local: Option<ReadingProgress> },
    /// The progress of this device was handed over to be written down.
    Encoded {
        client: WebDavClient,
        uuid: String,
        result: ProgressSyncResult,
        chapter: i32,
        paragraph: i32,
    },
    /// The server was sent the progress of this device.
    Uploaded { uuid: String, result: ProgressSyncResult, chapter: i32, paragraph: i32 },
    /// This device was given the progress of the server.
    Saved {
        uuid: String,
        result: ProgressSyncResult,
        chapter: i32,
        paragraph: i32,
        device: Option<String>,
    },
    /// The history was told.
    Recorded { result: ProgressSyncResult },
    /// The settings were told.
    Stamped { result: ProgressSyncResult },
}

/// What a `SyncProgress` holds.
pub enum SyncProgressView {
    Client { uuid: Seq<char> },
    Local { client: ClientView, uuid: Seq<char> },
    Looked { client: ClientView, uuid: Seq<char>, local: Option<ReadingProgressView> },
    Fetched { client: ClientView, uuid: Seq<char>, local: Option<ReadingProgressView> },
    Decoded { client: ClientView, uuid: Seq<char>, local: Option<ReadingProgressView> },
    Encoded {
        client: ClientView,
        uuid: Seq<char>,
        result: ProgressSyncResultView,
        chapter: i32,
        paragraph: i32,
    },
    Uploaded { uuid: Seq<char>, result: ProgressSyncResultView, chapter: i32, paragraph: i32 },
    Saved {
        uuid: Seq<char>,
        result: ProgressSyncResultView,
        chapter: i32,
        paragraph: i32,
        device: Option<Seq<char>>,
    },
    Recorded { result: ProgressSyncResultView },
    Stamped { result: ProgressSyncResultView },
}

impl DeepView for SyncProgress {
    type V = SyncProgressView;

    open spec fn deep_view(&self) -> SyncProgressView {
        match self {
            SyncProgress::Client { uuid } => SyncProgressView::Client { uuid: uuid@ },
            SyncProgress::Local { client, uuid } => SyncProgressView::Local {
                client: client.deep_view(),
                uuid: uuid@,
            },
            SyncProgress::Looked { client, uuid, local } => SyncProgressView::Looked {
                client: client.deep_view(),
                uuid: uuid@,
                local: local.deep_view(),
            },
            SyncProgress::Fetched { client, uuid, local } => SyncProgressView::Fetched {
                client: client.deep_view(),
                uuid: uuid@,
                local: local.deep_view(),
            },
            SyncProgress::Decoded { client, uuid, local } => SyncProgressView::Decoded {
                client: client.deep_view(),
                uuid: uuid@,
                local: local.deep_view(),
            },
            SyncProgress::Encoded { client, uuid, result, chapter, paragraph } => SyncProgressView::Encoded {
                client: client.deep_view(),
                uuid: uuid@,
                result: result.deep_view(),
                chapter: *chapter,
                paragraph: *paragraph,
            },
            SyncProgress::Uploaded { uuid, result, chapter, paragraph } => SyncProgressView::Uploaded {
                uuid: uuid@,
                result: result.deep_view(),
                chapter: *chapter,
                paragraph: *paragraph,
            },
            SyncProgress::Saved { uuid, result, chapter, paragraph, device } => SyncProgressView::Saved {
                uuid: uuid@,
                result: result.deep_view(),
                chapter: *chapter,
                paragraph: *paragraph,
                device: device.deep_view(),
            },
            SyncProgress::Recorded { result } => SyncProgressView::Recorded {
                result: result.deep_view(),
            },
            SyncProgress::Stamped { result } => SyncProgressView::Stamped {
                result: result.deep_view(),
            },
        }
    }
}

/// What a push is reported as.
pub open spec fn push_message(cloud: Option<SyncProgressPayloadView>) -> Seq<char> {
    if cloud is None {
        "Uploaded local progress to cloud"@
    } else {
        "Local is newer, updated cloud"@
    }
}

/// What a pull is reported as.
pub open spec fn pull_message(local: Option<ReadingProgressView>) -> Seq<char> {
    if local is None {
        "Updated local progress from cloud"@
    } else {
        "Cloud is newer, updated local"@
    }
}

/// What follows once both sides are known.
pub open spec fn settled(
    client: ClientView,
    uuid: Seq<char>,
    local: Option<ReadingProgressView>,
    cloud: Option<SyncProgressPayloadView>,
) -> MoveView<SyncProgressView, ProgressSyncResultView> {
    match progress::plan(local, cloud) {
        ProgressPlan::Nothing => MoveView::End(Ok(progress::empty_report())),
        ProgressPlan::Push => {
            let payload = progress::pushed(uuid, local->0);
            MoveView::Next(
                SyncProgressView::Encoded {
                    client,
                    uuid,
                    result: progress::report("updatedCloud"@, payload, Some(push_message(cloud))),
                    chapter: payload.chapter_index,
                    paragraph: payload.paragraph_index,
                },
                ActionView::EncodeProgress(payload),
            )
        },
        ProgressPlan::Pull => {
            let cloud = cloud->0;
            MoveView::Next(
                SyncProgressView::Saved {
                    uuid,
                    result: progress::report("updatedLocal"@, cloud, Some(pull_message(local))),
                    chapter: cloud.chapter_index,
                    paragraph: cloud.paragraph_index,
                    device: cloud.device_name,
                },
                ActionView::SaveProgress(progress::pulled(uuid, cloud)),
            )
        },
        ProgressPlan::Keep => MoveView::Next(
            SyncProgressView::Stamped { result: progress::report("noChange"@, cloud->0, None) },
            ActionView::Run(TaskView::RecordTimestamp),
        ),
    }
}

fn settle(
    client: WebDavClient,
    uuid: String,
    local: Option<ReadingProgress>,
    cloud: Option<SyncProgressPayload>,
) -> (r: Move<SyncProgress, ProgressSyncResult>)
    ensures
        r.deep_view() == settled(
            client.deep_view(),
            uuid@,
            local.deep_view(),
            cloud.deep_view(),
        ),
{
    match progress::plan_progress(&local, &cloud) {
        ProgressPlan::Nothing => Move::End(Ok(progress::make_empty_report())),
        ProgressPlan::Push => {
            let message = if cloud.is_none() {
                "Uploaded local progress to cloud"
            } else {
                "Local is newer, updated cloud"
            };
            let local = local.unwrap();
            let payload = progress::push_progress(uuid.clone(), &local);
            let result = progress::make_report(
                "updatedCloud",
                &payload,
                Some(message.to_string()),
            );
            Move::Next(
                SyncProgress::Encoded {
                    client,
                    uuid,
                    result,
                    chapter: payload.chapter_index,
                    paragraph: payload.paragraph_index,
                },
                Action::EncodeProgress(payload),
            )
        },
        ProgressPlan::Pull => {
            let message = if local.is_none() {
                "Updated local progress from cloud"
            } else {
                "Cloud is newer, updated local"
            };
            let cloud = cloud.unwrap();
            let result = progress::make_report("updatedLocal", &cloud, Some(message.to_string()));
            let adopted = progress::pull_progress(uuid.clone(), &cloud);
            Move::Next(
                SyncProgress::Saved {
                    uuid,
                    result,
                    chapter: cloud.chapter_index,
                    paragraph: cloud.paragraph_index,
                    device: cloud.device_name,
                },
                Action::SaveProgress(adopted),
            )
        },
        ProgressPlan::Keep => {
            let cloud = cloud.unwrap();
            let result = progress::make_report("noChange", &cloud, None);
            Move::Next(SyncProgress::Stamped { result }, Action::Run(Task::RecordTimestamp))
        },
    }
}

impl SyncProgressView {
    /// The beginning.
    pub open spec fn start(uuid: Seq<char>) -> MoveView<SyncProgressView, ProgressSyncResultView> {
        MoveView::Next(SyncProgressView::Client { uuid }, ActionView::Run(TaskView::Client))
    }

    /// What follows a reply.
    pub open spec fn after(self, event: EventView) -> MoveView<
        SyncProgressView,
        ProgressSyncResultView,
    > {
        match self {
            SyncProgressView::Client { uuid } => match event {
                EventView::Client(Ok(client)) => MoveView::Next(
                    SyncProgressView::Local { client, uuid },
                    ActionView::GetProgress(uuid),
                ),
                EventView::Client(Err(e)) => MoveView::End(Err(e)),
                _ => protocol::unexpected(),
            },
            SyncProgressView::Local { client, uuid } => match event {
                EventView::Progress(Ok(local)) => MoveView::Next(
                    SyncProgressView::Looked { client, uuid, local },
                    ActionView::Exists(client, remote::progress_path(uuid)),
                ),
                EventView::Progress(Err(e)) => MoveView::End(Err(e)),
                _ => protocol::unexpected(),
            },
            SyncProgressView::Looked { client, uuid, local } => match event {
                EventView::Flag(Ok(true)) => MoveView::Next(
                    SyncProgressView::Fetched { client, uuid, local },
                    ActionView::Download(client, remote::progress_path(uuid)),
                ),
                _ => settled(client, uuid, local, None),
            },
            SyncProgressView::Fetched { client, uuid, local } => match event {
                EventView::Bytes(Ok(bytes)) => MoveView::Next(
                    SyncProgressView::Decoded { client, uuid, local },
                    ActionView::DecodeProgress(bytes),
                ),
                _ => settled(client, uuid, local, None),
            },
            SyncProgressView::Decoded { client, uuid, local } => match event {
                EventView::CloudProgress(Ok(cloud)) => settled(client, uuid, local, Some(cloud)),
                _ => settled(client, uuid, local, None),
            },
            SyncProgressView::Encoded { client, uuid, result, chapter, paragraph } => match event {
                EventView::Bytes(Ok(bytes)) => MoveView::Next(
                    SyncProgressView::Uploaded { uuid, result, chapter, paragraph },
                    ActionView::Upload(client, remote::progress_path(uuid), bytes),
                ),
                EventView::Bytes(Err(e)) => MoveView::End(Err(e)),
                _ => protocol::unexpected(),
            },
            SyncProgressView::Uploaded { uuid, result, chapter, paragraph } => MoveView::Next(
                SyncProgressView::Recorded { result },
                ActionView::Run(
                    TaskView::RecordProgress(uuid, "push"@, chapter, paragraph, None),
                ),
            ),
            SyncProgressView::Saved { uuid, result, chapter, paragraph, device } => match event {
                EventView::Unit(Ok(_)) => MoveView::Next(
                    SyncProgressView::Recorded { result },
                    ActionView::Run(
                        TaskView::RecordProgress(uuid, "pull"@, chapter, paragraph, device),
                    ),
                ),
                EventView::Unit(Err(e)) => MoveView::End(Err(e)),
                _ => protocol::unexpected(),
            },
            SyncProgressView::Recorded { result } => MoveView::Next(
                SyncProgressView::Stamped { result },
                ActionView::Run(TaskView::RecordTimestamp),
            ),
            SyncProgressView::Stamped { result } => MoveView::End(Ok(result)),
        }
    }
}

/// Synchronises how far a book has been read: the more recent of this device and the server
/// counts, and the other is brought up to date.
pub fn sync_book_progress(book_uuid: String) -> (r: Move<SyncProgress, ProgressSyncResult>)
    ensures
        r.deep_view() == MoveView::<SyncProgressView, ProgressSyncResultView>::Next(
            SyncProgressView::Client { uuid: book_uuid@ },
            ActionView::Run(TaskView::Client),
        ),
        r.deep_view() == SyncProgressView::start(book_uuid@),
{
    Move::Next(SyncProgress::Client { uuid: book_uuid }, Action::Run(Task::Client))
}

impl SyncProgress {
    /// What follows a reply.
    pub fn advance(self, event: Event) -> (r: Move<SyncProgress, ProgressSyncResult>)
        ensures
            r.deep_view() == self.deep_view().after(event.deep_view()),
    {
        match self {
            SyncProgress::Client { uuid } => match event {
                Event::Client(Ok(client)) => {
                    let id = uuid.clone();
                    Move::Next(SyncProgress::Local { client, uuid }, Action::GetProgress(id))
                },
                Event::Client(Err(e)) => Move::End(Err(e)),
                _ => protocol::unexpected_reply(),
            },
            SyncProgress::Local { client, uuid } => match event {
                Event::Progress(Ok(local)) => {
                    let handle = client.clone();
                    let path = remote::progress_file(&uuid);
                    Move::Next(
                        SyncProgress::Looked { client, uuid, local },
                        Action::Exists(handle, path),
                    )
                },
                Event::Progress(Err(e)) => Move::End(Err(e)),
                _ => protocol::unexpected_reply(),
            },
            SyncProgress::Looked { client, uuid, local } => match event {
                Event::Flag(Ok(true)) => {
                    let handle = client.clone();
                    let path = remote::progress_file(&uuid);
                    Move::Next(
                        SyncProgress::Fetched { client, uuid, local },
                        Action::Download(handle, path),
                    )
                },
                _ => settle(client, uuid, local, None),
            },
            SyncProgress::Fetched { client, uuid, local } => match event {
                Event::Bytes(Ok(bytes)) => Move::Next(
                    SyncProgress::Decoded { client, uuid, local },
                    Action::DecodeProgress(bytes),
                ),
                _ => settle(client, uuid, local, None),
            },
            SyncProgress::Decoded { client, uuid, local } => match event {
                Event::CloudProgress(Ok(cloud)) => settle(client, uuid, local, Some(cloud)),
                _ => settle(client, uuid, local, None),
            },
            SyncProgress::Encoded { client, uuid, result, chapter, paragraph } => match event {
                Event::Bytes(Ok(bytes)) => {
                    let path = remote::progress_file(&uuid);
                    Move::Next(
                        SyncProgress::Uploaded { uuid, result, chapter, paragraph },
                        Action::Upload(client, path, bytes),
                    )
                },
                Event::Bytes(Err(e)) => Move::End(Err(e)),
                _ => protocol::unexpected_reply(),
            },
            SyncProgress::Uploaded { uuid, result, chapter, paragraph } => Move::Next(
                SyncProgress::Recorded { result },
                Action::Run(
                    Task::RecordProgress(uuid, "push".to_string(), chapter, paragraph, None),
                ),
            ),
            SyncProgress::Saved { uuid, result, chapter, paragraph, device } => match event {
                Event::Unit(Ok(_)) => Move::Next(
                    SyncProgress::Recorded { result },
                    Action::Run(
                        Task::RecordProgress(uuid, "pull".to_string(), chapter, paragraph, device),
                    ),
                ),
                Event::Unit(Err(e)) => Move::End(Err(e)),
                _ => protocol::unexpected_reply(),
            },
            SyncProgress::Recorded { result } => Move::Next(
                SyncProgress::Stamped { result },
                Action::Run(Task::RecordTimestamp),
            ),
            SyncProgress::Stamped { result } => Move::End(Ok(result)),
        }
    }
}

} // verus!
