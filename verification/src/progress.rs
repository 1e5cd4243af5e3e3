//! Reading progress: which of two devices is ahead, and what follows from it.
use vstd::prelude::*;

use crate::models::{
    ProgressSyncResult, ProgressSyncResultView, ReadingProgress, ReadingProgressView,
};
use crate::payload::{SyncProgressPayload, SyncProgressPayloadView};

verus! {

/// What is to be done about the progress of a book.
#[derive(Debug, Clone, Copy, PartialEq, Eq, Structural)]
pub enum ProgressPlan {
    /// The book has been read nowhere.
    Nothing,
    /// The server gets what this device has.
    Push,
    /// This device gets what the server has.
    Pull,
    /// Both are equally recent, and stay as they are.
    Keep,
}

/// The more recent of the two counts.
pub open spec fn plan(
    local: Option<ReadingProgressView>,
    cloud: Option<SyncProgressPayloadView>,
) -> ProgressPlan {
    match (local, cloud) {
        (None, None) => ProgressPlan::Nothing,
        (Some(_), None) => ProgressPlan::Push,
        (None, Some(_)) => ProgressPlan::Pull,
        (Some(l), Some(c)) => if l.last_read > c.last_read {
            ProgressPlan::Push
        } else if c.last_read > l.last_read {
            ProgressPlan::Pull
        } else {
            ProgressPlan::Keep
        },
    }
}

/// The more recent of the two counts.
pub fn plan_progress(
    local: &Option<ReadingProgress>,
    cloud: &Option<SyncProgressPayload>,
) -> (r: ProgressPlan)
    ensures
        r == plan(local.deep_view(), cloud.deep_view()),
{
    match (local, cloud) {
        (None, None) => ProgressPlan::Nothing,
        (Some(_), None) => ProgressPlan::Push,
        (None, Some(_)) => ProgressPlan::Pull,
        (Some(l), Some(c)) => if l.last_read > c.last_read {
            ProgressPlan::Push
        } else if c.last_read > l.last_read {
            ProgressPlan::Pull
        } else {
            ProgressPlan::Keep
        },
    }
}

/// Progress as the server stores it.
pub open spec fn pushed(uuid: Seq<char>, local: ReadingProgressView) -> SyncProgressPayloadView {
    SyncProgressPayloadView {
        book_uuid: uuid,
        chapter_index: local.current_chapter_index,
        paragraph_index: local.current_paragraph_index,
        character_offset: local.current_character_offset,
        last_read: local.last_read,
        device_id: None,
        device_name: None,
    }
}

/// Progress as the server stores it.
pub fn push_progress(uuid: String, local: &ReadingProgress) -> (r: SyncProgressPayload)
    ensures
        r.deep_view() == pushed(uuid@, local.deep_view()),
{
    SyncProgressPayload {
        book_uuid: uuid,
        chapter_index: local.current_chapter_index,
        paragraph_index: local.current_paragraph_index,
        character_offset: local.current_character_offset,
        last_read: local.last_read,
        device_id: None,
        device_name: None,
    }
}

/// Progress as this device takes it over.
pub open spec fn pulled(uuid: Seq<char>, cloud: SyncProgressPayloadView) -> ReadingProgressView {
    ReadingProgressView {
        id: None,
        book_uuid: uuid,
        current_chapter_index: cloud.chapter_index,
        current_paragraph_index: cloud.paragraph_index,
        current_character_offset: cloud.character_offset,
        last_read: cloud.last_read,
    }
}

/// Progress as this device takes it over.
pub fn pull_progress(uuid: String, cloud: &SyncProgressPayload) -> (r: ReadingProgress)
    ensures
        r.deep_view() == pulled(uuid@, cloud.deep_view()),
{
    ReadingProgress {
        id: None,
        book_uuid: uuid,
        current_chapter_index: cloud.chapter_index,
        current_paragraph_index: cloud.paragraph_index,
        current_character_offset: cloud.character_offset,
        last_read: cloud.last_read,
    }
}

/// The report of where the server stands now.
pub open spec fn report(
    status: Seq<char>,
    cloud: SyncProgressPayloadView,
    message: Option<Seq<char>>,
) -> ProgressSyncResultView {
    ProgressSyncResultView {
        status,
        cloud_chapter_index: Some(cloud.chapter_index),
        cloud_paragraph_index: Some(cloud.paragraph_index),
        cloud_character_offset: Some(cloud.character_offset),
        cloud_last_read: Some(cloud.last_read),
        message,
    }
}

/// The report of where the server stands now.
pub fn make_report(status: &str, cloud: &SyncProgressPayload, message: Option<String>) -> (r:
    ProgressSyncResult)
    ensures
        r.deep_view() == report(status@, cloud.deep_view(), message.deep_view()),
{
    ProgressSyncResult {
        status: status.to_string(),
        cloud_chapter_index: Some(cloud.chapter_index),
        cloud_paragraph_index: Some(cloud.paragraph_index),
        cloud_character_offset: Some(cloud.character_offset),
        cloud_last_read: Some(cloud.last_read),
        message,
    }
}

/// The report for a book that has been read nowhere.
pub open spec fn empty_report() -> ProgressSyncResultView {
    ProgressSyncResultView {
        status: "noChange"@,
        cloud_chapter_index: None,
        cloud_paragraph_index: None,
        cloud_character_offset: None,
        cloud_last_read: None,
        message: None,
    }
}

/// The report for a book that has been read nowhere.
pub fn make_empty_report() -> (r: ProgressSyncResult)
    ensures
        r.deep_view() == empty_report(),
{
    ProgressSyncResult {
        status: "noChange".to_string(),
        cloud_chapter_index: None,
        cloud_paragraph_index: None,
        cloud_character_offset: None,
        cloud_last_read: None,
        message: None,
    }
}

/// What this device has once a plan was carried out.
pub open spec fn local_after(
    uuid: Seq<char>,
    local: Option<ReadingProgressView>,
    cloud: Option<SyncProgressPayloadView>,
) -> Option<ReadingProgressView> {
    if plan(local, cloud) == ProgressPlan::Pull {
        Some(pulled(uuid, cloud->0))
    } else {
        local
    }
}

/// What the server has once a plan was carried out.
pub open spec fn cloud_after(
    uuid: Seq<char>,
    local: Option<ReadingProgressView>,
    cloud: Option<SyncProgressPayloadView>,
) -> Option<SyncProgressPayloadView> {
    if plan(local, cloud) == ProgressPlan::Push {
        Some(pushed(uuid, local->0))
    } else {
        cloud
    }
}

/// No progress is lost: once the plan was carried out, neither side is behind what either had,
/// and each has what one of them had before.
pub proof fn law_the_newest_progress_wins(
    uuid: Seq<char>,
    local: Option<ReadingProgressView>,
    cloud: Option<SyncProgressPayloadView>,
)
    ensures
        local is Some || cloud is Some ==> {
            let l = local_after(uuid, local, cloud);
            let c = cloud_after(uuid, local, cloud);
            &&& l is Some
            &&& c is Some
            &&& l->0.last_read == c->0.last_read
            &&& local matches Some(before) ==> before.last_read <= l->0.last_read
            &&& cloud matches Some(before) ==> before.last_read <= c->0.last_read
            &&& local == l || cloud == c
        },
        local is None && cloud is None ==> local_after(uuid, local, cloud) is None && cloud_after(
            uuid,
            local,
            cloud,
        ) is None,
{
}

/// Synchronising progress is settled after one round: carried out once, the plan leaves nothing
/// to do.
pub proof fn law_progress_settles(
    uuid: Seq<char>,
    local: Option<ReadingProgressView>,
    cloud: Option<SyncProgressPayloadView>,
)
    ensures
        plan(local_after(uuid, local, cloud), cloud_after(uuid, local, cloud)) == if local is None
            && cloud is None {
            ProgressPlan::Nothing
        } else {
            ProgressPlan::Keep
        },
{
}

/// What is pushed from one device is, pulled on another, the same place in the book.
pub proof fn law_progress_travels(uuid: Seq<char>, local: ReadingProgressView)
    ensures
        pulled(uuid, pushed(uuid, local)) == (ReadingProgressView {
            id: None,
            book_uuid: uuid,
            ..local
        }),
{
}

} // verus!
