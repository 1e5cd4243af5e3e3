//! What holds of synchronising how far a book has been read.
use vstd::prelude::*;

use crate::models::{ProgressSyncResultView, ReadingProgressView};
use crate::payload::SyncProgressPayloadView;
use crate::progress;
use crate::progress::ProgressPlan;
use crate::protocol::{ActionView, EventView, MoveView, TaskView};
use crate::remote;
use crate::tasks::progress as tasks_progress;
use crate::tasks::progress::SyncProgressView;
use crate::time::Instant;
use crate::world;
use crate::world::World;

verus! {

/// The progress of a book that the server has, if it has any.
pub open spec fn cloud_progress(w: World, uuid: Seq<char>) -> Option<SyncProgressPayloadView> {
    match w.served(remote::progress_path(uuid)) {
        Some(bytes) => match (w.notation.read_progress)(bytes) {
            Ok(cloud) => Some(cloud),
            Err(_) => None,
        },
        None => None,
    }
}

/// What is reported, given what both sides had.
pub open spec fn progress_report(
    uuid: Seq<char>,
    local: Option<ReadingProgressView>,
    cloud: Option<SyncProgressPayloadView>,
) -> ProgressSyncResultView {
    match progress::plan(local, cloud) {
        ProgressPlan::Nothing => progress::empty_report(),
        ProgressPlan::Push => progress::report(
            "updatedCloud"@,
            progress::pushed(uuid, local->0),
            Some(tasks_progress::push_message(cloud)),
        ),
        ProgressPlan::Pull => progress::report(
            "updatedLocal"@,
            cloud->0,
            Some(tasks_progress::pull_message(local)),
        ),
        ProgressPlan::Keep => progress::report("noChange"@, cloud->0, None),
    }
}

/// How a task that synchronises progress goes on.
pub open spec fn progress_after() -> spec_fn(SyncProgressView, EventView, Instant) -> MoveView<
    SyncProgressView,
    ProgressSyncResultView,
> {
    |s: SyncProgressView, e: EventView, now: Instant| s.after(e)
}

/// What comes of synchronising the progress of a book.
pub open spec fn progress_synced(w: World, uuid: Seq<char>, clock: spec_fn(nat) -> Instant) -> (
    Option<Result<ProgressSyncResultView, Seq<char>>>,
    World,
) {
    world::carried_out(
        SyncProgressView::start(uuid),
        progress_after(),
        w,
        clock,
        10,
    )
}

/// Carries out what follows once both sides are known.
proof fn lemma_settled(
    w: World,
    uuid: Seq<char>,
    cloud: Option<SyncProgressPayloadView>,
    clock: spec_fn(nat) -> Instant,
    n: nat,
)
    requires
        w.notation.faithful(),
        cloud == cloud_progress(w, uuid),
        n >= 4,
    ensures
        ({
            let local = world::look_up(w.progress, uuid);
            let (result, after) = world::carried_out(
                tasks_progress::settled(w.client, uuid, local, cloud),
                progress_after(),
                w,
                clock,
                n,
            );
            &&& result == Some(
                Ok::<ProgressSyncResultView, Seq<char>>(progress_report(uuid, local, cloud)),
            )
            &&& after.notation == w.notation
            &&& world::look_up(after.progress, uuid) == progress::local_after(uuid, local, cloud)
            &&& cloud_progress(after, uuid) == progress::cloud_after(uuid, local, cloud)
        }),
{
    let local = world::look_up(w.progress, uuid);
    let f = progress_after();
    match progress::plan(local, cloud) {
        ProgressPlan::Nothing => {
            world::lemma_end(Ok(progress::empty_report()), f, w, clock, n);
        },
        ProgressPlan::Push => {
            let payload = progress::pushed(uuid, local->0);
            let result = progress::report(
                "updatedCloud"@,
                payload,
                Some(tasks_progress::push_message(cloud)),
            );
            let (chapter, paragraph) = (payload.chapter_index, payload.paragraph_index);
            let bytes = (w.notation.progress)(payload);
            let path = remote::progress_path(uuid);
            world::lemma_step(
                SyncProgressView::Encoded { client: w.client, uuid, result, chapter, paragraph },
                ActionView::EncodeProgress(payload),
                f,
                w,
                clock,
                n,
            );
            world::lemma_step(
                SyncProgressView::Uploaded { uuid, result, chapter, paragraph },
                ActionView::Upload(w.client, path, bytes),
                f,
                w,
                clock,
                (n - 1) as nat,
            );
            let w1 = World { server: w.server.insert(path, bytes), ..w };
            lemma_recorded(w1, uuid, "push"@, chapter, paragraph, None, result, clock, (n - 2) as nat);
        },
        ProgressPlan::Pull => {
            let payload = cloud->0;
            let result = progress::report(
                "updatedLocal"@,
                payload,
                Some(tasks_progress::pull_message(local)),
            );
            let (chapter, paragraph) = (payload.chapter_index, payload.paragraph_index);
            let adopted = progress::pulled(uuid, payload);
            world::lemma_step(
                SyncProgressView::Saved {
                    uuid,
                    result,
                    chapter,
                    paragraph,
                    device: payload.device_name,
                },
                ActionView::SaveProgress(adopted),
                f,
                w,
                clock,
                n,
            );
            let w1 = World { progress: w.progress.insert(uuid, adopted), ..w };
            lemma_recorded(
                w1,
                uuid,
                "pull"@,
                chapter,
                paragraph,
                payload.device_name,
                result,
                clock,
                (n - 1) as nat,
            );
        },
        ProgressPlan::Keep => {
            let result = progress::report("noChange"@, cloud->0, None);
            world::lemma_step(
                SyncProgressView::Stamped { result },
                ActionView::Run(TaskView::RecordTimestamp),
                f,
                w,
                clock,
                n,
            );
            let (w1, _) = w.perform(ActionView::Run(TaskView::RecordTimestamp), clock(n));
            world::lemma_end(Ok(result), f, w1, clock, (n - 1) as nat);
        },
    }
}

/// Carries out the end of a synchronisation that changed something.
proof fn lemma_recorded(
    w: World,
    uuid: Seq<char>,
    action: Seq<char>,
    chapter: i32,
    paragraph: i32,
    device: Option<Seq<char>>,
    result: ProgressSyncResultView,
    clock: spec_fn(nat) -> Instant,
    n: nat,
)
    requires
        n >= 2,
    ensures
        ({
            let (end, after) = world::carried_out(
                MoveView::Next(
                    SyncProgressView::Recorded { result },
                    ActionView::Run(
                        TaskView::RecordProgress(uuid, action, chapter, paragraph, device),
                    ),
                ),
                progress_after(),
                w,
                clock,
                n,
            );
            &&& end == Some(Ok::<ProgressSyncResultView, Seq<char>>(result))
            &&& after.progress == w.progress
            &&& after.server == w.server
            &&& after.notation == w.notation
        }),
{
    let f = progress_after();
    let record = ActionView::Run(
        TaskView::RecordProgress(uuid, action, chapter, paragraph, device),
    );
    world::lemma_step(SyncProgressView::Recorded { result }, record, f, w, clock, n);
    let (w1, _) = w.perform(record, clock(n));
    let stamp = ActionView::Run(TaskView::RecordTimestamp);
    world::lemma_step(SyncProgressView::Stamped { result }, stamp, f, w1, clock, (n - 1) as nat);
    let (w2, _) = w1.perform(stamp, clock((n - 1) as nat));
    world::lemma_end(Ok(result), f, w2, clock, (n - 2) as nat);
}

/// Synchronising the progress of a book succeeds. Afterwards this device and the server both have
/// the more recent progress.
pub proof fn law_progress_is_synchronised(w: World, uuid: Seq<char>, clock: spec_fn(nat) -> Instant)
    requires
        w.notation.faithful(),
    ensures
        ({
            let (result, after) = progress_synced(w, uuid, clock);
            let local = world::look_up(w.progress, uuid);
            let cloud = cloud_progress(w, uuid);
            &&& result == Some(
                Ok::<ProgressSyncResultView, Seq<char>>(progress_report(uuid, local, cloud)),
            )
            &&& after.notation == w.notation
            &&& world::look_up(after.progress, uuid) == progress::local_after(uuid, local, cloud)
            &&& cloud_progress(after, uuid) == progress::cloud_after(uuid, local, cloud)
        }),
{
    let f = progress_after();
    let local = world::look_up(w.progress, uuid);
    let path = remote::progress_path(uuid);
    let client = w.client;
    world::lemma_step(
        SyncProgressView::Client { uuid },
        ActionView::Run(TaskView::Client),
        f,
        w,
        clock,
        10,
    );
    let w = World { cached: Some(w.client), ..w };
    world::lemma_step(
        SyncProgressView::Local { client, uuid },
        ActionView::GetProgress(uuid),
        f,
        w,
        clock,
        9,
    );
    world::lemma_step(
        SyncProgressView::Looked { client, uuid, local },
        ActionView::Exists(client, path),
        f,
        w,
        clock,
        8,
    );
    if w.server.dom().contains(path) {
        world::lemma_step(
            SyncProgressView::Fetched { client, uuid, local },
            ActionView::Download(client, path),
            f,
            w,
            clock,
            7,
        );
        match w.served(path) {
            Some(bytes) => {
                world::lemma_step(
                    SyncProgressView::Decoded { client, uuid, local },
                    ActionView::DecodeProgress(bytes),
                    f,
                    w,
                    clock,
                    6,
                );
                lemma_settled(w, uuid, cloud_progress(w, uuid), clock, 5);
            },
            None => {
                lemma_settled(w, uuid, None, clock, 6);
            },
        }
    } else {
        lemma_settled(w, uuid, None, clock, 7);
    }
}

/// Synchronising twice in a row changes nothing the second time, and says so.
pub proof fn law_synchronising_progress_again_changes_nothing(
    w: World,
    uuid: Seq<char>,
    first: spec_fn(nat) -> Instant,
    second: spec_fn(nat) -> Instant,
)
    requires
        w.notation.faithful(),
    ensures
        ({
            let once = progress_synced(w, uuid, first).1;
            let (result, twice) = progress_synced(once, uuid, second);
            &&& result matches Some(Ok(report)) && report.status == "noChange"@
            &&& world::look_up(twice.progress, uuid) == world::look_up(once.progress, uuid)
            &&& cloud_progress(twice, uuid) == cloud_progress(once, uuid)
        }),
{
    let local = world::look_up(w.progress, uuid);
    let cloud = cloud_progress(w, uuid);
    law_progress_is_synchronised(w, uuid, first);
    law_progress_is_synchronised(progress_synced(w, uuid, first).1, uuid, second);
    progress::law_progress_settles(uuid, local, cloud);
}

/// Progress travels: what one device has pushed, another that has read less recently has
/// afterwards.
pub proof fn law_progress_reaches_another_device(
    mine: World,
    theirs: World,
    uuid: Seq<char>,
    first: spec_fn(nat) -> Instant,
    second: spec_fn(nat) -> Instant,
)
    requires
        mine.notation.faithful(),
        theirs.notation == mine.notation,
        theirs.server == progress_synced(mine, uuid, first).1.server,
        world::look_up(mine.progress, uuid) matches Some(read) && (cloud_progress(
            mine,
            uuid,
        ) matches Some(cloud) ==> cloud.last_read < read.last_read) && (world::look_up(
            theirs.progress,
            uuid,
        ) matches Some(other) ==> other.last_read < read.last_read),
    ensures
        world::look_up(progress_synced(theirs, uuid, second).1.progress, uuid) == Some(
            ReadingProgressView {
                id: None,
                book_uuid: uuid,
                ..world::look_up(mine.progress, uuid)->0
            },
        ),
{
    law_progress_is_synchronised(mine, uuid, first);
    let after = progress_synced(mine, uuid, first).1;
    assert(theirs.served(remote::progress_path(uuid)) == after.served(remote::progress_path(uuid)));
    assert(cloud_progress(theirs, uuid) == cloud_progress(after, uuid));
    law_progress_is_synchronised(theirs, uuid, second);
}

} // verus!
