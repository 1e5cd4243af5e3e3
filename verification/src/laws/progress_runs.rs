//! What holds of synchronising the progress of a book, of what is asked for and told, whatever the
//! replies are.
use vstd::prelude::*;

use crate::client::ClientView;
use crate::laws::progress as progress_laws;
use crate::laws::pulled;
use crate::laws::trace;
use crate::laws::trace::Exchange;
use crate::models::{ProgressSyncResultView, ReadingProgressView};
use crate::payload::SyncProgressPayloadView;
use crate::protocol::{ActionView, EventView, MoveView, TaskView};
use crate::tasks::progress;
use crate::tasks::progress::SyncProgressView;
use crate::time::Instant;
use crate::world;

verus! {

/// Where synchronising the progress of a book has come to after some replies.
pub open spec fn sync_run(uuid: Seq<char>, replies: Seq<(EventView, Instant)>) -> MoveView<
    SyncProgressView,
    ProgressSyncResultView,
> {
    world::brought_to(SyncProgressView::start(uuid), progress_laws::progress_after(), replies)
}

/// What it has asked for and was told by then.
pub open spec fn sync_log(uuid: Seq<char>, replies: Seq<(EventView, Instant)>) -> Seq<Exchange> {
    trace::exchanges(SyncProgressView::start(uuid), progress_laws::progress_after(), replies)
}

/// Whether an exchange tells how far the server says that the book was read.
pub open spec fn tells_progress(exchange: Exchange) -> bool {
    exchange.action is DecodeProgress && (exchange.event matches EventView::CloudProgress(Ok(_)))
}

/// Whether this is what the server says, nothing where it has nothing that can be read.
pub open spec fn is_cloud(log: Seq<Exchange>, cloud: Option<SyncProgressPayloadView>) -> bool {
    match cloud {
        Some(cloud) => exists|i: int|
            0 <= i < log.len() && tells_progress(#[trigger] log[i]) && log[i].event
                == EventView::CloudProgress(Ok(cloud)),
        None => forall|i: int| 0 <= i < log.len() ==> !tells_progress(#[trigger] log[i]),
    }
}

proof fn lemma_cloud_grows(
    log: Seq<Exchange>,
    last: Exchange,
    cloud: Option<SyncProgressPayloadView>,
)
    ensures
        is_cloud(log, cloud) && !tells_progress(last) ==> is_cloud(log.push(last), cloud),
        tells_progress(last) ==> is_cloud(
            log.push(last),
            Some(last.event->CloudProgress_0->Ok_0),
        ),
{
    let all = log.push(last);
    assert(all[log.len() as int] == last);
    if is_cloud(log, cloud) && !tells_progress(last) {
        match cloud {
            Some(cloud) => {
                let i = choose|i: int|
                    0 <= i < log.len() && tells_progress(#[trigger] log[i]) && log[i].event
                        == EventView::CloudProgress(Ok(cloud));
                assert(tells_progress(all[i]));
            },
            None => {
                assert forall|i: int| 0 <= i < all.len() implies !tells_progress(
                    #[trigger] all[i],
                ) by {
                    if i < log.len() {
                        assert(!tells_progress(log[i]));
                    }
                }
            },
        }
    }
}

/// Whether what both sides say is known.
pub open spec fn are_known(
    log: Seq<Exchange>,
    uuid: Seq<char>,
    local: Option<ReadingProgressView>,
    cloud: Option<SyncProgressPayloadView>,
) -> bool {
    &&& trace::was_told_only(log, ActionView::GetProgress(uuid), EventView::Progress(Ok(local)))
    &&& is_cloud(log, cloud)
}

/// Whether progress of this device, as it is sent, is that of the book at hand.
pub open spec fn sends(
    payload: SyncProgressPayloadView,
    uuid: Seq<char>,
    local: ReadingProgressView,
) -> bool {
    &&& payload.book_uuid == uuid
    &&& payload.chapter_index == local.current_chapter_index
    &&& payload.paragraph_index == local.current_paragraph_index
    &&& payload.character_offset == local.current_character_offset
    &&& payload.last_read == local.last_read
    &&& payload.device_id is None && payload.device_name is None
}

/// Whether progress of the server, as it is saved, is that of the book at hand.
pub open spec fn takes(
    progress: ReadingProgressView,
    uuid: Seq<char>,
    cloud: SyncProgressPayloadView,
) -> bool {
    &&& progress.id is None
    &&& progress.book_uuid == uuid
    &&& progress.current_chapter_index == cloud.chapter_index
    &&& progress.current_paragraph_index == cloud.paragraph_index
    &&& progress.current_character_offset == cloud.character_offset
    &&& progress.last_read == cloud.last_read
}

/// Whether this device is ahead.
pub open spec fn is_ahead(
    local: Option<ReadingProgressView>,
    cloud: Option<SyncProgressPayloadView>,
) -> bool {
    match (local, cloud) {
        (Some(l), Some(c)) => l.last_read > c.last_read,
        (Some(_), None) => true,
        (None, _) => false,
    }
}

/// Whether the server is ahead.
pub open spec fn is_behind(
    local: Option<ReadingProgressView>,
    cloud: Option<SyncProgressPayloadView>,
) -> bool {
    match (local, cloud) {
        (Some(l), Some(c)) => l.last_read < c.last_read,
        (None, Some(_)) => true,
        (_, None) => false,
    }
}

/// Whether a report names a place in the book.
pub open spec fn names(
    result: ProgressSyncResultView,
    chapter: i32,
    paragraph: i32,
    offset: i32,
    last_read: i64,
) -> bool {
    &&& result.cloud_chapter_index == Some(chapter)
    &&& result.cloud_paragraph_index == Some(paragraph)
    &&& result.cloud_character_offset == Some(offset)
    &&& result.cloud_last_read == Some(last_read)
}

/// Whether a report is right: who was ahead, and where the server stands now.
pub open spec fn is_right(
    result: ProgressSyncResultView,
    local: Option<ReadingProgressView>,
    cloud: Option<SyncProgressPayloadView>,
) -> bool {
    if is_ahead(local, cloud) {
        &&& result.status == "updatedCloud"@
        &&& names(
            result,
            local->0.current_chapter_index,
            local->0.current_paragraph_index,
            local->0.current_character_offset,
            local->0.last_read,
        )
        &&& result.message == Some(
            if cloud is None {
                "Uploaded local progress to cloud"@
            } else {
                "Local is newer, updated cloud"@
            },
        )
    } else if is_behind(local, cloud) {
        &&& result.status == "updatedLocal"@
        &&& names(
            result,
            cloud->0.chapter_index,
            cloud->0.paragraph_index,
            cloud->0.character_offset,
            cloud->0.last_read,
        )
        &&& result.message == Some(
            if local is None {
                "Updated local progress from cloud"@
            } else {
                "Cloud is newer, updated local"@
            },
        )
    } else {
        &&& result.status == "noChange"@
        &&& result.message is None
        &&& match cloud {
            Some(c) => names(
                result,
                c.chapter_index,
                c.paragraph_index,
                c.character_offset,
                c.last_read,
            ),
            None => {
                &&& result.cloud_chapter_index is None
                &&& result.cloud_paragraph_index is None
                &&& result.cloud_character_offset is None
                &&& result.cloud_last_read is None
            },
        }
    }
}

/// Whether progress was written down, and what came of it was sent.
pub open spec fn is_sent(
    log: Seq<Exchange>,
    payload: SyncProgressPayloadView,
    client: ClientView,
    place: Seq<char>,
    bytes: Seq<u8>,
) -> bool {
    &&& trace::was_told(log, ActionView::EncodeProgress(payload), EventView::Bytes(Ok(bytes)))
    &&& trace::has_asked(log, ActionView::Upload(client, place, bytes))
}

/// Whether the side that is behind was brought up to date.
pub open spec fn is_settled(
    log: Seq<Exchange>,
    uuid: Seq<char>,
    local: Option<ReadingProgressView>,
    cloud: Option<SyncProgressPayloadView>,
) -> bool {
    &&& is_ahead(local, cloud) ==> exists|
        payload: SyncProgressPayloadView,
        client: ClientView,
        bytes: Seq<u8>,
    |
        #[trigger] is_sent(log, payload, client, pulled::progress_place(uuid), bytes) && sends(
            payload,
            uuid,
            local->0,
        )
    &&& is_behind(local, cloud) ==> exists|progress: ReadingProgressView| #[trigger]
        trace::was_told(log, ActionView::SaveProgress(progress), EventView::Unit(Ok(()))) && takes(
            progress,
            uuid,
            cloud->0,
        )
}

/// The line of the history that is due.
pub open spec fn due_note(
    uuid: Seq<char>,
    local: Option<ReadingProgressView>,
    cloud: Option<SyncProgressPayloadView>,
) -> ActionView {
    if is_ahead(local, cloud) {
        ActionView::Run(
            TaskView::RecordProgress(
                uuid,
                "push"@,
                local->0.current_chapter_index,
                local->0.current_paragraph_index,
                None,
            ),
        )
    } else {
        ActionView::Run(
            TaskView::RecordProgress(
                uuid,
                "pull"@,
                cloud->0.chapter_index,
                cloud->0.paragraph_index,
                cloud->0.device_name,
            ),
        )
    }
}

spec fn is_client(log: Seq<Exchange>, client: ClientView) -> bool {
    trace::was_told_only(
        log,
        ActionView::Run(TaskView::Client),
        EventView::Client(Ok(client)),
    )
}

/// Whether a report rests on what was told, and all that follows from it was done.
pub open spec fn is_done(
    log: Seq<Exchange>,
    uuid: Seq<char>,
    local: Option<ReadingProgressView>,
    cloud: Option<SyncProgressPayloadView>,
    result: ProgressSyncResultView,
) -> bool {
    &&& are_known(log, uuid, local, cloud)
    &&& is_right(result, local, cloud)
    &&& is_settled(log, uuid, local, cloud)
    &&& is_ahead(local, cloud) || is_behind(local, cloud) ==> trace::has_asked(
        log,
        due_note(uuid, local, cloud),
    )
}

spec fn is_under_way(
    log: Seq<Exchange>,
    uuid: Seq<char>,
    local: Option<ReadingProgressView>,
    cloud: Option<SyncProgressPayloadView>,
    result: ProgressSyncResultView,
) -> bool {
    &&& are_known(log, uuid, local, cloud)
    &&& is_right(result, local, cloud)
}

spec fn story(
    log: Seq<Exchange>,
    m: MoveView<SyncProgressView, ProgressSyncResultView>,
    id: Seq<char>,
) -> bool {
    let place = pulled::progress_place(id);
    match m {
        MoveView::Next(state, action) => match state {
            SyncProgressView::Client { uuid } => log.len() == 0 && uuid == id && action
                == ActionView::Run(TaskView::Client),
            SyncProgressView::Local { client, uuid } => {
                &&& uuid == id && is_client(log, client) && is_cloud(log, None)
                &&& !trace::has_asked(log, action)
                &&& action == ActionView::GetProgress(id)
            },
            SyncProgressView::Looked { client, uuid, local } => {
                &&& uuid == id && is_client(log, client) && are_known(log, id, local, None)
                &&& action == ActionView::Exists(client, place)
            },
            SyncProgressView::Fetched { client, uuid, local } => {
                &&& uuid == id && is_client(log, client) && are_known(log, id, local, None)
                &&& action == ActionView::Download(client, place)
            },
            SyncProgressView::Decoded { client, uuid, local } => {
                &&& uuid == id && is_client(log, client) && are_known(log, id, local, None)
                &&& action matches ActionView::DecodeProgress(bytes) && pulled::has_brought(
                    log,
                    client,
                    place,
                    bytes,
                )
            },
            SyncProgressView::Encoded { client, uuid, result, chapter, paragraph } => {
                &&& uuid == id && is_client(log, client)
                &&& action matches ActionView::EncodeProgress(payload) && (exists|
                    local: Option<ReadingProgressView>,
                    cloud: Option<SyncProgressPayloadView>,
                |
                    #[trigger] is_under_way(log, id, local, cloud, result) && is_ahead(local, cloud)
                        && sends(payload, id, local->0) && chapter
                        == local->0.current_chapter_index && paragraph
                        == local->0.current_paragraph_index)
            },
            SyncProgressView::Uploaded { uuid, result, chapter, paragraph } => {
                &&& uuid == id
                &&& action matches ActionView::Upload(client, path, bytes) && path == place
                    && is_client(log, client) && (exists|
                    local: Option<ReadingProgressView>,
                    cloud: Option<SyncProgressPayloadView>,
                    payload: SyncProgressPayloadView,
                |
                    #[trigger] is_under_way(log, id, local, cloud, result) && is_ahead(local, cloud)
                        && sends(payload, id, local->0) && chapter
                        == local->0.current_chapter_index && paragraph
                        == local->0.current_paragraph_index && #[trigger] trace::was_told(
                        log,
                        ActionView::EncodeProgress(payload),
                        EventView::Bytes(Ok(bytes)),
                    ))
            },
            SyncProgressView::Saved { uuid, result, chapter, paragraph, device } => {
                &&& uuid == id
                &&& action matches ActionView::SaveProgress(progress) && (exists|
                    local: Option<ReadingProgressView>,
                    cloud: Option<SyncProgressPayloadView>,
                |
                    #[trigger] is_under_way(log, id, local, cloud, result) && is_behind(
                        local,
                        cloud,
                    ) && takes(progress, id, cloud->0) && chapter == cloud->0.chapter_index
                        && paragraph == cloud->0.paragraph_index && device
                        == cloud->0.device_name)
            },
            SyncProgressView::Recorded { result } => exists|
                local: Option<ReadingProgressView>,
                cloud: Option<SyncProgressPayloadView>,
            |
                #[trigger] is_under_way(log, id, local, cloud, result) && is_settled(
                    log,
                    id,
                    local,
                    cloud,
                ) && action == due_note(id, local, cloud),
            SyncProgressView::Stamped { result } => action == ActionView::Run(
                TaskView::RecordTimestamp,
            ) && (exists|
                local: Option<ReadingProgressView>,
                cloud: Option<SyncProgressPayloadView>,
            |
                #[trigger] is_done(log, id, local, cloud, result)),
        },
        MoveView::End(Ok(result)) => exists|
            local: Option<ReadingProgressView>,
            cloud: Option<SyncProgressPayloadView>,
        |
            #[trigger] is_done(log, id, local, cloud, result) && (local is Some || cloud is Some
                ==> trace::has_asked(log, ActionView::Run(TaskView::RecordTimestamp))),
        MoveView::End(Err(_)) => true,
    }
}

proof fn lemma_settled(
    log: Seq<Exchange>,
    client: ClientView,
    id: Seq<char>,
    local: Option<ReadingProgressView>,
    cloud: Option<SyncProgressPayloadView>,
)
    requires
        is_client(log, client),
        are_known(log, id, local, cloud),
    ensures
        story(log, progress::settled(client, id, local, cloud), id),
{
    let next = progress::settled(client, id, local, cloud);
    match next {
        MoveView::Next(SyncProgressView::Encoded { result, .. }, _) => {
            assert(is_under_way(log, id, local, cloud, result));
        },
        MoveView::Next(SyncProgressView::Saved { result, .. }, _) => {
            assert(is_under_way(log, id, local, cloud, result));
        },
        MoveView::Next(SyncProgressView::Stamped { result }, _) => {
            assert(is_done(log, id, local, cloud, result));
        },
        MoveView::End(Ok(result)) => {
            assert(is_done(log, id, local, cloud, result));
        },
        _ => {},
    }
}

proof fn lemma_settled_grows(
    log: Seq<Exchange>,
    last: Exchange,
    id: Seq<char>,
    local: Option<ReadingProgressView>,
    cloud: Option<SyncProgressPayloadView>,
)
    ensures
        is_settled(log, id, local, cloud) ==> is_settled(log.push(last), id, local, cloud),
{
    let all = log.push(last);
    let place = pulled::progress_place(id);
    trace::lemma_all_grows(log, last);
    if is_settled(log, id, local, cloud) {
        if is_ahead(local, cloud) {
            let (payload, client, bytes) = choose|
                payload: SyncProgressPayloadView,
                client: ClientView,
                bytes: Seq<u8>,
            |
                #[trigger] is_sent(log, payload, client, place, bytes) && sends(
                    payload,
                    id,
                    local->0,
                );
            assert(is_sent(all, payload, client, place, bytes));
        }
        if is_behind(local, cloud) {
            let progress = choose|progress: ReadingProgressView| #[trigger]
                trace::was_told(log, ActionView::SaveProgress(progress), EventView::Unit(Ok(())))
                    && takes(progress, id, cloud->0);
            assert(trace::was_told(
                all,
                ActionView::SaveProgress(progress),
                EventView::Unit(Ok(())),
            ));
        }
    }
}

#[verifier::rlimit(40)]
proof fn lemma_step(
    log: Seq<Exchange>,
    state: SyncProgressView,
    action: ActionView,
    event: EventView,
    now: Instant,
    id: Seq<char>,
)
    requires
        story(log, MoveView::Next(state, action), id),
    ensures
        story(log.push(Exchange { action, event, now }), state.after(event), id),
{
    let last = Exchange { action, event, now };
    let all = log.push(last);
    let next = state.after(event);
    trace::lemma_all_grows(log, last);
    lemma_cloud_grows(log, last, None);
    match state {
        SyncProgressView::Client { .. } => {
            assert(is_cloud(log, None));
        },
        SyncProgressView::Local { .. } => {},
        SyncProgressView::Looked { client, local, .. } => {
            lemma_settled(all, client, id, local, None);
        },
        SyncProgressView::Fetched { client, local, .. } => {
            lemma_settled(all, client, id, local, None);
        },
        SyncProgressView::Decoded { client, local, .. } => {
            if let EventView::CloudProgress(Ok(cloud)) = event {
                lemma_settled(all, client, id, local, Some(cloud));
            } else {
                lemma_settled(all, client, id, local, None);
            }
        },
        SyncProgressView::Encoded { client, result, chapter, paragraph, .. } => {
            let payload = action->EncodeProgress_0;
            let (local, cloud) = choose|
                local: Option<ReadingProgressView>,
                cloud: Option<SyncProgressPayloadView>,
            |
                #[trigger] is_under_way(log, id, local, cloud, result) && is_ahead(local, cloud)
                    && sends(payload, id, local->0) && chapter == local->0.current_chapter_index
                    && paragraph == local->0.current_paragraph_index;
            lemma_cloud_grows(log, last, cloud);
            if let EventView::Bytes(Ok(bytes)) = event {
                assert(is_under_way(all, id, local, cloud, result));
                assert(trace::was_told(
                    all,
                    ActionView::EncodeProgress(payload),
                    EventView::Bytes(Ok(bytes)),
                ));
                assert(next->1->Upload_1 == pulled::progress_place(id));
            }
        },
        SyncProgressView::Uploaded { result, chapter, paragraph, .. } => {
            let (client, bytes) = (action->Upload_0, action->Upload_2);
            let (local, cloud, payload) = choose|
                local: Option<ReadingProgressView>,
                cloud: Option<SyncProgressPayloadView>,
                payload: SyncProgressPayloadView,
            |
                #[trigger] is_under_way(log, id, local, cloud, result) && is_ahead(local, cloud)
                    && sends(payload, id, local->0) && chapter == local->0.current_chapter_index
                    && paragraph == local->0.current_paragraph_index && #[trigger] trace::was_told(
                    log,
                    ActionView::EncodeProgress(payload),
                    EventView::Bytes(Ok(bytes)),
                );
            lemma_cloud_grows(log, last, cloud);
            assert(is_sent(all, payload, client, pulled::progress_place(id), bytes));
            assert(is_under_way(all, id, local, cloud, result));
        },
        SyncProgressView::Saved { result, chapter, paragraph, device, .. } => {
            let progress = action->SaveProgress_0;
            let (local, cloud) = choose|
                local: Option<ReadingProgressView>,
                cloud: Option<SyncProgressPayloadView>,
            |
                #[trigger] is_under_way(log, id, local, cloud, result) && is_behind(local, cloud)
                    && takes(progress, id, cloud->0) && chapter == cloud->0.chapter_index
                    && paragraph == cloud->0.paragraph_index && device == cloud->0.device_name;
            lemma_cloud_grows(log, last, cloud);
            if let EventView::Unit(Ok(done)) = event {
                assert(done == ());
                assert(is_under_way(all, id, local, cloud, result));
                assert(trace::was_told(
                    all,
                    ActionView::SaveProgress(progress),
                    EventView::Unit(Ok(())),
                ));
            }
        },
        SyncProgressView::Recorded { result } => {
            let (local, cloud) = choose|
                local: Option<ReadingProgressView>,
                cloud: Option<SyncProgressPayloadView>,
            |
                #[trigger] is_under_way(log, id, local, cloud, result) && is_settled(
                    log,
                    id,
                    local,
                    cloud,
                ) && action == due_note(id, local, cloud);
            lemma_cloud_grows(log, last, cloud);
            lemma_settled_grows(log, last, id, local, cloud);
            assert(is_done(all, id, local, cloud, result));
        },
        SyncProgressView::Stamped { result } => {
            let (local, cloud) = choose|
                local: Option<ReadingProgressView>,
                cloud: Option<SyncProgressPayloadView>,
            |
                #[trigger] is_done(log, id, local, cloud, result);
            lemma_cloud_grows(log, last, cloud);
            lemma_settled_grows(log, last, id, local, cloud);
            assert(is_done(all, id, local, cloud, result));
        },
    }
}

proof fn lemma_story(uuid: Seq<char>, replies: Seq<(EventView, Instant)>)
    ensures
        story(sync_log(uuid, replies), sync_run(uuid, replies), uuid),
{
    let after = progress_laws::progress_after();
    let holds = |log: Seq<Exchange>, m: MoveView<SyncProgressView, ProgressSyncResultView>|
        story(log, m, uuid);
    assert forall|
        log: Seq<Exchange>,
        state: SyncProgressView,
        action: ActionView,
        event: EventView,
        now: Instant,
    |
        #![trigger holds(log, MoveView::Next(state, action)), after(state, event, now)]
        holds(log, MoveView::Next(state, action)) implies holds(
        log.push(Exchange { action, event, now }),
        after(state, event, now),
    ) by {
        lemma_step(log, state, action, event, now, uuid);
    }
    trace::lemma_story(SyncProgressView::start(uuid), after, holds, replies);
}

/// A synchronisation of progress that succeeds reports who was ahead, from what this device and
/// the server said of that book. The side that was behind was brought up to date with what the other one
/// has, and the history and the settings were told.
pub proof fn law_progress_is_brought_together(uuid: Seq<char>, replies: Seq<(EventView, Instant)>)
    ensures
        sync_run(uuid, replies) matches MoveView::End(Ok(result)) ==> exists|
            local: Option<ReadingProgressView>,
            cloud: Option<SyncProgressPayloadView>,
        |
            #[trigger] is_done(sync_log(uuid, replies), uuid, local, cloud, result) && (local is Some
                || cloud is Some ==> trace::has_asked(
                sync_log(uuid, replies),
                ActionView::Run(TaskView::RecordTimestamp),
            )),
{
    lemma_story(uuid, replies);
}

/// What is asked for is about the book at hand: its progress on this device and at its place on the
/// server, and what the server has is fetched and read where there is anything.
pub proof fn law_progress_of_the_book_is_used(
    uuid: Seq<char>,
    replies: Seq<(EventView, Instant)>,
    reply: (EventView, Instant),
)
    ensures
        ({
            let now = sync_run(uuid, replies);
            let next = sync_run(uuid, replies.push(reply));
            let place = pulled::progress_place(uuid);
            &&& now matches MoveView::Next(_, action) ==> match action {
                ActionView::Run(task) => {
                    ||| task == TaskView::Client
                    ||| task == TaskView::RecordTimestamp
                    ||| task matches TaskView::RecordProgress(id, ..) && id == uuid
                },
                ActionView::GetProgress(id) => id == uuid,
                ActionView::Exists(_, path) => path == place,
                ActionView::Download(_, path) => path == place,
                ActionView::DecodeProgress(_) => true,
                ActionView::EncodeProgress(payload) => payload.book_uuid == uuid,
                ActionView::Upload(_, path, _) => path == place,
                ActionView::SaveProgress(progress) => progress.book_uuid == uuid,
                _ => false,
            }
            &&& now matches MoveView::Next(_, ActionView::Exists(client, _)) ==> (reply.0
                == EventView::Flag(Ok(true)) ==> trace::asks(
                next,
                ActionView::Download(client, place),
            ))
            &&& now matches MoveView::Next(_, ActionView::Download(_, _)) ==> (
            reply.0 matches EventView::Bytes(Ok(bytes)) ==> trace::asks(
                next,
                ActionView::DecodeProgress(bytes),
            ))
        }),
{
    lemma_story(uuid, replies);
    trace::lemma_one_more(
        SyncProgressView::start(uuid),
        progress_laws::progress_after(),
        replies,
        reply,
    );
}

} // verus!
