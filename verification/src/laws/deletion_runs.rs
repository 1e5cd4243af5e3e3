//! What holds of deleting a book from the server, of what is asked for and told, whatever the replies
//! are.
use vstd::prelude::*;

use crate::client::ClientView;
use crate::laws::deletion;
use crate::laws::pulled;
use crate::laws::single;
use crate::laws::trace;
use crate::laws::trace::Exchange;
use crate::models::SyncResultView;
use crate::payload::{SyncDataBookItemView, SyncDataFileView, SyncDeletedItemView};
use crate::protocol::{ActionView, EventView, MoveView, TaskView};
use crate::tasks::single::DeleteFromCloudView;
use crate::time;
use crate::time::Instant;
use crate::world;

verus! {

/// Where deleting a book has come to after some replies.
pub open spec fn delete_run(uuid: Seq<char>, replies: Seq<(EventView, Instant)>) -> MoveView<
    DeleteFromCloudView,
    SyncResultView,
> {
    world::brought_to(DeleteFromCloudView::start(uuid), deletion::delete_after(), replies)
}

/// What it has asked for and was told by then.
pub open spec fn delete_log(uuid: Seq<char>, replies: Seq<(EventView, Instant)>) -> Seq<Exchange> {
    trace::exchanges(DeleteFromCloudView::start(uuid), deletion::delete_after(), replies)
}

/// Where things that belong to a book stand on the server.
pub open spec fn trace_of(uuid: Seq<char>, k: int) -> Seq<char> {
    if k == 0 {
        "/AudireReader/books/"@ + uuid + ".json.gz"@
    } else if k == 1 {
        "/AudireReader/progress/"@ + uuid + ".json"@
    } else if k == 2 {
        "/AudireReader/bookmarks/"@ + uuid + ".json"@
    } else if k == 3 {
        "/AudireReader/highlights/"@ + uuid + ".json"@
    } else if k == 4 {
        "/AudireReader/covers/"@ + uuid + ".jpg"@
    } else if k == 5 {
        "/AudireReader/covers/"@ + uuid + ".png"@
    } else {
        "/AudireReader/covers/"@ + uuid + ".jpeg"@
    }
}

/// Removing the things that belong to a book.
pub open spec fn removals_of(client: ClientView, uuid: Seq<char>) -> spec_fn(int) -> ActionView {
    |k: int| ActionView::Remove(client, trace_of(uuid, k))
}

spec fn is_client(log: Seq<Exchange>, client: ClientView) -> bool {
    trace::was_told_only(
        log,
        ActionView::Run(TaskView::Client),
        EventView::Client(Ok(client)),
    )
}

/// Whether all that belongs to a book was removed from the server.
pub open spec fn is_removed(log: Seq<Exchange>, client: ClientView, uuid: Seq<char>) -> bool {
    &&& trace::was_told_only(
        log,
        ActionView::Run(TaskView::Client),
        EventView::Client(Ok(client)),
    )
    &&& forall|k: int|
        0 <= k < 7 ==> trace::has_asked(
            log,
            ActionView::Remove(client, #[trigger] trace_of(uuid, k)),
        )
    &&& trace::has_asked(log, ActionView::Exists(client, single::index_place()))
}

spec fn is_cleared(log: Seq<Exchange>, client: ClientView, uuid: Seq<char>) -> bool {
    &&& is_client(log, client)
    &&& trace::asked_all(log, removals_of(client, uuid), 7)
}

spec fn story(
    log: Seq<Exchange>,
    m: MoveView<DeleteFromCloudView, SyncResultView>,
    id: Seq<char>,
) -> bool {
    let place = single::index_place();
    match m {
        MoveView::Next(state, action) => match state {
            DeleteFromCloudView::Client { uuid } => log.len() == 0 && uuid == id && action
                == ActionView::Run(TaskView::Client),
            DeleteFromCloudView::Removed { client, uuid, done } => {
                &&& uuid == id && 1 <= done <= 7
                &&& is_client(log, client)
                &&& trace::asked_all(log, removals_of(client, id), done - 1)
                &&& action == removals_of(client, id)(done - 1)
            },
            DeleteFromCloudView::IndexLooked { client, uuid } => {
                &&& uuid == id && is_cleared(log, client, id)
                &&& action == ActionView::Exists(client, place)
            },
            DeleteFromCloudView::IndexFetched { client, uuid } => {
                &&& uuid == id && is_cleared(log, client, id)
                &&& trace::has_asked(log, ActionView::Exists(client, place))
                &&& action == ActionView::Download(client, place)
            },
            DeleteFromCloudView::IndexDecoded { client, uuid } => {
                &&& uuid == id && is_cleared(log, client, id)
                &&& trace::has_asked(log, ActionView::Exists(client, place))
                &&& action matches ActionView::DecodeIndex(bytes) && pulled::has_brought(
                    log,
                    client,
                    place,
                    bytes,
                )
            },
            DeleteFromCloudView::IndexEncoded { client, uuid } => {
                &&& uuid == id && is_cleared(log, client, id)
                &&& trace::has_asked(log, ActionView::Exists(client, place))
                &&& action is EncodeIndex
            },
            DeleteFromCloudView::IndexSaved { uuid } => {
                &&& uuid == id
                &&& action matches ActionView::Upload(client, path, bytes) && path == place
                    && is_cleared(log, client, id) && trace::has_asked(
                    log,
                    ActionView::Exists(client, place),
                )
            },
        },
        MoveView::End(Ok(result)) => {
            &&& result.success && !result.local_changed
            &&& result.message == "Deleted book "@ + id + " from cloud"@
            &&& exists|client: ClientView|
                #![trigger is_cleared(log, client, id)]
                is_cleared(log, client, id) && trace::has_asked(
                    log,
                    ActionView::Exists(client, place),
                )
        },
        MoveView::End(Err(e)) => {
            &&& log.len() == 1 && log[0].action == ActionView::Run(TaskView::Client)
            &&& log[0].event matches EventView::Client(told) ==> told == Err::<
                ClientView,
                Seq<char>,
            >(e)
        },
    }
}

#[verifier::rlimit(40)]
proof fn lemma_step(
    log: Seq<Exchange>,
    state: DeleteFromCloudView,
    action: ActionView,
    event: EventView,
    now: Instant,
    id: Seq<char>,
)
    requires
        story(log, MoveView::Next(state, action), id),
    ensures
        story(log.push(Exchange { action, event, now }), state.after(event, now), id),
{
    let last = Exchange { action, event, now };
    let all = log.push(last);
    trace::lemma_all_grows(log, last);
    match state {
        DeleteFromCloudView::Client { .. } => {
            assert(all[0] == last);
        },
        DeleteFromCloudView::Removed { client, done, .. } => {
            trace::lemma_asked_all(log, last, removals_of(client, id), done - 1);
        },
        DeleteFromCloudView::IndexLooked { client, .. } => {
            trace::lemma_asked_all(log, last, removals_of(client, id), 7);
            assert(is_cleared(all, client, id));
        },
        DeleteFromCloudView::IndexFetched { client, .. } => {
            trace::lemma_asked_all(log, last, removals_of(client, id), 7);
            assert(is_cleared(all, client, id));
        },
        DeleteFromCloudView::IndexDecoded { client, .. } => {
            trace::lemma_asked_all(log, last, removals_of(client, id), 7);
            assert(is_cleared(all, client, id));
        },
        DeleteFromCloudView::IndexEncoded { client, .. } => {
            trace::lemma_asked_all(log, last, removals_of(client, id), 7);
            assert(is_cleared(all, client, id));
        },
        DeleteFromCloudView::IndexSaved { .. } => {
            let client = action->Upload_0;
            trace::lemma_asked_all(log, last, removals_of(client, id), 7);
            assert(is_cleared(all, client, id));
        },
    }
}

proof fn lemma_story(uuid: Seq<char>, replies: Seq<(EventView, Instant)>)
    ensures
        story(delete_log(uuid, replies), delete_run(uuid, replies), uuid),
{
    let after = deletion::delete_after();
    let holds = |log: Seq<Exchange>, m: MoveView<DeleteFromCloudView, SyncResultView>|
        story(log, m, uuid);
    assert forall|
        log: Seq<Exchange>,
        state: DeleteFromCloudView,
        action: ActionView,
        event: EventView,
        now: Instant,
    |
        #![trigger holds(log, MoveView::Next(state, action)), after(state, event, now)]
        holds(log, MoveView::Next(state, action)) implies holds(
        log.push(Exchange { action, event, now }),
        after(state, event, now),
    ) by {
        lemma_step(log, state, action, event, now, uuid);
    }
    trace::lemma_story(DeleteFromCloudView::start(uuid), after, holds, replies);
}

/// A deletion succeeds unless there is no client. By its end all that belongs to that book was
/// removed from the server: its contents, progress, bookmarks and highlights, and its cover under every
/// name, and the index was looked for.
pub proof fn law_all_of_a_book_is_removed(uuid: Seq<char>, replies: Seq<(EventView, Instant)>)
    ensures
        delete_run(uuid, replies) matches MoveView::End(Ok(result)) ==> {
            &&& result.success && !result.local_changed
            &&& result.message == "Deleted book "@ + uuid + " from cloud"@
            &&& exists|client: ClientView| #[trigger]
                is_removed(delete_log(uuid, replies), client, uuid)
        },
        delete_run(uuid, replies) matches MoveView::End(Err(e)) ==> {
            let log = delete_log(uuid, replies);
            &&& log.len() == 1 && log[0].action == ActionView::Run(TaskView::Client)
            &&& log[0].event matches EventView::Client(told) ==> told == Err::<
                ClientView,
                Seq<char>,
            >(e)
        },
{
    lemma_story(uuid, replies);
    let log = delete_log(uuid, replies);
    if let MoveView::End(Ok(_)) = delete_run(uuid, replies) {
        let client = choose|client: ClientView|
            #![trigger is_cleared(log, client, uuid)]
            is_cleared(log, client, uuid) && trace::has_asked(
                log,
                ActionView::Exists(client, single::index_place()),
            );
        assert forall|k: int| 0 <= k < 7 implies trace::has_asked(
            log,
            ActionView::Remove(client, #[trigger] trace_of(uuid, k)),
        ) by {
            assert(trace::has_asked(log, removals_of(client, uuid)(k)));
        }
        assert(is_removed(log, client, uuid));
    }
}

/// Whether an index is another one from which a book was deleted at some time: no entry of the book is
/// left, the others stay in their order, and the deletion is noted after those before it.
pub open spec fn drops(
    file: SyncDataFileView,
    base: SyncDataFileView,
    uuid: Seq<char>,
    now: Instant,
) -> bool {
    &&& file.version == base.version
    &&& file.last_sync_time == time::rfc3339_text(now)
    &&& file.books == base.books.filter(|item: SyncDataBookItemView| item.uuid != uuid)
    &&& file.deleted == base.deleted.push(
        SyncDeletedItemView::Detailed { uuid, deleted_at: time::rfc3339_text(now) },
    )
}

/// The index that the server has is fetched and read, and the one without the book is written down
/// and sent in its place. Nothing else is asked for than what stands in the two laws.
pub proof fn law_the_index_drops_the_book(
    uuid: Seq<char>,
    replies: Seq<(EventView, Instant)>,
    reply: (EventView, Instant),
)
    ensures
        ({
            let now = delete_run(uuid, replies);
            let next = delete_run(uuid, replies.push(reply));
            let place = single::index_place();
            &&& now matches MoveView::Next(_, action) ==> match action {
                ActionView::Run(task) => task == TaskView::Client,
                ActionView::Remove(_, path) => exists|k: int|
                    0 <= k < 7 && path == #[trigger] trace_of(uuid, k),
                ActionView::Exists(_, path) => path == place,
                ActionView::Download(_, path) => path == place,
                ActionView::DecodeIndex(_) => true,
                ActionView::EncodeIndex(_) => true,
                ActionView::Upload(_, path, _) => path == place,
                _ => false,
            }
            &&& now matches MoveView::Next(_, ActionView::Exists(client, _)) ==> (reply.0
                == EventView::Flag(Ok(true)) ==> trace::asks(
                next,
                ActionView::Download(client, place),
            ))
            &&& now matches MoveView::Next(_, ActionView::Download(_, _)) ==> (
            reply.0 matches EventView::Bytes(Ok(bytes)) ==> trace::asks(
                next,
                ActionView::DecodeIndex(bytes),
            ))
            &&& now matches MoveView::Next(_, ActionView::DecodeIndex(_)) ==> (
            reply.0 matches EventView::Index(Ok(index)) ==> (next matches MoveView::Next(
                _,
                ActionView::EncodeIndex(file),
            ) && drops(file, index, uuid, reply.1)))
            &&& now matches MoveView::Next(_, ActionView::EncodeIndex(_)) ==> (
            reply.0 matches EventView::Bytes(Ok(bytes)) ==> (next matches MoveView::Next(
                _,
                ActionView::Upload(_, _, sent),
            ) && sent == bytes))
        }),
{
    lemma_story(uuid, replies);
    trace::lemma_one_more(
        DeleteFromCloudView::start(uuid),
        deletion::delete_after(),
        replies,
        reply,
    );
    if let MoveView::Next(DeleteFromCloudView::Removed { done, .. }, ActionView::Remove(_, path))
        = delete_run(uuid, replies) {
        assert(path == trace_of(uuid, done - 1));
    }
}

} // verus!
