//! What holds of synchronising the bookmarks of a book, of what is asked for and told, whatever the
//! replies are.
use vstd::prelude::*;

use crate::client::ClientView;
use crate::laws::bookmarks;
use crate::laws::marks;
use crate::laws::pulled;
use crate::laws::trace;
use crate::laws::trace::Exchange;
use crate::models::BookmarkView;
use crate::payload::BookBookmarksFileView;
use crate::protocol::{ActionView, EventView, MoveView, TaskView};
use crate::tasks::bookmarks::SyncBookmarksView;
use crate::time::Instant;
use crate::world;

verus! {

/// Where synchronising the bookmarks of a book has come to after some replies.
pub open spec fn sync_run(uuid: Seq<char>, replies: Seq<(EventView, Instant)>) -> MoveView<
    SyncBookmarksView,
    bool,
> {
    world::brought_to(SyncBookmarksView::start(uuid), bookmarks::bookmarks_after(), replies)
}

/// What it has asked for and was told by then.
pub open spec fn sync_log(uuid: Seq<char>, replies: Seq<(EventView, Instant)>) -> Seq<Exchange> {
    trace::exchanges(SyncBookmarksView::start(uuid), bookmarks::bookmarks_after(), replies)
}

/// Whether an exchange tells what bookmarks the server has.
pub open spec fn tells_bookmarks(exchange: Exchange) -> bool {
    exchange.action is DecodeBookmarks && (exchange.event matches EventView::CloudBookmarks(Ok(_)))
}

/// Whether these are the bookmarks that the server has, none where it has none that can be read.
pub open spec fn is_cloud(log: Seq<Exchange>, cloud: Seq<BookmarkView>) -> bool {
    ||| exists|i: int|
        0 <= i < log.len() && tells_bookmarks(#[trigger] log[i])
            && log[i].event->CloudBookmarks_0->Ok_0.bookmarks == cloud
    ||| cloud.len() == 0 && (forall|i: int| 0 <= i < log.len() ==> !tells_bookmarks(#[trigger] log[i]))
}

proof fn lemma_cloud_grows(log: Seq<Exchange>, last: Exchange, cloud: Seq<BookmarkView>)
    ensures
        is_cloud(log, cloud) && !tells_bookmarks(last) ==> is_cloud(log.push(last), cloud),
        tells_bookmarks(last) ==> is_cloud(log.push(last), last.event->CloudBookmarks_0->Ok_0.bookmarks),
{
    let all = log.push(last);
    assert(all[log.len() as int] == last);
    if is_cloud(log, cloud) && !tells_bookmarks(last) {
        if cloud.len() == 0 && (forall|i: int|
            0 <= i < log.len() ==> !tells_bookmarks(#[trigger] log[i])) {
            assert forall|i: int| 0 <= i < all.len() implies !tells_bookmarks(#[trigger] all[i]) by {
                if i < log.len() {
                    assert(!tells_bookmarks(log[i]));
                }
            }
        } else {
            let i = choose|i: int|
                0 <= i < log.len() && tells_bookmarks(#[trigger] log[i])
                    && log[i].event->CloudBookmarks_0->Ok_0.bookmarks == cloud;
            assert(tells_bookmarks(all[i]));
        }
    }
}

/// Whether the bookmarks of both sides are known.
pub open spec fn are_known(
    log: Seq<Exchange>,
    uuid: Seq<char>,
    local: Seq<BookmarkView>,
    cloud: Seq<BookmarkView>,
) -> bool {
    &&& trace::was_told_only(log, ActionView::GetBookmarks(uuid), EventView::Bookmarks(Ok(local)))
    &&& is_cloud(log, cloud)
}

/// Whether what is to be written down for a book is what comes of the bookmarks of both sides.
pub open spec fn holds_merged(
    log: Seq<Exchange>,
    uuid: Seq<char>,
    file: BookBookmarksFileView,
    local: Seq<BookmarkView>,
    cloud: Seq<BookmarkView>,
) -> bool {
    &&& are_known(log, uuid, local, cloud)
    &&& file.book_uuid == uuid
    &&& file.bookmarks == marks::merged(local, cloud)
}

spec fn is_client(log: Seq<Exchange>, client: ClientView) -> bool {
    trace::was_told_only(
        log,
        ActionView::Run(TaskView::Client),
        EventView::Client(Ok(client)),
    )
}

/// Whether this device has got what it lacked.
pub open spec fn is_updated(
    log: Seq<Exchange>,
    uuid: Seq<char>,
    local: Seq<BookmarkView>,
    cloud: Seq<BookmarkView>,
) -> bool {
    marks::adds(local, cloud) ==> trace::has_asked(
        log,
        ActionView::ReplaceBookmarks(uuid, marks::merged(local, cloud)),
    )
}

/// Whether the server was sent what comes of the bookmarks of both sides.
pub open spec fn is_sent(
    log: Seq<Exchange>,
    uuid: Seq<char>,
    local: Seq<BookmarkView>,
    cloud: Seq<BookmarkView>,
    file: BookBookmarksFileView,
    bytes: Seq<u8>,
) -> bool {
    &&& holds_merged(log, uuid, file, local, cloud)
    &&& is_updated(log, uuid, local, cloud)
    &&& trace::was_told(log, ActionView::EncodeBookmarks(file), EventView::Bytes(Ok(bytes)))
}

spec fn story(log: Seq<Exchange>, m: MoveView<SyncBookmarksView, bool>, id: Seq<char>) -> bool {
    let place = pulled::bookmarks_place(id);
    match m {
        MoveView::Next(state, action) => match state {
            SyncBookmarksView::Client { uuid } => log.len() == 0 && uuid == id && action
                == ActionView::Run(TaskView::Client),
            SyncBookmarksView::Folder { client, uuid } => {
                &&& uuid == id && is_client(log, client) && is_cloud(log, Seq::empty())
                &&& !trace::has_asked(log, ActionView::GetBookmarks(id))
                &&& action == ActionView::Mkdir(client, "/AudireReader/bookmarks"@)
            },
            SyncBookmarksView::Local { client, uuid } => {
                &&& uuid == id && is_client(log, client) && is_cloud(log, Seq::empty())
                &&& !trace::has_asked(log, ActionView::GetBookmarks(id))
                &&& trace::has_asked(log, ActionView::Mkdir(client, "/AudireReader/bookmarks"@))
                &&& action == ActionView::GetBookmarks(id)
            },
            SyncBookmarksView::Looked { client, uuid, local } => {
                &&& uuid == id && is_client(log, client) && are_known(log, id, local, Seq::empty())
                &&& action == ActionView::Exists(client, place)
            },
            SyncBookmarksView::Fetched { client, uuid, local } => {
                &&& uuid == id && is_client(log, client) && are_known(log, id, local, Seq::empty())
                &&& action == ActionView::Download(client, place)
            },
            SyncBookmarksView::Decoded { client, uuid, local } => {
                &&& uuid == id && is_client(log, client) && are_known(log, id, local, Seq::empty())
                &&& action matches ActionView::DecodeBookmarks(bytes) && pulled::has_brought(
                    log,
                    client,
                    place,
                    bytes,
                )
            },
            SyncBookmarksView::Replaced { client, uuid, merged } => {
                &&& uuid == id && is_client(log, client)
                &&& action == ActionView::ReplaceBookmarks(id, merged)
                &&& exists|local: Seq<BookmarkView>, cloud: Seq<BookmarkView>|
                    merged == marks::merged(local, cloud) && marks::adds(local, cloud)
                        && #[trigger] are_known(log, id, local, cloud)
            },
            SyncBookmarksView::Encoded { client, uuid, updated } => {
                &&& uuid == id && is_client(log, client) && log.len() > 0
                &&& action matches ActionView::EncodeBookmarks(file) && file.updated_at
                    == log.last().now.millis() as i64 && (exists|
                    local: Seq<BookmarkView>,
                    cloud: Seq<BookmarkView>,
                |
                    #[trigger] holds_merged(log, id, file, local, cloud) && updated == marks::adds(
                        local,
                        cloud,
                    ) && is_updated(log, id, local, cloud))
            },
            SyncBookmarksView::Uploaded { updated } => {
                &&& action matches ActionView::Upload(client, path, bytes) && path == place
                    && is_client(log, client) && (exists|
                    local: Seq<BookmarkView>,
                    cloud: Seq<BookmarkView>,
                    file: BookBookmarksFileView,
                |
                    updated == marks::adds(local, cloud) && #[trigger] is_sent(
                        log,
                        id,
                        local,
                        cloud,
                        file,
                        bytes,
                    ))
            },
        },
        MoveView::End(Ok(changed)) => exists|
            local: Seq<BookmarkView>,
            cloud: Seq<BookmarkView>,
            file: BookBookmarksFileView,
            bytes: Seq<u8>,
            client: ClientView,
        |
            changed == marks::adds(local, cloud) && #[trigger] is_sent(
                log,
                id,
                local,
                cloud,
                file,
                bytes,
            ) && #[trigger] trace::has_asked(log, ActionView::Upload(client, place, bytes)),
        MoveView::End(Err(_)) => true,
    }
}

proof fn lemma_merged(
    log: Seq<Exchange>,
    client: ClientView,
    id: Seq<char>,
    local: Seq<BookmarkView>,
    cloud: Seq<BookmarkView>,
    now: Instant,
)
    requires
        is_client(log, client),
        are_known(log, id, local, cloud),
        log.len() > 0,
        log.last().now == now,
    ensures
        story(log, crate::tasks::bookmarks::merged(client, id, local, cloud, now), id),
{
    assert(are_known(log, id, local, cloud));
    if !marks::adds(local, cloud) {
        let file = crate::tasks::bookmarks::bookmark_file(id, now, marks::merged(local, cloud));
        assert(holds_merged(log, id, file, local, cloud));
    }
}

#[verifier::rlimit(40)]
proof fn lemma_step(
    log: Seq<Exchange>,
    state: SyncBookmarksView,
    action: ActionView,
    event: EventView,
    now: Instant,
    id: Seq<char>,
)
    requires
        story(log, MoveView::Next(state, action), id),
    ensures
        story(log.push(Exchange { action, event, now }), state.after(event, now), id),
{
    let last = Exchange { action, event, now };
    let all = log.push(last);
    let next = state.after(event, now);
    let none = Seq::<BookmarkView>::empty();
    trace::lemma_all_grows(log, last);
    lemma_cloud_grows(log, last, none);
    match state {
        SyncBookmarksView::Client { .. } => {
            assert(is_cloud(log, none));
        },
        SyncBookmarksView::Looked { client, local, .. } => {
            lemma_merged(all, client, id, local, none, now);
        },
        SyncBookmarksView::Fetched { client, local, .. } => {
            lemma_merged(all, client, id, local, none, now);
        },
        SyncBookmarksView::Decoded { client, local, .. } => {
            if let EventView::CloudBookmarks(Ok(file)) = event {
                lemma_merged(all, client, id, local, file.bookmarks, now);
            } else {
                lemma_merged(all, client, id, local, none, now);
            }
        },
        SyncBookmarksView::Replaced { merged, .. } => {
            let (local, cloud) = choose|local: Seq<BookmarkView>, cloud: Seq<BookmarkView>|
                merged == marks::merged(local, cloud) && marks::adds(local, cloud)
                    && #[trigger] are_known(log, id, local, cloud);
            lemma_cloud_grows(log, last, cloud);
            if let MoveView::Next(_, ActionView::EncodeBookmarks(file)) = next {
                assert(holds_merged(all, id, file, local, cloud));
                assert(is_updated(all, id, local, cloud));
            }
        },
        SyncBookmarksView::Encoded { updated, .. } => {
            let file = action->EncodeBookmarks_0;
            let (local, cloud) = choose|local: Seq<BookmarkView>, cloud: Seq<BookmarkView>| #[trigger]
                holds_merged(log, id, file, local, cloud) && updated == marks::adds(local, cloud)
                    && is_updated(log, id, local, cloud);
            lemma_cloud_grows(log, last, cloud);
            if let EventView::Bytes(Ok(bytes)) = event {
                assert(is_sent(all, id, local, cloud, file, bytes));
                assert(updated == marks::adds(local, cloud));
                assert(next matches MoveView::Next(
                    SyncBookmarksView::Uploaded { updated: u },
                    ActionView::Upload(c, _, b),
                ) && b == bytes && u == updated && is_client(all, c));
                assert(next->1->Upload_1 == pulled::bookmarks_place(id));
                assert(story(all, next, id));
            }
        },
        SyncBookmarksView::Uploaded { updated } => {
            let bytes = action->Upload_2;
            let (local, cloud, file) = choose|
                local: Seq<BookmarkView>,
                cloud: Seq<BookmarkView>,
                file: BookBookmarksFileView,
            |
                updated == marks::adds(local, cloud) && #[trigger] is_sent(
                    log,
                    id,
                    local,
                    cloud,
                    file,
                    bytes,
                );
            lemma_cloud_grows(log, last, cloud);
            assert(is_sent(all, id, local, cloud, file, bytes));
            assert(trace::has_asked(
                all,
                ActionView::Upload(action->Upload_0, pulled::bookmarks_place(id), bytes),
            ));
        },
        _ => {},
    }
}

proof fn lemma_story(uuid: Seq<char>, replies: Seq<(EventView, Instant)>)
    ensures
        story(sync_log(uuid, replies), sync_run(uuid, replies), uuid),
{
    let after = bookmarks::bookmarks_after();
    let holds = |log: Seq<Exchange>, m: MoveView<SyncBookmarksView, bool>| story(log, m, uuid);
    assert forall|
        log: Seq<Exchange>,
        state: SyncBookmarksView,
        action: ActionView,
        event: EventView,
        now: Instant,
    |
        #![trigger holds(log, MoveView::Next(state, action)), after(state, event, now)]
        holds(log, MoveView::Next(state, action)) implies holds(
        log.push(Exchange { action, event, now }),
        after(state, event, now),
    ) by {
        lemma_step(log, state, action, event, now, uuid);
    }
    trace::lemma_story(SyncBookmarksView::start(uuid), after, holds, replies);
}

/// A synchronisation of bookmarks that succeeds has brought those of this device and those of the
/// server together: the merged list was sent to the place of the book, and if the server has
/// anything that is news to this device, which is what is reported, this device got that list too.
pub proof fn law_bookmarks_are_brought_together(uuid: Seq<char>, replies: Seq<(EventView, Instant)>)
    ensures
        sync_run(uuid, replies) matches MoveView::End(Ok(changed)) ==> exists|
            local: Seq<BookmarkView>,
            cloud: Seq<BookmarkView>,
            file: BookBookmarksFileView,
            bytes: Seq<u8>,
            client: ClientView,
        |
            changed == marks::adds(local, cloud) && #[trigger] is_sent(
                sync_log(uuid, replies),
                uuid,
                local,
                cloud,
                file,
                bytes,
            ) && #[trigger] trace::has_asked(
                sync_log(uuid, replies),
                ActionView::Upload(client, pulled::bookmarks_place(uuid), bytes),
            ),
{
    lemma_story(uuid, replies);
}

/// What is asked for is about the book at hand: its bookmarks on this device and at its place on the
/// server. What comes from there is read, and what is read or written down goes on unchanged.
pub proof fn law_bookmarks_of_the_book_are_used(
    uuid: Seq<char>,
    replies: Seq<(EventView, Instant)>,
    reply: (EventView, Instant),
)
    ensures
        ({
            let log = sync_log(uuid, replies);
            let now = sync_run(uuid, replies);
            let next = sync_run(uuid, replies.push(reply));
            let place = pulled::bookmarks_place(uuid);
            &&& now matches MoveView::Next(_, action) ==> match action {
                ActionView::Run(task) => task == TaskView::Client,
                ActionView::Mkdir(_, path) => path == "/AudireReader/bookmarks"@,
                ActionView::GetBookmarks(id) => id == uuid,
                ActionView::Exists(_, path) => path == place,
                ActionView::Download(_, path) => path == place,
                ActionView::DecodeBookmarks(bytes) => log.len() > 0 && log.last().event
                    == EventView::Bytes(Ok(bytes)),
                ActionView::ReplaceBookmarks(id, _) => id == uuid,
                ActionView::EncodeBookmarks(file) => file.book_uuid == uuid && log.len() > 0
                    && file.updated_at == log.last().now.millis() as i64,
                ActionView::Upload(_, path, bytes) => path == place,
                _ => false,
            }
            &&& now matches MoveView::Next(_, ActionView::Exists(client, _)) ==> (reply.0
                == EventView::Flag(Ok(true)) ==> trace::asks(
                next,
                ActionView::Download(client, place),
            ))
            &&& now matches MoveView::Next(_, ActionView::Download(_, _)) ==> (
            reply.0 matches EventView::Bytes(Ok(bytes)) ==> trace::asks(
                next,
                ActionView::DecodeBookmarks(bytes),
            ))
            &&& now matches MoveView::Next(_, ActionView::ReplaceBookmarks(_, list)) ==> (reply.0
                == EventView::Unit(Ok(())) ==> (next matches MoveView::Next(
                _,
                ActionView::EncodeBookmarks(file),
            ) && file.bookmarks == list))
        }),
{
    lemma_story(uuid, replies);
    trace::lemma_one_more(
        SyncBookmarksView::start(uuid),
        bookmarks::bookmarks_after(),
        replies,
        reply,
    );
}

} // verus!
