//! What holds of synchronising the bookmarks of a book.
use vstd::prelude::*;

use crate::marks;
use crate::models::BookmarkView;
use crate::payload::BookBookmarksFileView;
use crate::protocol::{ActionView, EventView, MoveView, TaskView};
use crate::remote;
use crate::tasks::bookmarks as tasks_bookmarks;
use crate::tasks::bookmarks::SyncBookmarksView;
use crate::time::Instant;
use crate::world;
use crate::world::World;

verus! {

/// The bookmarks of a book that the server has.
pub open spec fn cloud_bookmarks(w: World, uuid: Seq<char>) -> Seq<BookmarkView> {
    match w.served(remote::bookmarks_path(uuid)) {
        Some(bytes) => match (w.notation.read_bookmarks)(bytes) {
            Ok(file) => file.bookmarks,
            Err(_) => Seq::empty(),
        },
        None => Seq::empty(),
    }
}

/// How a task that synchronises bookmarks goes on.
pub open spec fn bookmarks_after() -> spec_fn(SyncBookmarksView, EventView, Instant) -> MoveView<
    SyncBookmarksView,
    bool,
> {
    |s: SyncBookmarksView, e: EventView, now: Instant| s.after(e, now)
}

/// What comes of synchronising the bookmarks of a book.
pub open spec fn bookmarks_synced(w: World, uuid: Seq<char>, clock: spec_fn(nat) -> Instant) -> (
    Option<Result<bool, Seq<char>>>,
    World,
) {
    world::carried_out(
        SyncBookmarksView::start(uuid),
        bookmarks_after(),
        w,
        clock,
        10,
    )
}

/// Carries out the end of a synchronisation.
proof fn lemma_sent(
    w: World,
    uuid: Seq<char>,
    file: BookBookmarksFileView,
    updated: bool,
    clock: spec_fn(nat) -> Instant,
    n: nat,
)
    requires
        w.notation.faithful(),
        n >= 2,
    ensures
        ({
            let (result, after) = world::carried_out(
                MoveView::Next(
                    SyncBookmarksView::Encoded { client: w.client, uuid, updated },
                    ActionView::EncodeBookmarks(file),
                ),
                bookmarks_after(),
                w,
                clock,
                n,
            );
            &&& result == Some(Ok::<bool, Seq<char>>(updated))
            &&& after.bookmarks == w.bookmarks
            &&& after.notation == w.notation
            &&& cloud_bookmarks(after, uuid) == file.bookmarks
        }),
{
    let f = bookmarks_after();
    let path = remote::bookmarks_path(uuid);
    let bytes = (w.notation.bookmarks)(file);
    world::lemma_step(
        SyncBookmarksView::Encoded { client: w.client, uuid, updated },
        ActionView::EncodeBookmarks(file),
        f,
        w,
        clock,
        n,
    );
    world::lemma_step(
        SyncBookmarksView::Uploaded { updated },
        ActionView::Upload(w.client, path, bytes),
        f,
        w,
        clock,
        (n - 1) as nat,
    );
    let w1 = World { server: w.server.insert(path, bytes), ..w };
    world::lemma_end(Ok(updated), f, w1, clock, (n - 2) as nat);
}

/// Carries out what follows once the bookmarks of both sides are known.
proof fn lemma_merged(
    w: World,
    uuid: Seq<char>,
    cloud: Seq<BookmarkView>,
    clock: spec_fn(nat) -> Instant,
    now: Instant,
    n: nat,
)
    requires
        w.notation.faithful(),
        n >= 3,
    ensures
        ({
            let local = world::list_of(w.bookmarks, uuid);
            let table = marks::merged_table(local, cloud);
            let (result, after) = world::carried_out(
                tasks_bookmarks::merged(w.client, uuid, local, cloud, now),
                bookmarks_after(),
                w,
                clock,
                n,
            );
            &&& result == Some(Ok::<bool, Seq<char>>(table != marks::mark_table(local)))
            &&& after.notation == w.notation
            &&& world::list_of(after.bookmarks, uuid) == if table != marks::mark_table(local) {
                marks::in_order(table)
            } else {
                local
            }
            &&& cloud_bookmarks(after, uuid) == marks::in_order(table)
        }),
{
    let f = bookmarks_after();
    let local = world::list_of(w.bookmarks, uuid);
    let table = marks::merged_table(local, cloud);
    let all = marks::in_order(table);
    if table != marks::mark_table(local) {
        world::lemma_step(
            SyncBookmarksView::Replaced { client: w.client, uuid, merged: all },
            ActionView::ReplaceBookmarks(uuid, all),
            f,
            w,
            clock,
            n,
        );
        let w1 = World { bookmarks: w.bookmarks.insert(uuid, all), ..w };
        lemma_sent(
            w1,
            uuid,
            tasks_bookmarks::bookmark_file(uuid, clock(n), all),
            true,
            clock,
            (n - 1) as nat,
        );
    } else {
        lemma_sent(w, uuid, tasks_bookmarks::bookmark_file(uuid, now, all), false, clock, n);
    }
}

/// Synchronising the bookmarks of a book succeeds. Afterwards the server has the merged
/// bookmarks, and so has this device, which keeps its own where there was nothing new.
pub proof fn law_bookmarks_are_synchronised(w: World, uuid: Seq<char>, clock: spec_fn(nat) -> Instant)
    requires
        w.notation.faithful(),
    ensures
        ({
            let local = world::list_of(w.bookmarks, uuid);
            let table = marks::merged_table(local, cloud_bookmarks(w, uuid));
            let (result, after) = bookmarks_synced(w, uuid, clock);
            &&& result == Some(Ok::<bool, Seq<char>>(table != marks::mark_table(local)))
            &&& after.notation == w.notation
            &&& world::list_of(after.bookmarks, uuid) == if table != marks::mark_table(local) {
                marks::in_order(table)
            } else {
                local
            }
            &&& cloud_bookmarks(after, uuid) == marks::in_order(table)
        }),
{
    let f = bookmarks_after();
    let client = w.client;
    let local = world::list_of(w.bookmarks, uuid);
    let path = remote::bookmarks_path(uuid);
    world::lemma_step(
        SyncBookmarksView::Client { uuid },
        ActionView::Run(TaskView::Client),
        f,
        w,
        clock,
        10,
    );
    let w = World { cached: Some(w.client), ..w };
    world::lemma_step(
        SyncBookmarksView::Folder { client, uuid },
        ActionView::Mkdir(client, remote::BOOKMARKS@),
        f,
        w,
        clock,
        9,
    );
    world::lemma_step(
        SyncBookmarksView::Local { client, uuid },
        ActionView::GetBookmarks(uuid),
        f,
        w,
        clock,
        8,
    );
    world::lemma_step(
        SyncBookmarksView::Looked { client, uuid, local },
        ActionView::Exists(client, path),
        f,
        w,
        clock,
        7,
    );
    if w.server.dom().contains(path) {
        world::lemma_step(
            SyncBookmarksView::Fetched { client, uuid, local },
            ActionView::Download(client, path),
            f,
            w,
            clock,
            6,
        );
        match w.served(path) {
            Some(bytes) => {
                world::lemma_step(
                    SyncBookmarksView::Decoded { client, uuid, local },
                    ActionView::DecodeBookmarks(bytes),
                    f,
                    w,
                    clock,
                    5,
                );
                lemma_merged(w, uuid, cloud_bookmarks(w, uuid), clock, clock(5), 4);
            },
            None => {
                lemma_merged(w, uuid, Seq::empty(), clock, clock(6), 5);
            },
        }
    } else {
        lemma_merged(w, uuid, Seq::empty(), clock, clock(7), 6);
    }
}

/// Synchronising twice in a row changes nothing the second time, and says so.
pub proof fn law_synchronising_bookmarks_again_changes_nothing(
    w: World,
    uuid: Seq<char>,
    first: spec_fn(nat) -> Instant,
    second: spec_fn(nat) -> Instant,
)
    requires
        w.notation.faithful(),
    ensures
        ({
            let once = bookmarks_synced(w, uuid, first).1;
            let (result, twice) = bookmarks_synced(once, uuid, second);
            &&& result == Some(Ok::<bool, Seq<char>>(false))
            &&& world::list_of(twice.bookmarks, uuid) == world::list_of(once.bookmarks, uuid)
            &&& cloud_bookmarks(twice, uuid) == cloud_bookmarks(once, uuid)
        }),
{
    let local = world::list_of(w.bookmarks, uuid);
    let cloud = cloud_bookmarks(w, uuid);
    let table = marks::merged_table(local, cloud);
    let all = marks::in_order(table);
    law_bookmarks_are_synchronised(w, uuid, first);
    law_bookmarks_are_synchronised(bookmarks_synced(w, uuid, first).1, uuid, second);
    marks::lemma_in_order(local, cloud);
    marks::lemma_table_of_list(all, table);
    marks::lemma_own_marks_add_nothing(table, all);
}

} // verus!
