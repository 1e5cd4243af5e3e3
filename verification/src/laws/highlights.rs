//! What holds of synchronising the highlights of a book.
use vstd::prelude::*;

use crate::marks;
use crate::models::HighlightView;
use crate::payload::BookHighlightsFileView;
use crate::protocol::{ActionView, EventView, MoveView, TaskView};
use crate::remote;
use crate::tasks::highlights as tasks_highlights;
use crate::tasks::highlights::SyncHighlightsView;
use crate::time::Instant;
use crate::world;
use crate::world::World;

verus! {

/// The highlights of a book that the server has.
pub open spec fn cloud_highlights(w: World, uuid: Seq<char>) -> Seq<HighlightView> {
    match w.served(remote::highlights_path(uuid)) {
        Some(bytes) => match (w.notation.read_highlights)(bytes) {
            Ok(file) => file.highlights,
            Err(_) => Seq::empty(),
        },
        None => Seq::empty(),
    }
}

/// How a task that synchronises highlights goes on.
pub open spec fn highlights_after() -> spec_fn(SyncHighlightsView, EventView, Instant) -> MoveView<
    SyncHighlightsView,
    bool,
> {
    |s: SyncHighlightsView, e: EventView, now: Instant| s.after(e, now)
}

/// What comes of synchronising the highlights of a book.
pub open spec fn highlights_synced(w: World, uuid: Seq<char>, clock: spec_fn(nat) -> Instant) -> (
    Option<Result<bool, Seq<char>>>,
    World,
) {
    world::carried_out(
        SyncHighlightsView::start(uuid),
        highlights_after(),
        w,
        clock,
        10,
    )
}

/// Carries out the end of a synchronisation.
proof fn lemma_sent(
    w: World,
    uuid: Seq<char>,
    file: BookHighlightsFileView,
    updated: bool,
    clock: spec_fn(nat) -> Instant,
    n: nat,
)
    requires
        w.notation.faithful(),
        n >= 2,
    ensures
        ({
            let (result, after) = world::carried_out(
                MoveView::Next(
                    SyncHighlightsView::Encoded { client: w.client, uuid, updated },
                    ActionView::EncodeHighlights(file),
                ),
                highlights_after(),
                w,
                clock,
                n,
            );
            &&& result == Some(Ok::<bool, Seq<char>>(updated))
            &&& after.highlights == w.highlights
            &&& after.notation == w.notation
            &&& cloud_highlights(after, uuid) == file.highlights
        }),
{
    let f = highlights_after();
    let path = remote::highlights_path(uuid);
    let bytes = (w.notation.highlights)(file);
    world::lemma_step(
        SyncHighlightsView::Encoded { client: w.client, uuid, updated },
        ActionView::EncodeHighlights(file),
        f,
        w,
        clock,
        n,
    );
    world::lemma_step(
        SyncHighlightsView::Uploaded { updated },
        ActionView::Upload(w.client, path, bytes),
        f,
        w,
        clock,
        (n - 1) as nat,
    );
    let w1 = World { server: w.server.insert(path, bytes), ..w };
    world::lemma_end(Ok(updated), f, w1, clock, (n - 2) as nat);
}

/// Carries out what follows once the highlights of both sides are known.
proof fn lemma_merged(
    w: World,
    uuid: Seq<char>,
    cloud: Seq<HighlightView>,
    clock: spec_fn(nat) -> Instant,
    now: Instant,
    n: nat,
)
    requires
        w.notation.faithful(),
        n >= 3,
    ensures
        ({
            let local = world::list_of(w.highlights, uuid);
            let table = marks::merged_table(local, cloud);
            let (result, after) = world::carried_out(
                tasks_highlights::merged(w.client, uuid, local, cloud, now),
                highlights_after(),
                w,
                clock,
                n,
            );
            &&& result == Some(Ok::<bool, Seq<char>>(table != marks::mark_table(local)))
            &&& after.notation == w.notation
            &&& world::list_of(after.highlights, uuid) == if table != marks::mark_table(local) {
                marks::in_order(table)
            } else {
                local
            }
            &&& cloud_highlights(after, uuid) == marks::in_order(table)
        }),
{
    let f = highlights_after();
    let local = world::list_of(w.highlights, uuid);
    let table = marks::merged_table(local, cloud);
    let all = marks::in_order(table);
    if table != marks::mark_table(local) {
        world::lemma_step(
            SyncHighlightsView::Replaced { client: w.client, uuid, merged: all },
            ActionView::ReplaceHighlights(uuid, all),
            f,
            w,
            clock,
            n,
        );
        let w1 = World { highlights: w.highlights.insert(uuid, all), ..w };
        lemma_sent(
            w1,
            uuid,
            tasks_highlights::highlight_file(uuid, clock(n), all),
            true,
            clock,
            (n - 1) as nat,
        );
    } else {
        lemma_sent(w, uuid, tasks_highlights::highlight_file(uuid, now, all), false, clock, n);
    }
}

/// Synchronising the highlights of a book succeeds. Afterwards the server has the merged
/// highlights, and so has this device, which keeps its own where there was nothing new.
pub proof fn law_highlights_are_synchronised(w: World, uuid: Seq<char>, clock: spec_fn(nat) -> Instant)
    requires
        w.notation.faithful(),
    ensures
        ({
            let local = world::list_of(w.highlights, uuid);
            let table = marks::merged_table(local, cloud_highlights(w, uuid));
            let (result, after) = highlights_synced(w, uuid, clock);
            &&& result == Some(Ok::<bool, Seq<char>>(table != marks::mark_table(local)))
            &&& after.notation == w.notation
            &&& world::list_of(after.highlights, uuid) == if table != marks::mark_table(local) {
                marks::in_order(table)
            } else {
                local
            }
            &&& cloud_highlights(after, uuid) == marks::in_order(table)
        }),
{
    let f = highlights_after();
    let client = w.client;
    let local = world::list_of(w.highlights, uuid);
    let path = remote::highlights_path(uuid);
    world::lemma_step(
        SyncHighlightsView::Client { uuid },
        ActionView::Run(TaskView::Client),
        f,
        w,
        clock,
        10,
    );
    let w = World { cached: Some(w.client), ..w };
    world::lemma_step(
        SyncHighlightsView::Folder { client, uuid },
        ActionView::Mkdir(client, remote::HIGHLIGHTS@),
        f,
        w,
        clock,
        9,
    );
    world::lemma_step(
        SyncHighlightsView::Local { client, uuid },
        ActionView::GetHighlights(uuid),
        f,
        w,
        clock,
        8,
    );
    world::lemma_step(
        SyncHighlightsView::Looked { client, uuid, local },
        ActionView::Exists(client, path),
        f,
        w,
        clock,
        7,
    );
    if w.server.dom().contains(path) {
        world::lemma_step(
            SyncHighlightsView::Fetched { client, uuid, local },
            ActionView::Download(client, path),
            f,
            w,
            clock,
            6,
        );
        match w.served(path) {
            Some(bytes) => {
                world::lemma_step(
                    SyncHighlightsView::Decoded { client, uuid, local },
                    ActionView::DecodeHighlights(bytes),
                    f,
                    w,
                    clock,
                    5,
                );
                lemma_merged(w, uuid, cloud_highlights(w, uuid), clock, clock(5), 4);
            },
            None => {
                lemma_merged(w, uuid, Seq::empty(), clock, clock(6), 5);
            },
        }
    } else {
        lemma_merged(w, uuid, Seq::empty(), clock, clock(7), 6);
    }
}

/// Synchronising twice in a row changes nothing the second time, and says so.
pub proof fn law_synchronising_highlights_again_changes_nothing(
    w: World,
    uuid: Seq<char>,
    first: spec_fn(nat) -> Instant,
    second: spec_fn(nat) -> Instant,
)
    requires
        w.notation.faithful(),
    ensures
        ({
            let once = highlights_synced(w, uuid, first).1;
            let (result, twice) = highlights_synced(once, uuid, second);
            &&& result == Some(Ok::<bool, Seq<char>>(false))
            &&& world::list_of(twice.highlights, uuid) == world::list_of(once.highlights, uuid)
            &&& cloud_highlights(twice, uuid) == cloud_highlights(once, uuid)
        }),
{
    let local = world::list_of(w.highlights, uuid);
    let cloud = cloud_highlights(w, uuid);
    let table = marks::merged_table(local, cloud);
    let all = marks::in_order(table);
    law_highlights_are_synchronised(w, uuid, first);
    law_highlights_are_synchronised(highlights_synced(w, uuid, first).1, uuid, second);
    marks::lemma_in_order(local, cloud);
    marks::lemma_table_of_list(all, table);
    marks::lemma_own_marks_add_nothing(table, all);
}

} // verus!
