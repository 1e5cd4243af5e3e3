//! What holds of the small tasks that others have carried out: a world that acts on such a task at
//! once comes to the same as the task carried out step by step.
use vstd::prelude::*;

use crate::client::ClientView;
use crate::protocol::{
    ActionView, CoverFetchView, EventView, MoveView, TaskView,
};
use crate::tasks::cloud_books::FetchMissingCoversView;
use crate::tasks::files::{DownloadFileView, UploadFileView};
use crate::tasks::record::{RecordProgressView, RecordTimestampView};
use crate::tasks::record;
use crate::time::Instant;
use crate::world;
use crate::world::World;

verus! {

/// A local file is copied to the server, if it is there.
pub proof fn law_files_are_uploaded(
    w: World,
    client: ClientView,
    remote: Seq<char>,
    local: Seq<char>,
    clock: spec_fn(nat) -> Instant,
)
    ensures
        ({
            let (result, after) = world::carried_out(
                UploadFileView::start(client, remote, local),
                |s: UploadFileView, e: EventView, now: Instant| s.after(e),
                w,
                clock,
                2,
            );
            &&& result is Some
            &&& w.perform(ActionView::Run(TaskView::UploadFile(client, remote, local)), clock(2))
                == (after, EventView::Flag(result->0))
        }),
{
    let f = |s: UploadFileView, e: EventView, now: Instant| s.after(e);
    world::lemma_step(
        UploadFileView::Read { client, remote, local },
        ActionView::ReadFile(local),
        f,
        w,
        clock,
        2,
    );
    match world::look_up(w.files, local) {
        Some(bytes) => {
            let upload = ActionView::Upload(client, remote, bytes);
            world::lemma_step(UploadFileView::Sent, upload, f, w, clock, 1);
            let (w1, _) = w.perform(upload, clock(1));
            world::lemma_end(Ok(true), f, w1, clock, 0);
        },
        None => {
            world::lemma_end(Err("Local file does not exist: "@ + local), f, w, clock, 1);
        },
    }
}

/// A file of the server is copied to this device, if it is there and not empty.
pub proof fn law_files_are_downloaded(
    w: World,
    client: ClientView,
    remote: Seq<char>,
    local: Seq<char>,
    clock: spec_fn(nat) -> Instant,
)
    ensures
        ({
            let (result, after) = world::carried_out(
                DownloadFileView::start(client, remote, local),
                |s: DownloadFileView, e: EventView, now: Instant| s.after(e),
                w,
                clock,
                2,
            );
            &&& result is Some
            &&& w.perform(ActionView::Run(TaskView::DownloadFile(client, remote, local)), clock(2))
                == (after, EventView::Flag(result->0))
        }),
{
    let f = |s: DownloadFileView, e: EventView, now: Instant| s.after(e);
    world::lemma_step(
        DownloadFileView::Fetched { local },
        ActionView::Download(client, remote),
        f,
        w,
        clock,
        2,
    );
    match w.served(remote) {
        Some(bytes) => {
            let write = ActionView::WriteFile(local, bytes);
            world::lemma_step(DownloadFileView::Written, write, f, w, clock, 1);
            let (w1, _) = w.perform(write, clock(1));
            world::lemma_end(Ok(true), f, w1, clock, 0);
        },
        None => {
            world::lemma_end(Err(world::no_file()), f, w, clock, 1);
        },
    }
}

/// A cover that this device has already is not fetched again, and so is not overwritten; one that
/// it does not have is asked for.
pub proof fn law_only_missing_covers_are_fetched(
    client: ClientView,
    covers: Seq<CoverFetchView>,
    at: int,
    path: Seq<char>,
    there: bool,
)
    requires
        0 <= at < covers.len(),
    ensures
        ({
            let placed = FetchMissingCoversView::Placed { client, covers, at };
            let state = FetchMissingCoversView::Looked { client, covers, at, path };
            let fetch = ActionView::Run(
                TaskView::DownloadFile(client, covers[at].remote, path),
            );
            let asks = state.after(EventView::Present(there)) matches MoveView::Next(_, action)
                && action == fetch;
            &&& FetchMissingCoversView::visit(client, covers, at) == MoveView::<
                FetchMissingCoversView,
                (),
            >::Next(placed, ActionView::Locate(covers[at].local))
            &&& placed.after(EventView::Located(path)) == MoveView::<
                FetchMissingCoversView,
                (),
            >::Next(state, ActionView::FileExists(path))
            &&& asks <==> !there
        }),
{
}

/// The settings are told when synchronisation went through, if there are any.
pub proof fn law_the_time_is_noted(w: World, clock: spec_fn(nat) -> Instant)
    ensures
        ({
            let (result, after) = world::carried_out(
                RecordTimestampView::start(),
                |s: RecordTimestampView, e: EventView, now: Instant| s.after(e, now),
                w,
                clock,
                2,
            );
            &&& result == Some(Ok::<(), Seq<char>>(()))
            &&& w.perform(ActionView::Run(TaskView::RecordTimestamp), clock(2)) == (
                after,
                EventView::Unit(result->0),
            )
        }),
{
    let f = |s: RecordTimestampView, e: EventView, now: Instant| s.after(e, now);
    world::lemma_step(RecordTimestampView::Settings, ActionView::GetSettings, f, w, clock, 2);
    match w.settings {
        Some(settings) => {
            let save = ActionView::SaveSettings(record::stamped(settings, clock(2)));
            world::lemma_step(RecordTimestampView::Saved, save, f, w, clock, 1);
            let (w1, _) = w.perform(save, clock(1));
            world::lemma_end(Ok(()), f, w1, clock, 0);
        },
        None => {
            world::lemma_end(Ok(()), f, w, clock, 1);
        },
    }
}

/// The history is told that the progress of a book was synchronised.
pub proof fn law_synchronised_progress_is_noted(
    w: World,
    uuid: Seq<char>,
    action: Seq<char>,
    chapter: i32,
    paragraph: i32,
    device: Option<Seq<char>>,
    clock: spec_fn(nat) -> Instant,
)
    ensures
        ({
            let (result, after) = world::carried_out(
                RecordProgressView::start(uuid, action, chapter, paragraph, device),
                |s: RecordProgressView, e: EventView, now: Instant| s.after(e, now),
                w,
                clock,
                2,
            );
            let task = TaskView::RecordProgress(uuid, action, chapter, paragraph, device);
            &&& result == Some(Ok::<(), Seq<char>>(()))
            &&& w.perform(ActionView::Run(task), clock(2)) == (after, EventView::Unit(result->0))
        }),
{
    let f = |s: RecordProgressView, e: EventView, now: Instant| s.after(e, now);
    let title = match world::look_up(w.books, uuid) {
        Some(book) => book.title,
        None => "Unknown Book"@,
    };
    let note = ActionView::InsertHistory(
        record::success_entry(
            clock(2),
            action,
            record::progress_details(title, chapter, paragraph, device),
        ),
    );
    world::lemma_step(
        RecordProgressView::Book { action, chapter, paragraph, device },
        ActionView::GetBook(uuid),
        f,
        w,
        clock,
        2,
    );
    world::lemma_step(RecordProgressView::Noted, note, f, w, clock, 1);
    let (w1, _) = w.perform(note, clock(1));
    world::lemma_end(Ok(()), f, w1, clock, 0);
}

} // verus!
