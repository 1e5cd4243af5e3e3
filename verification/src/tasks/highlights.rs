//! Synchronising the highlights of a book.
use vstd::prelude::*;

use crate::client::{ClientView, WebDavClient};
use crate::marks;
use crate::models::{Highlight, HighlightView};
use crate::payload::{BookHighlightsFile, BookHighlightsFileView};
use crate::protocol;
use crate::protocol::{Action, ActionView, Event, EventView, Move, MoveView, Task, TaskView};
use crate::remote;
use crate::time::Instant;

verus! {

/// Synchronising the highlights of a book.
pub enum SyncHighlights {
    /// The client was asked for.
    Client { uuid: String },
    /// The folder was asked for.
    Folder { client: WebDavClient, uuid: String },
    /// The highlights of this device were asked for.
    Local { client: WebDavClient, uuid: String },
    /// The highlights of the server were looked for.
    Looked { client: WebDavClient, uuid: String, local: Vec<Highlight> },
    /// The highlights of the server were asked for.
    Fetched { client: WebDavClient, uuid: String, local: Vec<Highlight> },
    /// The highlights of the server were handed over to be read.
    Decoded { client: WebDavClient, uuid: String, local: Vec<Highlight> },
    /// This device was given the merged highlights.
    Replaced { client: WebDavClient, uuid: String, merged: Vec<Highlight> },
    /// The merged highlights were handed over to be written down.
    Encoded { client: WebDavClient, uuid: String, updated: bool },
    /// The server was sent the merged highlights.
    Uploaded { updated: bool },
}

/// What a `SyncHighlights` holds.
pub enum SyncHighlightsView {
    Client { uuid: Seq<char> },
    Folder { client: ClientView, uuid: Seq<char> },
    Local { client: ClientView, uuid: Seq<char> },
    Looked { client: ClientView, uuid: Seq<char>, local: Seq<HighlightView> },
    Fetched { client: ClientView, uuid: Seq<char>, local: Seq<HighlightView> },
    Decoded { client: ClientView, uuid: Seq<char>, local: Seq<HighlightView> },
    Replaced { client: ClientView, uuid: Seq<char>, merged: Seq<HighlightView> },
    Encoded { client: ClientView, uuid: Seq<char>, updated: bool },
    Uploaded { updated: bool },
}

impl DeepView for SyncHighlights {
    type V = SyncHighlightsView;

    open spec fn deep_view(&self) -> SyncHighlightsView {
        match self {
            SyncHighlights::Client { uuid } => SyncHighlightsView::Client { uuid: uuid@ },
            SyncHighlights::Folder { client, uuid } => SyncHighlightsView::Folder {
                client: client.deep_view(),
                uuid: uuid@,
            },
            SyncHighlights::Local { client, uuid } => SyncHighlightsView::Local {
                client: client.deep_view(),
                uuid: uuid@,
            },
            SyncHighlights::Looked { client, uuid, local } => SyncHighlightsView::Looked {
                client: client.deep_view(),
                uuid: uuid@,
                local: local.deep_view(),
            },
            SyncHighlights::Fetched { client, uuid, local } => SyncHighlightsView::Fetched {
                client: client.deep_view(),
                uuid: uuid@,
                local: local.deep_view(),
            },
            SyncHighlights::Decoded { client, uuid, local } => SyncHighlightsView::Decoded {
                client: client.deep_view(),
                uuid: uuid@,
                local: local.deep_view(),
            },
            SyncHighlights::Replaced { client, uuid, merged } => SyncHighlightsView::Replaced {
                client: client.deep_view(),
                uuid: uuid@,
                merged: merged.deep_view(),
            },
            SyncHighlights::Encoded { client, uuid, updated } => SyncHighlightsView::Encoded {
                client: client.deep_view(),
                uuid: uuid@,
                updated: *updated,
            },
            SyncHighlights::Uploaded { updated } => SyncHighlightsView::Uploaded {
                updated: *updated,
            },
        }
    }
}

/// The highlights of a book as the server stores them.
pub open spec fn highlight_file(uuid: Seq<char>, now: Instant, highlights: Seq<HighlightView>) -> BookHighlightsFileView {
    BookHighlightsFileView { book_uuid: uuid, updated_at: now.millis() as i64, highlights }
}

/// The highlights of a book as the server stores them.
pub fn make_highlight_file(uuid: String, now: Instant, highlights: Vec<Highlight>) -> (r: BookHighlightsFile)
    requires
        now.valid(),
    ensures
        r.deep_view() == highlight_file(uuid@, now, highlights.deep_view()),
{
    BookHighlightsFile { book_uuid: uuid, updated_at: now.to_millis(), highlights }
}

/// What follows once the highlights of both sides are known.
pub open spec fn merged(
    client: ClientView,
    uuid: Seq<char>,
    local: Seq<HighlightView>,
    cloud: Seq<HighlightView>,
    now: Instant,
) -> MoveView<SyncHighlightsView, bool> {
    let table = marks::merged_table(local, cloud);
    let all = marks::in_order(table);
    if table != marks::mark_table(local) {
        MoveView::Next(
            SyncHighlightsView::Replaced { client, uuid, merged: all },
            ActionView::ReplaceHighlights(uuid, all),
        )
    } else {
        MoveView::Next(
            SyncHighlightsView::Encoded { client, uuid, updated: false },
            ActionView::EncodeHighlights(highlight_file(uuid, now, all)),
        )
    }
}

fn merge(
    client: WebDavClient,
    uuid: String,
    local: Vec<Highlight>,
    cloud: Vec<Highlight>,
    now: Instant,
) -> (r: Move<SyncHighlights, bool>)
    requires
        now.valid(),
    ensures
        r.deep_view() == merged(
            client.deep_view(),
            uuid@,
            local.deep_view(),
            cloud.deep_view(),
            now,
        ),
{
    let (all, updated) = marks::merge_marks(local, cloud);
    if updated {
        let copy = copy_highlights(&all);
        let id = uuid.clone();
        Move::Next(
            SyncHighlights::Replaced { client, uuid, merged: all },
            Action::ReplaceHighlights(id, copy),
        )
    } else {
        let file = make_highlight_file(uuid.clone(), now, all);
        Move::Next(
            SyncHighlights::Encoded { client, uuid, updated: false },
            Action::EncodeHighlights(file),
        )
    }
}

fn copy_highlights(highlights: &Vec<Highlight>) -> (r: Vec<Highlight>)
    ensures
        r.deep_view() == highlights.deep_view(),
{
    let mut r: Vec<Highlight> = Vec::new();
    let mut i: usize = 0;
    while i < highlights.len()
        invariant
            i <= highlights.len(),
            r.len() == i,
            forall|j: int| 0 <= j < i ==> (#[trigger] r@[j]).deep_view() == highlights@[j].deep_view(),
        decreases highlights.len() - i,
    {
        r.push(highlights[i].clone());
        i = i + 1;
    }
    assert(r.deep_view() =~= highlights.deep_view());
    r
}

impl SyncHighlightsView {
    /// The beginning.
    pub open spec fn start(uuid: Seq<char>) -> MoveView<SyncHighlightsView, bool> {
        MoveView::Next(SyncHighlightsView::Client { uuid }, ActionView::Run(TaskView::Client))
    }

    /// What follows a reply.
    pub open spec fn after(self, event: EventView, now: Instant) -> MoveView<SyncHighlightsView, bool> {
        match self {
            SyncHighlightsView::Client { uuid } => match event {
                EventView::Client(Ok(client)) => MoveView::Next(
                    SyncHighlightsView::Folder { client, uuid },
                    ActionView::Mkdir(client, remote::HIGHLIGHTS@),
                ),
                EventView::Client(Err(e)) => MoveView::End(Err(e)),
                _ => protocol::unexpected(),
            },
            SyncHighlightsView::Folder { client, uuid } => MoveView::Next(
                SyncHighlightsView::Local { client, uuid },
                ActionView::GetHighlights(uuid),
            ),
            SyncHighlightsView::Local { client, uuid } => match event {
                EventView::Highlights(Ok(local)) => MoveView::Next(
                    SyncHighlightsView::Looked { client, uuid, local },
                    ActionView::Exists(client, remote::highlights_path(uuid)),
                ),
                EventView::Highlights(Err(e)) => MoveView::End(Err(e)),
                _ => protocol::unexpected(),
            },
            SyncHighlightsView::Looked { client, uuid, local } => match event {
                EventView::Flag(Ok(true)) => MoveView::Next(
                    SyncHighlightsView::Fetched { client, uuid, local },
                    ActionView::Download(client, remote::highlights_path(uuid)),
                ),
                _ => merged(client, uuid, local, Seq::empty(), now),
            },
            SyncHighlightsView::Fetched { client, uuid, local } => match event {
                EventView::Bytes(Ok(bytes)) => MoveView::Next(
                    SyncHighlightsView::Decoded { client, uuid, local },
                    ActionView::DecodeHighlights(bytes),
                ),
                _ => merged(client, uuid, local, Seq::empty(), now),
            },
            SyncHighlightsView::Decoded { client, uuid, local } => match event {
                EventView::CloudHighlights(Ok(file)) => merged(client, uuid, local, file.highlights, now),
                _ => merged(client, uuid, local, Seq::empty(), now),
            },
            SyncHighlightsView::Replaced { client, uuid, merged } => match event {
                EventView::Unit(Ok(_)) => MoveView::Next(
                    SyncHighlightsView::Encoded { client, uuid, updated: true },
                    ActionView::EncodeHighlights(highlight_file(uuid, now, merged)),
                ),
                EventView::Unit(Err(e)) => MoveView::End(Err(e)),
                _ => protocol::unexpected(),
            },
            SyncHighlightsView::Encoded { client, uuid, updated } => match event {
                EventView::Bytes(Ok(bytes)) => MoveView::Next(
                    SyncHighlightsView::Uploaded { updated },
                    ActionView::Upload(client, remote::highlights_path(uuid), bytes),
                ),
                EventView::Bytes(Err(e)) => MoveView::End(Err(e)),
                _ => protocol::unexpected(),
            },
            SyncHighlightsView::Uploaded { updated } => MoveView::End(Ok(updated)),
        }
    }
}

/// Synchronises the highlights of a book: those of this device and of the server are brought
/// together, and both get the result. Tells whether this device has learnt anything.
pub fn sync_book_highlights(book_uuid: String) -> (r: Move<SyncHighlights, bool>)
    ensures
        r.deep_view() == MoveView::<SyncHighlightsView, bool>::Next(
            SyncHighlightsView::Client { uuid: book_uuid@ },
            ActionView::Run(TaskView::Client),
        ),
        r.deep_view() == SyncHighlightsView::start(book_uuid@),
{
    Move::Next(SyncHighlights::Client { uuid: book_uuid }, Action::Run(Task::Client))
}

impl SyncHighlights {
    /// What follows a reply.
    pub fn advance(self, event: Event, now: Instant) -> (r: Move<SyncHighlights, bool>)
        requires
            now.valid(),
        ensures
            r.deep_view() == self.deep_view().after(event.deep_view(), now),
    {
        let none: Vec<Highlight> = Vec::new();
        assert(none.deep_view() =~= Seq::empty());
        match self {
            SyncHighlights::Client { uuid } => match event {
                Event::Client(Ok(client)) => {
                    let handle = client.clone();
                    Move::Next(
                        SyncHighlights::Folder { client, uuid },
                        Action::Mkdir(handle, remote::HIGHLIGHTS.to_string()),
                    )
                },
                Event::Client(Err(e)) => Move::End(Err(e)),
                _ => protocol::unexpected_reply(),
            },
            SyncHighlights::Folder { client, uuid } => {
                let id = uuid.clone();
                Move::Next(SyncHighlights::Local { client, uuid }, Action::GetHighlights(id))
            },
            SyncHighlights::Local { client, uuid } => match event {
                Event::Highlights(Ok(local)) => {
                    let handle = client.clone();
                    let path = remote::highlights_file(&uuid);
                    Move::Next(
                        SyncHighlights::Looked { client, uuid, local },
                        Action::Exists(handle, path),
                    )
                },
                Event::Highlights(Err(e)) => Move::End(Err(e)),
                _ => protocol::unexpected_reply(),
            },
            SyncHighlights::Looked { client, uuid, local } => match event {
                Event::Flag(Ok(true)) => {
                    let handle = client.clone();
                    let path = remote::highlights_file(&uuid);
                    Move::Next(
                        SyncHighlights::Fetched { client, uuid, local },
                        Action::Download(handle, path),
                    )
                },
                _ => merge(client, uuid, local, none, now),
            },
            SyncHighlights::Fetched { client, uuid, local } => match event {
                Event::Bytes(Ok(bytes)) => Move::Next(
                    SyncHighlights::Decoded { client, uuid, local },
                    Action::DecodeHighlights(bytes),
                ),
                _ => merge(client, uuid, local, none, now),
            },
            SyncHighlights::Decoded { client, uuid, local } => match event {
                Event::CloudHighlights(Ok(file)) => merge(client, uuid, local, file.highlights, now),
                _ => merge(client, uuid, local, none, now),
            },
            SyncHighlights::Replaced { client, uuid, merged } => match event {
                Event::Unit(Ok(_)) => {
                    let file = make_highlight_file(uuid.clone(), now, merged);
                    Move::Next(
                        SyncHighlights::Encoded { client, uuid, updated: true },
                        Action::EncodeHighlights(file),
                    )
                },
                Event::Unit(Err(e)) => Move::End(Err(e)),
                _ => protocol::unexpected_reply(),
            },
            SyncHighlights::Encoded { client, uuid, updated } => match event {
                Event::Bytes(Ok(bytes)) => {
                    let path = remote::highlights_file(&uuid);
                    Move::Next(
                        SyncHighlights::Uploaded { updated },
                        Action::Upload(client, path, bytes),
                    )
                },
                Event::Bytes(Err(e)) => Move::End(Err(e)),
                _ => protocol::unexpected_reply(),
            },
            SyncHighlights::Uploaded { updated } => Move::End(Ok(updated)),
        }
    }
}

} // verus!
