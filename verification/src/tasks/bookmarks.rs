//! Synchronising the bookmarks of a book.
use vstd::prelude::*;

use crate::client::{ClientView, WebDavClient};
use crate::marks;
use crate::models::{Bookmark, BookmarkView};
use crate::payload::{BookBookmarksFile, BookBookmarksFileView};
use crate::protocol;
use crate::protocol::{Action, ActionView, Event, EventView, Move, MoveView, Task, TaskView};
use crate::remote;
use crate::time::Instant;

verus! {

/// Synchronising the bookmarks of a book.
pub enum SyncBookmarks {
    /// The client was asked for.
    Client { uuid: String },
    /// The folder was asked for.
    Folder { client: WebDavClient, uuid: String },
    /// The bookmarks of this device were asked for.
    Local { client: WebDavClient, uuid: String },
    /// The bookmarks of the server were looked for.
    Looked { client: WebDavClient, uuid: String, local: Vec<Bookmark> },
    /// The bookmarks of the server were asked for.
    Fetched { client: WebDavClient, uuid: String, local: Vec<Bookmark> },
    /// The bookmarks of the server were handed over to be read.
    Decoded { client: WebDavClient, uuid: String, local: Vec<Bookmark> },
    /// This device was given the merged bookmarks.
    Replaced { client: WebDavClient, uuid: String, merged: Vec<Bookmark> },
    /// The merged bookmarks were handed over to be written down.
    Encoded { client: WebDavClient, uuid: String, updated: bool },
    /// The server was sent the merged bookmarks.
    Uploaded { updated: bool },
}

/// What a `SyncBookmarks` holds.
pub enum SyncBookmarksView {
    Client { uuid: Seq<char> },
    Folder { client: ClientView, uuid: Seq<char> },
    Local { client: ClientView, uuid: Seq<char> },
    Looked { client: ClientView, uuid: Seq<char>, local: Seq<BookmarkView> },
    Fetched { client: ClientView, uuid: Seq<char>, local: Seq<BookmarkView> },
    Decoded { client: ClientView, uuid: Seq<char>, local: Seq<BookmarkView> },
    Replaced { client: ClientView, uuid: Seq<char>, merged: Seq<BookmarkView> },
    Encoded { client: ClientView, uuid: Seq<char>, updated: bool },
    Uploaded { updated: bool },
}

impl DeepView for SyncBookmarks {
    type V = SyncBookmarksView;

    open spec fn deep_view(&self) -> SyncBookmarksView {
        match self {
            SyncBookmarks::Client { uuid } => SyncBookmarksView::Client { uuid: uuid@ },
            SyncBookmarks::Folder { client, uuid } => SyncBookmarksView::Folder {
                client: client.deep_view(),
                uuid: uuid@,
            },
            SyncBookmarks::Local { client, uuid } => SyncBookmarksView::Local {
                client: client.deep_view(),
                uuid: uuid@,
            },
            SyncBookmarks::Looked { client, uuid, local } => SyncBookmarksView::Looked {
                client: client.deep_view(),
                uuid: uuid@,
                local: local.deep_view(),
            },
            SyncBookmarks::Fetched { client, uuid, local } => SyncBookmarksView::Fetched {
                client: client.deep_view(),
                uuid: uuid@,
                local: local.deep_view(),
            },
            SyncBookmarks::Decoded { client, uuid, local } => SyncBookmarksView::Decoded {
                client: client.deep_view(),
                uuid: uuid@,
                local: local.deep_view(),
            },
            SyncBookmarks::Replaced { client, uuid, merged } => SyncBookmarksView::Replaced {
                client: client.deep_view(),
                uuid: uuid@,
                merged: merged.deep_view(),
            },
            SyncBookmarks::Encoded { client, uuid, updated } => SyncBookmarksView::Encoded {
                client: client.deep_view(),
                uuid: uuid@,
                updated: *updated,
            },
            SyncBookmarks::Uploaded { updated } => SyncBookmarksView::Uploaded {
                updated: *updated,
            },
        }
    }
}

/// The bookmarks of a book as the server stores them.
pub open spec fn bookmark_file(uuid: Seq<char>, now: Instant, bookmarks: Seq<BookmarkView>) -> BookBookmarksFileView {
    BookBookmarksFileView { book_uuid: uuid, updated_at: now.millis() as i64, bookmarks }
}

/// The bookmarks of a book as the server stores them.
pub fn make_bookmark_file(uuid: String, now: Instant, bookmarks: Vec<Bookmark>) -> (r: BookBookmarksFile)
    requires
        now.valid(),
    ensures
        r.deep_view() == bookmark_file(uuid@, now, bookmarks.deep_view()),
{
    BookBookmarksFile { book_uuid: uuid, updated_at: now.to_millis(), bookmarks }
}

/// What follows once the bookmarks of both sides are known.
pub open spec fn merged(
    client: ClientView,
    uuid: Seq<char>,
    local: Seq<BookmarkView>,
    cloud: Seq<BookmarkView>,
    now: Instant,
) -> MoveView<SyncBookmarksView, bool> {
    let table = marks::merged_table(local, cloud);
    let all = marks::in_order(table);
    if table != marks::mark_table(local) {
        MoveView::Next(
            SyncBookmarksView::Replaced { client, uuid, merged: all },
            ActionView::ReplaceBookmarks(uuid, all),
        )
    } else {
        MoveView::Next(
            SyncBookmarksView::Encoded { client, uuid, updated: false },
            ActionView::EncodeBookmarks(bookmark_file(uuid, now, all)),
        )
    }
}

fn merge(
    client: WebDavClient,
    uuid: String,
    local: Vec<Bookmark>,
    cloud: Vec<Bookmark>,
    now: Instant,
) -> (r: Move<SyncBookmarks, bool>)
    requires
        now.valid(),
    ensures
        r.deep_view() == merged(
            client.deep_view(),
            uuid@,
            local.deep_view(),
            cloud.deep_view(),
            now,
        ),
{
    let (all, updated) = marks::merge_marks(local, cloud);
    if updated {
        let copy = copy_bookmarks(&all);
        let id = uuid.clone();
        Move::Next(
            SyncBookmarks::Replaced { client, uuid, merged: all },
            Action::ReplaceBookmarks(id, copy),
        )
    } else {
        let file = make_bookmark_file(uuid.clone(), now, all);
        Move::Next(
            SyncBookmarks::Encoded { client, uuid, updated: false },
            Action::EncodeBookmarks(file),
        )
    }
}

fn copy_bookmarks(bookmarks: &Vec<Bookmark>) -> (r: Vec<Bookmark>)
    ensures
        r.deep_view() == bookmarks.deep_view(),
{
    let mut r: Vec<Bookmark> = Vec::new();
    let mut i: usize = 0;
    while i < bookmarks.len()
        invariant
            i <= bookmarks.len(),
            r.len() == i,
            forall|j: int| 0 <= j < i ==> (#[trigger] r@[j]).deep_view() == bookmarks@[j].deep_view(),
        decreases bookmarks.len() - i,
    {
        r.push(bookmarks[i].clone());
        i = i + 1;
    }
    assert(r.deep_view() =~= bookmarks.deep_view());
    r
}

impl SyncBookmarksView {
    /// The beginning.
    pub open spec fn start(uuid: Seq<char>) -> MoveView<SyncBookmarksView, bool> {
        MoveView::Next(SyncBookmarksView::Client { uuid }, ActionView::Run(TaskView::Client))
    }

    /// What follows a reply.
    pub open spec fn after(self, event: EventView, now: Instant) -> MoveView<SyncBookmarksView, bool> {
        match self {
            SyncBookmarksView::Client { uuid } => match event {
                EventView::Client(Ok(client)) => MoveView::Next(
                    SyncBookmarksView::Folder { client, uuid },
                    ActionView::Mkdir(client, remote::BOOKMARKS@),
                ),
                EventView::Client(Err(e)) => MoveView::End(Err(e)),
                _ => protocol::unexpected(),
            },
            SyncBookmarksView::Folder { client, uuid } => MoveView::Next(
                SyncBookmarksView::Local { client, uuid },
                ActionView::GetBookmarks(uuid),
            ),
            SyncBookmarksView::Local { client, uuid } => match event {
                EventView::Bookmarks(Ok(local)) => MoveView::Next(
                    SyncBookmarksView::Looked { client, uuid, local },
                    ActionView::Exists(client, remote::bookmarks_path(uuid)),
                ),
                EventView::Bookmarks(Err(e)) => MoveView::End(Err(e)),
                _ => protocol::unexpected(),
            },
            SyncBookmarksView::Looked { client, uuid, local } => match event {
                EventView::Flag(Ok(true)) => MoveView::Next(
                    SyncBookmarksView::Fetched { client, uuid, local },
                    ActionView::Download(client, remote::bookmarks_path(uuid)),
                ),
                _ => merged(client, uuid, local, Seq::empty(), now),
            },
            SyncBookmarksView::Fetched { client, uuid, local } => match event {
                EventView::Bytes(Ok(bytes)) => MoveView::Next(
                    SyncBookmarksView::Decoded { client, uuid, local },
                    ActionView::DecodeBookmarks(bytes),
                ),
                _ => merged(client, uuid, local, Seq::empty(), now),
            },
            SyncBookmarksView::Decoded { client, uuid, local } => match event {
                EventView::CloudBookmarks(Ok(file)) => merged(client, uuid, local, file.bookmarks, now),
                _ => merged(client, uuid, local, Seq::empty(), now),
            },
            SyncBookmarksView::Replaced { client, uuid, merged } => match event {
                EventView::Unit(Ok(_)) => MoveView::Next(
                    SyncBookmarksView::Encoded { client, uuid, updated: true },
                    ActionView::EncodeBookmarks(bookmark_file(uuid, now, merged)),
                ),
                EventView::Unit(Err(e)) => MoveView::End(Err(e)),
                _ => protocol::unexpected(),
            },
            SyncBookmarksView::Encoded { client, uuid, updated } => match event {
                EventView::Bytes(Ok(bytes)) => MoveView::Next(
                    SyncBookmarksView::Uploaded { updated },
                    ActionView::Upload(client, remote::bookmarks_path(uuid), bytes),
                ),
                EventView::Bytes(Err(e)) => MoveView::End(Err(e)),
                _ => protocol::unexpected(),
            },
            SyncBookmarksView::Uploaded { updated } => MoveView::End(Ok(updated)),
        }
    }
}

/// Synchronises the bookmarks of a book: those of this device and of the server are brought
/// together, and both get the result. Tells whether this device has learnt anything.
pub fn sync_book_bookmarks(book_uuid: String) -> (r: Move<SyncBookmarks, bool>)
    ensures
        r.deep_view() == MoveView::<SyncBookmarksView, bool>::Next(
            SyncBookmarksView::Client { uuid: book_uuid@ },
            ActionView::Run(TaskView::Client),
        ),
        r.deep_view() == SyncBookmarksView::start(book_uuid@),
{
    Move::Next(SyncBookmarks::Client { uuid: book_uuid }, Action::Run(Task::Client))
}

impl SyncBookmarks {
    /// What follows a reply.
    pub fn advance(self, event: Event, now: Instant) -> (r: Move<SyncBookmarks, bool>)
        requires
            now.valid(),
        ensures
            r.deep_view() == self.deep_view().after(event.deep_view(), now),
    {
        let none: Vec<Bookmark> = Vec::new();
        assert(none.deep_view() =~= Seq::empty());
        match self {
            SyncBookmarks::Client { uuid } => match event {
                Event::Client(Ok(client)) => {
                    let handle = client.clone();
                    Move::Next(
                        SyncBookmarks::Folder { client, uuid },
                        Action::Mkdir(handle, remote::BOOKMARKS.to_string()),
                    )
                },
                Event::Client(Err(e)) => Move::End(Err(e)),
                _ => protocol::unexpected_reply(),
            },
            SyncBookmarks::Folder { client, uuid } => {
                let id = uuid.clone();
                Move::Next(SyncBookmarks::Local { client, uuid }, Action::GetBookmarks(id))
            },
            SyncBookmarks::Local { client, uuid } => match event {
                Event::Bookmarks(Ok(local)) => {
                    let handle = client.clone();
                    let path = remote::bookmarks_file(&uuid);
                    Move::Next(
                        SyncBookmarks::Looked { client, uuid, local },
                        Action::Exists(handle, path),
                    )
                },
                Event::Bookmarks(Err(e)) => Move::End(Err(e)),
                _ => protocol::unexpected_reply(),
            },
            SyncBookmarks::Looked { client, uuid, local } => match event {
                Event::Flag(Ok(true)) => {
                    let handle = client.clone();
                    let path = remote::bookmarks_file(&uuid);
                    Move::Next(
                        SyncBookmarks::Fetched { client, uuid, local },
                        Action::Download(handle, path),
                    )
                },
                _ => merge(client, uuid, local, none, now),
            },
            SyncBookmarks::Fetched { client, uuid, local } => match event {
                Event::Bytes(Ok(bytes)) => Move::Next(
                    SyncBookmarks::Decoded { client, uuid, local },
                    Action::DecodeBookmarks(bytes),
                ),
                _ => merge(client, uuid, local, none, now),
            },
            SyncBookmarks::Decoded { client, uuid, local } => match event {
                Event::CloudBookmarks(Ok(file)) => merge(client, uuid, local, file.bookmarks, now),
                _ => merge(client, uuid, local, none, now),
            },
            SyncBookmarks::Replaced { client, uuid, merged } => match event {
                Event::Unit(Ok(_)) => {
                    let file = make_bookmark_file(uuid.clone(), now, merged);
                    Move::Next(
                        SyncBookmarks::Encoded { client, uuid, updated: true },
                        Action::EncodeBookmarks(file),
                    )
                },
                Event::Unit(Err(e)) => Move::End(Err(e)),
                _ => protocol::unexpected_reply(),
            },
            SyncBookmarks::Encoded { client, uuid, updated } => match event {
                Event::Bytes(Ok(bytes)) => {
                    let path = remote::bookmarks_file(&uuid);
                    Move::Next(
                        SyncBookmarks::Uploaded { updated },
                        Action::Upload(client, path, bytes),
                    )
                },
                Event::Bytes(Err(e)) => Move::End(Err(e)),
                _ => protocol::unexpected_reply(),
            },
            SyncBookmarks::Uploaded { updated } => Move::End(Ok(updated)),
        }
    }
}

} // verus!
