//! Overwriting what this device has with what the server has.
use vstd::prelude::*;

use crate::client::{ClientView, WebDavClient};
use crate::models::{CloudBook, CloudBookView, SyncResult, SyncResultView};
use crate::progress;
use crate::protocol;
use crate::protocol::{Action, ActionView, Event, EventView, Move, MoveView, Task, TaskView};
use crate::remote;
use crate::tasks::push::{Shelf, ShelfView};
use crate::tasks::record;
use crate::time::Instant;

verus! {

/// Overwriting what this device has with what the server has.
pub enum ForcePull {
    /// The client was asked for.
    Client { progress_only: bool, dir: String },
    /// The books on the server were asked for.
    Listed { client: WebDavClient, dir: String },
    /// A book was copied from the server.
    Imported { client: WebDavClient, dir: String, cloud: Vec<CloudBook>, at: usize },
    /// The books of this device were asked for.
    Books { client: WebDavClient, progress_only: bool },
    /// The progress of a book was asked for.
    Progress { shelf: Shelf, at: usize },
    /// It was handed over to be read.
    ProgressDecoded { shelf: Shelf, at: usize },
    /// This device was given it.
    ProgressSaved { shelf: Shelf, at: usize },
    /// The bookmarks of a book were asked for.
    Bookmarks { shelf: Shelf, at: usize },
    /// They were handed over to be read.
    BookmarksDecoded { shelf: Shelf, at: usize },
    /// This device was given them.
    BookmarksReplaced { shelf: Shelf, at: usize },
    /// The highlights of a book were asked for.
    Highlights { shelf: Shelf, at: usize },
    /// They were handed over to be read.
    HighlightsDecoded { shelf: Shelf, at: usize },
    /// This device was given them.
    HighlightsReplaced { shelf: Shelf, at: usize },
    /// The history was told.
    Noted,
    /// The settings were told.
    Stamped,
}

/// What a `ForcePull` holds.
pub enum ForcePullView {
    Client { progress_only: bool, dir: Seq<char> },
    Listed { client: ClientView, dir: Seq<char> },
    Imported { client: ClientView, dir: Seq<char>, cloud: Seq<CloudBookView>, at: int },
    Books { client: ClientView, progress_only: bool },
    Progress { shelf: ShelfView, at: int },
    ProgressDecoded { shelf: ShelfView, at: int },
    ProgressSaved { shelf: ShelfView, at: int },
    Bookmarks { shelf: ShelfView, at: int },
    BookmarksDecoded { shelf: ShelfView, at: int },
    BookmarksReplaced { shelf: ShelfView, at: int },
    Highlights { shelf: ShelfView, at: int },
    HighlightsDecoded { shelf: ShelfView, at: int },
    HighlightsReplaced { shelf: ShelfView, at: int },
    Noted,
    Stamped,
}

impl DeepView for ForcePull {
    type V = ForcePullView;

    open spec fn deep_view(&self) -> ForcePullView {
        match self {
            ForcePull::Client { progress_only, dir } => ForcePullView::Client {
                progress_only: *progress_only,
                dir: dir@,
            },
            ForcePull::Listed { client, dir } => ForcePullView::Listed {
                client: client.deep_view(),
                dir: dir@,
            },
            ForcePull::Imported { client, dir, cloud, at } => ForcePullView::Imported {
                client: client.deep_view(),
                dir: dir@,
                cloud: cloud.deep_view(),
                at: *at as int,
            },
            ForcePull::Books { client, progress_only } => ForcePullView::Books {
                client: client.deep_view(),
                progress_only: *progress_only,
            },
            ForcePull::Progress { shelf, at } => ForcePullView::Progress {
                shelf: shelf.deep_view(),
                at: *at as int,
            },
            ForcePull::ProgressDecoded { shelf, at } => ForcePullView::ProgressDecoded {
                shelf: shelf.deep_view(),
                at: *at as int,
            },
            ForcePull::ProgressSaved { shelf, at } => ForcePullView::ProgressSaved {
                shelf: shelf.deep_view(),
                at: *at as int,
            },
            ForcePull::Bookmarks { shelf, at } => ForcePullView::Bookmarks {
                shelf: shelf.deep_view(),
                at: *at as int,
            },
            ForcePull::BookmarksDecoded { shelf, at } => ForcePullView::BookmarksDecoded {
                shelf: shelf.deep_view(),
                at: *at as int,
            },
            ForcePull::BookmarksReplaced { shelf, at } => ForcePullView::BookmarksReplaced {
                shelf: shelf.deep_view(),
                at: *at as int,
            },
            ForcePull::Highlights { shelf, at } => ForcePullView::Highlights {
                shelf: shelf.deep_view(),
                at: *at as int,
            },
            ForcePull::HighlightsDecoded { shelf, at } => ForcePullView::HighlightsDecoded {
                shelf: shelf.deep_view(),
                at: *at as int,
            },
            ForcePull::HighlightsReplaced { shelf, at } => ForcePullView::HighlightsReplaced {
                shelf: shelf.deep_view(),
                at: *at as int,
            },
            ForcePull::Noted => ForcePullView::Noted,
            ForcePull::Stamped => ForcePullView::Stamped,
        }
    }
}

/// What the history calls a pull.
pub open spec fn pull_action(progress_only: bool) -> Seq<char> {
    if progress_only {
        "force_pull_progress"@
    } else {
        "force_pull_all"@
    }
}

/// What is reported of a pull.
pub open spec fn pull_result() -> SyncResultView {
    SyncResultView {
        success: true,
        message: "Force pull completed successfully"@,
        local_changed: true,
    }
}

impl ForcePullView {
    /// The beginning.
    pub open spec fn start(
        progress_only: bool,
        dir: Seq<char>,
    ) -> MoveView<ForcePullView, SyncResultView> {
        MoveView::Next(
            ForcePullView::Client { progress_only, dir },
            ActionView::Run(TaskView::Client),
        )
    }

    /// Copies the next book from the server. After the last one the books of this device are asked for.
    pub open spec fn visit(
        client: ClientView,
        dir: Seq<char>,
        cloud: Seq<CloudBookView>,
        at: int,
    ) -> MoveView<ForcePullView, SyncResultView> {
        if at < cloud.len() {
            MoveView::Next(
                ForcePullView::Imported { client, dir, cloud, at },
                ActionView::Run(TaskView::ImportBook(cloud[at].uuid, dir)),
            )
        } else {
            MoveView::Next(
                ForcePullView::Books { client, progress_only: false },
                ActionView::GetAllBooks,
            )
        }
    }

    /// Pulls what belongs to each book, one after the other, and then tells the history.
    pub open spec fn follow(shelf: ShelfView, at: int, now: Instant) -> MoveView<
        ForcePullView,
        SyncResultView,
    > {
        if at < shelf.books.len() {
            MoveView::Next(
                ForcePullView::Progress { shelf, at },
                ActionView::Download(shelf.client, remote::progress_path(shelf.books[at].uuid)),
            )
        } else {
            MoveView::Next(
                ForcePullView::Noted,
                ActionView::InsertHistory(
                    record::success_entry(
                        now,
                        pull_action(shelf.progress_only),
                        "Force pulled cloud data to local"@,
                    ),
                ),
            )
        }
    }

    /// Asks for the bookmarks of a book.
    pub open spec fn bookmarks(shelf: ShelfView, at: int) -> MoveView<
        ForcePullView,
        SyncResultView,
    > {
        MoveView::Next(
            ForcePullView::Bookmarks { shelf, at },
            ActionView::Download(shelf.client, remote::bookmarks_path(shelf.books[at].uuid)),
        )
    }

    /// Asks for the highlights of a book.
    pub open spec fn highlights(shelf: ShelfView, at: int) -> MoveView<
        ForcePullView,
        SyncResultView,
    > {
        MoveView::Next(
            ForcePullView::Highlights { shelf, at },
            ActionView::Download(shelf.client, remote::highlights_path(shelf.books[at].uuid)),
        )
    }

    /// Which book of this device is being dealt with, in a state that deals with one.
    pub open spec fn place(self) -> Option<(ShelfView, int)> {
        match self {
            ForcePullView::Progress { shelf, at } => Some((shelf, at)),
            ForcePullView::ProgressDecoded { shelf, at } => Some((shelf, at)),
            ForcePullView::ProgressSaved { shelf, at } => Some((shelf, at)),
            ForcePullView::Bookmarks { shelf, at } => Some((shelf, at)),
            ForcePullView::BookmarksDecoded { shelf, at } => Some((shelf, at)),
            ForcePullView::BookmarksReplaced { shelf, at } => Some((shelf, at)),
            ForcePullView::Highlights { shelf, at } => Some((shelf, at)),
            ForcePullView::HighlightsDecoded { shelf, at } => Some((shelf, at)),
            ForcePullView::HighlightsReplaced { shelf, at } => Some((shelf, at)),
            _ => None,
        }
    }

    /// Whether the book that is being dealt with is one of those to pull.
    pub open spec fn in_place(self) -> bool {
        match self {
            ForcePullView::Imported { cloud, at, .. } => at < cloud.len(),
            _ => match self.place() {
                Some((shelf, at)) => at < shelf.books.len(),
                None => true,
            },
        }
    }

    /// What follows a reply.
    pub open spec fn after(self, event: EventView, now: Instant) -> MoveView<
        ForcePullView,
        SyncResultView,
    > {
        if !self.in_place() {
            protocol::unexpected()
        } else {
            match self {
                ForcePullView::Client { progress_only, dir } => match event {
                    EventView::Client(Ok(client)) => if progress_only {
                        MoveView::Next(
                            ForcePullView::Books { client, progress_only },
                            ActionView::GetAllBooks,
                        )
                    } else {
                        MoveView::Next(
                            ForcePullView::Listed { client, dir },
                            ActionView::Run(TaskView::FetchCloudBooks(Some(dir))),
                        )
                    },
                    EventView::Client(Err(e)) => MoveView::End(Err(e)),
                    _ => protocol::unexpected(),
                },
                ForcePullView::Listed { client, dir } => match event {
                    EventView::CloudBooks(Ok(cloud)) => ForcePullView::visit(client, dir, cloud, 0),
                    EventView::CloudBooks(Err(e)) => MoveView::End(Err(e)),
                    _ => protocol::unexpected(),
                },
                ForcePullView::Imported { client, dir, cloud, at } => ForcePullView::visit(
                    client,
                    dir,
                    cloud,
                    at + 1,
                ),
                ForcePullView::Books { client, progress_only } => match event {
                    EventView::Books(Ok(books)) => ForcePullView::follow(
                        ShelfView { client, books, progress_only },
                        0,
                        now,
                    ),
                    EventView::Books(Err(e)) => MoveView::End(Err(e)),
                    _ => protocol::unexpected(),
                },
                ForcePullView::Progress { shelf, at } => match event {
                    EventView::Bytes(Ok(bytes)) => MoveView::Next(
                        ForcePullView::ProgressDecoded { shelf, at },
                        ActionView::DecodeProgress(bytes),
                    ),
                    _ => ForcePullView::bookmarks(shelf, at),
                },
                ForcePullView::ProgressDecoded { shelf, at } => match event {
                    EventView::CloudProgress(Ok(cloud)) => MoveView::Next(
                        ForcePullView::ProgressSaved { shelf, at },
                        ActionView::SaveProgress(progress::pulled(shelf.books[at].uuid, cloud)),
                    ),
                    _ => ForcePullView::bookmarks(shelf, at),
                },
                ForcePullView::ProgressSaved { shelf, at } => ForcePullView::bookmarks(shelf, at),
                ForcePullView::Bookmarks { shelf, at } => match event {
                    EventView::Bytes(Ok(bytes)) => MoveView::Next(
                        ForcePullView::BookmarksDecoded { shelf, at },
                        ActionView::DecodeBookmarks(bytes),
                    ),
                    _ => ForcePullView::highlights(shelf, at),
                },
                ForcePullView::BookmarksDecoded { shelf, at } => match event {
                    EventView::CloudBookmarks(Ok(file)) => MoveView::Next(
                        ForcePullView::BookmarksReplaced { shelf, at },
                        ActionView::ReplaceBookmarks(shelf.books[at].uuid, file.bookmarks),
                    ),
                    _ => ForcePullView::highlights(shelf, at),
                },
                ForcePullView::BookmarksReplaced { shelf, at } => ForcePullView::highlights(
                    shelf,
                    at,
                ),
                ForcePullView::Highlights { shelf, at } => match event {
                    EventView::Bytes(Ok(bytes)) => MoveView::Next(
                        ForcePullView::HighlightsDecoded { shelf, at },
                        ActionView::DecodeHighlights(bytes),
                    ),
                    _ => ForcePullView::follow(shelf, at + 1, now),
                },
                ForcePullView::HighlightsDecoded { shelf, at } => match event {
                    EventView::CloudHighlights(Ok(file)) => MoveView::Next(
                        ForcePullView::HighlightsReplaced { shelf, at },
                        ActionView::ReplaceHighlights(shelf.books[at].uuid, file.highlights),
                    ),
                    _ => ForcePullView::follow(shelf, at + 1, now),
                },
                ForcePullView::HighlightsReplaced { shelf, at } => ForcePullView::follow(
                    shelf,
                    at + 1,
                    now,
                ),
                ForcePullView::Noted => MoveView::Next(
                    ForcePullView::Stamped,
                    ActionView::Run(TaskView::RecordTimestamp),
                ),
                ForcePullView::Stamped => MoveView::End(Ok(pull_result())),
            }
        }
    }
}

/// Overwrites what this device has with what the server has: the books, unless only progress is
/// asked for, and in either case progress, bookmarks and highlights of every book of this device.
pub fn force_pull(progress_only: bool, documents_dir: String) -> (r: Move<ForcePull, SyncResult>)
    ensures
        r.deep_view() == MoveView::<ForcePullView, SyncResultView>::Next(
            ForcePullView::Client { progress_only, dir: documents_dir@ },
            ActionView::Run(TaskView::Client),
        ),
        r.deep_view() == ForcePullView::start(progress_only, documents_dir@),
{
    Move::Next(
        ForcePull::Client { progress_only, dir: documents_dir },
        Action::Run(Task::Client),
    )
}

impl ForcePull {
    fn visit(client: WebDavClient, dir: String, cloud: Vec<CloudBook>, at: usize) -> (r: Move<
        ForcePull,
        SyncResult,
    >)
        ensures
            r.deep_view() == ForcePullView::visit(
                client.deep_view(),
                dir@,
                cloud.deep_view(),
                at as int,
            ),
    {
        if at < cloud.len() {
            let uuid = cloud[at].uuid.clone();
            let target = dir.clone();
            Move::Next(
                ForcePull::Imported { client, dir, cloud, at },
                Action::Run(Task::ImportBook(uuid, target)),
            )
        } else {
            Move::Next(ForcePull::Books { client, progress_only: false }, Action::GetAllBooks)
        }
    }

    fn follow(shelf: Shelf, at: usize, now: Instant) -> (r: Move<ForcePull, SyncResult>)
        requires
            now.valid(),
        ensures
            r.deep_view() == ForcePullView::follow(shelf.deep_view(), at as int, now),
    {
        if at < shelf.books.len() {
            let handle = shelf.client.clone();
            let path = remote::progress_file(&shelf.books[at].uuid);
            Move::Next(ForcePull::Progress { shelf, at }, Action::Download(handle, path))
        } else {
            let action = if shelf.progress_only {
                "force_pull_progress"
            } else {
                "force_pull_all"
            };
            let entry = record::history_entry(
                now,
                action.to_string(),
                "Force pulled cloud data to local".to_string(),
            );
            Move::Next(ForcePull::Noted, Action::InsertHistory(entry))
        }
    }

    fn bookmarks(shelf: Shelf, at: usize) -> (r: Move<ForcePull, SyncResult>)
        requires
            at < shelf.books.len(),
        ensures
            r.deep_view() == ForcePullView::bookmarks(shelf.deep_view(), at as int),
    {
        let handle = shelf.client.clone();
        let path = remote::bookmarks_file(&shelf.books[at].uuid);
        Move::Next(ForcePull::Bookmarks { shelf, at }, Action::Download(handle, path))
    }

    fn highlights(shelf: Shelf, at: usize) -> (r: Move<ForcePull, SyncResult>)
        requires
            at < shelf.books.len(),
        ensures
            r.deep_view() == ForcePullView::highlights(shelf.deep_view(), at as int),
    {
        let handle = shelf.client.clone();
        let path = remote::highlights_file(&shelf.books[at].uuid);
        Move::Next(ForcePull::Highlights { shelf, at }, Action::Download(handle, path))
    }

    fn next(shelf: Shelf, at: usize, now: Instant) -> (r: Move<ForcePull, SyncResult>)
        requires
            now.valid(),
            at < shelf.books.len(),
        ensures
            r.deep_view() == ForcePullView::follow(shelf.deep_view(), at + 1, now),
    {
        ForcePull::follow(shelf, at + 1, now)
    }

    fn is_in_place(&self) -> (r: bool)
        ensures
            r == self.deep_view().in_place(),
    {
        match self {
            ForcePull::Imported { client: _, dir: _, cloud, at } => *at < cloud.len(),
            ForcePull::Progress { shelf, at } => *at < shelf.books.len(),
            ForcePull::ProgressDecoded { shelf, at } => *at < shelf.books.len(),
            ForcePull::ProgressSaved { shelf, at } => *at < shelf.books.len(),
            ForcePull::Bookmarks { shelf, at } => *at < shelf.books.len(),
            ForcePull::BookmarksDecoded { shelf, at } => *at < shelf.books.len(),
            ForcePull::BookmarksReplaced { shelf, at } => *at < shelf.books.len(),
            ForcePull::Highlights { shelf, at } => *at < shelf.books.len(),
            ForcePull::HighlightsDecoded { shelf, at } => *at < shelf.books.len(),
            ForcePull::HighlightsReplaced { shelf, at } => *at < shelf.books.len(),
            _ => true,
        }
    }

    /// What follows a reply.
    pub fn advance(self, event: Event, now: Instant) -> (r: Move<ForcePull, SyncResult>)
        requires
            now.valid(),
        ensures
            r.deep_view() == self.deep_view().after(event.deep_view(), now),
    {
        if !self.is_in_place() {
            return protocol::unexpected_reply();
        }
        match self {
            ForcePull::Client { progress_only, dir } => match event {
                Event::Client(Ok(client)) => if progress_only {
                    Move::Next(ForcePull::Books { client, progress_only }, Action::GetAllBooks)
                } else {
                    let target = dir.clone();
                    Move::Next(
                        ForcePull::Listed { client, dir },
                        Action::Run(Task::FetchCloudBooks(Some(target))),
                    )
                },
                Event::Client(Err(e)) => Move::End(Err(e)),
                _ => protocol::unexpected_reply(),
            },
            ForcePull::Listed { client, dir } => match event {
                Event::CloudBooks(Ok(cloud)) => ForcePull::visit(client, dir, cloud, 0),
                Event::CloudBooks(Err(e)) => Move::End(Err(e)),
                _ => protocol::unexpected_reply(),
            },
            ForcePull::Imported { client, dir, cloud, at } => {
                assert(at < cloud.len());
                ForcePull::visit(client, dir, cloud, at + 1)
            },
            ForcePull::Books { client, progress_only } => match event {
                Event::Books(Ok(books)) => ForcePull::follow(
                    Shelf { client, books, progress_only },
                    0,
                    now,
                ),
                Event::Books(Err(e)) => Move::End(Err(e)),
                _ => protocol::unexpected_reply(),
            },
            ForcePull::Progress { shelf, at } => match event {
                Event::Bytes(Ok(bytes)) => Move::Next(
                    ForcePull::ProgressDecoded { shelf, at },
                    Action::DecodeProgress(bytes),
                ),
                _ => ForcePull::bookmarks(shelf, at),
            },
            ForcePull::ProgressDecoded { shelf, at } => match event {
                Event::CloudProgress(Ok(cloud)) => {
                    let adopted = progress::pull_progress(shelf.books[at].uuid.clone(), &cloud);
                    Move::Next(
                        ForcePull::ProgressSaved { shelf, at },
                        Action::SaveProgress(adopted),
                    )
                },
                _ => ForcePull::bookmarks(shelf, at),
            },
            ForcePull::ProgressSaved { shelf, at } => ForcePull::bookmarks(shelf, at),
            ForcePull::Bookmarks { shelf, at } => match event {
                Event::Bytes(Ok(bytes)) => Move::Next(
                    ForcePull::BookmarksDecoded { shelf, at },
                    Action::DecodeBookmarks(bytes),
                ),
                _ => ForcePull::highlights(shelf, at),
            },
            ForcePull::BookmarksDecoded { shelf, at } => match event {
                Event::CloudBookmarks(Ok(file)) => {
                    let uuid = shelf.books[at].uuid.clone();
                    Move::Next(
                        ForcePull::BookmarksReplaced { shelf, at },
                        Action::ReplaceBookmarks(uuid, file.bookmarks),
                    )
                },
                _ => ForcePull::highlights(shelf, at),
            },
            ForcePull::BookmarksReplaced { shelf, at } => ForcePull::highlights(shelf, at),
            ForcePull::Highlights { shelf, at } => match event {
                Event::Bytes(Ok(bytes)) => Move::Next(
                    ForcePull::HighlightsDecoded { shelf, at },
                    Action::DecodeHighlights(bytes),
                ),
                _ => ForcePull::next(shelf, at, now),
            },
            ForcePull::HighlightsDecoded { shelf, at } => match event {
                Event::CloudHighlights(Ok(file)) => {
                    let uuid = shelf.books[at].uuid.clone();
                    Move::Next(
                        ForcePull::HighlightsReplaced { shelf, at },
                        Action::ReplaceHighlights(uuid, file.highlights),
                    )
                },
                _ => ForcePull::next(shelf, at, now),
            },
            ForcePull::HighlightsReplaced { shelf, at } => ForcePull::next(shelf, at, now),
            ForcePull::Noted => Move::Next(ForcePull::Stamped, Action::Run(Task::RecordTimestamp)),
            ForcePull::Stamped => Move::End(
                Ok(
                    SyncResult {
                        success: true,
                        message: "Force pull completed successfully".to_string(),
                        local_changed: true,
                    },
                ),
            ),
        }
    }
}

} // verus!
