//! Overwriting what the server has with what this device has.
use vstd::prelude::*;

use crate::client::{ClientView, WebDavClient};
use crate::index;
use crate::models::{Book, BookView, SyncResult, SyncResultView};
use crate::number;
use crate::payload::{SyncDataBookItem, SyncDataBookItemView, SyncDataFile, SyncDataFileView};
use crate::progress;
use crate::protocol;
use crate::protocol::{Action, ActionView, Event, EventView, Move, MoveView, Task, TaskView};
use crate::remote;
use crate::tasks::bookmarks;
use crate::tasks::highlights;
use crate::tasks::record;
use crate::text;
use crate::time;
use crate::time::Instant;

verus! {

/// What is being pushed.
pub struct Shelf {
    pub client: WebDavClient,
    pub books: Vec<Book>,
    pub progress_only: bool,
}

/// What a `Shelf` holds.
pub struct ShelfView {
    pub client: ClientView,
    pub books: Seq<BookView>,
    pub progress_only: bool,
}

impl DeepView for Shelf {
    type V = ShelfView;

    open spec fn deep_view(&self) -> ShelfView {
        ShelfView {
            client: self.client.deep_view(),
            books: self.books.deep_view(),
            progress_only: self.progress_only,
        }
    }
}

/// Overwriting what the server has with what this device has.
pub enum ForcePush {
    /// The books of this device were asked for.
    Books { progress_only: bool },
    /// The client was asked for.
    Client { books: Vec<Book>, progress_only: bool },
    /// So many of the folders were asked for.
    Folders { shelf: Shelf, made: usize },
    /// A book was copied to the server.
    Exported { shelf: Shelf, items: Vec<SyncDataBookItem>, at: usize },
    /// The kind of its cover was asked for.
    Extended { shelf: Shelf, items: Vec<SyncDataBookItem>, at: usize },
    /// The new index was handed over to be written down.
    IndexEncoded { shelf: Shelf },
    /// The server was sent the new index.
    IndexSaved { shelf: Shelf },
    /// The progress of a book was asked for.
    Progress { shelf: Shelf, at: usize },
    /// It was handed over to be written down.
    ProgressEncoded { shelf: Shelf, at: usize },
    /// The server was sent it.
    ProgressSent { shelf: Shelf, at: usize },
    /// The bookmarks of a book were asked for.
    Bookmarks { shelf: Shelf, at: usize },
    /// They were handed over to be written down.
    BookmarksEncoded { shelf: Shelf, at: usize },
    /// The server was sent them.
    BookmarksSent { shelf: Shelf, at: usize },
    /// The highlights of a book were asked for.
    Highlights { shelf: Shelf, at: usize },
    /// They were handed over to be written down.
    HighlightsEncoded { shelf: Shelf, at: usize },
    /// The server was sent them.
    HighlightsSent { shelf: Shelf, at: usize },
    /// The history was told.
    Noted,
    /// The settings were told.
    Stamped,
}

/// What a `ForcePush` holds.
pub enum ForcePushView {
    Books { progress_only: bool },
    Client { books: Seq<BookView>, progress_only: bool },
    Folders { shelf: ShelfView, made: int },
    Exported { shelf: ShelfView, items: Seq<SyncDataBookItemView>, at: int },
    Extended { shelf: ShelfView, items: Seq<SyncDataBookItemView>, at: int },
    IndexEncoded { shelf: ShelfView },
    IndexSaved { shelf: ShelfView },
    Progress { shelf: ShelfView, at: int },
    ProgressEncoded { shelf: ShelfView, at: int },
    ProgressSent { shelf: ShelfView, at: int },
    Bookmarks { shelf: ShelfView, at: int },
    BookmarksEncoded { shelf: ShelfView, at: int },
    BookmarksSent { shelf: ShelfView, at: int },
    Highlights { shelf: ShelfView, at: int },
    HighlightsEncoded { shelf: ShelfView, at: int },
    HighlightsSent { shelf: ShelfView, at: int },
    Noted,
    Stamped,
}

impl DeepView for ForcePush {
    type V = ForcePushView;

    open spec fn deep_view(&self) -> ForcePushView {
        match self {
            ForcePush::Books { progress_only } => ForcePushView::Books {
                progress_only: *progress_only,
            },
            ForcePush::Client { books, progress_only } => ForcePushView::Client {
                books: books.deep_view(),
                progress_only: *progress_only,
            },
            ForcePush::Folders { shelf, made } => ForcePushView::Folders {
                shelf: shelf.deep_view(),
                made: *made as int,
            },
            ForcePush::Exported { shelf, items, at } => ForcePushView::Exported {
                shelf: shelf.deep_view(),
                items: items.deep_view(),
                at: *at as int,
            },
            ForcePush::Extended { shelf, items, at } => ForcePushView::Extended {
                shelf: shelf.deep_view(),
                items: items.deep_view(),
                at: *at as int,
            },
            ForcePush::IndexEncoded { shelf } => ForcePushView::IndexEncoded {
                shelf: shelf.deep_view(),
            },
            ForcePush::IndexSaved { shelf } => ForcePushView::IndexSaved {
                shelf: shelf.deep_view(),
            },
            ForcePush::Progress { shelf, at } => ForcePushView::Progress {
                shelf: shelf.deep_view(),
                at: *at as int,
            },
            ForcePush::ProgressEncoded { shelf, at } => ForcePushView::ProgressEncoded {
                shelf: shelf.deep_view(),
                at: *at as int,
            },
            ForcePush::ProgressSent { shelf, at } => ForcePushView::ProgressSent {
                shelf: shelf.deep_view(),
                at: *at as int,
            },
            ForcePush::Bookmarks { shelf, at } => ForcePushView::Bookmarks {
                shelf: shelf.deep_view(),
                at: *at as int,
            },
            ForcePush::BookmarksEncoded { shelf, at } => ForcePushView::BookmarksEncoded {
                shelf: shelf.deep_view(),
                at: *at as int,
            },
            ForcePush::BookmarksSent { shelf, at } => ForcePushView::BookmarksSent {
                shelf: shelf.deep_view(),
                at: *at as int,
            },
            ForcePush::Highlights { shelf, at } => ForcePushView::Highlights {
                shelf: shelf.deep_view(),
                at: *at as int,
            },
            ForcePush::HighlightsEncoded { shelf, at } => ForcePushView::HighlightsEncoded {
                shelf: shelf.deep_view(),
                at: *at as int,
            },
            ForcePush::HighlightsSent { shelf, at } => ForcePushView::HighlightsSent {
                shelf: shelf.deep_view(),
                at: *at as int,
            },
            ForcePush::Noted => ForcePushView::Noted,
            ForcePush::Stamped => ForcePushView::Stamped,
        }
    }
}

/// An index with these books, and with nothing deleted.
pub open spec fn fresh_index(items: Seq<SyncDataBookItemView>, now: Instant) -> SyncDataFileView {
    SyncDataFileView { books: items, ..index::empty_index(now) }
}

/// What the history calls a push.
pub open spec fn push_action(progress_only: bool) -> Seq<char> {
    if progress_only {
        "force_push_progress"@
    } else {
        "force_push_all"@
    }
}

/// What the history tells of a push.
pub open spec fn push_details(count: nat) -> Seq<char> {
    "Force pushed "@ + number::decimal(count) + " books to cloud"@
}

/// What is reported of a push.
pub open spec fn push_result() -> SyncResultView {
    SyncResultView {
        success: true,
        message: "Force push completed successfully"@,
        local_changed: false,
    }
}

impl ForcePushView {
    /// The beginning.
    pub open spec fn start(progress_only: bool) -> MoveView<ForcePushView, SyncResultView> {
        MoveView::Next(ForcePushView::Books { progress_only }, ActionView::GetAllBooks)
    }

    /// Asks for the folders, one after the other.
    pub open spec fn fill(shelf: ShelfView, made: int, now: Instant) -> MoveView<
        ForcePushView,
        SyncResultView,
    > {
        if made < 6 {
            MoveView::Next(
                ForcePushView::Folders { shelf, made: made + 1 },
                ActionView::Mkdir(shelf.client, remote::folders()[made]),
            )
        } else if shelf.progress_only {
            ForcePushView::follow(shelf, 0, now)
        } else {
            ForcePushView::visit(shelf, Seq::empty(), 0, now)
        }
    }

    /// Copies the next book. After the last one the index is written down.
    pub open spec fn visit(
        shelf: ShelfView,
        items: Seq<SyncDataBookItemView>,
        at: int,
        now: Instant,
    ) -> MoveView<ForcePushView, SyncResultView> {
        if at < shelf.books.len() {
            MoveView::Next(
                ForcePushView::Exported { shelf, items, at },
                ActionView::Run(TaskView::ExportBook(shelf.books[at].uuid)),
            )
        } else {
            MoveView::Next(
                ForcePushView::IndexEncoded { shelf },
                ActionView::EncodeIndex(fresh_index(items, now)),
            )
        }
    }

    /// Lists a book, and turns to the next one.
    pub open spec fn enter(
        shelf: ShelfView,
        items: Seq<SyncDataBookItemView>,
        at: int,
        extension: Option<Seq<char>>,
        now: Instant,
    ) -> MoveView<ForcePushView, SyncResultView> {
        ForcePushView::visit(
            shelf,
            items.push(index::entry(shelf.books[at], extension, now)),
            at + 1,
            now,
        )
    }

    /// Pushes what belongs to each book, one after the other, and then tells the history.
    pub open spec fn follow(shelf: ShelfView, at: int, now: Instant) -> MoveView<
        ForcePushView,
        SyncResultView,
    > {
        if at < shelf.books.len() {
            MoveView::Next(
                ForcePushView::Progress { shelf, at },
                ActionView::GetProgress(shelf.books[at].uuid),
            )
        } else {
            MoveView::Next(
                ForcePushView::Noted,
                ActionView::InsertHistory(
                    record::success_entry(
                        now,
                        push_action(shelf.progress_only),
                        push_details(shelf.books.len()),
                    ),
                ),
            )
        }
    }

    /// Asks for the bookmarks of a book.
    pub open spec fn bookmarks(shelf: ShelfView, at: int) -> MoveView<
        ForcePushView,
        SyncResultView,
    > {
        MoveView::Next(
            ForcePushView::Bookmarks { shelf, at },
            ActionView::GetBookmarks(shelf.books[at].uuid),
        )
    }

    /// Asks for the highlights of a book.
    pub open spec fn highlights(shelf: ShelfView, at: int) -> MoveView<
        ForcePushView,
        SyncResultView,
    > {
        MoveView::Next(
            ForcePushView::Highlights { shelf, at },
            ActionView::GetHighlights(shelf.books[at].uuid),
        )
    }

    /// Which book is being dealt with, in a state that deals with one.
    pub open spec fn place(self) -> Option<(ShelfView, int)> {
        match self {
            ForcePushView::Exported { shelf, at, .. } => Some((shelf, at)),
            ForcePushView::Extended { shelf, at, .. } => Some((shelf, at)),
            ForcePushView::Progress { shelf, at } => Some((shelf, at)),
            ForcePushView::ProgressEncoded { shelf, at } => Some((shelf, at)),
            ForcePushView::ProgressSent { shelf, at } => Some((shelf, at)),
            ForcePushView::Bookmarks { shelf, at } => Some((shelf, at)),
            ForcePushView::BookmarksEncoded { shelf, at } => Some((shelf, at)),
            ForcePushView::BookmarksSent { shelf, at } => Some((shelf, at)),
            ForcePushView::Highlights { shelf, at } => Some((shelf, at)),
            ForcePushView::HighlightsEncoded { shelf, at } => Some((shelf, at)),
            ForcePushView::HighlightsSent { shelf, at } => Some((shelf, at)),
            _ => None,
        }
    }

    /// Whether the book that is being dealt with is one of those to push.
    pub open spec fn in_place(self) -> bool {
        match self.place() {
            Some((shelf, at)) => at < shelf.books.len(),
            None => true,
        }
    }

    /// What follows a reply.
    pub open spec fn after(self, event: EventView, now: Instant) -> MoveView<
        ForcePushView,
        SyncResultView,
    > {
        if !self.in_place() {
            protocol::unexpected()
        } else {
            match self {
                ForcePushView::Books { progress_only } => match event {
                    EventView::Books(Ok(books)) => MoveView::Next(
                        ForcePushView::Client { books, progress_only },
                        ActionView::Run(TaskView::Client),
                    ),
                    EventView::Books(Err(e)) => MoveView::End(Err(e)),
                    _ => protocol::unexpected(),
                },
                ForcePushView::Client { books, progress_only } => match event {
                    EventView::Client(Ok(client)) => ForcePushView::fill(
                        ShelfView { client, books, progress_only },
                        0,
                        now,
                    ),
                    EventView::Client(Err(e)) => MoveView::End(Err(e)),
                    _ => protocol::unexpected(),
                },
                ForcePushView::Folders { shelf, made } => ForcePushView::fill(shelf, made, now),
                ForcePushView::Exported { shelf, items, at } => match shelf.books[at].cover_path {
                    Some(path) => MoveView::Next(
                        ForcePushView::Extended { shelf, items, at },
                        ActionView::CoverExtension(path),
                    ),
                    None => ForcePushView::enter(shelf, items, at, None, now),
                },
                ForcePushView::Extended { shelf, items, at } => match event {
                    EventView::Extension(extension) => ForcePushView::enter(
                        shelf,
                        items,
                        at,
                        extension,
                        now,
                    ),
                    _ => protocol::unexpected(),
                },
                ForcePushView::IndexEncoded { shelf } => match event {
                    EventView::Bytes(Ok(bytes)) => MoveView::Next(
                        ForcePushView::IndexSaved { shelf },
                        ActionView::Upload(shelf.client, remote::INDEX@, bytes),
                    ),
                    EventView::Bytes(Err(e)) => MoveView::End(Err(e)),
                    _ => protocol::unexpected(),
                },
                ForcePushView::IndexSaved { shelf } => match event {
                    EventView::Flag(Ok(_)) => ForcePushView::follow(shelf, 0, now),
                    EventView::Flag(Err(e)) => MoveView::End(Err(e)),
                    _ => protocol::unexpected(),
                },
                ForcePushView::Progress { shelf, at } => match event {
                    EventView::Progress(Ok(Some(local))) => MoveView::Next(
                        ForcePushView::ProgressEncoded { shelf, at },
                        ActionView::EncodeProgress(progress::pushed(shelf.books[at].uuid, local)),
                    ),
                    _ => ForcePushView::bookmarks(shelf, at),
                },
                ForcePushView::ProgressEncoded { shelf, at } => match event {
                    EventView::Bytes(Ok(bytes)) => MoveView::Next(
                        ForcePushView::ProgressSent { shelf, at },
                        ActionView::Upload(
                            shelf.client,
                            remote::progress_path(shelf.books[at].uuid),
                            bytes,
                        ),
                    ),
                    EventView::Bytes(Err(e)) => MoveView::End(Err(e)),
                    _ => protocol::unexpected(),
                },
                ForcePushView::ProgressSent { shelf, at } => ForcePushView::bookmarks(shelf, at),
                ForcePushView::Bookmarks { shelf, at } => match event {
                    EventView::Bookmarks(Ok(bookmarks)) => MoveView::Next(
                        ForcePushView::BookmarksEncoded { shelf, at },
                        ActionView::EncodeBookmarks(
                            bookmarks::bookmark_file(shelf.books[at].uuid, now, bookmarks),
                        ),
                    ),
                    _ => ForcePushView::highlights(shelf, at),
                },
                ForcePushView::BookmarksEncoded { shelf, at } => match event {
                    EventView::Bytes(Ok(bytes)) => MoveView::Next(
                        ForcePushView::BookmarksSent { shelf, at },
                        ActionView::Upload(
                            shelf.client,
                            remote::bookmarks_path(shelf.books[at].uuid),
                            bytes,
                        ),
                    ),
                    _ => ForcePushView::highlights(shelf, at),
                },
                ForcePushView::BookmarksSent { shelf, at } => ForcePushView::highlights(shelf, at),
                ForcePushView::Highlights { shelf, at } => match event {
                    EventView::Highlights(Ok(highlights)) => MoveView::Next(
                        ForcePushView::HighlightsEncoded { shelf, at },
                        ActionView::EncodeHighlights(
                            highlights::highlight_file(shelf.books[at].uuid, now, highlights),
                        ),
                    ),
                    _ => ForcePushView::follow(shelf, at + 1, now),
                },
                ForcePushView::HighlightsEncoded { shelf, at } => match event {
                    EventView::Bytes(Ok(bytes)) => MoveView::Next(
                        ForcePushView::HighlightsSent { shelf, at },
                        ActionView::Upload(
                            shelf.client,
                            remote::highlights_path(shelf.books[at].uuid),
                            bytes,
                        ),
                    ),
                    _ => ForcePushView::follow(shelf, at + 1, now),
                },
                ForcePushView::HighlightsSent { shelf, at } => ForcePushView::follow(
                    shelf,
                    at + 1,
                    now,
                ),
                ForcePushView::Noted => MoveView::Next(
                    ForcePushView::Stamped,
                    ActionView::Run(TaskView::RecordTimestamp),
                ),
                ForcePushView::Stamped => MoveView::End(Ok(push_result())),
            }
        }
    }
}

/// Overwrites what the server has with what this device has: the books and the index, unless only
/// progress is asked for, and in either case progress, bookmarks and highlights of every book.
pub fn force_push(progress_only: bool) -> (r: Move<ForcePush, SyncResult>)
    ensures
        r.deep_view() == MoveView::<ForcePushView, SyncResultView>::Next(
            ForcePushView::Books { progress_only },
            ActionView::GetAllBooks,
        ),
        r.deep_view() == ForcePushView::start(progress_only),
{
    Move::Next(ForcePush::Books { progress_only }, Action::GetAllBooks)
}

impl ForcePush {
    fn fill(shelf: Shelf, made: usize, now: Instant) -> (r: Move<ForcePush, SyncResult>)
        requires
            now.valid(),
        ensures
            r.deep_view() == ForcePushView::fill(shelf.deep_view(), made as int, now),
    {
        if made < 6 {
            let handle = shelf.client.clone();
            Move::Next(
                ForcePush::Folders { shelf, made: made + 1 },
                Action::Mkdir(handle, remote::folder(made)),
            )
        } else if shelf.progress_only {
            ForcePush::follow(shelf, 0, now)
        } else {
            let items: Vec<SyncDataBookItem> = Vec::new();
            assert(items.deep_view() =~= Seq::empty());
            ForcePush::visit(shelf, items, 0, now)
        }
    }

    fn visit(shelf: Shelf, items: Vec<SyncDataBookItem>, at: usize, now: Instant) -> (r: Move<
        ForcePush,
        SyncResult,
    >)
        requires
            now.valid(),
        ensures
            r.deep_view() == ForcePushView::visit(
                shelf.deep_view(),
                items.deep_view(),
                at as int,
                now,
            ),
    {
        if at < shelf.books.len() {
            let uuid = shelf.books[at].uuid.clone();
            Move::Next(
                ForcePush::Exported { shelf, items, at },
                Action::Run(Task::ExportBook(uuid)),
            )
        } else {
            let index = SyncDataFile {
                version: 1,
                last_sync_time: time::format_rfc3339(now),
                books: items,
                deleted: Vec::new(),
            };
            assert(index.deleted.deep_view() =~= Seq::empty());
            Move::Next(ForcePush::IndexEncoded { shelf }, Action::EncodeIndex(index))
        }
    }

    fn enter(
        shelf: Shelf,
        items: Vec<SyncDataBookItem>,
        at: usize,
        extension: Option<String>,
        now: Instant,
    ) -> (r: Move<ForcePush, SyncResult>)
        requires
            now.valid(),
            at < shelf.books.len(),
        ensures
            r.deep_view() == ForcePushView::enter(
                shelf.deep_view(),
                items.deep_view(),
                at as int,
                extension.deep_view(),
                now,
            ),
    {
        let item = index::make_entry(&shelf.books[at], &extension, now);
        let ghost v = item.deep_view();
        let ghost before = items.deep_view();
        let mut items = items;
        items.push(item);
        assert(items.deep_view() =~= before.push(v));
        ForcePush::visit(shelf, items, at + 1, now)
    }

    fn follow(shelf: Shelf, at: usize, now: Instant) -> (r: Move<ForcePush, SyncResult>)
        requires
            now.valid(),
        ensures
            r.deep_view() == ForcePushView::follow(shelf.deep_view(), at as int, now),
    {
        if at < shelf.books.len() {
            let uuid = shelf.books[at].uuid.clone();
            Move::Next(ForcePush::Progress { shelf, at }, Action::GetProgress(uuid))
        } else {
            let action = if shelf.progress_only {
                "force_push_progress"
            } else {
                "force_push_all"
            };
            let details = text::concat3(
                "Force pushed ",
                &number::decimal_text(shelf.books.len() as u64),
                " books to cloud",
            );
            let entry = record::history_entry(now, action.to_string(), details);
            Move::Next(ForcePush::Noted, Action::InsertHistory(entry))
        }
    }

    fn bookmarks(shelf: Shelf, at: usize) -> (r: Move<ForcePush, SyncResult>)
        requires
            at < shelf.books.len(),
        ensures
            r.deep_view() == ForcePushView::bookmarks(shelf.deep_view(), at as int),
    {
        let uuid = shelf.books[at].uuid.clone();
        Move::Next(ForcePush::Bookmarks { shelf, at }, Action::GetBookmarks(uuid))
    }

    fn highlights(shelf: Shelf, at: usize) -> (r: Move<ForcePush, SyncResult>)
        requires
            at < shelf.books.len(),
        ensures
            r.deep_view() == ForcePushView::highlights(shelf.deep_view(), at as int),
    {
        let uuid = shelf.books[at].uuid.clone();
        Move::Next(ForcePush::Highlights { shelf, at }, Action::GetHighlights(uuid))
    }

    fn next(shelf: Shelf, at: usize, now: Instant) -> (r: Move<ForcePush, SyncResult>)
        requires
            now.valid(),
            at < shelf.books.len(),
        ensures
            r.deep_view() == ForcePushView::follow(shelf.deep_view(), at + 1, now),
    {
        ForcePush::follow(shelf, at + 1, now)
    }

    fn is_in_place(&self) -> (r: bool)
        ensures
            r == self.deep_view().in_place(),
    {
        match self {
            ForcePush::Exported { shelf, items: _, at } => *at < shelf.books.len(),
            ForcePush::Extended { shelf, items: _, at } => *at < shelf.books.len(),
            ForcePush::Progress { shelf, at } => *at < shelf.books.len(),
            ForcePush::ProgressEncoded { shelf, at } => *at < shelf.books.len(),
            ForcePush::ProgressSent { shelf, at } => *at < shelf.books.len(),
            ForcePush::Bookmarks { shelf, at } => *at < shelf.books.len(),
            ForcePush::BookmarksEncoded { shelf, at } => *at < shelf.books.len(),
            ForcePush::BookmarksSent { shelf, at } => *at < shelf.books.len(),
            ForcePush::Highlights { shelf, at } => *at < shelf.books.len(),
            ForcePush::HighlightsEncoded { shelf, at } => *at < shelf.books.len(),
            ForcePush::HighlightsSent { shelf, at } => *at < shelf.books.len(),
            _ => true,
        }
    }

    /// What follows a reply.
    pub fn advance(self, event: Event, now: Instant) -> (r: Move<ForcePush, SyncResult>)
        requires
            now.valid(),
        ensures
            r.deep_view() == self.deep_view().after(event.deep_view(), now),
    {
        if !self.is_in_place() {
            return protocol::unexpected_reply();
        }
        match self {
            ForcePush::Books { progress_only } => match event {
                Event::Books(Ok(books)) => Move::Next(
                    ForcePush::Client { books, progress_only },
                    Action::Run(Task::Client),
                ),
                Event::Books(Err(e)) => Move::End(Err(e)),
                _ => protocol::unexpected_reply(),
            },
            ForcePush::Client { books, progress_only } => match event {
                Event::Client(Ok(client)) => ForcePush::fill(
                    Shelf { client, books, progress_only },
                    0,
                    now,
                ),
                Event::Client(Err(e)) => Move::End(Err(e)),
                _ => protocol::unexpected_reply(),
            },
            ForcePush::Folders { shelf, made } => ForcePush::fill(shelf, made, now),
            ForcePush::Exported { shelf, items, at } => {
                let cover = shelf.books[at].cover_path.clone();
                match cover {
                    Some(path) => Move::Next(
                        ForcePush::Extended { shelf, items, at },
                        Action::CoverExtension(path),
                    ),
                    None => ForcePush::enter(shelf, items, at, None, now),
                }
            },
            ForcePush::Extended { shelf, items, at } => match event {
                Event::Extension(extension) => ForcePush::enter(shelf, items, at, extension, now),
                _ => protocol::unexpected_reply(),
            },
            ForcePush::IndexEncoded { shelf } => match event {
                Event::Bytes(Ok(bytes)) => {
                    let handle = shelf.client.clone();
                    Move::Next(
                        ForcePush::IndexSaved { shelf },
                        Action::Upload(handle, remote::INDEX.to_string(), bytes),
                    )
                },
                Event::Bytes(Err(e)) => Move::End(Err(e)),
                _ => protocol::unexpected_reply(),
            },
            ForcePush::IndexSaved { shelf } => match event {
                Event::Flag(Ok(_)) => ForcePush::follow(shelf, 0, now),
                Event::Flag(Err(e)) => Move::End(Err(e)),
                _ => protocol::unexpected_reply(),
            },
            ForcePush::Progress { shelf, at } => match event {
                Event::Progress(Ok(Some(local))) => {
                    let payload = progress::push_progress(shelf.books[at].uuid.clone(), &local);
                    Move::Next(
                        ForcePush::ProgressEncoded { shelf, at },
                        Action::EncodeProgress(payload),
                    )
                },
                _ => ForcePush::bookmarks(shelf, at),
            },
            ForcePush::ProgressEncoded { shelf, at } => match event {
                Event::Bytes(Ok(bytes)) => {
                    let handle = shelf.client.clone();
                    let path = remote::progress_file(&shelf.books[at].uuid);
                    Move::Next(
                        ForcePush::ProgressSent { shelf, at },
                        Action::Upload(handle, path, bytes),
                    )
                },
                Event::Bytes(Err(e)) => Move::End(Err(e)),
                _ => protocol::unexpected_reply(),
            },
            ForcePush::ProgressSent { shelf, at } => ForcePush::bookmarks(shelf, at),
            ForcePush::Bookmarks { shelf, at } => match event {
                Event::Bookmarks(Ok(list)) => {
                    let file = bookmarks::make_bookmark_file(
                        shelf.books[at].uuid.clone(),
                        now,
                        list,
                    );
                    Move::Next(
                        ForcePush::BookmarksEncoded { shelf, at },
                        Action::EncodeBookmarks(file),
                    )
                },
                _ => ForcePush::highlights(shelf, at),
            },
            ForcePush::BookmarksEncoded { shelf, at } => match event {
                Event::Bytes(Ok(bytes)) => {
                    let handle = shelf.client.clone();
                    let path = remote::bookmarks_file(&shelf.books[at].uuid);
                    Move::Next(
                        ForcePush::BookmarksSent { shelf, at },
                        Action::Upload(handle, path, bytes),
                    )
                },
                _ => ForcePush::highlights(shelf, at),
            },
            ForcePush::BookmarksSent { shelf, at } => ForcePush::highlights(shelf, at),
            ForcePush::Highlights { shelf, at } => match event {
                Event::Highlights(Ok(list)) => {
                    let file = highlights::make_highlight_file(
                        shelf.books[at].uuid.clone(),
                        now,
                        list,
                    );
                    Move::Next(
                        ForcePush::HighlightsEncoded { shelf, at },
                        Action::EncodeHighlights(file),
                    )
                },
                _ => ForcePush::next(shelf, at, now),
            },
            ForcePush::HighlightsEncoded { shelf, at } => match event {
                Event::Bytes(Ok(bytes)) => {
                    let handle = shelf.client.clone();
                    let path = remote::highlights_file(&shelf.books[at].uuid);
                    Move::Next(
                        ForcePush::HighlightsSent { shelf, at },
                        Action::Upload(handle, path, bytes),
                    )
                },
                _ => ForcePush::next(shelf, at, now),
            },
            ForcePush::HighlightsSent { shelf, at } => ForcePush::next(shelf, at, now),
            ForcePush::Noted => Move::Next(ForcePush::Stamped, Action::Run(Task::RecordTimestamp)),
            ForcePush::Stamped => Move::End(
                Ok(
                    SyncResult {
                        success: true,
                        message: "Force push completed successfully".to_string(),
                        local_changed: false,
                    },
                ),
            ),
        }
    }
}

} // verus!
