//! Listing the books on the server.
use vstd::prelude::*;

use crate::client::{ClientView, WebDavClient};
use crate::index;
use crate::models::{CloudBook, CloudBookView};
use crate::payload::SyncDataBookItemView;
use crate::protocol;
use crate::protocol::{
    Action, ActionView, CoverFetch, CoverFetchView, Event, EventView, Move, MoveView, Task, TaskView,
};
use crate::remote;
use crate::tasks::import;

verus! {

/// Listing the books on the server.
pub enum FetchCloudBooks {
    /// The client was asked for.
    Client { dir: Option<String> },
    /// The index was looked for.
    Looked { client: WebDavClient, dir: Option<String> },
    /// The index was asked for.
    Fetched { client: WebDavClient, dir: Option<String> },
    /// The index was handed over to be read.
    Decoded { client: WebDavClient, dir: Option<String> },
    /// The covers were asked for.
    Covers { books: Vec<CloudBook> },
}

/// What a `FetchCloudBooks` holds.
pub enum FetchCloudBooksView {
    Client { dir: Option<Seq<char>> },
    Looked { client: ClientView, dir: Option<Seq<char>> },
    Fetched { client: ClientView, dir: Option<Seq<char>> },
    Decoded { client: ClientView, dir: Option<Seq<char>> },
    Covers { books: Seq<CloudBookView> },
}

impl DeepView for FetchCloudBooks {
    type V = FetchCloudBooksView;

    open spec fn deep_view(&self) -> FetchCloudBooksView {
        match self {
            FetchCloudBooks::Client { dir } => FetchCloudBooksView::Client { dir: dir.deep_view() },
            FetchCloudBooks::Looked { client, dir } => FetchCloudBooksView::Looked {
                client: client.deep_view(),
                dir: dir.deep_view(),
            },
            FetchCloudBooks::Fetched { client, dir } => FetchCloudBooksView::Fetched {
                client: client.deep_view(),
                dir: dir.deep_view(),
            },
            FetchCloudBooks::Decoded { client, dir } => FetchCloudBooksView::Decoded {
                client: client.deep_view(),
                dir: dir.deep_view(),
            },
            FetchCloudBooks::Covers { books } => FetchCloudBooksView::Covers {
                books: books.deep_view(),
            },
        }
    }
}

/// The cover of a book, and where it belongs on this device.
pub open spec fn cover_fetch(book: CloudBookView, dir: Seq<char>) -> CoverFetchView {
    let extension = book.cover_extension.unwrap_or(".jpg"@);
    CoverFetchView {
        remote: remote::cover_path(book.uuid, extension),
        local: import::local_cover(dir, book.uuid, extension),
    }
}

/// The covers of those books that have one.
pub open spec fn cover_fetches(books: Seq<CloudBookView>, dir: Seq<char>) -> Seq<CoverFetchView> {
    books.filter(|book: CloudBookView| book.has_cover).map_values(
        |book: CloudBookView| cover_fetch(book, dir),
    )
}

fn list_covers(books: &Vec<CloudBook>, dir: &String) -> (r: Vec<CoverFetch>)
    ensures
        r.deep_view() == cover_fetches(books.deep_view(), dir@),
{
    let ghost all = books.deep_view();
    let ghost p = |book: CloudBookView| book.has_cover;
    let ghost f = |book: CloudBookView| cover_fetch(book, dir@);
    let mut r: Vec<CoverFetch> = Vec::new();
    proof {
        reveal(Seq::filter);
        assert(r.deep_view() =~= all.take(0).filter(p).map_values(f));
    }
    let mut i: usize = 0;
    while i < books.len()
        invariant
            i <= books.len(),
            all == books.deep_view(),
            p == (|book: CloudBookView| book.has_cover),
            f == (|book: CloudBookView| cover_fetch(book, dir@)),
            r.deep_view() == all.take(i as int).filter(p).map_values(f),
        decreases books.len() - i,
    {
        proof {
            index::lemma_filter_next(all, p, i as int);
        }
        let ghost before = r.deep_view();
        let book = &books[i];
        assert(all[i as int] == book.deep_view());
        if book.has_cover {
            let extension = match &book.cover_extension {
                Some(extension) => extension.clone(),
                None => ".jpg".to_string(),
            };
            let fetch = CoverFetch {
                remote: remote::cover_file(&book.uuid, &extension),
                local: import::cover_location(dir.clone(), &book.uuid, &extension),
            };
            let ghost v = fetch.deep_view();
            r.push(fetch);
            assert(v == f(all[i as int]));
            assert(r.deep_view() =~= before.push(v));
            assert(r.deep_view() =~= all.take(i + 1).filter(p).map_values(f));
        }
        i = i + 1;
    }
    assert(all.take(all.len() as int) =~= all);
    r
}

impl FetchCloudBooksView {
    /// The beginning.
    pub open spec fn start(
        dir: Option<Seq<char>>,
    ) -> MoveView<FetchCloudBooksView, Seq<CloudBookView>> {
        MoveView::Next(FetchCloudBooksView::Client { dir }, ActionView::Run(TaskView::Client))
    }

    /// What follows a reply.
    pub open spec fn after(self, event: EventView) -> MoveView<FetchCloudBooksView, Seq<CloudBookView>> {
        match self {
            FetchCloudBooksView::Client { dir } => match event {
                EventView::Client(Ok(client)) => MoveView::Next(
                    FetchCloudBooksView::Looked { client, dir },
                    ActionView::Exists(client, remote::INDEX@),
                ),
                EventView::Client(Err(e)) => MoveView::End(Err(e)),
                _ => protocol::unexpected(),
            },
            FetchCloudBooksView::Looked { client, dir } => match event {
                EventView::Flag(Ok(true)) => MoveView::Next(
                    FetchCloudBooksView::Fetched { client, dir },
                    ActionView::Download(client, remote::INDEX@),
                ),
                _ => MoveView::End(Ok(Seq::empty())),
            },
            FetchCloudBooksView::Fetched { client, dir } => match event {
                EventView::Bytes(Ok(bytes)) => MoveView::Next(
                    FetchCloudBooksView::Decoded { client, dir },
                    ActionView::DecodeIndex(bytes),
                ),
                EventView::Bytes(Err(e)) => MoveView::End(Err(e)),
                _ => protocol::unexpected(),
            },
            FetchCloudBooksView::Decoded { client, dir } => match event {
                EventView::Index(Ok(index)) => {
                    let books = index.books.map_values(
                        |item: SyncDataBookItemView| index::shown(item),
                    );
                    match dir {
                        Some(dir) => MoveView::Next(
                            FetchCloudBooksView::Covers { books },
                            ActionView::FetchCovers(client, cover_fetches(books, dir)),
                        ),
                        None => MoveView::End(Ok(books)),
                    }
                },
                EventView::Index(Err(e)) => MoveView::End(Err(e)),
                _ => protocol::unexpected(),
            },
            FetchCloudBooksView::Covers { books } => MoveView::End(Ok(books)),
        }
    }
}

/// Lists the books on the server; none where there is no index yet. If a folder for documents
/// is given, the covers are fetched in the background.
pub fn fetch_cloud_books(documents_dir: Option<String>) -> (r: Move<FetchCloudBooks, Vec<CloudBook>>)
    ensures
        r.deep_view() == MoveView::<FetchCloudBooksView, Seq<CloudBookView>>::Next(
            FetchCloudBooksView::Client { dir: documents_dir.deep_view() },
            ActionView::Run(TaskView::Client),
        ),
        r.deep_view() == FetchCloudBooksView::start(documents_dir.deep_view()),
{
    Move::Next(FetchCloudBooks::Client { dir: documents_dir }, Action::Run(Task::Client))
}

impl FetchCloudBooks {
    /// What follows a reply.
    pub fn advance(self, event: Event) -> (r: Move<FetchCloudBooks, Vec<CloudBook>>)
        ensures
            r.deep_view() == self.deep_view().after(event.deep_view()),
    {
        match self {
            FetchCloudBooks::Client { dir } => match event {
                Event::Client(Ok(client)) => {
                    let handle = client.clone();
                    Move::Next(
                        FetchCloudBooks::Looked { client, dir },
                        Action::Exists(handle, remote::INDEX.to_string()),
                    )
                },
                Event::Client(Err(e)) => Move::End(Err(e)),
                _ => protocol::unexpected_reply(),
            },
            FetchCloudBooks::Looked { client, dir } => match event {
                Event::Flag(Ok(true)) => {
                    let handle = client.clone();
                    Move::Next(
                        FetchCloudBooks::Fetched { client, dir },
                        Action::Download(handle, remote::INDEX.to_string()),
                    )
                },
                _ => {
                    let books: Vec<CloudBook> = Vec::new();
                    assert(books.deep_view() =~= Seq::empty());
                    Move::End(Ok(books))
                },
            },
            FetchCloudBooks::Fetched { client, dir } => match event {
                Event::Bytes(Ok(bytes)) => Move::Next(
                    FetchCloudBooks::Decoded { client, dir },
                    Action::DecodeIndex(bytes),
                ),
                Event::Bytes(Err(e)) => Move::End(Err(e)),
                _ => protocol::unexpected_reply(),
            },
            FetchCloudBooks::Decoded { client, dir } => match event {
                Event::Index(Ok(index)) => {
                    let books = index::show_books(index.books);
                    match dir {
                        Some(dir) => {
                            let covers = list_covers(&books, &dir);
                            Move::Next(
                                FetchCloudBooks::Covers { books },
                                Action::FetchCovers(client, covers),
                            )
                        },
                        None => Move::End(Ok(books)),
                    }
                },
                Event::Index(Err(e)) => Move::End(Err(e)),
                _ => protocol::unexpected_reply(),
            },
            FetchCloudBooks::Covers { books } => Move::End(Ok(books)),
        }
    }
}

/// Fetching the covers that this device does not have yet.
pub enum FetchMissingCovers {
    /// Where a cover belongs on this device was asked.
    Placed { client: WebDavClient, covers: Vec<CoverFetch>, at: usize },
    /// Whether this device has a cover was asked.
    Looked { client: WebDavClient, covers: Vec<CoverFetch>, at: usize, path: String },
    /// It has not; the cover was asked for.
    Fetched { client: WebDavClient, covers: Vec<CoverFetch>, at: usize },
}

/// What a `FetchMissingCovers` holds.
pub enum FetchMissingCoversView {
    Placed { client: ClientView, covers: Seq<CoverFetchView>, at: int },
    Looked { client: ClientView, covers: Seq<CoverFetchView>, at: int, path: Seq<char> },
    Fetched { client: ClientView, covers: Seq<CoverFetchView>, at: int },
}

impl DeepView for FetchMissingCovers {
    type V = FetchMissingCoversView;

    open spec fn deep_view(&self) -> FetchMissingCoversView {
        match self {
            FetchMissingCovers::Placed { client, covers, at } => FetchMissingCoversView::Placed {
                client: client.deep_view(),
                covers: covers.deep_view(),
                at: *at as int,
            },
            FetchMissingCovers::Looked { client, covers, at, path } => FetchMissingCoversView::Looked {
                client: client.deep_view(),
                covers: covers.deep_view(),
                at: *at as int,
                path: path@,
            },
            FetchMissingCovers::Fetched { client, covers, at } => FetchMissingCoversView::Fetched {
                client: client.deep_view(),
                covers: covers.deep_view(),
                at: *at as int,
            },
        }
    }
}

impl FetchMissingCoversView {
    /// Turns to the next cover.
    pub open spec fn visit(client: ClientView, covers: Seq<CoverFetchView>, at: int) -> MoveView<
        FetchMissingCoversView,
        (),
    > {
        if at < covers.len() {
            MoveView::Next(
                FetchMissingCoversView::Placed { client, covers, at },
                ActionView::Locate(covers[at].local),
            )
        } else {
            MoveView::End(Ok(()))
        }
    }

    /// What follows a reply. A cover that cannot be fetched is passed over.
    pub open spec fn after(self, event: EventView) -> MoveView<FetchMissingCoversView, ()> {
        match self {
            FetchMissingCoversView::Placed { client, covers, at } => match event {
                EventView::Located(path) => MoveView::Next(
                    FetchMissingCoversView::Looked { client, covers, at, path },
                    ActionView::FileExists(path),
                ),
                _ => protocol::unexpected(),
            },
            FetchMissingCoversView::Looked { client, covers, at, path } => if at >= covers.len() {
                protocol::unexpected()
            } else if event == EventView::Present(true) {
                FetchMissingCoversView::visit(client, covers, at + 1)
            } else {
                MoveView::Next(
                    FetchMissingCoversView::Fetched { client, covers, at },
                    ActionView::Run(TaskView::DownloadFile(client, covers[at].remote, path)),
                )
            },
            FetchMissingCoversView::Fetched { client, covers, at } => if at >= covers.len() {
                protocol::unexpected()
            } else {
                FetchMissingCoversView::visit(client, covers, at + 1)
            },
        }
    }
}

/// Fetches the covers that this device does not have yet, one after the other.
pub fn fetch_missing_covers(client: WebDavClient, covers: Vec<CoverFetch>) -> (r: Move<
    FetchMissingCovers,
    (),
>)
    ensures
        r.deep_view() == FetchMissingCoversView::visit(client.deep_view(), covers.deep_view(), 0),
{
    FetchMissingCovers::visit(client, covers, 0)
}

impl FetchMissingCovers {
    fn visit(client: WebDavClient, covers: Vec<CoverFetch>, at: usize) -> (r: Move<
        FetchMissingCovers,
        (),
    >)
        ensures
            r.deep_view() == FetchMissingCoversView::visit(
                client.deep_view(),
                covers.deep_view(),
                at as int,
            ),
    {
        if at < covers.len() {
            let local = covers[at].local.clone();
            Move::Next(FetchMissingCovers::Placed { client, covers, at }, Action::Locate(local))
        } else {
            Move::End(Ok(()))
        }
    }

    /// What follows a reply. A cover that cannot be fetched is passed over.
    pub fn advance(self, event: Event) -> (r: Move<FetchMissingCovers, ()>)
        ensures
            r.deep_view() == self.deep_view().after(event.deep_view()),
    {
        match self {
            FetchMissingCovers::Placed { client, covers, at } => match event {
                Event::Located(path) => Move::Next(
                    FetchMissingCovers::Looked { client, covers, at, path: path.clone() },
                    Action::FileExists(path),
                ),
                _ => protocol::unexpected_reply(),
            },
            FetchMissingCovers::Looked { client, covers, at, path } => if at >= covers.len() {
                protocol::unexpected_reply()
            } else if matches!(event, Event::Present(true)) {
                FetchMissingCovers::visit(client, covers, at + 1)
            } else {
                let handle = client.clone();
                let remote = covers[at].remote.clone();
                Move::Next(
                    FetchMissingCovers::Fetched { client, covers, at },
                    Action::Run(Task::DownloadFile(handle, remote, path)),
                )
            },
            FetchMissingCovers::Fetched { client, covers, at } => if at >= covers.len() {
                protocol::unexpected_reply()
            } else {
                FetchMissingCovers::visit(client, covers, at + 1)
            },
        }
    }
}

} // verus!
