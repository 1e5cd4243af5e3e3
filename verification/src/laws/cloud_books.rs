//! What holds of listing the books on the server.
use vstd::prelude::*;

use crate::index;
use crate::laws::deletion;
use crate::laws::index as index_laws;
use crate::models::CloudBookView;
use crate::payload::SyncDataBookItemView;
use crate::protocol::{ActionView, EventView, MoveView, TaskView};
use crate::remote;
use crate::tasks::cloud_books;
use crate::tasks::cloud_books::FetchCloudBooksView;
use crate::time::Instant;
use crate::world;
use crate::world::World;

verus! {

/// How a task that lists the books on the server goes on.
pub open spec fn fetch_after() -> spec_fn(FetchCloudBooksView, EventView, Instant) -> MoveView<
    FetchCloudBooksView,
    Seq<CloudBookView>,
> {
    |s: FetchCloudBooksView, e: EventView, now: Instant| s.after(e)
}

/// What comes of listing the books on the server.
pub open spec fn fetched(w: World, dir: Option<Seq<char>>, clock: spec_fn(nat) -> Instant) -> (
    Option<Result<Seq<CloudBookView>, Seq<char>>>,
    World,
) {
    world::carried_out(
        FetchCloudBooksView::start(dir),
        fetch_after(),
        w,
        clock,
        5,
    )
}

/// Listing the books on the server changes nothing but the client that is kept. Without an index no books are listed; with
/// one that can be read, its entries are, in their order.
pub proof fn law_books_are_listed_by_the_index(
    w: World,
    dir: Option<Seq<char>>,
    clock: spec_fn(nat) -> Instant,
)
    ensures
        ({
            let (result, after) = fetched(w, dir, clock);
            &&& after == World { cached: Some(w.client), ..w }
            &&& match deletion::cloud_index(w) {
                Some(file) => result == Some(
                    Ok::<Seq<CloudBookView>, Seq<char>>(
                        file.books.map_values(|item: SyncDataBookItemView| index::shown(item)),
                    ),
                ),
                None => if w.server.dom().contains(remote::INDEX@) {
                    result matches Some(Err(_))
                } else {
                    result == Some(Ok::<Seq<CloudBookView>, Seq<char>>(Seq::empty()))
                },
            }
        }),
{
    let f = fetch_after();
    let client = w.client;
    world::lemma_step(
        FetchCloudBooksView::Client { dir },
        ActionView::Run(TaskView::Client),
        f,
        w,
        clock,
        5,
    );
    let w = World { cached: Some(w.client), ..w };
    world::lemma_step(
        FetchCloudBooksView::Looked { client, dir },
        ActionView::Exists(client, remote::INDEX@),
        f,
        w,
        clock,
        4,
    );
    if w.server.dom().contains(remote::INDEX@) {
        world::lemma_step(
            FetchCloudBooksView::Fetched { client, dir },
            ActionView::Download(client, remote::INDEX@),
            f,
            w,
            clock,
            3,
        );
        match w.served(remote::INDEX@) {
            Some(bytes) => {
                world::lemma_step(
                    FetchCloudBooksView::Decoded { client, dir },
                    ActionView::DecodeIndex(bytes),
                    f,
                    w,
                    clock,
                    2,
                );
                match (w.notation.read_index)(bytes) {
                    Ok(file) => {
                        let books = file.books.map_values(
                            |item: SyncDataBookItemView| index::shown(item),
                        );
                        match dir {
                            Some(dir) => {
                                world::lemma_step(
                                    FetchCloudBooksView::Covers { books },
                                    ActionView::FetchCovers(
                                        client,
                                        cloud_books::cover_fetches(books, dir),
                                    ),
                                    f,
                                    w,
                                    clock,
                                    1,
                                );
                                world::lemma_end(Ok(books), f, w, clock, 0);
                            },
                            None => {
                                world::lemma_end(Ok(books), f, w, clock, 1);
                            },
                        }
                    },
                    Err(e) => {
                        world::lemma_end(Err(e), f, w, clock, 1);
                    },
                }
            },
            None => {
                world::lemma_end(Err(world::no_file()), f, w, clock, 2);
            },
        }
    } else {
        world::lemma_end(Ok(Seq::empty()), f, w, clock, 3);
    }
}

/// A book that was deleted from the server is listed no more.
pub proof fn law_deleted_books_are_not_listed(
    w: World,
    uuid: Seq<char>,
    dir: Option<Seq<char>>,
    first: spec_fn(nat) -> Instant,
    second: spec_fn(nat) -> Instant,
)
    requires
        w.notation.faithful(),
    ensures
        fetched(deletion::deleted(w, uuid, first).1, dir, second).0 matches Some(Ok(books))
            ==> forall|i: int| 0 <= i < books.len() ==> (#[trigger] books[i]).uuid != uuid,
{
    let after = deletion::deleted(w, uuid, first).1;
    deletion::law_books_are_deleted_from_the_server(w, uuid, first);
    law_books_are_listed_by_the_index(after, dir, second);
    if let Some(file) = deletion::cloud_index(w) {
        index_laws::law_deleted_books_are_noted(file, uuid, first(3), uuid);
        let rest = index::without_book(file, uuid, first(3));
        let books = rest.books.map_values(|item: SyncDataBookItemView| index::shown(item));
        assert forall|i: int| 0 <= i < books.len() implies (#[trigger] books[i]).uuid != uuid by {
            assert(books[i].uuid == rest.books[i].uuid);
        }
    }
}

} // verus!
