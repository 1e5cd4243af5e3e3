//! What holds of deleting a book from the server.
use vstd::prelude::*;

use crate::index;
use crate::models::SyncResultView;
use crate::payload::SyncDataFileView;
use crate::protocol::{ActionView, EventView, MoveView, TaskView};
use crate::remote;
use crate::tasks::single;
use crate::tasks::single::DeleteFromCloudView;
use crate::time::Instant;
use crate::world;
use crate::world::World;

verus! {

/// The index that the server has, if it has one that can be read.
pub open spec fn cloud_index(w: World) -> Option<SyncDataFileView> {
    match w.served(remote::INDEX@) {
        Some(bytes) => match (w.notation.read_index)(bytes) {
            Ok(file) => Some(file),
            Err(_) => None,
        },
        None => None,
    }
}

/// How a task that deletes a book from the server goes on.
pub open spec fn delete_after() -> spec_fn(DeleteFromCloudView, EventView, Instant) -> MoveView<
    DeleteFromCloudView,
    SyncResultView,
> {
    |s: DeleteFromCloudView, e: EventView, now: Instant| s.after(e, now)
}

/// What comes of deleting a book from the server.
pub open spec fn deleted(w: World, uuid: Seq<char>, clock: spec_fn(nat) -> Instant) -> (
    Option<Result<SyncResultView, Seq<char>>>,
    World,
) {
    world::carried_out(
        DeleteFromCloudView::start(uuid),
        delete_after(),
        w,
        clock,
        13,
    )
}

/// A server without the first files of a book.
pub open spec fn cleared(server: Map<Seq<char>, Seq<u8>>, uuid: Seq<char>, done: int) -> Map<
    Seq<char>,
    Seq<u8>,
>
    decreases done,
{
    if done <= 0 {
        server
    } else {
        cleared(server, uuid, done - 1).remove(remote::book_traces(uuid)[done - 1])
    }
}

proof fn lemma_cleared(server: Map<Seq<char>, Seq<u8>>, uuid: Seq<char>, done: int)
    requires
        0 <= done <= 7,
    ensures
        forall|i: int|
            0 <= i < done ==> !cleared(server, uuid, done).dom().contains(
                #[trigger] remote::book_traces(uuid)[i],
            ),
        cleared(server, uuid, done).dom().contains(remote::INDEX@) == server.dom().contains(
            remote::INDEX@,
        ),
        server.dom().contains(remote::INDEX@) ==> cleared(server, uuid, done)[remote::INDEX@]
            == server[remote::INDEX@],
    decreases done,
{
    if done > 0 {
        lemma_cleared(server, uuid, done - 1);
        lemma_index_is_apart(uuid, done - 1);
    }
}

/// The index is none of a book's files.
proof fn lemma_index_is_apart(uuid: Seq<char>, i: int)
    requires
        0 <= i < 7,
    ensures
        remote::book_traces(uuid)[i] != remote::INDEX@,
{
    reveal_strlit("/AudireReader/sync_data.json");
    reveal_strlit("/AudireReader/books/");
    reveal_strlit("/AudireReader/progress/");
    reveal_strlit("/AudireReader/bookmarks/");
    reveal_strlit("/AudireReader/highlights/");
    reveal_strlit("/AudireReader/covers/");
    assert(remote::INDEX@[14] == 's');
    let path = remote::book_traces(uuid)[i];
    if i == 0 || i == 2 {
        assert(path[14] == 'b');
    } else if i == 1 {
        assert(path[14] == 'p');
    } else if i == 3 {
        assert(path[14] == 'h');
    } else {
        assert(path[14] == 'c');
    }
}

/// Carries out the deletion of a book's files.
proof fn lemma_clear(
    w: World,
    uuid: Seq<char>,
    done: int,
    clock: spec_fn(nat) -> Instant,
    n: nat,
)
    requires
        0 <= done <= 7,
        n >= 7 - done,
    ensures
        world::carried_out(
            DeleteFromCloudView::clear(w.client, uuid, done),
            delete_after(),
            World { server: cleared(w.server, uuid, done), ..w },
            clock,
            n,
        ) == world::carried_out(
            DeleteFromCloudView::clear(w.client, uuid, 7),
            delete_after(),
            World { server: cleared(w.server, uuid, 7), ..w },
            clock,
            (n - (7 - done)) as nat,
        ),
    decreases 7 - done,
{
    if done < 7 {
        let here = World { server: cleared(w.server, uuid, done), ..w };
        world::lemma_step(
            DeleteFromCloudView::Removed { client: w.client, uuid, done: done + 1 },
            ActionView::Remove(w.client, remote::book_traces(uuid)[done]),
            delete_after(),
            here,
            clock,
            n,
        );
        lemma_clear(w, uuid, done + 1, clock, (n - 1) as nat);
    }
}

/// Deleting a book from the server succeeds. Afterwards none of the book's files is there, and
/// the index, if there is one that can be read, lists the book no more and notes that it was
/// deleted; all else in it stays.
pub proof fn law_books_are_deleted_from_the_server(
    w: World,
    uuid: Seq<char>,
    clock: spec_fn(nat) -> Instant,
)
    requires
        w.notation.faithful(),
    ensures
        ({
            let (result, after) = deleted(w, uuid, clock);
            &&& result == Some(Ok::<SyncResultView, Seq<char>>(single::deleted_result(uuid)))
            &&& forall|i: int|
                0 <= i < 7 ==> !after.server.dom().contains(
                    #[trigger] remote::book_traces(uuid)[i],
                )
            &&& cloud_index(after) == match cloud_index(w) {
                Some(file) => Some(index::without_book(file, uuid, clock(3))),
                None => None,
            }
        }),
{
    let f = delete_after();
    let client = w.client;
    let end = Ok(single::deleted_result(uuid));
    world::lemma_step(
        DeleteFromCloudView::Client { uuid },
        ActionView::Run(TaskView::Client),
        f,
        w,
        clock,
        13,
    );
    let w = World { cached: Some(w.client), ..w };
    let w1 = World { server: cleared(w.server, uuid, 7), ..w };
    lemma_cleared(w.server, uuid, 7);
    lemma_clear(w, uuid, 0, clock, 12);
    assert(World { server: cleared(w.server, uuid, 0), ..w } == w);
    assert(w1.served(remote::INDEX@) == w.served(remote::INDEX@));
    world::lemma_step(
        DeleteFromCloudView::IndexLooked { client, uuid },
        ActionView::Exists(client, remote::INDEX@),
        f,
        w1,
        clock,
        5,
    );
    if w1.server.dom().contains(remote::INDEX@) {
        world::lemma_step(
            DeleteFromCloudView::IndexFetched { client, uuid },
            ActionView::Download(client, remote::INDEX@),
            f,
            w1,
            clock,
            4,
        );
        match w1.served(remote::INDEX@) {
            Some(bytes) => {
                world::lemma_step(
                    DeleteFromCloudView::IndexDecoded { client, uuid },
                    ActionView::DecodeIndex(bytes),
                    f,
                    w1,
                    clock,
                    3,
                );
                match (w.notation.read_index)(bytes) {
                    Ok(file) => {
                        let rest = index::without_book(file, uuid, clock(3));
                        let new_bytes = (w.notation.index)(rest);
                        world::lemma_step(
                            DeleteFromCloudView::IndexEncoded { client, uuid },
                            ActionView::EncodeIndex(rest),
                            f,
                            w1,
                            clock,
                            2,
                        );
                        world::lemma_step(
                            DeleteFromCloudView::IndexSaved { uuid },
                            ActionView::Upload(client, remote::INDEX@, new_bytes),
                            f,
                            w1,
                            clock,
                            1,
                        );
                        let w2 = World { server: w1.server.insert(remote::INDEX@, new_bytes), ..w1 };
                        world::lemma_end(end, f, w2, clock, 0);
                        assert forall|i: int| 0 <= i < 7 implies !w2.server.dom().contains(
                            #[trigger] remote::book_traces(uuid)[i],
                        ) by {
                            lemma_index_is_apart(uuid, i);
                        }
                        assert(new_bytes.len() > 0);
                    },
                    Err(_) => {
                        world::lemma_end(end, f, w1, clock, 2);
                    },
                }
            },
            None => {
                world::lemma_end(end, f, w1, clock, 3);
            },
        }
    } else {
        world::lemma_end(end, f, w1, clock, 4);
    }
}

} // verus!
