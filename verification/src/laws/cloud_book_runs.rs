//! What holds of listing the books that the server has, of what is asked for and told, whatever the
//! replies are.
use vstd::prelude::*;

use crate::client::ClientView;
use crate::laws::cloud_books;
use crate::laws::index;
use crate::laws::pulled;
use crate::laws::single;
use crate::laws::trace;
use crate::laws::trace::Exchange;
use crate::models::CloudBookView;
use crate::payload::SyncDataFileView;
use crate::protocol::{ActionView, CoverFetchView, EventView, MoveView, TaskView};
use crate::tasks::cloud_books::FetchCloudBooksView;
use crate::time::Instant;
use crate::world;

verus! {

/// Where listing the books has come to after some replies.
pub open spec fn list_run(
    dir: Option<Seq<char>>,
    replies: Seq<(EventView, Instant)>,
) -> MoveView<FetchCloudBooksView, Seq<CloudBookView>> {
    world::brought_to(FetchCloudBooksView::start(dir), cloud_books::fetch_after(), replies)
}

/// What it has asked for and was told by then.
pub open spec fn list_log(dir: Option<Seq<char>>, replies: Seq<(EventView, Instant)>) -> Seq<Exchange> {
    trace::exchanges(FetchCloudBooksView::start(dir), cloud_books::fetch_after(), replies)
}

/// Whether a list shows the books of an index, all of them, in their order and as they are entered.
pub open spec fn shows(books: Seq<CloudBookView>, file: SyncDataFileView) -> bool {
    &&& books.len() == file.books.len()
    &&& forall|i: int|
        #![trigger books[i]]
        0 <= i < books.len() ==> {
            &&& books[i].uuid == file.books[i].uuid
            &&& books[i].title == file.books[i].title
            &&& books[i].author == file.books[i].author
            &&& books[i].total_chapters == file.books[i].total_chapters
            &&& books[i].cover_extension == file.books[i].cover_extension
            &&& books[i].has_cover == file.books[i].has_cover
            &&& books[i].date_added == file.books[i].date_added
        }
}

/// Whether a list shows the index of the server, nothing where there is none.
pub open spec fn is_shown(log: Seq<Exchange>, books: Seq<CloudBookView>) -> bool {
    ||| exists|i: int|
        0 <= i < log.len() && single::tells_index(#[trigger] log[i]) && shows(
            books,
            log[i].event->Index_0->Ok_0,
        )
    ||| single::knows_no_index(log) && books.len() == 0
}

/// Whether this names the cover of a book, and where it belongs below a folder.
pub open spec fn is_cover(cover: CoverFetchView, book: CloudBookView, dir: Seq<char>) -> bool {
    let extension = if book.cover_extension is Some {
        book.cover_extension->0
    } else {
        ".jpg"@
    };
    &&& cover.remote == "/AudireReader/covers/"@ + book.uuid + extension
    &&& cover.local.dir == dir
    &&& cover.local.folder == "covers"@
    &&& cover.local.name == book.uuid + extension
}

/// Whether the cover of a book is among some covers.
pub open spec fn is_among(covers: Seq<CoverFetchView>, book: CloudBookView, dir: Seq<char>) -> bool {
    exists|k: int| 0 <= k < covers.len() && is_cover(#[trigger] covers[k], book, dir)
}

/// Whether a cover is that of a book that has one.
pub open spec fn is_of(cover: CoverFetchView, books: Seq<CloudBookView>, dir: Seq<char>) -> bool {
    exists|b: int|
        0 <= b < books.len() && (#[trigger] books[b]).has_cover && is_cover(cover, books[b], dir)
}

/// Whether these are the covers of the books that have one.
pub open spec fn are_covers(
    covers: Seq<CoverFetchView>,
    books: Seq<CloudBookView>,
    dir: Seq<char>,
) -> bool {
    &&& forall|b: int|
        0 <= b < books.len() && (#[trigger] books[b]).has_cover ==> is_among(covers, books[b], dir)
    &&& forall|k: int| 0 <= k < covers.len() ==> is_of(#[trigger] covers[k], books, dir)
}

proof fn lemma_covers(books: Seq<CloudBookView>, dir: Seq<char>)
    ensures
        are_covers(crate::tasks::cloud_books::cover_fetches(books, dir), books, dir),
{
    let p = |book: CloudBookView| book.has_cover;
    let some = books.filter(p);
    let covers = crate::tasks::cloud_books::cover_fetches(books, dir);
    assert forall|b: int| 0 <= b < books.len() && (#[trigger] books[b]).has_cover implies is_among(
        covers,
        books[b],
        dir,
    ) by {
        index::lemma_filter_contains(books, p, books[b]);
        assert(books.contains(books[b]));
        assert(p(books[b]));
        let k = choose|k: int| 0 <= k < some.len() && some[k] == books[b];
        assert(is_cover(covers[k], books[b], dir));
    }
    assert forall|k: int| 0 <= k < covers.len() implies is_of(#[trigger] covers[k], books, dir) by {
        index::lemma_filter_contains(books, p, some[k]);
        assert(some.contains(some[k]));
        let b = choose|b: int| 0 <= b < books.len() && books[b] == some[k];
        assert(p(books[b]));
        assert(is_cover(covers[k], books[b], dir));
    }
}

spec fn is_client(log: Seq<Exchange>, client: ClientView) -> bool {
    trace::was_told_only(
        log,
        ActionView::Run(TaskView::Client),
        EventView::Client(Ok(client)),
    )
}

/// Whether the covers of the listed books were asked for, if there is a folder for them.
pub open spec fn has_covers(
    log: Seq<Exchange>,
    books: Seq<CloudBookView>,
    dir: Option<Seq<char>>,
) -> bool {
    dir matches Some(dir) ==> (!single::knows_no_index(log) ==> exists|
        client: ClientView,
        covers: Seq<CoverFetchView>,
    |
        #[trigger] trace::has_asked(log, ActionView::FetchCovers(client, covers)) && are_covers(
            covers,
            books,
            dir,
        ))
}

spec fn story(
    log: Seq<Exchange>,
    m: MoveView<FetchCloudBooksView, Seq<CloudBookView>>,
    folder: Option<Seq<char>>,
) -> bool {
    let place = single::index_place();
    match m {
        MoveView::Next(state, action) => match state {
            FetchCloudBooksView::Client { dir } => log.len() == 0 && dir == folder && action
                == ActionView::Run(TaskView::Client),
            FetchCloudBooksView::Looked { client, dir } => {
                &&& dir == folder && is_client(log, client) && single::knows_no_index(log)
                &&& action == ActionView::Exists(client, place)
            },
            FetchCloudBooksView::Fetched { client, dir } => {
                &&& dir == folder && is_client(log, client) && single::knows_no_index(log)
                &&& action == ActionView::Download(client, place)
            },
            FetchCloudBooksView::Decoded { client, dir } => {
                &&& dir == folder && is_client(log, client) && single::knows_no_index(log)
                &&& action matches ActionView::DecodeIndex(bytes) && pulled::has_brought(
                    log,
                    client,
                    place,
                    bytes,
                )
            },
            FetchCloudBooksView::Covers { books } => {
                &&& folder is Some && is_shown(log, books) && !single::knows_no_index(log)
                &&& action matches ActionView::FetchCovers(client, covers) && is_client(log, client)
                    && are_covers(covers, books, folder->0)
            },
        },
        MoveView::End(Ok(books)) => is_shown(log, books) && has_covers(log, books, folder),
        MoveView::End(Err(_)) => true,
    }
}

#[verifier::rlimit(40)]
proof fn lemma_step(
    log: Seq<Exchange>,
    state: FetchCloudBooksView,
    action: ActionView,
    event: EventView,
    now: Instant,
    folder: Option<Seq<char>>,
)
    requires
        story(log, MoveView::Next(state, action), folder),
    ensures
        story(log.push(Exchange { action, event, now }), state.after(event), folder),
{
    let last = Exchange { action, event, now };
    let all = log.push(last);
    trace::lemma_all_grows(log, last);
    single::lemma_knows_no_index(log, last);
    assert(all[log.len() as int] == last);
    match state {
        FetchCloudBooksView::Decoded { .. } => {
            if let EventView::Index(Ok(file)) = event {
                let books = file.books.map_values(
                    |item: crate::payload::SyncDataBookItemView| crate::index::shown(item),
                );
                assert(single::tells_index(all[log.len() as int]));
                assert(shows(books, file));
                assert(is_shown(all, books));
                if let Some(dir) = folder {
                    lemma_covers(books, dir);
                }
            }
        },
        FetchCloudBooksView::Covers { books } => {
            let i = choose|i: int|
                0 <= i < log.len() && single::tells_index(#[trigger] log[i]) && shows(
                    books,
                    log[i].event->Index_0->Ok_0,
                );
            assert(all[i] == log[i]);
            assert(is_shown(all, books));
            assert(trace::has_asked(
                all,
                ActionView::FetchCovers(action->FetchCovers_0, action->FetchCovers_1),
            ));
        },
        _ => {},
    }
}

proof fn lemma_story(dir: Option<Seq<char>>, replies: Seq<(EventView, Instant)>)
    ensures
        story(list_log(dir, replies), list_run(dir, replies), dir),
{
    let after = cloud_books::fetch_after();
    let holds = |log: Seq<Exchange>, m: MoveView<FetchCloudBooksView, Seq<CloudBookView>>|
        story(log, m, dir);
    assert forall|
        log: Seq<Exchange>,
        state: FetchCloudBooksView,
        action: ActionView,
        event: EventView,
        now: Instant,
    |
        #![trigger holds(log, MoveView::Next(state, action)), after(state, event, now)]
        holds(log, MoveView::Next(state, action)) implies holds(
        log.push(Exchange { action, event, now }),
        after(state, event, now),
    ) by {
        lemma_step(log, state, action, event, now, dir);
    }
    trace::lemma_story(FetchCloudBooksView::start(dir), after, holds, replies);
}

/// What is listed is what the index of the server enters, nothing where it has none. If there is a
/// folder for them, the covers of the listed books that have one were asked for.
pub proof fn law_the_index_is_listed(dir: Option<Seq<char>>, replies: Seq<(EventView, Instant)>)
    ensures
        list_run(dir, replies) matches MoveView::End(Ok(books)) ==> {
            &&& is_shown(list_log(dir, replies), books)
            &&& has_covers(list_log(dir, replies), books, dir)
        },
{
    lemma_story(dir, replies);
}

/// The index is looked for in its place, fetched from there if it is there, and read.
pub proof fn law_the_index_is_asked_for(
    dir: Option<Seq<char>>,
    replies: Seq<(EventView, Instant)>,
    reply: (EventView, Instant),
)
    ensures
        ({
            let now = list_run(dir, replies);
            let next = list_run(dir, replies.push(reply));
            let place = single::index_place();
            &&& now matches MoveView::Next(_, action) ==> match action {
                ActionView::Run(task) => task == TaskView::Client,
                ActionView::Exists(_, path) => path == place,
                ActionView::Download(_, path) => path == place,
                ActionView::DecodeIndex(_) => true,
                ActionView::FetchCovers(_, _) => true,
                _ => false,
            }
            &&& now matches MoveView::Next(_, ActionView::Run(_)) ==> (
            reply.0 matches EventView::Client(Ok(client)) ==> trace::asks(
                next,
                ActionView::Exists(client, place),
            ))
            &&& now matches MoveView::Next(_, ActionView::Exists(client, _)) ==> (reply.0
                == EventView::Flag(Ok(true)) ==> trace::asks(
                next,
                ActionView::Download(client, place),
            ))
            &&& now matches MoveView::Next(_, ActionView::Download(_, _)) ==> (
            reply.0 matches EventView::Bytes(Ok(bytes)) ==> trace::asks(
                next,
                ActionView::DecodeIndex(bytes),
            ))
            &&& now matches MoveView::Next(_, ActionView::DecodeIndex(_)) ==> (
            reply.0 matches EventView::Index(Err(e)) ==> next == MoveView::<
                FetchCloudBooksView,
                Seq<CloudBookView>,
            >::End(Err(e)))
        }),
{
    lemma_story(dir, replies);
    trace::lemma_one_more(
        FetchCloudBooksView::start(dir),
        cloud_books::fetch_after(),
        replies,
        reply,
    );
}

} // verus!
