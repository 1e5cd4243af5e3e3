//! What holds of pushing and pulling, whatever the replies are.
use vstd::prelude::*;

use crate::index;
use crate::laws::index as index_laws;
use crate::models::{BookView, SyncResultView};
use crate::payload::SyncDataBookItemView;
use crate::protocol::{ActionView, EventView, MoveView, TaskView};
use crate::tasks::pull::ForcePullView;
use crate::tasks::push::{ForcePushView, ShelfView};
use crate::tasks::single::ForcePushBookView;
use crate::time::Instant;
use crate::world;

verus! {

/// Whether an entry of the index tells of a book.
pub open spec fn tells_of(item: SyncDataBookItemView, book: BookView) -> bool {
    &&& item.uuid == book.uuid
    &&& item.title == book.title
    &&& item.author == book.author
    &&& item.total_chapters == book.total_chapters
    &&& item.has_cover == (book.cover_path is Some)
}

/// Whether entries tell of the first of some books, one each, in their order.
pub open spec fn tell_of(items: Seq<SyncDataBookItemView>, books: Seq<BookView>) -> bool {
    &&& items.len() <= books.len()
    &&& forall|i: int| 0 <= i < items.len() ==> tells_of(#[trigger] items[i], books[i])
}

/// What holds of every state that comes about.
pub open spec fn is_sound(state: ForcePushView) -> bool {
    match state {
        ForcePushView::Exported { shelf, items, at } => {
            &&& !shelf.progress_only
            &&& items.len() == at < shelf.books.len()
            &&& tell_of(items, shelf.books)
        },
        ForcePushView::Extended { shelf, items, at } => {
            &&& !shelf.progress_only
            &&& items.len() == at < shelf.books.len()
            &&& tell_of(items, shelf.books)
        },
        ForcePushView::IndexEncoded { shelf } => !shelf.progress_only,
        ForcePushView::IndexSaved { shelf } => !shelf.progress_only,
        _ => match state.place() {
            Some((shelf, at)) => 0 <= at < shelf.books.len(),
            None => true,
        },
    }
}

/// The books that are being pushed, once they are known.
pub open spec fn shelf_of(state: ForcePushView) -> Option<ShelfView> {
    match state {
        ForcePushView::Folders { shelf, .. } => Some(shelf),
        ForcePushView::IndexEncoded { shelf } => Some(shelf),
        ForcePushView::IndexSaved { shelf } => Some(shelf),
        _ => match state.place() {
            Some((shelf, _)) => Some(shelf),
            None => None,
        },
    }
}

proof fn lemma_visit(
    shelf: ShelfView,
    items: Seq<SyncDataBookItemView>,
    at: int,
    now: Instant,
)
    requires
        !shelf.progress_only,
        items.len() == at <= shelf.books.len(),
        tell_of(items, shelf.books),
    ensures
        ForcePushView::visit(shelf, items, at, now) matches MoveView::Next(next, action) && {
            &&& is_sound(next)
            &&& action matches ActionView::EncodeIndex(file) ==> {
                &&& file.books.len() == shelf.books.len()
                &&& tell_of(file.books, shelf.books)
                &&& file.deleted.len() == 0
            }
        },
{
}

/// A push writes an index that lists the books of this device, all of them, one entry each, in
/// their order, and with nothing noted as deleted. Stated for every step: what holds of every
/// state goes on to hold.
pub proof fn law_a_push_lists_every_book(state: ForcePushView, event: EventView, now: Instant)
    requires
        is_sound(state),
    ensures
        state.after(event, now) matches MoveView::Next(next, action) ==> {
            &&& is_sound(next)
            &&& action matches ActionView::EncodeIndex(file) ==> shelf_of(next) matches Some(shelf)
                && {
                &&& !shelf.progress_only
                &&& file.books.len() == shelf.books.len()
                &&& tell_of(file.books, shelf.books)
                &&& file.deleted.len() == 0
            }
        },
{
    match state {
        ForcePushView::Folders { shelf, made } => {
            if !shelf.progress_only {
                lemma_visit(shelf, Seq::empty(), 0, now);
            }
        },
        ForcePushView::Exported { shelf, items, at } => {
            let item = index::entry(shelf.books[at], None, now);
            lemma_visit(shelf, items.push(item), at + 1, now);
        },
        ForcePushView::Extended { shelf, items, at } => {
            if let EventView::Extension(extension) = event {
                let item = index::entry(shelf.books[at], extension, now);
                lemma_visit(shelf, items.push(item), at + 1, now);
            }
        },
        _ => {},
    }
}

/// Where a push has come to after some replies.
pub open spec fn push_run(progress_only: bool, replies: Seq<(EventView, Instant)>) -> MoveView<
    ForcePushView,
    SyncResultView,
> {
    world::brought_to(
        ForcePushView::start(progress_only),
        |s: ForcePushView, e: EventView, now: Instant| s.after(e, now),
        replies,
    )
}

/// Whatever the replies are: an index that a push writes lists the books of this device, all of
/// them, one entry each, in their order, and notes nothing as deleted.
pub proof fn law_every_pushed_index_lists_every_book(
    progress_only: bool,
    replies: Seq<(EventView, Instant)>,
)
    ensures
        push_run(progress_only, replies) matches MoveView::Next(state, action) ==> {
            &&& is_sound(state)
            &&& action matches ActionView::EncodeIndex(file) ==> shelf_of(state) matches Some(shelf)
                && {
                &&& file.books.len() == shelf.books.len()
                &&& tell_of(file.books, shelf.books)
                &&& file.deleted.len() == 0
            }
        },
    decreases replies.len(),
{
    if replies.len() > 0 {
        let before = replies.drop_last();
        law_every_pushed_index_lists_every_book(progress_only, before);
        if let MoveView::Next(state, _) = push_run(progress_only, before) {
            law_a_push_lists_every_book(state, replies.last().0, replies.last().1);
        }
    }
}

/// A push fails only for want of the books of this device, of a client, of an index that can be
/// written down and saved, or of progress that can be written down; whatever else goes wrong is
/// passed over.
pub proof fn law_few_failures_of_a_push_count(state: ForcePushView, event: EventView, now: Instant)
    requires
        is_sound(state),
    ensures
        state.after(event, now) matches MoveView::End(Err(e)) ==> {
            ||| state is Books && (event == EventView::Books(Err(e)) || !(event is Books))
            ||| state is Client && (event == EventView::Client(Err(e)) || !(event is Client))
            ||| state is Extended && !(event is Extension)
            ||| (state is IndexEncoded || state is ProgressEncoded) && (event == EventView::Bytes(
                Err(e),
            ) || !(event is Bytes))
            ||| state is IndexSaved && (event == EventView::Flag(Err(e)) || !(event is Flag))
        },
{
}

/// A pull fails only for want of a client, of the list of books on the server, or of the books of
/// this device; whatever else goes wrong is passed over.
pub proof fn law_few_failures_of_a_pull_count(state: ForcePullView, event: EventView, now: Instant)
    requires
        state.in_place(),
    ensures
        state.after(event, now) matches MoveView::End(Err(e)) ==> {
            ||| state is Client && (event == EventView::Client(Err(e)) || !(event is Client))
            ||| state is Listed && (event == EventView::CloudBooks(Err(e)) || !(event
                is CloudBooks))
            ||| state is Books && (event == EventView::Books(Err(e)) || !(event is Books))
        },
        state.after(event, now) matches MoveView::Next(next, _) ==> next.in_place(),
{
}

/// A push of progress alone sends no book, and leaves the index alone.
pub proof fn law_a_push_of_progress_leaves_books_alone(
    state: ForcePushView,
    event: EventView,
    now: Instant,
)
    requires
        is_sound(state),
        shelf_of(state) matches Some(shelf) && shelf.progress_only,
    ensures
        state.after(event, now) matches MoveView::Next(next, action) ==> {
            &&& !(action is EncodeIndex)
            &&& !(action matches ActionView::Run(task) && task is ExportBook)
            &&& next is Noted || next is Stamped || (shelf_of(next) matches Some(shelf)
                && shelf.progress_only)
        },
{
}

/// A pull of progress alone copies no book from the server.
pub proof fn law_a_pull_of_progress_leaves_books_alone(
    state: ForcePullView,
    event: EventView,
    now: Instant,
)
    requires
        match state {
            ForcePullView::Listed { .. } => false,
            ForcePullView::Imported { .. } => false,
            ForcePullView::Client { progress_only, .. } => progress_only,
            _ => true,
        },
    ensures
        state.after(event, now) matches MoveView::Next(next, action) ==> {
            &&& !(next is Listed) && !(next is Imported) && !(next is Client)
            &&& !(action matches ActionView::Run(task) && (task is ImportBook || task
                is FetchCloudBooks))
        },
{
}

/// The book that is being pushed, once it is known.
pub open spec fn pushed_book(state: ForcePushBookView) -> Option<BookView> {
    match state {
        ForcePushBookView::IndexLooked { book, .. } => Some(book),
        ForcePushBookView::IndexFetched { book, .. } => Some(book),
        ForcePushBookView::IndexDecoded { book, .. } => Some(book),
        ForcePushBookView::Extended { book, .. } => Some(book),
        _ => None,
    }
}

/// An index that is written on behalf of a single book lists that book, and every book that was
/// listed before.
pub proof fn law_a_pushed_book_is_listed(state: ForcePushBookView, event: EventView, now: Instant)
    ensures
        state.after(event, now) matches MoveView::Next(_, ActionView::EncodeIndex(file)) ==> {
            &&& pushed_book(state) is Some
            &&& index::is_listed(file.books, pushed_book(state)->0.uuid)
            &&& state matches ForcePushBookView::Extended { index, .. } ==> index.books.is_prefix_of(
                file.books,
            ) && file.deleted == index.deleted
            &&& (state is IndexDecoded && event matches EventView::Index(Ok(index)))
                ==> event->Index_0->Ok_0.books.is_prefix_of(file.books)
        },
{
    if let Some(book) = pushed_book(state) {
        index_laws::law_entered_books_are_listed(
            index::empty_index(now),
            book,
            None,
            now,
            book.uuid,
        );
        if let EventView::Index(Ok(file)) = event {
            index_laws::law_entered_books_are_listed(file, book, None, now, book.uuid);
        }
        if let ForcePushBookView::Extended { index, .. } = state {
            if let EventView::Extension(extension) = event {
                index_laws::law_entered_books_are_listed(index, book, extension, now, book.uuid);
            }
        }
    }
}

/// A book that the index lists already is not listed again.
pub proof fn law_a_listed_book_is_left_alone(
    state: ForcePushBookView,
    event: EventView,
    now: Instant,
)
    requires
        state matches ForcePushBookView::IndexDecoded { uuid, .. } && event matches EventView::Index(
            Ok(file),
        ) && index::is_listed(file.books, uuid),
    ensures
        state.after(event, now) matches MoveView::Next(_, action) ==> action == ActionView::Run(
            TaskView::RecordTimestamp,
        ),
{
}

/// An index that a push writes is a new one of this moment.
pub proof fn law_a_pushed_index_is_new(state: ForcePushView, event: EventView, now: Instant)
    ensures
        state.after(event, now) matches MoveView::Next(_, ActionView::EncodeIndex(file)) ==> {
            &&& file.version == 1
            &&& file.last_sync_time == crate::time::rfc3339_text(now)
        },
{
}

} // verus!
