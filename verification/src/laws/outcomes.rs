//! What a push and a pull have done by their end with what they were told, whatever the replies are.
use vstd::prelude::*;

use crate::laws::pulled;
use crate::laws::pushed;
use crate::laws::trace;
use crate::laws::trace::Exchange;
use crate::models::{BookView, BookmarkView, HighlightView, ReadingProgressView};
use crate::protocol::{ActionView, EventView};
use crate::tasks::pull::ForcePullView;
use crate::tasks::push::ForcePushView;
use crate::time::Instant;

verus! {

/// Whether the exchange that follows writes down what the device has of a book, and, if that goes
/// well, the one after it sends the bytes to a place.
pub open spec fn sends_highlights(
    log: Seq<Exchange>,
    i: int,
    uuid: Seq<char>,
    list: Seq<HighlightView>,
) -> bool {
    &&& i + 1 < log.len()
    &&& log[i + 1].action matches ActionView::EncodeHighlights(file) && file.book_uuid == uuid
        && file.highlights == list
    &&& log[i + 1].event matches EventView::Bytes(Ok(bytes)) ==> is_uploaded(
        log,
        i + 2,
        pulled::highlights_place(uuid),
        bytes,
    )
}

/// Likewise for bookmarks.
pub open spec fn sends_bookmarks(
    log: Seq<Exchange>,
    i: int,
    uuid: Seq<char>,
    list: Seq<BookmarkView>,
) -> bool {
    &&& i + 1 < log.len()
    &&& log[i + 1].action matches ActionView::EncodeBookmarks(file) && file.book_uuid == uuid
        && file.bookmarks == list
    &&& log[i + 1].event matches EventView::Bytes(Ok(bytes)) ==> is_uploaded(
        log,
        i + 2,
        pulled::bookmarks_place(uuid),
        bytes,
    )
}

/// Likewise for progress.
pub open spec fn sends_progress(
    log: Seq<Exchange>,
    i: int,
    uuid: Seq<char>,
    local: ReadingProgressView,
) -> bool {
    &&& i + 1 < log.len()
    &&& log[i + 1].action matches ActionView::EncodeProgress(payload) && payload.book_uuid == uuid
        && payload.chapter_index == local.current_chapter_index && payload.paragraph_index
        == local.current_paragraph_index && payload.character_offset
        == local.current_character_offset && payload.last_read == local.last_read
    &&& log[i + 1].event matches EventView::Bytes(Ok(bytes)) ==> is_uploaded(
        log,
        i + 2,
        pulled::progress_place(uuid),
        bytes,
    )
}

/// Whether an exchange sends bytes to a place.
pub open spec fn is_uploaded(log: Seq<Exchange>, i: int, place: Seq<char>, bytes: Seq<u8>) -> bool {
    &&& i < log.len()
    &&& log[i].action matches ActionView::Upload(_, path, sent) && path == place && sent == bytes
}

/// By the end of a push, all that the device told of a book was written down just as it was told, and
/// sent to the place of that book.
pub proof fn law_what_a_push_was_told_is_sent(
    progress_only: bool,
    replies: Seq<(EventView, Instant)>,
    i: int,
)
    requires
        0 <= i < pushed::push_log(progress_only, replies).len(),
    ensures
        pushed::push_run(progress_only, replies) is End ==> {
            let log = pushed::push_log(progress_only, replies);
            &&& log[i].action matches ActionView::GetHighlights(uuid) ==> (
            log[i].event matches EventView::Highlights(Ok(list)) ==> sends_highlights(
                log,
                i,
                uuid,
                list,
            ))
            &&& log[i].action matches ActionView::GetBookmarks(uuid) ==> (
            log[i].event matches EventView::Bookmarks(Ok(list)) ==> sends_bookmarks(
                log,
                i,
                uuid,
                list,
            ))
            &&& log[i].action matches ActionView::GetProgress(uuid) ==> (
            log[i].event matches EventView::Progress(Ok(Some(local))) ==> sends_progress(
                log,
                i,
                uuid,
                local,
            ))
        },
{
    let first = ForcePushView::start(progress_only);
    let after = pushed::push_after();
    let log = pushed::push_log(progress_only, replies);
    trace::lemma_exchange(first, after, replies, i);
    pushed::law_a_push_sends_what_the_device_has(progress_only, replies.take(i), replies[i]);
    if pushed::push_run(progress_only, replies) is End && pushed::push_run(
        progress_only,
        replies.take(i + 1),
    ) is Next {
        trace::lemma_asked_next(first, after, replies, i);
        trace::lemma_exchange(first, after, replies, i + 1);
        pushed::law_a_push_sends_what_the_device_has(
            progress_only,
            replies.take(i + 1),
            replies[i + 1],
        );
        if pushed::push_run(progress_only, replies.take(i + 2)) is Next {
            trace::lemma_asked_next(first, after, replies, i + 1);
        }
    }
}

/// Whether a book of the device gets highlights, and they came from its place on the server.
pub open spec fn gets_highlights(
    log: Seq<Exchange>,
    i: int,
    uuid: Seq<char>,
    list: Seq<HighlightView>,
) -> bool {
    &&& 0 < i && i + 1 < log.len()
    &&& log[i - 1].action matches ActionView::Download(_, path) && path
        == pulled::highlights_place(uuid)
    &&& log[i + 1].action == ActionView::ReplaceHighlights(uuid, list)
}

/// Likewise for bookmarks.
pub open spec fn gets_bookmarks(
    log: Seq<Exchange>,
    i: int,
    uuid: Seq<char>,
    list: Seq<BookmarkView>,
) -> bool {
    &&& 0 < i && i + 1 < log.len()
    &&& log[i - 1].action matches ActionView::Download(_, path) && path
        == pulled::bookmarks_place(uuid)
    &&& log[i + 1].action == ActionView::ReplaceBookmarks(uuid, list)
}

proof fn lemma_brought_of(
    log: Seq<Exchange>,
    all: Seq<Exchange>,
    books: Seq<BookView>,
    k: int,
    path: Seq<char>,
    bytes: Seq<u8>,
)
    requires
        pulled::brought_of(log, books, k, path, bytes),
        log.len() < all.len(),
        log == all.take(log.len() as int),
    ensures
        log.len() > 0,
        all[log.len() - 1].action matches ActionView::Download(_, from) && from == path,
{
    assert(log.last() == all[log.len() - 1]);
}

/// By the end of a pull, all that was read of the highlights and the bookmarks that the server has of a
/// book has replaced those of that very book on this device.
pub proof fn law_what_a_pull_was_told_is_taken(
    progress_only: bool,
    dir: Seq<char>,
    replies: Seq<(EventView, Instant)>,
    i: int,
)
    requires
        0 <= i < pulled::pull_log(progress_only, dir, replies).len(),
    ensures
        pulled::pull_run(progress_only, dir, replies) is End ==> {
            let log = pulled::pull_log(progress_only, dir, replies);
            &&& log[i].action is DecodeHighlights ==> (
            log[i].event matches EventView::CloudHighlights(Ok(file)) ==> exists|uuid: Seq<char>|
                #[trigger] gets_highlights(log, i, uuid, file.highlights))
            &&& log[i].action is DecodeBookmarks ==> (
            log[i].event matches EventView::CloudBookmarks(Ok(file)) ==> exists|uuid: Seq<char>|
                #[trigger] gets_bookmarks(log, i, uuid, file.bookmarks))
        },
{
    let first = ForcePullView::start(progress_only, dir);
    let after = pulled::pull_after();
    let log = pulled::pull_log(progress_only, dir, replies);
    let some = pulled::pull_log(progress_only, dir, replies.take(i));
    trace::lemma_exchange(first, after, replies, i);
    trace::lemma_prefix(first, after, replies, i);
    pulled::law_a_pull_hands_over_what_the_server_has(
        progress_only,
        dir,
        replies.take(i),
        replies[i],
    );
    if pulled::pull_run(progress_only, dir, replies) is End && pulled::pull_run(
        progress_only,
        dir,
        replies.take(i + 1),
    ) is Next {
        trace::lemma_asked_next(first, after, replies, i);
    }
    if let ActionView::DecodeHighlights(bytes) = log[i].action {
        let (books, k) = choose|books: Seq<BookView>, k: int|
            #![trigger pulled::brought_of(
                some,
                books,
                k,
                pulled::highlights_place(books[k].uuid),
                bytes,
            )]
            pulled::brought_of(some, books, k, pulled::highlights_place(books[k].uuid), bytes) && (
            replies[i].0 matches EventView::CloudHighlights(Ok(file)) ==> trace::asks(
                pulled::pull_run(progress_only, dir, replies.take(i + 1)),
                ActionView::ReplaceHighlights(books[k].uuid, file.highlights),
            ));
        lemma_brought_of(some, log, books, k, pulled::highlights_place(books[k].uuid), bytes);
        if pulled::pull_run(progress_only, dir, replies) is End {
            if let EventView::CloudHighlights(Ok(file)) = log[i].event {
                assert(gets_highlights(log, i, books[k].uuid, file.highlights));
            }
        }
    }
    if let ActionView::DecodeBookmarks(bytes) = log[i].action {
        let (books, k) = choose|books: Seq<BookView>, k: int|
            #![trigger pulled::brought_of(
                some,
                books,
                k,
                pulled::bookmarks_place(books[k].uuid),
                bytes,
            )]
            pulled::brought_of(some, books, k, pulled::bookmarks_place(books[k].uuid), bytes) && (
            replies[i].0 matches EventView::CloudBookmarks(Ok(file)) ==> trace::asks(
                pulled::pull_run(progress_only, dir, replies.take(i + 1)),
                ActionView::ReplaceBookmarks(books[k].uuid, file.bookmarks),
            ));
        lemma_brought_of(some, log, books, k, pulled::bookmarks_place(books[k].uuid), bytes);
        if pulled::pull_run(progress_only, dir, replies) is End {
            if let EventView::CloudBookmarks(Ok(file)) = log[i].event {
                assert(gets_bookmarks(log, i, books[k].uuid, file.bookmarks));
            }
        }
    }
}

} // verus!
