//! What holds of the listings that a server sends.
use vstd::prelude::*;

use crate::listing;
use crate::listing::{ListingView, PieceView, WebDavFileView};
use crate::number;
use crate::text;
use crate::xml;
use crate::xml::XmlItemView;

verus! {

/// Whether every entry has a name.
pub open spec fn all_named(files: Seq<WebDavFileView>) -> bool {
    forall|i: int| 0 <= i < files.len() ==> (#[trigger] files[i]).name.len() > 0
}

proof fn lemma_entries_are_named(state: ListingView, pieces: Seq<PieceView>)
    requires
        all_named(state.files),
    ensures
        state.finish(pieces) matches Ok(files) ==> all_named(files),
    decreases pieces.len(),
{
    if pieces.len() > 0 && !(pieces[0] is Failed) {
        lemma_entries_are_named(state.after(pieces[0]), pieces.skip(1));
    }
}

/// Every entry of a listing has a name.
pub proof fn law_entries_are_named(pieces: Seq<PieceView>)
    ensures
        listing::entries(pieces) matches Ok(files) ==> all_named(files),
{
    lemma_entries_are_named(ListingView::start(), pieces);
}

proof fn lemma_entries_stay(state: ListingView, pieces: Seq<PieceView>)
    ensures
        state.finish(pieces) matches Ok(files) ==> state.files.is_prefix_of(files),
    decreases pieces.len(),
{
    if pieces.len() > 0 && !(pieces[0] is Failed) {
        lemma_entries_stay(state.after(pieces[0]), pieces.skip(1));
    }
}

proof fn lemma_more(state: ListingView, pieces: Seq<PieceView>, more: Seq<PieceView>)
    ensures
        match (state.finish(pieces), state.finish(pieces + more)) {
            (Ok(some), Ok(all)) => some.is_prefix_of(all),
            (Err(e), r) => r == Err::<Seq<WebDavFileView>, Seq<char>>(e),
            (Ok(_), Err(_)) => true,
        },
    decreases pieces.len(),
{
    if pieces.len() == 0 {
        assert(pieces + more =~= more);
        lemma_entries_stay(state, more);
    } else {
        assert((pieces + more).skip(1) =~= pieces.skip(1) + more);
        if !(pieces[0] is Failed) {
            lemma_more(state.after(pieces[0]), pieces.skip(1), more);
        }
    }
}

/// What comes later in a document takes nothing away: the entries stand in the order of the
/// document, and the first fault decides.
pub proof fn law_entries_stand_in_order(pieces: Seq<PieceView>, more: Seq<PieceView>)
    ensures
        match (listing::entries(pieces), listing::entries(pieces + more)) {
            (Ok(some), Ok(all)) => some.is_prefix_of(all),
            (Err(e), r) => r == Err::<Seq<WebDavFileView>, Seq<char>>(e),
            (Ok(_), Err(_)) => true,
        },
{
    lemma_more(ListingView::start(), pieces, more);
}

/// What has been gathered of a document after some more pieces, of which none is a fault.
spec fn gathered(state: ListingView, pieces: Seq<PieceView>) -> ListingView
    decreases pieces.len(),
{
    if pieces.len() == 0 {
        state
    } else {
        gathered(state.after(pieces[0]), pieces.skip(1))
    }
}

/// Whether some pieces hold a fault.
spec fn has_fault(pieces: Seq<PieceView>) -> bool {
    exists|i: int| 0 <= i < pieces.len() && (#[trigger] pieces[i]) is Failed
}

proof fn lemma_finish(state: ListingView, pieces: Seq<PieceView>)
    ensures
        if has_fault(pieces) {
            state.finish(pieces) is Err
        } else {
            state.finish(pieces) == Ok::<Seq<WebDavFileView>, Seq<char>>(
                gathered(state, pieces).files,
            )
        },
    decreases pieces.len(),
{
    if has_fault(pieces) {
        let i = choose|i: int| 0 <= i < pieces.len() && (#[trigger] pieces[i]) is Failed;
        listing::lemma_faults_are_reported(state, pieces, i);
    } else if pieces.len() > 0 {
        assert(!(pieces[0] is Failed));
        assert forall|i: int| 0 <= i < pieces.skip(1).len() implies !((
        #[trigger] pieces.skip(1)[i]) is Failed) by {
            assert(pieces.skip(1)[i] == pieces[i + 1]);
        }
        lemma_finish(state.after(pieces[0]), pieces.skip(1));
    }
}

proof fn lemma_gathered_in_turn(state: ListingView, pieces: Seq<PieceView>, more: Seq<PieceView>)
    ensures
        gathered(state, pieces + more) == gathered(gathered(state, pieces), more),
    decreases pieces.len(),
{
    if pieces.len() == 0 {
        assert(pieces + more =~= more);
    } else {
        assert((pieces + more).skip(1) =~= pieces.skip(1) + more);
        lemma_gathered_in_turn(state.after(pieces[0]), pieces.skip(1), more);
    }
}

/// What was gathered before makes no difference to what comes after it.
proof fn lemma_gathered_apart(state: ListingView, before: Seq<WebDavFileView>, pieces: Seq<PieceView>)
    ensures
        gathered(ListingView { files: before + state.files, ..state }, pieces).files == before
            + gathered(state, pieces).files,
    decreases pieces.len(),
{
    if pieces.len() > 0 {
        let more = ListingView { files: before + state.files, ..state };
        let next = state.after(pieces[0]);
        assert(more.after(pieces[0]).files =~= before + next.files);
        assert(more.after(pieces[0]) == (ListingView { files: before + next.files, ..next }));
        lemma_gathered_apart(next, before, pieces.skip(1));
    }
}

/// Whether some pieces stand around responses: none of them ends one.
pub open spec fn is_frame(pieces: Seq<PieceView>) -> bool {
    forall|i: int|
        0 <= i < pieces.len() ==> #[trigger] pieces[i] != PieceView::End("response"@)
}

proof fn lemma_frame(state: ListingView, pieces: Seq<PieceView>)
    requires
        is_frame(pieces),
    ensures
        gathered(state, pieces).files == state.files,
    decreases pieces.len(),
{
    if pieces.len() > 0 {
        assert(pieces[0] != PieceView::End("response"@));
        assert forall|i: int| 0 <= i < pieces.skip(1).len() implies #[trigger] pieces.skip(1)[i]
            != PieceView::End("response"@) by {
            assert(pieces.skip(1)[i] == pieces[i + 1]);
        }
        lemma_frame(state.after(pieces[0]), pieces.skip(1));
    }
}

proof fn lemma_faults_of_parts(a: Seq<PieceView>, b: Seq<PieceView>)
    ensures
        has_fault(a + b) <==> has_fault(a) || has_fault(b),
{
    let all = a + b;
    if has_fault(a) {
        let i = choose|i: int| 0 <= i < a.len() && (#[trigger] a[i]) is Failed;
        assert(all[i] is Failed);
    }
    if has_fault(b) {
        let i = choose|i: int| 0 <= i < b.len() && (#[trigger] b[i]) is Failed;
        assert(all[a.len() + i] is Failed);
    }
    if has_fault(all) {
        let i = choose|i: int| 0 <= i < all.len() && (#[trigger] all[i]) is Failed;
        if i < a.len() {
            assert(a[i] is Failed);
        } else {
            assert(b[i - a.len()] is Failed);
        }
    }
}

/// The entry of a response depends on no other response: where two lists of responses stand in
/// one document, its entries are those of the first list and those of the second, each as it
/// would be by itself; and the document is well formed where both are.
pub proof fn law_responses_are_read_apart(
    open: Seq<PieceView>,
    a: Seq<PieceView>,
    b: Seq<PieceView>,
    close: Seq<PieceView>,
)
    requires
        is_frame(open),
        is_frame(close),
        b.len() > 0 ==> b[0] == PieceView::Start("response"@),
    ensures
        match (listing::entries(open + a + close), listing::entries(open + b + close)) {
            (Ok(first), Ok(second)) => listing::entries(open + (a + b) + close) == Ok::<
                Seq<WebDavFileView>,
                Seq<char>,
            >(first + second),
            _ => listing::entries(open + (a + b) + close) is Err,
        },
{
    let start = ListingView::start();
    let opened = gathered(start, open);
    let halfway = gathered(opened, a);
    lemma_frame(start, open);
    lemma_framed(open, a, close);
    lemma_framed(open, b, close);
    lemma_framed(open, a + b, close);
    lemma_faults_of_parts(a, b);
    lemma_gathered_in_turn(opened, a, b);
    if b.len() > 0 {
        let fresh = opened.after(b[0]);
        let again = halfway.after(b[0]);
        assert(halfway.files + fresh.files =~= halfway.files);
        assert(again == (ListingView { files: halfway.files + fresh.files, ..fresh }));
        lemma_gathered_apart(fresh, halfway.files, b.skip(1));
    } else {
        assert(halfway.files + Seq::<WebDavFileView>::empty() =~= halfway.files);
    }
}

/// What comes of a list in its frame.
proof fn lemma_framed(open: Seq<PieceView>, list: Seq<PieceView>, close: Seq<PieceView>)
    requires
        is_frame(close),
    ensures
        has_fault(open + list + close) <==> has_fault(open) || has_fault(list) || has_fault(close),
        if has_fault(open + list + close) {
            listing::entries(open + list + close) is Err
        } else {
            listing::entries(open + list + close) == Ok::<Seq<WebDavFileView>, Seq<char>>(
                gathered(gathered(ListingView::start(), open), list).files,
            )
        },
{
    let start = ListingView::start();
    lemma_finish(start, open + list + close);
    lemma_faults_of_parts(open + list, close);
    lemma_faults_of_parts(open, list);
    lemma_gathered_in_turn(start, open + list, close);
    lemma_gathered_in_turn(start, open, list);
    lemma_frame(gathered(start, open + list), close);
}

/// Two documents with the same items, but for how their tags are written, have the same entries:
/// of a tag only its local name counts, in lower case.
pub proof fn law_only_elements_count(xs: Seq<XmlItemView>, ys: Seq<XmlItemView>)
    requires
        xs.len() == ys.len(),
        forall|i: int|
            0 <= i < xs.len() ==> listing::piece(#[trigger] xs[i]) == listing::piece(ys[i]),
    ensures
        listing::listing(xs) == listing::listing(ys),
{
    assert(listing::pieces(xs) =~= listing::pieces(ys));
}

/// Whether two names in ASCII differ at most in the case of their letters.
pub open spec fn is_same_name(a: Seq<u8>, b: Seq<u8>) -> bool {
    &&& a.len() == b.len()
    &&& forall|i: int|
        #![trigger a[i]]
        #![trigger b[i]]
        0 <= i < a.len() ==> a[i] < 128 && b[i] < 128 && xml::ascii_lower(a[i] as char)
            == xml::ascii_lower(b[i] as char)
}

/// Whether two items differ at most in the case of the letters of a tag in ASCII.
pub open spec fn is_same_item(x: XmlItemView, y: XmlItemView) -> bool {
    match (x, y) {
        (XmlItemView::Start(a), XmlItemView::Start(b)) => a == b || is_same_name(a, b),
        (XmlItemView::Empty(a), XmlItemView::Empty(b)) => a == b || is_same_name(a, b),
        (XmlItemView::End(a), XmlItemView::End(b)) => a == b || is_same_name(a, b),
        _ => x == y,
    }
}

/// The case of the letters in tags makes no difference. That tags in ASCII are lowered in the
/// plain way, reading a document shows.
pub proof fn law_letter_case_does_not_count(xs: Seq<XmlItemView>, ys: Seq<XmlItemView>)
    requires
        listing::are_lowered(xs),
        listing::are_lowered(ys),
        xs.len() == ys.len(),
        forall|i: int| 0 <= i < xs.len() ==> is_same_item(#[trigger] xs[i], ys[i]),
    ensures
        listing::listing(xs) == listing::listing(ys),
{
    assert forall|i: int| 0 <= i < xs.len() implies listing::piece(#[trigger] xs[i])
        == listing::piece(ys[i]) by {
        assert(is_same_item(xs[i], ys[i]));
        if let (Some(a), Some(b)) = (listing::tag_name(xs[i]), listing::tag_name(ys[i])) {
            assert(listing::is_lowered(a) && listing::is_lowered(b));
            if a != b {
                assert(listing::ascii_lowered(a) =~= listing::ascii_lowered(b));
            }
        }
    }
    law_only_elements_count(xs, ys);
}

/// Character data within a response belongs to the element whose tag was read last: it is the path, the
/// name, the size or the date of the entry, without white space around it. Anything else, and all that
/// stands outside of a response, changes nothing.
pub proof fn law_data_belongs_to_its_element(state: ListingView, data: Option<Seq<char>>)
    ensures
        ({
            let value = text::trimmed(
                match data {
                    Some(data) => data,
                    None => Seq::empty(),
                },
            );
            let after = state.after(PieceView::Text(data));
            let counts = state.in_response;
            &&& after.href == if counts && state.tag == "href"@ {
                value
            } else {
                state.href
            }
            &&& after.displayname == if counts && state.tag == "displayname"@ {
                value
            } else {
                state.displayname
            }
            &&& after.size == if counts && state.tag == "getcontentlength"@ {
                match number::i64_value(value) {
                    Some(size) => size,
                    None => 0,
                }
            } else {
                state.size
            }
            &&& after.last_modified == if counts && state.tag == "getlastmodified"@ {
                value
            } else {
                state.last_modified
            }
            &&& after.files == state.files && after.is_dir == state.is_dir
            &&& after.in_response == state.in_response && after.tag == state.tag
        }),
{
    reveal_strlit("href");
    reveal_strlit("displayname");
    reveal_strlit("getcontentlength");
    reveal_strlit("getlastmodified");
    assert("href"@.len() == 4);
    assert("displayname"@.len() == 11);
    assert("getcontentlength"@.len() == 16);
    assert("getlastmodified"@.len() == 15);
}

/// A start tag of `response` begins an entry of which nothing is known yet. Any other tag keeps what
/// is known, and `collection` makes the entry a folder.
pub proof fn law_tags_open_entries(state: ListingView, element: Seq<char>)
    ensures
        ({
            let after = state.after(PieceView::Start(element));
            &&& after.files == state.files && after.tag == element
            &&& element == "response"@ ==> {
                &&& after.in_response && !after.is_dir && after.size == 0
                &&& after.href.len() == 0 && after.displayname.len() == 0
                &&& after.last_modified.len() == 0
            }
            &&& element != "response"@ ==> {
                &&& after.in_response == state.in_response
                &&& after.is_dir == (state.is_dir || state.in_response && element == "collection"@)
                &&& after.href == state.href && after.displayname == state.displayname
                &&& after.size == state.size && after.last_modified == state.last_modified
            }
        }),
        state.after(PieceView::Empty(element)) == (ListingView {
            is_dir: state.is_dir || state.in_response && element == "collection"@,
            ..state
        }),
{
}

/// An end tag of `response` completes the entry, which is listed after those before it if it has a name:
/// the one that it is displayed by, or else the last part of its path. Any other end tag only ends its
/// element.
pub proof fn law_tags_close_entries(state: ListingView, element: Seq<char>)
    ensures
        ({
            let after = state.after(PieceView::End(element));
            let name = if state.displayname.len() > 0 {
                state.displayname
            } else {
                text::last_segment(text::without_trailing_slashes(state.href))
            };
            &&& after.tag.len() == 0
            &&& element != "response"@ || name.len() == 0 ==> after.files == state.files
            &&& element != "response"@ ==> after == (ListingView { tag: Seq::empty(), ..state })
            &&& element == "response"@ ==> !after.in_response
            &&& element == "response"@ && name.len() > 0 ==> {
                let entry = after.files.last();
                &&& after.files.len() == state.files.len() + 1
                &&& after.files.drop_last() == state.files
                &&& entry.name == name
                &&& entry.path == state.href
                &&& entry.is_dir == state.is_dir
                &&& entry.size == state.size
                &&& entry.last_modified == state.last_modified
            }
        }),
{
    let after = state.after(PieceView::End(element));
    if after.files.len() == state.files.len() + 1 {
        assert(after.files.drop_last() =~= state.files);
    }
}

/// Nothing is known before the first piece, and a fault is reported with its place.
pub proof fn law_listings_begin_empty(position: u64, error: Seq<char>)
    ensures
        ({
            let start = ListingView::start();
            &&& start.files.len() == 0 && !start.in_response && start.tag.len() == 0
        }),
        listing::xml_error(position, error) == "XML error at position "@ + number::decimal(
            position as nat,
        ) + ": "@ + error,
{
}

} // verus!
