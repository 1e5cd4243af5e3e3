//! WebDAV listings: the files and folders that a multistatus document names.
use vstd::prelude::*;

use crate::number;
use crate::reply;
use crate::text;
use crate::xml;
use crate::xml::{XmlItem, XmlItemView};

verus! {

/// An entry of a listing.
#[derive(Debug)]
pub struct WebDavFile {
    pub name: String,
    pub path: String,
    pub is_dir: bool,
    pub size: i64,
    pub last_modified: String,
}

/// What a `WebDavFile` holds.
pub struct WebDavFileView {
    pub name: Seq<char>,
    pub path: Seq<char>,
    pub is_dir: bool,
    pub size: i64,
    pub last_modified: Seq<char>,
}

impl DeepView for WebDavFile {
    type V = WebDavFileView;

    open spec fn deep_view(&self) -> WebDavFileView {
        WebDavFileView {
            name: self.name@,
            path: self.path@,
            is_dir: self.is_dir,
            size: self.size,
            last_modified: self.last_modified@,
        }
    }
}

/// The element that a tag names: its local name in lower case.
pub open spec fn element_name(name: Seq<u8>) -> Seq<char> {
    xml::unicode_lowercase(xml::utf8_lossy(name))
}

/// The text of a name in ASCII, with its letters in lower case.
pub open spec fn ascii_lowered(name: Seq<u8>) -> Seq<char> {
    name.map_values(|b: u8| xml::ascii_lower(b as char))
}

/// Whether the element that a name stands for, where the name is in ASCII, is just the name in
/// lower case.
pub open spec fn is_lowered(name: Seq<u8>) -> bool {
    (forall|i: int| 0 <= i < name.len() ==> #[trigger] name[i] < 128) ==> element_name(name)
        == ascii_lowered(name)
}

/// The element that a tag names.
pub fn element_of(name: &[u8]) -> (r: String)
    ensures
        r@ == element_name(name@),
        is_lowered(name@),
{
    let raw = xml::lossy_text(name);
    let r = xml::lowercase(&raw);
    proof {
        if forall|i: int| 0 <= i < name@.len() ==> #[trigger] name@[i] < 128 {
            let chars = name@.map_values(|b: u8| b as char);
            assert(vstd::utf8::is_ascii_chars(chars));
            vstd::utf8::is_ascii_chars_encode_utf8(chars);
            assert forall|i: int| 0 <= i < name@.len() implies vstd::utf8::encode_utf8(chars)[i]
                == name@[i] by {
                assert(chars[i] as u8 == vstd::utf8::encode_utf8(chars)[i]);
            }
            assert(vstd::utf8::encode_utf8(chars) =~= name@);
            vstd::utf8::encode_utf8_valid_utf8(chars);
            vstd::utf8::encode_utf8_decode_utf8(chars);
            assert(raw@ == chars);
            assert(r@ =~= ascii_lowered(name@));
        }
    }
    r
}

/// One piece of a document. Elements go by their local names in lower case.
pub enum Piece {
    /// A start tag.
    Start(String),
    /// An element without content.
    Empty(String),
    /// An end tag.
    End(String),
    /// Character data, or nothing where it cannot be made out.
    Text(Option<String>),
    /// Anything else.
    Other,
    /// The document is not well formed: how far it was read, and what is wrong.
    Failed(u64, String),
}

/// What a `Piece` holds.
pub enum PieceView {
    Start(Seq<char>),
    Empty(Seq<char>),
    End(Seq<char>),
    Text(Option<Seq<char>>),
    Other,
    Failed(u64, Seq<char>),
}

impl DeepView for Piece {
    type V = PieceView;

    open spec fn deep_view(&self) -> PieceView {
        match self {
            Piece::Start(element) => PieceView::Start(element@),
            Piece::Empty(element) => PieceView::Empty(element@),
            Piece::End(element) => PieceView::End(element@),
            Piece::Text(data) => PieceView::Text(data.deep_view()),
            Piece::Other => PieceView::Other,
            Piece::Failed(position, error) => PieceView::Failed(*position, error@),
        }
    }
}

/// The piece that an item of the reader stands for.
pub open spec fn piece(item: XmlItemView) -> PieceView {
    match item {
        XmlItemView::Start(name) => PieceView::Start(element_name(name)),
        XmlItemView::Empty(name) => PieceView::Empty(element_name(name)),
        XmlItemView::End(name) => PieceView::End(element_name(name)),
        XmlItemView::Text(data) => PieceView::Text(data),
        XmlItemView::Other => PieceView::Other,
        XmlItemView::Failed(position, error) => PieceView::Failed(position, error),
    }
}

/// The pieces that the items of the reader stand for.
pub open spec fn pieces(items: Seq<XmlItemView>) -> Seq<PieceView> {
    items.map_values(|item: XmlItemView| piece(item))
}

/// The name in a tag.
pub open spec fn tag_name(item: XmlItemView) -> Option<Seq<u8>> {
    match item {
        XmlItemView::Start(name) => Some(name),
        XmlItemView::Empty(name) => Some(name),
        XmlItemView::End(name) => Some(name),
        _ => None,
    }
}

/// Whether every tag in ASCII stands for the element with its name in lower case.
pub open spec fn are_lowered(items: Seq<XmlItemView>) -> bool {
    forall|i: int|
        0 <= i < items.len() ==> (tag_name(#[trigger] items[i]) matches Some(name) ==> is_lowered(
            name,
        ))
}

/// What has been gathered of a document up to some piece of it: the entries that are complete,
/// and what is known of the `response` being read.
pub struct ListingView {
    pub files: Seq<WebDavFileView>,
    pub in_response: bool,
    pub tag: Seq<char>,
    pub href: Seq<char>,
    pub displayname: Seq<char>,
    pub size: i64,
    pub last_modified: Seq<char>,
    pub is_dir: bool,
}

impl ListingView {
    /// Before the first item.
    pub open spec fn start() -> ListingView {
        ListingView {
            files: Seq::empty(),
            in_response: false,
            tag: Seq::empty(),
            href: Seq::empty(),
            displayname: Seq::empty(),
            size: 0,
            last_modified: Seq::empty(),
            is_dir: false,
        }
    }

    /// A start tag: `response` opens a new entry, `collection` within one makes it a folder.
    pub open spec fn opened(self, element: Seq<char>) -> ListingView {
        if element == "response"@ {
            ListingView {
                files: self.files,
                in_response: true,
                tag: element,
                ..ListingView::start()
            }
        } else {
            ListingView { tag: element, ..self.marked(element) }
        }
    }

    /// An element without content: `collection` within a response makes it a folder.
    pub open spec fn marked(self, element: Seq<char>) -> ListingView {
        ListingView { is_dir: self.is_dir || (element == "collection"@ && self.in_response), ..self }
    }

    /// Character data, which belongs to the element whose tag was read last.
    pub open spec fn filled(self, data: Option<Seq<char>>) -> ListingView {
        let value = text::trimmed(data.unwrap_or(Seq::empty()));
        if !self.in_response {
            self
        } else if self.tag == "href"@ {
            ListingView { href: value, ..self }
        } else if self.tag == "displayname"@ {
            ListingView { displayname: value, ..self }
        } else if self.tag == "getcontentlength"@ {
            ListingView { size: number::i64_value(value).unwrap_or(0), ..self }
        } else if self.tag == "getlastmodified"@ {
            ListingView { last_modified: value, ..self }
        } else {
            self
        }
    }

    /// The name of the entry being read: what it is displayed as, or else the last segment of
    /// its path.
    pub open spec fn entry_name(self) -> Seq<char> {
        if self.displayname.len() > 0 {
            self.displayname
        } else {
            text::last_segment(text::without_trailing_slashes(self.href))
        }
    }

    /// The entry being read.
    pub open spec fn entry(self) -> WebDavFileView {
        WebDavFileView {
            name: self.entry_name(),
            path: self.href,
            is_dir: self.is_dir,
            size: self.size,
            last_modified: self.last_modified,
        }
    }

    /// An end tag: that of `response` completes the entry, which counts if it has a name.
    pub open spec fn closed(self, element: Seq<char>) -> ListingView {
        if element == "response"@ {
            ListingView {
                files: if self.entry_name().len() > 0 {
                    self.files.push(self.entry())
                } else {
                    self.files
                },
                in_response: false,
                tag: Seq::empty(),
                ..self
            }
        } else {
            ListingView { tag: Seq::empty(), ..self }
        }
    }

    /// After one more piece.
    pub open spec fn after(self, piece: PieceView) -> ListingView {
        match piece {
            PieceView::Start(element) => self.opened(element),
            PieceView::Empty(element) => self.marked(element),
            PieceView::End(element) => self.closed(element),
            PieceView::Text(data) => self.filled(data),
            _ => self,
        }
    }

    /// The entries of a document of which `pieces` are still to come, or why it has none.
    pub open spec fn finish(self, pieces: Seq<PieceView>) -> Result<
        Seq<WebDavFileView>,
        Seq<char>,
    >
        decreases pieces.len(),
    {
        if pieces.len() == 0 {
            Ok(self.files)
        } else {
            match pieces[0] {
                PieceView::Failed(position, error) => Err(xml_error(position, error)),
                piece => self.after(piece).finish(pieces.skip(1)),
            }
        }
    }
}

/// The message for a document that is not well formed.
pub open spec fn xml_error(position: u64, error: Seq<char>) -> Seq<char> {
    "XML error at position "@ + number::decimal(position as nat) + ": "@ + error
}

/// The entries of the document that consists of `pieces`.
pub open spec fn entries(pieces: Seq<PieceView>) -> Result<Seq<WebDavFileView>, Seq<char>> {
    ListingView::start().finish(pieces)
}

/// The entries of the document that the reader finds `items` in.
pub open spec fn listing(items: Seq<XmlItemView>) -> Result<Seq<WebDavFileView>, Seq<char>> {
    entries(pieces(items))
}

/// What has been gathered of a document so far.
struct Listing {
    files: Vec<WebDavFile>,
    in_response: bool,
    tag: String,
    href: String,
    displayname: String,
    size: i64,
    last_modified: String,
    is_dir: bool,
}

impl DeepView for Listing {
    type V = ListingView;

    closed spec fn deep_view(&self) -> ListingView {
        ListingView {
            files: self.files.deep_view(),
            in_response: self.in_response,
            tag: self.tag@,
            href: self.href@,
            displayname: self.displayname@,
            size: self.size,
            last_modified: self.last_modified@,
            is_dir: self.is_dir,
        }
    }
}

impl Listing {
    fn new() -> (r: Listing)
        ensures
            r.deep_view() == ListingView::start(),
    {
        let r = Listing {
            files: Vec::new(),
            in_response: false,
            tag: String::new(),
            href: String::new(),
            displayname: String::new(),
            size: 0,
            last_modified: String::new(),
            is_dir: false,
        };
        assert(r.files.deep_view() =~= Seq::<WebDavFileView>::empty());
        r
    }

    fn open(&mut self, element: String)
        ensures
            final(self).deep_view() == old(self).deep_view().opened(element@),
    {
        if text::same_text(&element, "response") {
            self.in_response = true;
            self.href = String::new();
            self.displayname = String::new();
            self.size = 0;
            self.last_modified = String::new();
            self.is_dir = false;
            proof {
                reveal_strlit("response");
                reveal_strlit("collection");
            }
        } else {
            self.mark(&element);
        }
        self.tag = element;
    }

    fn mark(&mut self, element: &String)
        ensures
            final(self).deep_view() == old(self).deep_view().marked(element@),
    {
        if text::same_text(element, "collection") && self.in_response {
            self.is_dir = true;
        }
    }

    fn fill(&mut self, data: Option<String>)
        ensures
            final(self).deep_view() == old(self).deep_view().filled(data.deep_view()),
    {
        if self.in_response {
            let raw = match data {
                Some(raw) => raw,
                None => String::new(),
            };
            let value = text::trim(&raw);
            if text::same_text(&self.tag, "href") {
                self.href = value;
            } else if text::same_text(&self.tag, "displayname") {
                self.displayname = value;
            } else if text::same_text(&self.tag, "getcontentlength") {
                self.size = number::parse_i64(&value).unwrap_or(0);
            } else if text::same_text(&self.tag, "getlastmodified") {
                self.last_modified = value;
            }
        }
    }

    fn close(&mut self, element: String)
        ensures
            final(self).deep_view() == old(self).deep_view().closed(element@),
    {
        if text::same_text(&element, "response") {
            self.in_response = false;
            let name = if !self.displayname.as_str().is_empty() {
                self.displayname.clone()
            } else {
                text::after_last_slash(&text::trim_end_slashes(&self.href))
            };
            assert(name@ == old(self).deep_view().entry_name());
            if !name.as_str().is_empty() {
                let ghost before = self.files@;
                self.files.push(
                    WebDavFile {
                        name,
                        path: self.href.clone(),
                        is_dir: self.is_dir,
                        size: self.size,
                        last_modified: self.last_modified.clone(),
                    },
                );
                assert(self.files.deep_view() =~= old(self).files.deep_view().push(
                    old(self).deep_view().entry(),
                ));
            }
        }
        self.tag = String::new();
    }
}

/// The entries of the document that consists of `pieces`, in their order.
pub fn list_entries(pieces: Vec<Piece>) -> (r: Result<Vec<WebDavFile>, String>)
    ensures
        reply::outcome(r) == entries(pieces.deep_view()),
{
    let ghost all = pieces.deep_view();
    let mut state = Listing::new();
    assert(all.skip(0) =~= all);
    for piece in it: pieces
        invariant
            all == pieces.deep_view(),
            state.deep_view().finish(all.skip(it.index())) == entries(all),
            all.len() == it.seq().len(),
            forall|i: int| 0 <= i < all.len() ==> all[i] == (#[trigger] it.seq()[i]).deep_view(),
    {
        let ghost n = it.index();
        assert(all.skip(n)[0] == piece.deep_view());
        assert(all.skip(n).skip(1) =~= all.skip(n + 1));
        match piece {
            Piece::Start(element) => {
                state.open(element);
            },
            Piece::Empty(element) => {
                state.mark(&element);
            },
            Piece::End(element) => {
                state.close(element);
            },
            Piece::Text(data) => {
                state.fill(data);
            },
            Piece::Other => {},
            Piece::Failed(position, error) => {
                let at = text::concat3(
                    "XML error at position ",
                    &number::decimal_text(position),
                    ": ",
                );
                return Err(text::concat2(&at, &error));
            },
        }
    }
    Ok(state.files)
}

/// What comes after a fault makes no difference.
proof fn lemma_fault_decides(state: ListingView, all: Seq<PieceView>, n: int)
    requires
        0 <= n < all.len(),
        all[n] is Failed,
    ensures
        state.finish(all.take(n + 1)) == state.finish(all),
    decreases n,
{
    assert(all.take(n + 1)[0] == all[0]);
    if n > 0 && !(all[0] is Failed) {
        assert(all.take(n + 1).skip(1) =~= all.skip(1).take(n));
        lemma_fault_decides(state.after(all[0]), all.skip(1), n - 1);
    }
}

/// A document with a fault has no entries.
pub proof fn lemma_faults_are_reported(state: ListingView, all: Seq<PieceView>, n: int)
    requires
        0 <= n < all.len(),
        all[n] is Failed,
    ensures
        state.finish(all) is Err,
    decreases n,
{
    if n > 0 && !(all[0] is Failed) {
        lemma_faults_are_reported(state.after(all[0]), all.skip(1), n - 1);
    }
}

/// The pieces of a document, up to its end or up to and with the first fault.
fn read_pieces(xml: &str) -> (r: Vec<Piece>)
    ensures
        entries(r.deep_view()) == listing(xml::xml_items(xml@)),
        listing(xml::xml_items(xml@)) is Ok ==> are_lowered(xml::xml_items(xml@)),
{
    let ghost items = xml::xml_items(xml@);
    let ghost all = pieces(xml::xml_items(xml@));
    let mut reader = xml::xml_reader(xml);
    let mut r: Vec<Piece> = Vec::new();
    assert(r.deep_view() =~= all.take(0));
    assert(all.skip(0) =~= all);
    assert(items.skip(0) =~= items);
    loop
        invariant
            all == pieces(xml::xml_items(xml@)),
            r.len() <= all.len(),
            r.deep_view() == all.take(r.len() as int),
            items == xml::xml_items(xml@),
            xml::reader_items(reader) == items.skip(r.len() as int),
            pieces(xml::reader_items(reader)) == all.skip(r.len() as int),
            forall|i: int|
                0 <= i < r.len() ==> (tag_name(#[trigger] items[i]) matches Some(name)
                    ==> is_lowered(name)),
        decreases xml::reader_items(reader).len(),
    {
        let ghost n = r.len() as int;
        let ghost rest = xml::reader_items(reader);
        assert(pieces(rest) == all.skip(n));
        assert(pieces(rest).len() == rest.len());
        match xml::next_item(&mut reader) {
            None => {
                assert(r.deep_view() =~= all);
                return r;
            },
            Some(item) => {
                let ghost v = item.deep_view();
                let mut failed = false;
                let next = match item {
                    XmlItem::Start(name) => Piece::Start(element_of(&name)),
                    XmlItem::Empty(name) => Piece::Empty(element_of(&name)),
                    XmlItem::End(name) => Piece::End(element_of(&name)),
                    XmlItem::Text(data) => Piece::Text(data),
                    XmlItem::Other => Piece::Other,
                    XmlItem::Failed(position, error) => {
                        failed = true;
                        Piece::Failed(position, error)
                    },
                };
                assert(next.deep_view() == piece(v));
                assert(rest[0] == items[n]);
                assert(tag_name(items[n]) matches Some(name) ==> is_lowered(name));
                assert(pieces(rest)[0] == all[n]);
                r.push(next);
                assert(r.deep_view() =~= all.take(n + 1));
                if failed {
                    proof {
                        lemma_fault_decides(ListingView::start(), all, n);
                        lemma_faults_are_reported(ListingView::start(), all, n);
                    }
                    return r;
                }
                assert(pieces(rest.skip(1)) =~= pieces(rest).skip(1));
                assert(all.skip(n).skip(1) =~= all.skip(n + 1));
                assert(items.skip(n).skip(1) =~= items.skip(n + 1));
            },
        }
    }
}

/// The entries of a multistatus document, in document order. Tags in ASCII count in whatever case
/// they are written.
pub fn parse_webdav_xml(xml: &str) -> (r: Result<Vec<WebDavFile>, String>)
    ensures
        reply::outcome(r) == listing(xml::xml_items(xml@)),
        r is Ok ==> are_lowered(xml::xml_items(xml@)),
{
    list_entries(read_pieces(xml))
}

} // verus!
