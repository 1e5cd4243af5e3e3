//! The XML reader: pull parsing by `quick_xml`, as a sequence of plain items.
use quick_xml::events::Event as XmlEvent;
use vstd::prelude::*;

verus! {

/// One step of a pull parse. Names are local names, without a namespace prefix, as raw bytes.
pub enum XmlItem {
    /// A start tag.
    Start(Vec<u8>),
    /// An element without content, `<name/>`.
    Empty(Vec<u8>),
    /// An end tag.
    End(Vec<u8>),
    /// Character data with its entities resolved, or nothing where they cannot be.
    Text(Option<String>),
    /// Anything else: a declaration, a comment, a CDATA section and the like.
    Other,
    /// The input is not well formed: how far the reader came, and what it found wrong.
    Failed(u64, String),
}

/// What an `XmlItem` holds.
pub enum XmlItemView {
    Start(Seq<u8>),
    Empty(Seq<u8>),
    End(Seq<u8>),
    Text(Option<Seq<char>>),
    Other,
    Failed(u64, Seq<char>),
}

impl DeepView for XmlItem {
    type V = XmlItemView;

    open spec fn deep_view(&self) -> XmlItemView {
        match self {
            XmlItem::Start(name) => XmlItemView::Start(name@),
            XmlItem::Empty(name) => XmlItemView::Empty(name@),
            XmlItem::End(name) => XmlItemView::End(name@),
            XmlItem::Text(text) => XmlItemView::Text(text.deep_view()),
            XmlItem::Other => XmlItemView::Other,
            XmlItem::Failed(position, error) => XmlItemView::Failed(*position, error@),
        }
    }
}

/// `quick_xml::Reader`, carried through as it is.
#[verifier::external_type_specification]
#[verifier::external_body]
#[verifier::reject_recursive_types(R)]
pub struct ExXmlReader<R>(quick_xml::Reader<R>);

/// The items that a document holds, in document order, up to its end or up to and with the
/// first item that is not well formed. White space around character data is left out.
pub uninterp spec fn xml_items(xml: Seq<char>) -> Seq<XmlItemView>;

/// The items that a reader has still to hand out.
pub uninterp spec fn reader_items(reader: quick_xml::Reader<&[u8]>) -> Seq<XmlItemView>;

/// `quick_xml::Reader::from_str`, with white space around character data trimmed: a reader
/// that has handed out nothing yet, and whose items are a function of the text alone.
#[verifier::external_body]
pub(crate) fn xml_reader(xml: &str) -> (reader: quick_xml::Reader<&[u8]>)
    ensures
        reader_items(reader) == xml_items(xml@),
{
    let mut reader = quick_xml::Reader::from_str(xml);
    reader.config_mut().trim_text(true);
    reader
}

/// `quick_xml::Reader::read_event_into`: hands out the next item and goes past it; nothing at
/// the end of the document. What an error leaves behind in the reader is not stated.
#[verifier::external_body]
pub(crate) fn next_item(reader: &mut quick_xml::Reader<&[u8]>) -> (item: Option<XmlItem>)
    ensures
        match item {
            None => reader_items(*old(reader)).len() == 0,
            Some(item) => {
                &&& reader_items(*old(reader)).len() > 0
                &&& item.deep_view() == reader_items(*old(reader))[0]
                &&& item is Failed || reader_items(*final(reader)) == reader_items(
                    *old(reader),
                ).skip(1)
            },
        },
{
    let mut buf = Vec::new();
    match reader.read_event_into(&mut buf) {
        Ok(XmlEvent::Start(e)) => Some(XmlItem::Start(e.local_name().as_ref().to_vec())),
        Ok(XmlEvent::Empty(e)) => Some(XmlItem::Empty(e.local_name().as_ref().to_vec())),
        Ok(XmlEvent::End(e)) => Some(XmlItem::End(e.local_name().as_ref().to_vec())),
        Ok(XmlEvent::Text(e)) => Some(XmlItem::Text(e.unescape().ok().map(Into::into))),
        Ok(XmlEvent::Eof) => None,
        Ok(_) => Some(XmlItem::Other),
        Err(e) => Some(XmlItem::Failed(reader.buffer_position(), format!("{:?}", e))),
    }
}

/// How bytes read as UTF-8 once every ill-formed part is replaced by U+FFFD.
pub uninterp spec fn utf8_lossy(bytes: Seq<u8>) -> Seq<char>;

/// `String::from_utf8_lossy`: well-formed bytes read as the text that they encode. How much of
/// ill-formed input one replacement character stands for is left to the name.
#[verifier::external_body]
pub(crate) fn lossy_text(bytes: &[u8]) -> (text: String)
    ensures
        text@ == utf8_lossy(bytes@),
        vstd::utf8::valid_utf8(bytes@) ==> text@ == vstd::utf8::decode_utf8(bytes@),
{
    String::from_utf8_lossy(bytes).into_owned()
}

/// The lower case of a text, by Unicode's rules.
pub uninterp spec fn unicode_lowercase(s: Seq<char>) -> Seq<char>;

/// The lower case of an ASCII character.
pub open spec fn ascii_lower(c: char) -> char {
    if 'A' <= c <= 'Z' {
        (c as int + 32) as char
    } else {
        c
    }
}

/// `str::to_lowercase`. On ASCII text each letter is lowered in its place.
#[verifier::external_body]
pub(crate) fn lowercase(s: &str) -> (text: String)
    ensures
        text@ == unicode_lowercase(s@),
        vstd::utf8::is_ascii_chars(s@) ==> text@ == s@.map_values(|c: char| ascii_lower(c)),
{
    s.to_lowercase()
}

} // verus!
