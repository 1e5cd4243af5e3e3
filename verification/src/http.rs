//! HTTP messages as plain values: the requests that the client makes, and the replies that it
//! reads.
use vstd::prelude::*;

use crate::number;

verus! {

/// The methods that WebDAV storage is spoken to with.
#[derive(Debug, Clone, Copy, PartialEq, Eq, Structural)]
pub enum HttpMethod {
    Propfind,
    Mkcol,
    Put,
    Get,
    Delete,
}

impl HttpMethod {
    /// The method's token.
    pub open spec fn token(self) -> Seq<char> {
        match self {
            HttpMethod::Propfind => "PROPFIND"@,
            HttpMethod::Mkcol => "MKCOL"@,
            HttpMethod::Put => "PUT"@,
            HttpMethod::Get => "GET"@,
            HttpMethod::Delete => "DELETE"@,
        }
    }

    /// The method's token.
    pub fn name(self) -> (r: &'static str)
        ensures
            r@ == self.token(),
    {
        match self {
            HttpMethod::Propfind => "PROPFIND",
            HttpMethod::Mkcol => "MKCOL",
            HttpMethod::Put => "PUT",
            HttpMethod::Get => "GET",
            HttpMethod::Delete => "DELETE",
        }
    }
}

/// A header field.
#[derive(Debug)]
pub struct Header {
    pub name: String,
    pub value: String,
}

/// What a `Header` holds.
pub struct HeaderView {
    pub name: Seq<char>,
    pub value: Seq<char>,
}

impl DeepView for Header {
    type V = HeaderView;

    open spec fn deep_view(&self) -> HeaderView {
        HeaderView { name: self.name@, value: self.value@ }
    }
}

/// A request that is ready to be sent.
#[derive(Debug)]
pub struct HttpRequest {
    pub method: HttpMethod,
    pub url: String,
    pub headers: Vec<Header>,
    pub body: Option<Vec<u8>>,
}

/// What an `HttpRequest` holds.
pub struct HttpRequestView {
    pub method: HttpMethod,
    pub url: Seq<char>,
    pub headers: Seq<HeaderView>,
    pub body: Option<Seq<u8>>,
}

impl DeepView for HttpRequest {
    type V = HttpRequestView;

    open spec fn deep_view(&self) -> HttpRequestView {
        HttpRequestView {
            method: self.method,
            url: self.url@,
            headers: self.headers.deep_view(),
            body: match self.body {
                Some(bytes) => Some(bytes@),
                None => None,
            },
        }
    }
}

/// A status code of three digits.
#[derive(Debug, Clone, Copy)]
pub struct Status {
    code: u16,
}

impl Status {
    #[verifier::type_invariant]
    closed spec fn three_digits(self) -> bool {
        100 <= self.code <= 999
    }

    /// The number.
    pub closed spec fn number(self) -> u16 {
        self.code
    }

    /// The status with the number `code`, if it has three digits.
    pub fn new(code: u16) -> (r: Option<Status>)
        ensures
            r is Some <==> 100 <= code <= 999,
            r matches Some(status) ==> status.number() == code,
    {
        if 100 <= code && code <= 999 {
            Some(Status { code })
        } else {
            None
        }
    }

    /// The number.
    pub fn code(&self) -> (r: u16)
        ensures
            r == self.number(),
            100 <= r <= 999,
    {
        proof {
            use_type_invariant(self);
        }
        self.code
    }

    /// Whether the request succeeded.
    pub open spec fn success(self) -> bool {
        200 <= self.number() <= 299
    }

    /// Whether the request succeeded.
    pub fn is_success(&self) -> (r: bool)
        ensures
            r == self.success(),
    {
        200 <= self.code && self.code <= 299
    }

    /// The number with its reason phrase.
    pub fn text(&self) -> (r: String)
        ensures
            r@ == status_text(self.number()),
    {
        reason_of(self.code())
    }
}

/// A status code with its reason phrase, as it is shown.
pub uninterp spec fn status_text(code: u16) -> Seq<char>;

/// `http::StatusCode::from_u16` and the `Display` of what it gives: the number, a space, and
/// the phrase that the code is registered with.
#[verifier::external_body]
fn reason_of(code: u16) -> (text: String)
    requires
        100 <= code <= 999,
    ensures
        text@ == status_text(code),
        (number::decimal(code as nat) + " "@).is_prefix_of(text@),
{
    reqwest::StatusCode::from_u16(code).unwrap().to_string()
}

/// A reply: its status, and what came of reading its body. Where a request has no use for the
/// body, `B` is the unit.
pub struct HttpReply<B> {
    pub status: Status,
    pub body: Result<B, String>,
}

/// The characters that a header's value may hold.
pub open spec fn is_header_char(c: char) -> bool {
    c == '\t' || (c >= ' ' && c != '\u{7f}')
}

/// `http::HeaderValue::from_str`: whether a text can be a header's value.
#[verifier::external_body]
pub(crate) fn is_header_value(value: &str) -> (r: bool)
    ensures
        r == (forall|i: int| 0 <= i < value@.len() ==> is_header_char(#[trigger] value@[i])),
{
    reqwest::header::HeaderValue::from_str(value).is_ok()
}

} // verus!
