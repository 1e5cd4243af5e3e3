//! The WebDAV client: what it asks the server, and how it reads the answers.
use vstd::prelude::*;

use crate::codec;
use crate::http;
use crate::http::{Header, HeaderView, HttpMethod, HttpReply, HttpRequest, HttpRequestView, Status};
use crate::listing;
use crate::listing::{WebDavFile, WebDavFileView};
use crate::reply;
use crate::text;
use crate::xml;

verus! {

/// `reqwest::Client`, carried through as it is.
#[verifier::external_type_specification]
#[verifier::external_body]
pub struct ExHttpClient(reqwest::Client);

/// `reqwest::Client::clone`: another handle on the same connection pool.
pub assume_specification[ <reqwest::Client as Clone>::clone ](handle: &reqwest::Client) -> reqwest::Client
;

/// `reqwest::Client::builder`, with a limit in seconds on a whole request and one on the time
/// to connect: those of this library, and in this order. Whether a client can be built, and what is said if not, is up to the machine.
#[verifier::external_body]
pub(crate) fn build_http_client(timeout: u64, connect_timeout: u64) -> (client: Result<
    reqwest::Client,
    String,
>)
    requires
        timeout == REQUEST_TIMEOUT,
        connect_timeout == CONNECT_TIMEOUT,
{
    reqwest::Client::builder()
        .timeout(std::time::Duration::from_secs(timeout))
        .connect_timeout(std::time::Duration::from_secs(connect_timeout))
        .build()
        .map_err(|e| e.to_string())
}

/// What came of building an HTTP client: that there is one, or what is said if not.
pub open spec fn build_outcome(built: Result<reqwest::Client, String>) -> Result<(), Seq<char>> {
    match built {
        Ok(_) => Ok(()),
        Err(detail) => Err(detail@),
    }
}

/// How long a request may take, in seconds.
pub const REQUEST_TIMEOUT: u64 = 120;

/// How long connecting may take, in seconds.
pub const CONNECT_TIMEOUT: u64 = 15;

/// A client for one account on one server.
pub struct WebDavClient {
    pub client: reqwest::Client,
    pub base_url: String,
    pub auth_header: String,
}

/// What decides where a `WebDavClient` sends its requests, and as whom.
pub struct ClientView {
    pub base_url: Seq<char>,
    pub auth_header: Seq<char>,
}

impl DeepView for WebDavClient {
    type V = ClientView;

    open spec fn deep_view(&self) -> ClientView {
        ClientView { base_url: self.base_url@, auth_header: self.auth_header@ }
    }
}

impl Clone for WebDavClient {
    fn clone(&self) -> (r: WebDavClient)
        ensures
            r.deep_view() == self.deep_view(),
    {
        WebDavClient {
            client: self.client.clone(),
            base_url: self.base_url.clone(),
            auth_header: self.auth_header.clone(),
        }
    }
}

/// Whether an address names its scheme.
pub open spec fn has_scheme(url: Seq<char>) -> bool {
    "http://"@.is_prefix_of(url) || "https://"@.is_prefix_of(url)
}

/// The address that a setting stands for: without white space around it, and with `https` where
/// it names no scheme.
pub open spec fn normal_url(url: Seq<char>) -> Seq<char> {
    let t = text::trimmed(url);
    if has_scheme(t) {
        t
    } else {
        "https://"@ + t
    }
}

/// The credentials of basic authentication: the name without white space around it, a colon,
/// and the password as it is.
pub open spec fn basic_credentials(user: Seq<char>, pass: Seq<char>) -> Seq<char> {
    "Basic "@ + codec::base64_text(
        vstd::utf8::encode_utf8(text::trimmed(user) + ":"@ + pass),
    )
}

/// The address of a path below a base address, with one slash between the two.
pub open spec fn remote_url(base: Seq<char>, path: Seq<char>) -> Seq<char> {
    text::without_trailing_slashes(base) + "/"@ + text::without_leading_slashes(path)
}

/// The message for a client that could not be built.
pub open spec fn build_error(detail: Seq<char>) -> Seq<char> {
    "Failed to build HTTP client: "@ + detail
}

impl ClientView {
    /// The client for an account.
    pub open spec fn of(url: Seq<char>, user: Seq<char>, pass: Seq<char>) -> ClientView {
        ClientView { base_url: normal_url(url), auth_header: basic_credentials(user, pass) }
    }

    /// The header that authenticates every request, left out where it cannot be sent.
    pub open spec fn headers(self) -> Seq<HeaderView> {
        if forall|i: int|
            0 <= i < self.auth_header.len() ==> http::is_header_char(
                #[trigger] self.auth_header[i],
            ) {
            seq![HeaderView { name: "authorization"@, value: self.auth_header }]
        } else {
            Seq::empty()
        }
    }

    /// The headers of a request that asks for properties of a resource.
    pub open spec fn depth_headers(self, depth: Seq<char>) -> Seq<HeaderView> {
        self.headers().push(HeaderView { name: "depth"@, value: depth })
    }

    /// A request for a path, without a body.
    pub open spec fn request(self, method: HttpMethod, path: Seq<char>) -> HttpRequestView {
        HttpRequestView {
            method,
            url: remote_url(self.base_url, path),
            headers: self.headers(),
            body: None,
        }
    }

    /// A request for the properties of a path.
    pub open spec fn propfind(self, path: Seq<char>, depth: Seq<char>) -> HttpRequestView {
        HttpRequestView {
            headers: self.depth_headers(depth),
            ..self.request(HttpMethod::Propfind, path)
        }
    }

    /// A request for the properties of the base address itself.
    pub open spec fn probe(self) -> HttpRequestView {
        HttpRequestView { url: self.base_url, ..self.propfind(Seq::empty(), "0"@) }
    }

    /// A request that stores bytes under a path.
    pub open spec fn put(self, path: Seq<char>, bytes: Seq<u8>) -> HttpRequestView {
        HttpRequestView { body: Some(bytes), ..self.request(HttpMethod::Put, path) }
    }
}

/// The client that was made last, if any was.
pub struct ClientCache {
    client: Option<WebDavClient>,
}

impl ClientCache {
    /// The client that is kept.
    pub closed spec fn kept(self) -> Option<ClientView> {
        match self.client {
            Some(client) => Some(client.deep_view()),
            None => None,
        }
    }

    /// None is kept yet.
    pub fn new() -> (r: ClientCache)
        ensures
            r.kept() is None,
    {
        ClientCache { client: None }
    }

    /// Keeps a client, in place of the one kept so far.
    pub fn keep(&mut self, client: WebDavClient)
        ensures
            final(self).kept() == Some(client.deep_view()),
    {
        self.client = Some(client);
    }

    /// Another handle on the client that is kept.
    pub fn client(&self) -> (r: Option<WebDavClient>)
        ensures
            match (r, self.kept()) {
                (Some(client), Some(kept)) => client.deep_view() == kept,
                (None, None) => true,
                _ => false,
            },
    {
        match &self.client {
            Some(client) => Some(client.clone()),
            None => None,
        }
    }
}

/// Whether a status answers a request for properties.
pub open spec fn found(status: Status) -> bool {
    status.success() || status.number() == 207
}

impl WebDavClient {
    /// A client for an account, given what came of building an HTTP client.
    pub fn assemble(
        built: Result<reqwest::Client, String>,
        url: &str,
        user: &str,
        pass: &str,
    ) -> (r: Result<WebDavClient, String>)
        ensures
            match (built, r) {
                (Ok(handle), Ok(client)) => client.client == handle && client.deep_view()
                    == ClientView::of(url@, user@, pass@),
                (Err(detail), Err(e)) => e@ == build_error(detail@),
                _ => false,
            },
    {
        let mut base_url = text::trim(url);
        if !text::starts_with(&base_url, "http://") && !text::starts_with(&base_url, "https://") {
            base_url = text::concat2("https://", &base_url);
        }
        let auth = text::concat3(&text::trim(user), ":", pass);
        let auth_header = text::concat2("Basic ", &codec::base64_encode(auth.as_str().as_bytes()));
        match built {
            Ok(client) => Ok(WebDavClient { client, base_url, auth_header }),
            Err(e) => Err(text::concat2("Failed to build HTTP client: ", &e)),
        }
    }

    /// A client for an account. It fails only where no HTTP client can be built.
    pub fn new(url: &str, user: &str, pass: &str) -> (r: Result<WebDavClient, String>)
        ensures
            match r {
                Ok(client) => client.deep_view() == ClientView::of(url@, user@, pass@),
                Err(e) => exists|detail: Seq<char>| e@ == #[trigger] build_error(detail),
            },
    {
        WebDavClient::assemble(
            build_http_client(REQUEST_TIMEOUT, CONNECT_TIMEOUT),
            url,
            user,
            pass,
        )
    }

    /// The header that authenticates every request, left out where it cannot be sent.
    pub fn headers(&self) -> (r: Vec<Header>)
        ensures
            r.deep_view() == self.deep_view().headers(),
    {
        let mut h: Vec<Header> = Vec::new();
        if http::is_header_value(&self.auth_header) {
            h.push(
                Header { name: "authorization".to_string(), value: self.auth_header.clone() },
            );
        }
        assert(h.deep_view() =~= self.deep_view().headers());
        h
    }

    /// The address of a path on the server.
    fn url_of(&self, remote_path: &str) -> (r: String)
        ensures
            r@ == remote_url(self.base_url@, remote_path@),
    {
        text::concat3(
            &text::trim_end_slashes(&self.base_url),
            "/",
            &text::trim_start_slashes(remote_path),
        )
    }

    fn depth_headers(&self, depth: &str) -> (r: Vec<Header>)
        ensures
            r.deep_view() == self.deep_view().depth_headers(depth@),
    {
        let mut h = self.headers();
        let ghost before = h.deep_view();
        h.push(Header { name: "depth".to_string(), value: depth.to_string() });
        assert(h.deep_view() =~= before.push(HeaderView { name: "depth"@, value: depth@ }));
        h
    }

    /// The request that tests the connection.
    pub fn test_connection(&self) -> (r: HttpRequest)
        ensures
            r.deep_view() == self.deep_view().probe(),
    {
        HttpRequest {
            method: HttpMethod::Propfind,
            url: self.base_url.clone(),
            headers: self.depth_headers("0"),
            body: None,
        }
    }

    /// Whether the connection works.
    pub fn test_connection_reply(reply: Result<HttpReply<()>, String>) -> (r: Result<bool, String>)
        ensures
            reply::outcome(r) == (match reply {
                Ok(reply) => Ok(found(reply.status)),
                Err(e) => Err(e@),
            }),
    {
        match reply {
            Ok(reply) => Ok(reply.status.is_success() || reply.status.code() == 207),
            Err(e) => Err(e),
        }
    }

    /// The request that makes a folder.
    pub fn mkdir(&self, remote_path: &str) -> (r: HttpRequest)
        ensures
            r.deep_view() == self.deep_view().request(HttpMethod::Mkcol, remote_path@),
    {
        HttpRequest {
            method: HttpMethod::Mkcol,
            url: self.url_of(remote_path),
            headers: self.headers(),
            body: None,
        }
    }

    /// Whether the folder is there now: it was made, or the server allows no second one.
    pub fn mkdir_reply(reply: Result<HttpReply<()>, String>) -> (r: Result<bool, String>)
        ensures
            reply::outcome(r) == (match reply {
                Ok(reply) => Ok(reply.status.success() || reply.status.number() == 405),
                Err(e) => Err(e@),
            }),
    {
        match reply {
            Ok(reply) => Ok(reply.status.is_success() || reply.status.code() == 405),
            Err(e) => Err(e),
        }
    }

    /// The request that stores bytes under a path.
    pub fn upload_bytes(&self, remote_path: &str, bytes: Vec<u8>) -> (r: HttpRequest)
        ensures
            r.deep_view() == self.deep_view().put(remote_path@, bytes@),
    {
        HttpRequest {
            method: HttpMethod::Put,
            url: self.url_of(remote_path),
            headers: self.headers(),
            body: Some(bytes),
        }
    }

    /// `true` once the bytes are stored; a message otherwise.
    pub fn upload_bytes_reply(remote_path: &str, reply: Result<HttpReply<()>, String>) -> (r: Result<
        bool,
        String,
    >)
        ensures
            reply::outcome(r) == (match reply {
                Ok(reply) => if reply.status.success() {
                    Ok(true)
                } else {
                    Err(
                        upload_error(remote_path@, http::status_text(reply.status.number())),
                    )
                },
                Err(e) => Err(e@),
            }),
    {
        match reply {
            Ok(reply) => if reply.status.is_success() {
                Ok(true)
            } else {
                Err(upload_message(remote_path, &reply.status.text()))
            },
            Err(e) => Err(e),
        }
    }

    /// The request for the bytes under a path.
    pub fn download_bytes(&self, remote_path: &str) -> (r: HttpRequest)
        ensures
            r.deep_view() == self.deep_view().request(HttpMethod::Get, remote_path@),
    {
        HttpRequest {
            method: HttpMethod::Get,
            url: self.url_of(remote_path),
            headers: self.headers(),
            body: None,
        }
    }

    /// The bytes that came; a message where none did.
    pub fn download_bytes_reply(
        remote_path: &str,
        reply: Result<HttpReply<Vec<u8>>, String>,
    ) -> (r: Result<Vec<u8>, String>)
        ensures
            reply::bytes_outcome(r) == (match reply {
                Ok(reply) => if !reply.status.success() {
                    Err(
                        download_error(remote_path@, http::status_text(reply.status.number())),
                    )
                } else {
                    match reply.body {
                        Ok(bytes) => if bytes@.len() == 0 {
                            Err(empty_file_error(remote_path@))
                        } else {
                            Ok(bytes@)
                        },
                        Err(e) => Err(e@),
                    }
                },
                Err(e) => Err(e@),
            }),
    {
        match reply {
            Ok(reply) => if !reply.status.is_success() {
                Err(download_message(remote_path, &reply.status.text()))
            } else {
                match reply.body {
                    Ok(bytes) => if bytes.len() == 0 {
                        Err(text::concat3("File '", remote_path, "' on WebDAV is empty (0 bytes)"))
                    } else {
                        Ok(bytes)
                    },
                    Err(e) => Err(e),
                }
            },
            Err(e) => Err(e),
        }
    }

    /// The request for the entries of a folder.
    pub fn list_files(&self, remote_path: &str) -> (r: HttpRequest)
        ensures
            r.deep_view() == self.deep_view().propfind(remote_path@, "1"@),
    {
        HttpRequest {
            method: HttpMethod::Propfind,
            url: self.url_of(remote_path),
            headers: self.depth_headers("1"),
            body: None,
        }
    }

    /// The entries of a folder; a message where they cannot be had.
    pub fn list_files_reply(reply: Result<HttpReply<String>, String>) -> (r: Result<
        Vec<WebDavFile>,
        String,
    >)
        ensures
            reply::outcome(r) == (match reply {
                Ok(reply) => if !found(reply.status) {
                    Err(listing_error(http::status_text(reply.status.number())))
                } else {
                    match reply.body {
                        Ok(xml) => listing::listing(xml::xml_items(xml@)),
                        Err(e) => Err(e@),
                    }
                },
                Err(e) => Err(e@),
            }),
    {
        match reply {
            Ok(reply) => if !reply.status.is_success() && reply.status.code() != 207 {
                Err(listing_message(&reply.status.text()))
            } else {
                match reply.body {
                    Ok(xml) => listing::parse_webdav_xml(&xml),
                    Err(e) => Err(e),
                }
            },
            Err(e) => Err(e),
        }
    }

    /// The request that removes a path.
    pub fn remove(&self, remote_path: &str) -> (r: HttpRequest)
        ensures
            r.deep_view() == self.deep_view().request(HttpMethod::Delete, remote_path@),
    {
        HttpRequest {
            method: HttpMethod::Delete,
            url: self.url_of(remote_path),
            headers: self.headers(),
            body: None,
        }
    }

    /// Whether the path was removed.
    pub fn remove_reply(reply: Result<HttpReply<()>, String>) -> (r: Result<bool, String>)
        ensures
            reply::outcome(r) == (match reply {
                Ok(reply) => Ok(reply.status.success()),
                Err(e) => Err(e@),
            }),
    {
        match reply {
            Ok(reply) => Ok(reply.status.is_success()),
            Err(e) => Err(e),
        }
    }

    /// The request for the size of a file.
    pub fn get_file_size(&self, remote_path: &str) -> (r: HttpRequest)
        ensures
            r.deep_view() == self.deep_view().propfind(remote_path@, "0"@),
    {
        HttpRequest {
            method: HttpMethod::Propfind,
            url: self.url_of(remote_path),
            headers: self.depth_headers("0"),
            body: None,
        }
    }

    /// The size of a file, or nothing where the server has no such file.
    pub fn get_file_size_reply(reply: Result<HttpReply<String>, String>) -> (r: Result<
        Option<i64>,
        String,
    >)
        ensures
            reply::outcome(r) == (match reply {
                Ok(reply) => if !found(reply.status) {
                    Ok(None)
                } else {
                    match reply.body {
                        Ok(xml) => match listing::listing(xml::xml_items(xml@)) {
                            Ok(files) => Ok(first_size(files)),
                            Err(e) => Err(e),
                        },
                        Err(e) => Err(e@),
                    }
                },
                Err(e) => Err(e@),
            }),
    {
        match reply {
            Ok(reply) => if !reply.status.is_success() && reply.status.code() != 207 {
                Ok(None)
            } else {
                match reply.body {
                    Ok(xml) => match listing::parse_webdav_xml(&xml) {
                        Ok(files) => {
                            if files.len() > 0 {
                                Ok(Some(files[0].size))
                            } else {
                                Ok(None)
                            }
                        },
                        Err(e) => Err(e),
                    },
                    Err(e) => Err(e),
                }
            },
            Err(e) => Err(e),
        }
    }

    /// Whether a file is there, by what is known of its size.
    pub fn file_exists(size: Result<Option<i64>, String>) -> (r: Result<bool, String>)
        ensures
            reply::outcome(r) == (match size {
                Ok(size) => Ok(size is Some),
                Err(e) => Err(e@),
            }),
    {
        match size {
            Ok(size) => Ok(size.is_some()),
            Err(e) => Err(e),
        }
    }

    /// Whether a file is there and holds something, by what is known of its size.
    pub fn file_exists_and_non_empty(size: Result<Option<i64>, String>) -> (r: Result<bool, String>)
        ensures
            reply::outcome(r) == (match size {
                Ok(size) => Ok(size matches Some(n) && n > 0),
                Err(e) => Err(e@),
            }),
    {
        match size {
            Ok(Some(n)) => Ok(n > 0),
            Ok(None) => Ok(false),
            Err(e) => Err(e),
        }
    }
}

/// The size of the first entry of a listing.
pub open spec fn first_size(files: Seq<WebDavFileView>) -> Option<i64> {
    if files.len() > 0 {
        Some(files[0].size)
    } else {
        None
    }
}

/// The message for bytes that the server did not take.
pub open spec fn upload_error(path: Seq<char>, status: Seq<char>) -> Seq<char> {
    "Upload failed for '"@ + path + "' with status: "@ + status
}

/// The message for bytes that the server did not take.
pub fn upload_message(path: &str, status: &str) -> (r: String)
    ensures
        r@ == upload_error(path@, status@),
{
    text::concat2(&text::concat3("Upload failed for '", path, "' with status: "), status)
}

/// The message for bytes that the server did not give.
pub open spec fn download_error(path: Seq<char>, status: Seq<char>) -> Seq<char> {
    "Download failed for '"@ + path + "' with status: "@ + status
}

/// The message for bytes that the server did not give.
pub fn download_message(path: &str, status: &str) -> (r: String)
    ensures
        r@ == download_error(path@, status@),
{
    text::concat2(&text::concat3("Download failed for '", path, "' with status: "), status)
}

/// The message for a listing that the server did not give.
pub open spec fn listing_error(status: Seq<char>) -> Seq<char> {
    "PROPFIND failed with status: "@ + status
}

/// The message for a listing that the server did not give.
pub fn listing_message(status: &str) -> (r: String)
    ensures
        r@ == listing_error(status@),
{
    text::concat2("PROPFIND failed with status: ", status)
}

/// The message for a file without contents.
pub open spec fn empty_file_error(path: Seq<char>) -> Seq<char> {
    "File '"@ + path + "' on WebDAV is empty (0 bytes)"@
}

} // verus!
