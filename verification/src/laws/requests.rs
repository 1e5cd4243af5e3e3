//! What holds of the requests of a client, field by field.
use vstd::prelude::*;

use crate::client;
use crate::client::ClientView;
use crate::codec;
use crate::http;
use crate::http::{HeaderView, HttpMethod, Status};
use crate::listing::WebDavFileView;
use crate::text;

verus! {

/// A client speaks to the address that was given for it, with `https` before it where it names no
/// scheme, and as the name and the password that were given.
pub proof fn law_a_client_speaks_for_its_account(url: Seq<char>, user: Seq<char>, pass: Seq<char>)
    ensures
        ({
            let c = ClientView::of(url, user, pass);
            let t = text::trimmed(url);
            let named = "http://"@.is_prefix_of(t) || "https://"@.is_prefix_of(t);
            &&& named ==> c.base_url == t
            &&& !named ==> c.base_url == "https://"@ + t
            &&& c.auth_header == "Basic "@ + codec::base64_text(
                vstd::utf8::encode_utf8(text::trimmed(user) + ":"@ + pass),
            )
        }),
{
}

/// Whether the credentials of a client can be sent: they hold nothing but tabs and what prints, or
/// what lies beyond ASCII.
pub open spec fn is_sendable(s: Seq<char>) -> bool {
    forall|i: int| 0 <= i < s.len() ==> http::is_header_char(#[trigger] s[i])
}

/// The credentials are sent with every request, if they can be sent.
pub proof fn law_credentials_are_sent(c: ClientView)
    ensures
        is_sendable(c.auth_header) ==> c.headers() == seq![
            HeaderView { name: "authorization"@, value: c.auth_header },
        ],
        !is_sendable(c.auth_header) ==> c.headers().len() == 0,
{
}

/// A request names its method, the address of its path, and the credentials; it has no body. One that
/// stores bytes has just these as its body; one that asks for properties says how deep it goes; the
/// connection is tested at the address itself.
pub proof fn law_requests_say_what_they_want(
    c: ClientView,
    method: HttpMethod,
    path: Seq<char>,
    bytes: Seq<u8>,
    depth: Seq<char>,
)
    ensures
        c.request(method, path).method == method,
        c.request(method, path).url == client::remote_url(c.base_url, path),
        c.request(method, path).headers == c.headers(),
        c.request(method, path).body is None,
        c.put(path, bytes).method == HttpMethod::Put,
        c.put(path, bytes).url == client::remote_url(c.base_url, path),
        c.put(path, bytes).headers == c.headers(),
        c.put(path, bytes).body == Some(bytes),
        c.propfind(path, depth).method == HttpMethod::Propfind,
        c.propfind(path, depth).url == client::remote_url(c.base_url, path),
        c.propfind(path, depth).headers == c.headers().push(
            HeaderView { name: "depth"@, value: depth },
        ),
        c.propfind(path, depth).body is None,
        c.probe().method == HttpMethod::Propfind,
        c.probe().url == c.base_url,
        c.probe().headers == c.headers().push(HeaderView { name: "depth"@, value: "0"@ }),
        c.probe().body is None,
{
}

/// A status tells of success if its number lies in the two hundreds; one that answers a request for
/// properties does.
pub proof fn law_the_two_hundreds_are_successes(status: Status)
    ensures
        status.success() <==> 200 <= status.number() < 300,
        client::found(status) <==> 200 <= status.number() < 300,
{
}

/// The size of a file is that of the first entry that the server lists for it, if it lists any.
pub proof fn law_the_first_entry_tells_the_size(files: Seq<WebDavFileView>)
    ensures
        files.len() == 0 <==> client::first_size(files) is None,
        files.len() > 0 ==> client::first_size(files) == Some(files[0].size),
{
}

/// The methods go by their names.
pub proof fn law_methods_go_by_their_names()
    ensures
        HttpMethod::Propfind.token() == "PROPFIND"@,
        HttpMethod::Mkcol.token() == "MKCOL"@,
        HttpMethod::Put.token() == "PUT"@,
        HttpMethod::Get.token() == "GET"@,
        HttpMethod::Delete.token() == "DELETE"@,
{
}

/// The messages tell of what went wrong, with the path and the status.
pub proof fn law_failures_are_named(path: Seq<char>, status: Seq<char>, detail: Seq<char>)
    ensures
        client::upload_error(path, status) == "Upload failed for '"@ + path + "' with status: "@
            + status,
        client::download_error(path, status) == "Download failed for '"@ + path
            + "' with status: "@ + status,
        client::listing_error(status) == "PROPFIND failed with status: "@ + status,
        client::empty_file_error(path) == "File '"@ + path + "' on WebDAV is empty (0 bytes)"@,
        client::build_error(detail) == "Failed to build HTTP client: "@ + detail,
{
}

} // verus!
