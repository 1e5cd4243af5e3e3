//! What holds of the addresses and the requests of a client.
use vstd::prelude::*;

use crate::client;
use crate::client::ClientView;
use crate::codec;
use crate::http;
use crate::http::HeaderView;
use crate::text;

verus! {

/// Whether a text neither begins nor ends with a character of a kind.
pub open spec fn is_bare(s: Seq<char>, p: spec_fn(char) -> bool) -> bool {
    s.len() > 0 ==> !p(s[0]) && !p(s.last())
}

proof fn lemma_strip_start(s: Seq<char>, p: spec_fn(char) -> bool)
    ensures
        text::strip_start(s, p).len() > 0 ==> !p(text::strip_start(s, p)[0]),
    decreases s.len(),
{
    if s.len() > 0 && p(s[0]) {
        lemma_strip_start(s.skip(1), p);
    }
}

proof fn lemma_strip_end(s: Seq<char>, p: spec_fn(char) -> bool)
    ensures
        text::strip_end(s, p).len() > 0 ==> !p(text::strip_end(s, p).last()),
        text::strip_end(s, p).is_prefix_of(s),
    decreases s.len(),
{
    if s.len() > 0 && p(s.last()) {
        lemma_strip_end(s.drop_last(), p);
    }
}

proof fn lemma_trimmed(s: Seq<char>)
    ensures
        is_bare(text::trimmed(s), |c: char| text::is_space(c)),
{
    let p = |c: char| text::is_space(c);
    lemma_strip_start(s, p);
    lemma_strip_end(text::strip_start(s, p), p);
}

/// The address that a client uses always names its scheme.
pub proof fn law_addresses_name_a_scheme(url: Seq<char>)
    ensures
        client::has_scheme(client::normal_url(url)),
{
    reveal_strlit("https://");
    let t = text::trimmed(url);
    assert("https://"@.is_prefix_of("https://"@ + t));
}

/// An address that was brought into its normal form stays as it is.
pub proof fn law_normal_addresses_stay(url: Seq<char>)
    ensures
        client::normal_url(client::normal_url(url)) == client::normal_url(url),
{
    reveal_strlit("https://");
    let p = |c: char| text::is_space(c);
    let t = text::trimmed(url);
    let u = client::normal_url(url);
    lemma_trimmed(url);
    law_addresses_name_a_scheme(url);
    if !client::has_scheme(t) {
        assert(u[0] == 'h');
        assert(u.last() == if t.len() > 0 {
            t.last()
        } else {
            '/'
        });
    }
    assert(is_bare(u, p));
    assert(text::strip_start(u, p) == u);
    assert(text::strip_end(u, p) == u);
}

/// Between the address of the server and a path there is one slash, however many either has.
pub proof fn law_paths_are_joined_by_one_slash(base: Seq<char>, path: Seq<char>)
    ensures
        ({
            let head = text::without_trailing_slashes(base);
            let tail = text::without_leading_slashes(path);
            &&& client::remote_url(base, path) == head + "/"@ + tail
            &&& head.len() > 0 ==> head.last() != '/'
            &&& tail.len() > 0 ==> tail[0] != '/'
        }),
{
    lemma_strip_end(base, |c: char| c == '/');
    lemma_strip_start(path, |c: char| c == '/');
}

/// How many slashes an address ends with, or a path begins with, makes no difference.
pub proof fn law_extra_slashes_make_no_difference(base: Seq<char>, path: Seq<char>)
    ensures
        client::remote_url(base.push('/'), path) == client::remote_url(base, path),
        client::remote_url(base, "/"@ + path) == client::remote_url(base, path),
{
    reveal_strlit("/");
    assert(base.push('/').drop_last() =~= base);
    assert(("/"@ + path).skip(1) =~= path);
}

proof fn lemma_base64_is_sendable(bytes: Seq<u8>, i: int)
    requires
        0 <= i < codec::base64_text(bytes).len(),
    ensures
        http::is_header_char(codec::base64_text(bytes)[i]),
    decreases bytes.len(),
{
    if bytes.len() > 2 && i >= 4 {
        lemma_base64_is_sendable(bytes.skip(3), i - 4);
    }
}

/// Whatever the name and the password are, every request of a client carries its credentials.
pub proof fn law_requests_are_authorised(url: Seq<char>, user: Seq<char>, pass: Seq<char>)
    ensures
        ClientView::of(url, user, pass).headers() == seq![
            HeaderView {
                name: "authorization"@,
                value: client::basic_credentials(user, pass),
            },
        ],
{
    reveal_strlit("Basic ");
    let bytes = vstd::utf8::encode_utf8(text::trimmed(user) + ":"@ + pass);
    let value = client::basic_credentials(user, pass);
    assert forall|i: int| 0 <= i < value.len() implies http::is_header_char(
        #[trigger] value[i],
    ) by {
        if i >= 6 {
            lemma_base64_is_sendable(bytes, i - 6);
        }
    }
}

} // verus!
