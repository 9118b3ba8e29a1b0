//! The sync server's endpoints and the text of the requests and failures around them.

use vstd::prelude::*;
use vstd::utf8::encode_utf8;
use crate::decimal::{i64_decimal, i64_to_decimal};
use crate::error::{error_detail, AppError};
use crate::sync_types::PullCursor;
use crate::text::{chars_of, owned, push_str, starts_with_spec, string_of, strip_prefix};

verus! {

/// `s` without the `/` characters at its end.
pub open spec fn trim_trailing_slashes(s: Seq<char>) -> Seq<char>
    decreases s.len(),
{
    if s.len() > 0 && s.last() == '/' {
        trim_trailing_slashes(s.drop_last())
    } else {
        s
    }
}

/// The URL of an endpoint: the server URL without trailing slashes, then the path.
pub open spec fn endpoint(base: Seq<char>, path: Seq<char>) -> Seq<char> {
    trim_trailing_slashes(base) + path
}

/// The URL of an endpoint of the sync server (`https://s.example/` with `/push` gives
/// `https://s.example/push`).
pub fn endpoint_url(base_url: &str, path: &str) -> (r: String)
    ensures
        r@ == endpoint(base_url@, path@),
{
    let v = chars_of(base_url);
    let mut n: usize = v.len();
    assert(v@.take(v@.len() as int) =~= v@);
    while n > 0 && v[n - 1] == '/'
        invariant
            n <= v@.len(),
            trim_trailing_slashes(v@.take(n as int)) == trim_trailing_slashes(v@),
        decreases n,
    {
        assert(v@.take(n as int).drop_last() =~= v@.take(n - 1));
        n = n - 1;
    }
    let mut kept: Vec<char> = Vec::new();
    let mut i: usize = 0;
    while i < n
        invariant
            n <= v@.len(),
            i <= n,
            kept@ == v@.take(i as int),
        decreases n - i,
    {
        kept.push(v[i]);
        assert(v@.take(i + 1) =~= v@.take(i as int).push(v@[i as int]));
        i = i + 1;
    }
    assert(kept@ == trim_trailing_slashes(v@)) by {
        assert(kept@ =~= v@.take(n as int));
    }
    let mut r = string_of(&kept);
    push_str(&mut r, path);
    r
}

/// An unreserved byte, which URL encoding keeps as it is.
pub open spec fn url_safe_byte(b: u8) -> bool {
    (48 <= b <= 57) || (65 <= b <= 90) || (97 <= b <= 122) || b == 45 || b == 46 || b == 95 || b == 126
}

/// An upper-case hexadecimal digit.
pub open spec fn upper_hex_digit(d: u8) -> char {
    if d < 10 {
        (48 + d) as char
    } else {
        (55 + d) as char
    }
}

/// Percent-encoding of bytes: unreserved bytes as they are, every other byte as `%` and two
/// upper-case hexadecimal digits.
pub open spec fn url_encoded(bytes: Seq<u8>) -> Seq<char>
    decreases bytes.len(),
{
    if bytes.len() == 0 {
        Seq::<char>::empty()
    } else {
        let b = bytes.last();
        url_encoded(bytes.drop_last()) + if url_safe_byte(b) {
            seq![b as char]
        } else {
            seq!['%', upper_hex_digit(b / 16), upper_hex_digit(b % 16)]
        }
    }
}

/// `urlencoding::encode`: every byte of the UTF-8 form percent-encoded except alphanumerics
/// and `-`, `.`, `_`, `~`, with upper-case hexadecimal digits.
#[verifier::external_body]
pub(crate) fn url_encode(s: &str) -> (r: String)
    ensures
        r@ == url_encoded(encode_utf8(s@)),
{
    urlencoding::encode(s).into_owned()
}

/// The text of a pull cursor: the receive time, a colon, and the change id.
pub open spec fn cursor_text(c: PullCursor) -> Seq<char> {
    i64_decimal(c.received_at) + ":"@ + i64_decimal(c.change_id)
}

/// The URL of a pull: the `/pull` endpoint, with the cursor, URL-encoded, when there is one.
pub open spec fn pull_url_for(base: Seq<char>, cursor: Option<PullCursor>) -> Seq<char> {
    match cursor {
        None => endpoint(base, "/pull"@),
        Some(c) => endpoint(base, "/pull"@) + "?cursor="@ + url_encoded(encode_utf8(cursor_text(c))),
    }
}

/// The URL of a pull from `base_url`, starting after `cursor`.
pub fn pull_url(base_url: &str, cursor: Option<&PullCursor>) -> (r: String)
    ensures
        r@ == pull_url_for(base_url@, match cursor { Some(c) => Some(*c), None => None }),
{
    let mut url = endpoint_url(base_url, "/pull");
    match cursor {
        Some(c) => {
            let mut text = i64_to_decimal(c.received_at);
            push_str(&mut text, ":");
            let id = i64_to_decimal(c.change_id);
            push_str(&mut text, id.as_str());
            let enc = url_encode(text.as_str());
            push_str(&mut url, "?cursor=");
            push_str(&mut url, enc.as_str());
        },
        None => {},
    }
    url
}

/// The error for a request that the server answered with a failure status: `Sync`, with the
/// action, the status and the body.
pub open spec fn request_failure_detail(action: Seq<char>, status: Seq<char>, body: Seq<char>) -> Seq<char> {
    action + " failed "@ + status + ": "@ + body
}

/// The error for a request that the server answered with a failure status
/// (`push failed 500 Internal Server Error: ...`).
pub fn request_failed(action: &str, status: &str, body: &str) -> (r: AppError)
    ensures
        r is Sync,
        error_detail(r) == request_failure_detail(action@, status@, body@),
{
    let mut m = owned(action);
    push_str(&mut m, " failed ");
    push_str(&mut m, status);
    push_str(&mut m, ": ");
    push_str(&mut m, body);
    AppError::Sync(m)
}

/// The URL of the sync server's change feed: the server URL without trailing slashes, its
/// scheme turned into the WebSocket one (`https` to `wss`, `http` to `ws`, `wss` when none is
/// given), then `/ws?hostname=` and the URL-encoded host name.
pub open spec fn ws_url_for(base: Seq<char>, hostname: Seq<char>) -> Seq<char> {
    let s = trim_trailing_slashes(base);
    let prefix = if starts_with_spec(s, "https://"@) {
        "wss://"@ + s.subrange(8, s.len() as int)
    } else if starts_with_spec(s, "http://"@) {
        "ws://"@ + s.subrange(7, s.len() as int)
    } else {
        "wss://"@ + s
    };
    prefix + "/ws?hostname="@ + url_encoded(encode_utf8(hostname))
}

/// The WebSocket URL of the sync server's change feed for this host.
pub fn to_ws_url(base: &str, hostname: &str) -> (r: String)
    ensures
        r@ == ws_url_for(base@, hostname@),
{
    let s = endpoint_url(base, "");
    assert(s@ == trim_trailing_slashes(base@)) by {
        assert(trim_trailing_slashes(base@) + ""@ =~= trim_trailing_slashes(base@)) by {
            reveal_strlit("");
        }
    }
    proof {
        reveal_strlit("https://");
        reveal_strlit("http://");
    }
    let mut r = match strip_prefix(s.as_str(), "https://") {
        Some(rest) => {
            let mut u = owned("wss://");
            push_str(&mut u, rest.as_str());
            u
        },
        None => match strip_prefix(s.as_str(), "http://") {
            Some(rest) => {
                let mut u = owned("ws://");
                push_str(&mut u, rest.as_str());
                u
            },
            None => {
                let mut u = owned("wss://");
                push_str(&mut u, s.as_str());
                u
            },
        },
    };
    let encoded = url_encode(hostname);
    push_str(&mut r, "/ws?hostname=");
    push_str(&mut r, encoded.as_str());
    r
}

} // verus!
