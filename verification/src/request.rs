//! Reading request headers.

use vstd::prelude::*;
use crate::text::{push_char, str_strip_prefix, starts_with};

verus! {

/// A header byte that `HeaderValue::to_str` accepts: visible ASCII or tab.
pub open spec fn is_visible_ascii(b: u8) -> bool {
    (32 <= b && b < 127) || b == 9
}

/// The characters of an all-ASCII byte string.
pub open spec fn ascii_chars(bytes: Seq<u8>) -> Seq<char> {
    Seq::new(bytes.len(), |i: int| bytes[i] as char)
}

/// The header value as text, when every byte is visible ASCII
/// (`HeaderValue::to_str(..).ok()`).
pub open spec fn header_text_spec(bytes: Seq<u8>) -> Option<Seq<char>> {
    if forall|i: int| 0 <= i < bytes.len() ==> is_visible_ascii(#[trigger] bytes[i]) {
        Some(ascii_chars(bytes))
    } else {
        None
    }
}

/// A header value as text, or `None` when it holds a byte outside visible
/// ASCII and tab.
pub fn header_text(value: &[u8]) -> (r: Option<String>)
    ensures
        match header_text_spec(value@) {
            Some(t) => r matches Some(s) && s@ == t,
            None => r is None,
        },
{
    let n = value.len();
    let mut out = String::new();
    let mut i: usize = 0;
    while i < n
        invariant
            n == value@.len(),
            0 <= i <= n,
            forall|k: int| 0 <= k < i ==> is_visible_ascii(#[trigger] value@[k]),
            out@ == ascii_chars(value@.subrange(0, i as int)),
        decreases n - i,
    {
        let b = value[i];
        if !((32 <= b && b < 127) || b == 9) {
            return None;
        }
        push_char(&mut out, b as char);
        assert(out@ =~= ascii_chars(value@.subrange(0, i + 1)));
        i += 1;
    }
    assert(value@.subrange(0, n as int) =~= value@);
    Some(out)
}

/// The request id the caller sent in `x-request-id`, or `"unknown"` when the
/// header is absent or not visible ASCII.
pub fn get_request_id(header: Option<&[u8]>) -> (r: String)
    ensures
        r@ == match header {
            Some(v) => match header_text_spec(v@) {
                Some(t) => t,
                None => "unknown"@,
            },
            None => "unknown"@,
        },
{
    match header {
        Some(v) => match header_text(v) {
            Some(t) => t,
            None => String::from_str("unknown"),
        },
        None => String::from_str("unknown"),
    }
}

/// The token of an `authorization: Bearer <token>` header.
pub open spec fn bearer_spec(header: Option<Seq<u8>>) -> Option<Seq<char>> {
    match header {
        Some(v) => match header_text_spec(v) {
            Some(t) => if starts_with(t, "Bearer "@) {
                Some(t.subrange(7, t.len() as int))
            } else {
                None
            },
            None => None,
        },
        None => None,
    }
}

/// The bearer token in an `authorization` header: the text after
/// `Bearer `, when the header is present, visible ASCII, and starts so.
pub fn bearer_token(header: Option<&[u8]>) -> (r: Option<String>)
    ensures
        match bearer_spec(match header { Some(v) => Some(v@), None => None }) {
            Some(t) => r matches Some(s) && s@ == t,
            None => r is None,
        },
{
    proof {
        reveal_strlit("Bearer ");
    }
    match header {
        Some(v) => match header_text(v) {
            Some(t) => str_strip_prefix(t.as_str(), "Bearer "),
            None => None,
        },
        None => None,
    }
}

} // verus!
