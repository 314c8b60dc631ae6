//! Validity of request headers for the wire format.
//!
//! A header mapping is converted by the transport into its native header
//! representation just before the request is sent. That conversion only
//! accepts names made of HTTP token characters and values free of control
//! characters, so the client checks the whole mapping up front and fails
//! with the invalid-headers error before any network traffic.

use vstd::prelude::*;
use vstd::string::StrSliceExecFns;

use crate::kv::{Dict, EntryView};

verus! {

/// Whether `c` may appear in a header name: an HTTP token character, that
/// is, an ASCII letter or digit or one of `! # $ % & ' * + - . ^ _ ` | ~`.
pub open spec fn header_name_char_ok(c: char) -> bool {
    ('a' <= c && c <= 'z') || ('A' <= c && c <= 'Z') || ('0' <= c && c <= '9') || c == '!' || c
        == '#' || c == '$' || c == '%' || c == '&' || c == '\'' || c == '*' || c == '+' || c == '-'
        || c == '.' || c == '^' || c == '_' || c == '`' || c == '|' || c == '~'
}

/// Whether `c` may appear in a header value: any character except the
/// control characters, with horizontal tab allowed.
pub open spec fn header_value_char_ok(c: char) -> bool {
    c == '\t' || (' ' <= c && c != '\u{7f}')
}

/// Whether one header entry can be put on the wire: a nonempty name of
/// token characters and a value free of control characters.
pub open spec fn header_entry_ok(e: EntryView) -> bool {
    &&& e.0.len() > 0
    &&& forall|i: int| 0 <= i < e.0.len() ==> header_name_char_ok(#[trigger] e.0[i])
    &&& forall|i: int| 0 <= i < e.1.len() ==> header_value_char_ok(#[trigger] e.1[i])
}

/// Whether every entry of a header mapping can be put on the wire.
pub open spec fn headers_ok(s: Seq<EntryView>) -> bool {
    forall|i: int| 0 <= i < s.len() ==> header_entry_ok(#[trigger] s[i])
}

/// Whether every character of `s` may appear in a header name.
fn name_chars_ok(s: &str) -> (r: bool)
    ensures
        r == forall|i: int| 0 <= i < s@.len() ==> header_name_char_ok(#[trigger] s@[i]),
{
    let n = s.unicode_len();
    let mut i: usize = 0;
    while i < n
        invariant
            n == s@.len(),
            i <= n,
            forall|j: int| 0 <= j < i ==> header_name_char_ok(#[trigger] s@[j]),
        decreases n - i,
    {
        let c = s.get_char(i);
        let ok = ('a' <= c && c <= 'z') || ('A' <= c && c <= 'Z') || ('0' <= c && c <= '9') || c
            == '!' || c == '#' || c == '$' || c == '%' || c == '&' || c == '\'' || c == '*' || c
            == '+' || c == '-' || c == '.' || c == '^' || c == '_' || c == '`' || c == '|' || c
            == '~';
        if !ok {
            return false;
        }
        i += 1;
    }
    true
}

/// Whether every character of `s` may appear in a header value.
fn value_chars_ok(s: &str) -> (r: bool)
    ensures
        r == forall|i: int| 0 <= i < s@.len() ==> header_value_char_ok(#[trigger] s@[i]),
{
    let n = s.unicode_len();
    let mut i: usize = 0;
    while i < n
        invariant
            n == s@.len(),
            i <= n,
            forall|j: int| 0 <= j < i ==> header_value_char_ok(#[trigger] s@[j]),
        decreases n - i,
    {
        let c = s.get_char(i);
        let ok = c == '\t' || (' ' <= c && c != '\u{7f}');
        if !ok {
            return false;
        }
        i += 1;
    }
    true
}

/// Whether the whole header mapping can be put on the wire.
pub fn headers_valid(h: &Dict) -> (r: bool)
    ensures
        r == headers_ok(h@),
{
    let n = h.len();
    let mut i: usize = 0;
    while i < n
        invariant
            n == h@.len(),
            i <= n,
            forall|j: int| 0 <= j < i ==> header_entry_ok(#[trigger] h@[j]),
        decreases n - i,
    {
        let name = h.key_at(i);
        let value = h.value_at(i);
        if name.as_str().is_empty() {
            proof {
                assert(!header_entry_ok(h@[i as int]));
            }
            return false;
        }
        if !name_chars_ok(name.as_str()) {
            proof {
                assert(!header_entry_ok(h@[i as int]));
            }
            return false;
        }
        if !value_chars_ok(value.as_str()) {
            proof {
                assert(!header_entry_ok(h@[i as int]));
            }
            return false;
        }
        i += 1;
    }
    true
}

} // verus!
