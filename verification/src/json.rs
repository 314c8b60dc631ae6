//! JSON encoding of a body mapping.
//!
//! POST and PUT requests carry the builder's body mapping as a JSON object
//! with one string member per entry, in entry order. String contents are
//! escaped: the quote and the backslash get a backslash prefix, and control
//! characters become `\u00` followed by two lowercase hex digits.

use vstd::prelude::*;
use vstd::string::StrSliceExecFns;
use vstd::string::StringExecFns;

use crate::kv::{Dict, EntryView};

verus! {

/// The lowercase hex digit for `n` (0 to 15).
pub open spec fn low_hex_digit(n: int) -> char {
    if n == 0 {
        '0'
    } else if n == 1 {
        '1'
    } else if n == 2 {
        '2'
    } else if n == 3 {
        '3'
    } else if n == 4 {
        '4'
    } else if n == 5 {
        '5'
    } else if n == 6 {
        '6'
    } else if n == 7 {
        '7'
    } else if n == 8 {
        '8'
    } else if n == 9 {
        '9'
    } else if n == 10 {
        'a'
    } else if n == 11 {
        'b'
    } else if n == 12 {
        'c'
    } else if n == 13 {
        'd'
    } else if n == 14 {
        'e'
    } else {
        'f'
    }
}

/// How one character appears inside a JSON string literal.
pub open spec fn json_escape_char(c: char) -> Seq<char> {
    if c == '"' {
        seq!['\\', '"']
    } else if c == '\\' {
        seq!['\\', '\\']
    } else if (c as u32) < 0x20 {
        seq!['\\', 'u', '0', '0', low_hex_digit(c as u32 as int / 16), low_hex_digit(
            c as u32 as int % 16,
        )]
    } else {
        seq![c]
    }
}

/// How a whole string appears inside a JSON string literal.
pub open spec fn json_escape(s: Seq<char>) -> Seq<char>
    decreases s.len(),
{
    if s.len() == 0 {
        Seq::<char>::empty()
    } else {
        json_escape(s.drop_last()) + json_escape_char(s.last())
    }
}

/// One object member: `"key":"value"`, both parts escaped.
pub open spec fn json_member(e: EntryView) -> Seq<char> {
    seq!['"'] + json_escape(e.0) + seq!['"', ':', '"'] + json_escape(e.1) + seq!['"']
}

/// The members of the object, comma-separated, in entry order.
pub open spec fn json_members(s: Seq<EntryView>) -> Seq<char>
    decreases s.len(),
{
    if s.len() == 0 {
        Seq::<char>::empty()
    } else if s.len() == 1 {
        json_member(s[0])
    } else {
        json_members(s.drop_last()) + seq![','] + json_member(s.last())
    }
}

/// The whole JSON object for a body mapping.
pub open spec fn json_object(s: Seq<EntryView>) -> Seq<char> {
    seq!['{'] + json_members(s) + seq!['}']
}

/// Relies on String::push: appends the given character to the end of the
/// string.
#[verifier::external_body]
fn push_char(s: &mut String, c: char)
    ensures
        final(s)@ == old(s)@.push(c),
{
    s.push(c);
}

/// The lowercase hex digit for `n` (0 to 15).
fn hex_digit(n: u32) -> (c: char)
    requires
        n < 16,
    ensures
        c == low_hex_digit(n as int),
{
    match n {
        0 => '0',
        1 => '1',
        2 => '2',
        3 => '3',
        4 => '4',
        5 => '5',
        6 => '6',
        7 => '7',
        8 => '8',
        9 => '9',
        10 => 'a',
        11 => 'b',
        12 => 'c',
        13 => 'd',
        14 => 'e',
        _ => 'f',
    }
}

/// Appends the escaped form of `s` to `acc`.
fn append_escaped(acc: &mut String, s: &str)
    ensures
        final(acc)@ == old(acc)@ + json_escape(s@),
{
    let n = s.unicode_len();
    let mut i: usize = 0;
    while i < n
        invariant
            n == s@.len(),
            i <= n,
            acc@ == old(acc)@ + json_escape(s@.take(i as int)),
        decreases n - i,
    {
        let c = s.get_char(i);
        proof {
            assert(s@.take(i as int + 1).drop_last() =~= s@.take(i as int));
            assert(s@.take(i as int + 1).last() == c);
        }
        if c == '"' {
            acc.append("\\\"");
            proof {
                reveal_strlit("\\\"");
                assert("\\\""@ =~= seq!['\\', '"']);
            }
        } else if c == '\\' {
            acc.append("\\\\");
            proof {
                reveal_strlit("\\\\");
                assert("\\\\"@ =~= seq!['\\', '\\']);
            }
        } else if (c as u32) < 0x20 {
            let u = c as u32;
            acc.append("\\u00");
            push_char(acc, hex_digit(u / 16));
            push_char(acc, hex_digit(u % 16));
            proof {
                reveal_strlit("\\u00");
                assert("\\u00"@ =~= seq!['\\', 'u', '0', '0']);
                assert(acc@ =~= old(acc)@ + json_escape(s@.take(i as int)) + json_escape_char(c));
            }
        } else {
            push_char(acc, c);
            proof {
                assert(acc@ =~= old(acc)@ + json_escape(s@.take(i as int)) + json_escape_char(c));
            }
        }
        proof {
            assert(json_escape(s@.take(i as int + 1)) == json_escape(s@.take(i as int))
                + json_escape_char(c));
            assert(acc@ =~= old(acc)@ + json_escape(s@.take(i as int + 1)));
        }
        i += 1;
    }
    proof {
        assert(s@.take(n as int) =~= s@);
    }
}

/// The JSON text for the body mapping: one string member per entry, in
/// entry order.
pub fn body_to_json(body: &Dict) -> (r: String)
    ensures
        r@ == json_object(body@),
{
    let mut acc = String::from_str("{");
    proof {
        reveal_strlit("{");
        assert("{"@ =~= seq!['{']);
    }
    let n = body.len();
    let mut i: usize = 0;
    while i < n
        invariant
            n == body@.len(),
            i <= n,
            acc@ == seq!['{'] + json_members(body@.take(i as int)),
        decreases n - i,
    {
        if i > 0 {
            acc.append(",");
            proof {
                reveal_strlit(",");
                assert(","@ =~= seq![',']);
            }
        }
        acc.append("\"");
        append_escaped(&mut acc, body.key_at(i).as_str());
        acc.append("\":\"");
        append_escaped(&mut acc, body.value_at(i).as_str());
        acc.append("\"");
        proof {
            reveal_strlit("\"");
            reveal_strlit("\":\"");
            assert("\""@ =~= seq!['"']);
            assert("\":\""@ =~= seq!['"', ':', '"']);
            assert(body@.take(i as int + 1).drop_last() =~= body@.take(i as int));
            assert(body@.take(i as int + 1).last() == body@[i as int]);
            if i == 0 {
                assert(body@.take(1int)[0] == body@[0]);
                assert(json_members(body@.take(1int)) == json_member(body@[0]));
                assert(acc@ =~= seq!['{'] + json_members(body@.take(i as int + 1)));
            } else {
                assert(json_members(body@.take(i as int + 1)) == json_members(
                    body@.take(i as int),
                ) + seq![','] + json_member(body@[i as int]));
                assert(acc@ =~= seq!['{'] + json_members(body@.take(i as int + 1)));
            }
        }
        i += 1;
    }
    acc.append("}");
    proof {
        reveal_strlit("}");
        assert("}"@ =~= seq!['}']);
        assert(body@.take(n as int) =~= body@);
        assert(acc@ =~= json_object(body@));
    }
    acc
}

} // verus!
