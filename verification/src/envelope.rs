//! The JSON envelopes returned to the caller, and the JSON string escaping
//! they need. Every outcome, success or failure, is reported as a JSON
//! object; backend failure details are embedded as an escaped JSON string.

use vstd::prelude::*;

use crate::numbers::{digit_char, digit_text};
use crate::text::opt_str_view;

verus! {

/// Hexadecimal digit for a value below 16 (lower case).
pub open spec fn hex_char(d: int) -> char {
    if d < 10 {
        digit_char(d)
    } else if d == 10 {
        'a'
    } else if d == 11 {
        'b'
    } else if d == 12 {
        'c'
    } else if d == 13 {
        'd'
    } else if d == 14 {
        'e'
    } else {
        'f'
    }
}

/// How one character is written inside a JSON string: quote and backslash
/// get a backslash escape, control characters a `\u00..` escape, everything
/// else stands as itself.
pub open spec fn esc_char(c: char) -> Seq<char> {
    if c == '"' {
        seq!['\\', '"']
    } else if c == '\\' {
        seq!['\\', '\\']
    } else if (c as int) < 32 {
        seq!['\\', 'u', '0', '0', hex_char(c as int / 16), hex_char(c as int % 16)]
    } else {
        seq![c]
    }
}

/// A text escaped for embedding in a JSON string literal.
pub open spec fn json_escaped(s: Seq<char>) -> Seq<char>
    decreases s.len(),
{
    if s.len() == 0 {
        Seq::empty()
    } else {
        esc_char(s[0]) + json_escaped(s.drop_first())
    }
}

fn hex_text(d: usize) -> (r: &'static str)
    requires
        d < 16,
    ensures
        r@ == seq![hex_char(d as int)],
{
    if d < 10 {
        digit_text(d)
    } else {
        let r: &'static str = match d {
            10 => "a",
            11 => "b",
            12 => "c",
            13 => "d",
            14 => "e",
            _ => "f",
        };
        proof {
            reveal_strlit("a");
            reveal_strlit("b");
            reveal_strlit("c");
            reveal_strlit("d");
            reveal_strlit("e");
            reveal_strlit("f");
            assert(r@ =~= seq![hex_char(d as int)]);
        }
        r
    }
}

/// The escape text of one character; `plain` is that character as text,
/// handed in by the caller so that no new string has to be made of it.
fn esc_char_text(c: char, plain: &str) -> (r: String)
    requires
        plain@ == seq![c],
    ensures
        r@ == esc_char(c),
{
    let code = c as u32;
    if c == '"' {
        let r = String::from_str("\\\"");
        proof {
            reveal_strlit("\\\"");
            assert(r@ =~= esc_char(c));
        }
        r
    } else if c == '\\' {
        let r = String::from_str("\\\\");
        proof {
            reveal_strlit("\\\\");
            assert(r@ =~= esc_char(c));
        }
        r
    } else if code < 32 {
        let mut r = String::from_str("\\u00");
        r.append(hex_text((code / 16) as usize));
        r.append(hex_text((code % 16) as usize));
        proof {
            reveal_strlit("\\u00");
            assert(r@ =~= esc_char(c));
        }
        r
    } else {
        let r = String::from_str(plain);
        proof {
            assert(r@ =~= esc_char(c));
        }
        r
    }
}

/// Escapes a text for embedding in a JSON string literal.
pub fn json_escape(s: &str) -> (r: String)
    ensures
        r@ == json_escaped(s@),
    decreases s@.len(),
{
    let n = s.unicode_len();
    if n == 0 {
        String::new()
    } else {
        let c = s.get_char(0);
        let plain = s.substring_char(0, 1);
        proof {
            assert(plain@ =~= seq![c]);
        }
        let mut r = esc_char_text(c, plain);
        let rest = json_escape(s.substring_char(1, n));
        r.append(rest.as_str());
        proof {
            assert(s@.subrange(1, n as int) =~= s@.drop_first());
        }
        r
    }
}

/// Detail text reported when the backend's response body could not be read.
pub open spec fn details_of(body: Option<Seq<char>>) -> Seq<char> {
    match body {
        Some(t) => t,
        None => "Unknown error"@,
    }
}

/// The error envelope `{"error":"<msg>","details":"<details>"}`, the
/// details escaped as a JSON string.
pub open spec fn error_envelope(msg: Seq<char>, body: Option<Seq<char>>) -> Seq<char> {
    "{\"error\":\""@ + msg + "\",\"details\":\""@ + json_escaped(details_of(body)) + "\"}"@
}

/// Builds the error envelope for a failed backend call.
pub fn make_error_envelope(msg: &str, body: &Option<String>) -> (r: String)
    ensures
        r@ == error_envelope(msg@, opt_str_view(*body)),
{
    let mut r = String::from_str("{\"error\":\"");
    r.append(msg);
    r.append("\",\"details\":\"");
    let details = match body {
        Some(t) => json_escape(t.as_str()),
        None => json_escape("Unknown error"),
    };
    r.append(details.as_str());
    r.append("\"}");
    r
}

} // verus!
