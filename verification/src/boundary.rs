//! Stateless entry points offered at the host-process boundary.
//!
//! The process-facing layer around this library adds the C-compatible
//! plumbing (raw pointers, JSON envelopes); the decisions behind each entry
//! point live here, as pure functions over plain values.
use vstd::prelude::*;
use vstd::string::StrSliceExecFns;
use vstd::string::StringExecFns;

use crate::decimal::digit_char;
use crate::decimal::i32_to_decimal;
use crate::decimal::signed_decimal_digits;
use crate::decimal::string_push_char;
use crate::error::CoreError;
use crate::vault::NetworkSelector;

verus! {

/// The library's semantic version.
pub open spec fn spec_version() -> Seq<char> {
    "0.1.0"@
}

/// Returns the library's semantic version. Pure; always succeeds.
pub fn version() -> (v: String)
    ensures
        v@ == spec_version(),
{
    String::from_str("0.1.0")
}

/// Validates a network code: status 0 for a known code, -1 for any other
/// value. Keeps no state; every later operation receives its network
/// explicitly rather than relying on a cached value.
pub fn init_status(network: i32) -> (status: i32)
    ensures
        status == (if 0 <= network <= 3 {
            0int
        } else {
            -1int
        }),
{
    match NetworkSelector::from_code(network) {
        Ok(_) => 0,
        Err(_) => -1,
    }
}

/// Releases a string handed out across the boundary. The handle is an
/// owned value, so taking it by value reclaims it exactly once; a missing
/// handle is a no-op and does not fault.
pub fn release_string(handle: Option<String>) {
    let _ = handle;
}

/// The hexadecimal digit character for a value below sixteen, lower case.
pub open spec fn hex_digit_char(d: nat) -> char
    recommends
        d < 16,
{
    if d < 10 {
        digit_char(d)
    } else if d == 10 {
        'a'
    } else if d == 11 {
        'b'
    } else if d == 12 {
        'c'
    } else if d == 13 {
        'd'
    } else if d == 14 {
        'e'
    } else {
        'f'
    }
}

/// JSON escaping of one character inside a string literal: quote and
/// backslash get a backslash, control characters their short or `\u00..`
/// form, and every other character stands as itself.
pub open spec fn json_escaped_char(c: char) -> Seq<char> {
    if c == '"' {
        seq!['\\', '"']
    } else if c == '\\' {
        seq!['\\', '\\']
    } else if c == '\u{08}' {
        seq!['\\', 'b']
    } else if c == '\u{09}' {
        seq!['\\', 't']
    } else if c == '\u{0A}' {
        seq!['\\', 'n']
    } else if c == '\u{0C}' {
        seq!['\\', 'f']
    } else if c == '\u{0D}' {
        seq!['\\', 'r']
    } else if (c as u32) < 0x20 {
        seq!['\\', 'u', '0', '0', hex_digit_char(((c as u32) / 16) as nat), hex_digit_char(
            ((c as u32) % 16) as nat,
        )]
    } else {
        seq![c]
    }
}

/// JSON escaping of a whole string.
pub open spec fn json_escaped(s: Seq<char>) -> Seq<char>
    decreases s.len(),
{
    if s.len() == 0 {
        Seq::empty()
    } else {
        json_escaped_char(s[0]) + json_escaped(s.drop_first())
    }
}

proof fn lemma_json_escaped_snoc(s: Seq<char>, i: int)
    requires
        0 <= i < s.len(),
    ensures
        json_escaped(s.take(i + 1)) == json_escaped(s.take(i)) + json_escaped_char(s[i]),
    decreases i,
{
    let t = s.take(i + 1);
    if i == 0 {
        assert(t.drop_first() =~= Seq::<char>::empty());
        assert(s.take(0) =~= Seq::<char>::empty());
        assert(json_escaped(t) =~= json_escaped(s.take(0)) + json_escaped_char(s[0]));
    } else {
        lemma_json_escaped_snoc(s.drop_first(), i - 1);
        assert(t.drop_first() =~= s.drop_first().take(i));
        assert(s.take(i).drop_first() =~= s.drop_first().take(i - 1));
        assert(json_escaped(t) =~= json_escaped(s.take(i)) + json_escaped_char(s[i]));
    }
}

fn hex_digit_to_char(d: u32) -> (c: char)
    requires
        d < 16,
    ensures
        c == hex_digit_char(d as nat),
{
    if d == 0 {
        '0'
    } else if d == 1 {
        '1'
    } else if d == 2 {
        '2'
    } else if d == 3 {
        '3'
    } else if d == 4 {
        '4'
    } else if d == 5 {
        '5'
    } else if d == 6 {
        '6'
    } else if d == 7 {
        '7'
    } else if d == 8 {
        '8'
    } else if d == 9 {
        '9'
    } else if d == 10 {
        'a'
    } else if d == 11 {
        'b'
    } else if d == 12 {
        'c'
    } else if d == 13 {
        'd'
    } else if d == 14 {
        'e'
    } else {
        'f'
    }
}

/// Escape a string for inclusion in a JSON string literal.
pub fn json_escape(s: &str) -> (r: String)
    ensures
        r@ == json_escaped(s@),
{
    let n: usize = s.unicode_len();
    let mut r = String::new();
    let mut i: usize = 0;
    while i < n
        invariant
            i <= n,
            n == s@.len(),
            r@ == json_escaped(s@.take(i as int)),
        decreases n - i,
    {
        let c: char = s.get_char(i);
        let ghost r0 = r@;
        proof {
            lemma_json_escaped_snoc(s@, i as int);
        }
        if c == '"' {
            string_push_char(&mut r, '\\');
            string_push_char(&mut r, '"');
        } else if c == '\\' {
            string_push_char(&mut r, '\\');
            string_push_char(&mut r, '\\');
        } else if c == '\u{08}' {
            string_push_char(&mut r, '\\');
            string_push_char(&mut r, 'b');
        } else if c == '\u{09}' {
            string_push_char(&mut r, '\\');
            string_push_char(&mut r, 't');
        } else if c == '\u{0A}' {
            string_push_char(&mut r, '\\');
            string_push_char(&mut r, 'n');
        } else if c == '\u{0C}' {
            string_push_char(&mut r, '\\');
            string_push_char(&mut r, 'f');
        } else if c == '\u{0D}' {
            string_push_char(&mut r, '\\');
            string_push_char(&mut r, 'r');
        } else if (c as u32) < 0x20 {
            string_push_char(&mut r, '\\');
            string_push_char(&mut r, 'u');
            string_push_char(&mut r, '0');
            string_push_char(&mut r, '0');
            string_push_char(&mut r, hex_digit_to_char((c as u32) / 16));
            string_push_char(&mut r, hex_digit_to_char((c as u32) % 16));
        } else {
            string_push_char(&mut r, c);
        }
        proof {
            assert(r@ =~= r0 + json_escaped_char(c));
        }
        i = i + 1;
    }
    proof {
        assert(s@.take(n as int) =~= s@);
    }
    r
}

/// The JSON error envelope of the boundary:
/// `{"error":true,"code":<code>,"message":"<escaped message>"}`.
pub open spec fn spec_error_envelope(code: int, message: Seq<char>) -> Seq<char> {
    "{\"error\":true,\"code\":"@ + signed_decimal_digits(code) + ",\"message\":\""@
        + json_escaped(message) + "\"}"@
}

/// Render the JSON error envelope for an error, with its stable code and
/// its message. Total: error construction never fails.
pub fn error_envelope(e: &CoreError) -> (r: String)
    ensures
        r@ == spec_error_envelope(e.spec_code() as int, e.spec_message()),
{
    let mut r = String::from_str("{\"error\":true,\"code\":");
    let code = i32_to_decimal(e.code());
    r.append(code.as_str());
    r.append(",\"message\":\"");
    let msg = e.message();
    let escaped = json_escape(msg.as_str());
    r.append(escaped.as_str());
    r.append("\"}");
    r
}

} // verus!
