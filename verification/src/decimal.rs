//! Decimal rendering of integers.
//!
//! Error messages embed offending values (an unknown network code, a bad
//! recovery-type byte, amounts in sats) in decimal. The rendering is
//! specified by [`decimal_digits`] and [`signed_decimal_digits`] and proved
//! exact, so contracts elsewhere can pin the full message text.
use vstd::prelude::*;
use vstd::string::StringExecFns;

verus! {

/// The character for one decimal digit.
pub open spec fn digit_char(d: nat) -> char
    recommends
        d < 10,
{
    if d == 0 {
        '0'
    } else if d == 1 {
        '1'
    } else if d == 2 {
        '2'
    } else if d == 3 {
        '3'
    } else if d == 4 {
        '4'
    } else if d == 5 {
        '5'
    } else if d == 6 {
        '6'
    } else if d == 7 {
        '7'
    } else if d == 8 {
        '8'
    } else {
        '9'
    }
}

/// Decimal text of an unsigned value: most significant digit first, no sign,
/// no leading zeros (zero itself is the single digit `0`).
pub open spec fn decimal_digits(n: nat) -> Seq<char>
    decreases n,
{
    if n < 10 {
        seq![digit_char(n)]
    } else {
        decimal_digits(n / 10) + seq![digit_char(n % 10)]
    }
}

/// Decimal text of a signed value: a leading minus sign for negatives.
pub open spec fn signed_decimal_digits(v: int) -> Seq<char> {
    if v < 0 {
        seq!['-'] + decimal_digits((-v) as nat)
    } else {
        decimal_digits(v as nat)
    }
}

/// Relies on `String::push`: appends exactly the given character.
#[verifier::external_body]
pub(crate) fn string_push_char(s: &mut String, c: char)
    ensures
        final(s)@ == old(s)@ + seq![c],
{
    s.push(c);
}

fn digit_to_char(d: u64) -> (c: char)
    requires
        d < 10,
    ensures
        c == digit_char(d as nat),
{
    if d == 0 {
        '0'
    } else if d == 1 {
        '1'
    } else if d == 2 {
        '2'
    } else if d == 3 {
        '3'
    } else if d == 4 {
        '4'
    } else if d == 5 {
        '5'
    } else if d == 6 {
        '6'
    } else if d == 7 {
        '7'
    } else if d == 8 {
        '8'
    } else {
        '9'
    }
}

proof fn lemma_push_reverse<A>(s: Seq<A>, x: A)
    ensures
        s.push(x).reverse() == seq![x] + s.reverse(),
{
    assert(s.push(x).reverse() =~= seq![x] + s.reverse());
}

/// Renders an unsigned value in decimal.
pub fn u64_to_decimal(n: u64) -> (r: String)
    ensures
        r@ == decimal_digits(n as nat),
{
    let mut rev: Vec<char> = Vec::new();
    let mut m: u64 = n;
    loop
        invariant_except_break
            decimal_digits(n as nat) == decimal_digits(m as nat) + rev@.reverse(),
        ensures
            decimal_digits(n as nat) == rev@.reverse(),
            rev@.len() > 0,
        decreases m,
    {
        let d: u64 = m % 10;
        let c: char = digit_to_char(d);
        proof {
            lemma_push_reverse(rev@, c);
            if m >= 10 {
                assert(decimal_digits(m as nat) == decimal_digits((m as nat) / 10) + seq![
                    digit_char((m as nat) % 10),
                ]);
                assert(decimal_digits((m / 10) as nat) + (seq![c] + rev@.reverse())
                    =~= (decimal_digits((m / 10) as nat) + seq![c]) + rev@.reverse());
            } else {
                assert(decimal_digits(m as nat) == seq![digit_char(m as nat)]);
                assert(seq![c] + rev@.reverse() =~= decimal_digits(m as nat) + rev@.reverse());
            }
        }
        rev.push(c);
        m = m / 10;
        if m == 0 {
            break;
        }
    }
    let ghost text = rev@.reverse();
    let mut r = String::new();
    let mut i: usize = rev.len();
    while i > 0
        invariant
            i <= rev.len(),
            text == rev@.reverse(),
            text.len() == rev@.len(),
            r@ == text.take(rev@.len() - i),
        decreases i,
    {
        i = i - 1;
        let c: char = rev[i];
        string_push_char(&mut r, c);
        proof {
            assert(text[rev@.len() - i - 1] == rev@[i as int]);
            assert(r@ =~= text.take(rev@.len() - i));
        }
    }
    proof {
        assert(r@ =~= text);
    }
    r
}

/// Renders a signed value in decimal.
pub fn i32_to_decimal(v: i32) -> (r: String)
    ensures
        r@ == signed_decimal_digits(v as int),
{
    if v >= 0 {
        u64_to_decimal(v as u64)
    } else {
        let mag: u64 = (-(v as i64)) as u64;
        let mut r = String::new();
        string_push_char(&mut r, '-');
        let digits = u64_to_decimal(mag);
        r.append(digits.as_str());
        proof {
            assert(r@ =~= seq!['-'] + decimal_digits(mag as nat));
        }
        r
    }
}

} // verus!
