//! Renderings of constants for "expected ..." messages.
use vstd::prelude::*;
use vstd::string::*;

verus! {

/// The character for the decimal digit `d`.
pub open spec fn spec_digit(d: nat) -> char {
    if d == 0 {
        '0'
    } else if d == 1 {
        '1'
    } else if d == 2 {
        '2'
    } else if d == 3 {
        '3'
    } else if d == 4 {
        '4'
    } else if d == 5 {
        '5'
    } else if d == 6 {
        '6'
    } else if d == 7 {
        '7'
    } else if d == 8 {
        '8'
    } else {
        '9'
    }
}

/// The decimal rendering of a natural number, most significant digit first,
/// with no leading zero except for zero itself.
pub open spec fn spec_dec_nat(n: nat) -> Seq<char>
    decreases n,
{
    if n < 10 {
        seq![spec_digit(n)]
    } else {
        spec_dec_nat(n / 10) + seq![spec_digit(n % 10)]
    }
}

/// The decimal rendering of an integer: a minus sign before the magnitude
/// when negative.
pub open spec fn spec_dec_int(v: int) -> Seq<char> {
    if v < 0 {
        seq!['-'] + spec_dec_nat((-v) as nat)
    } else {
        spec_dec_nat(v as nat)
    }
}

/// The rendering of a boolean constant.
pub open spec fn spec_bool_text(v: bool) -> Seq<char> {
    if v {
        seq!['t', 'r', 'u', 'e']
    } else {
        seq!['f', 'a', 'l', 's', 'e']
    }
}

/// The rendering of a character constant: quoted, so that error messages are
/// unambiguous about the observed kind.
pub open spec fn spec_char_text(c: char) -> Seq<char> {
    seq!['\'', c, '\'']
}

/// Relies on `String::push`: appends the given character to the end of the
/// string.
#[verifier::external_body]
fn push_char(s: &mut String, c: char)
    ensures
        final(s)@ == old(s)@ + seq![c],
{
    s.push(c);
}

/// The character for the decimal digit `d`.
fn digit_char(d: u128) -> (c: char)
    requires
        d < 10,
    ensures
        c == spec_digit(d as nat),
{
    if d == 0 {
        '0'
    } else if d == 1 {
        '1'
    } else if d == 2 {
        '2'
    } else if d == 3 {
        '3'
    } else if d == 4 {
        '4'
    } else if d == 5 {
        '5'
    } else if d == 6 {
        '6'
    } else if d == 7 {
        '7'
    } else if d == 8 {
        '8'
    } else {
        '9'
    }
}

/// Appends the decimal rendering of `n`.
fn push_dec_u128(s: &mut String, n: u128)
    ensures
        final(s)@ == old(s)@ + spec_dec_nat(n as nat),
    decreases n,
{
    if n >= 10 {
        push_dec_u128(s, n / 10);
    }
    let d = digit_char(n % 10);
    push_char(s, d);
    proof {
        assert(final(s)@ =~= old(s)@ + spec_dec_nat(n as nat));
    }
}

/// The decimal rendering of an unsigned constant.
pub fn dec_string_u128(n: u128) -> (r: String)
    ensures
        r@ == spec_dec_nat(n as nat),
{
    let mut s = String::new();
    push_dec_u128(&mut s, n);
    proof {
        assert(s@ =~= spec_dec_nat(n as nat));
    }
    s
}

/// The decimal rendering of a signed constant.
pub fn dec_string_i128(v: i128) -> (r: String)
    ensures
        r@ == spec_dec_int(v as int),
{
    let mut s = String::new();
    if v < 0 {
        push_char(&mut s, '-');
        let m: u128 = ((-(v + 1)) as u128) + 1;
        proof {
            assert(m as int == -(v as int));
        }
        push_dec_u128(&mut s, m);
        proof {
            assert(s@ =~= spec_dec_int(v as int));
        }
    } else {
        push_dec_u128(&mut s, v as u128);
        proof {
            assert(s@ =~= spec_dec_int(v as int));
        }
    }
    s
}

/// The rendering of a boolean constant.
pub fn bool_string(v: bool) -> (r: String)
    ensures
        r@ == spec_bool_text(v),
{
    if v {
        let s = String::from_str("true");
        proof {
            reveal_strlit("true");
            assert(s@ =~= spec_bool_text(v));
        }
        s
    } else {
        let s = String::from_str("false");
        proof {
            reveal_strlit("false");
            assert(s@ =~= spec_bool_text(v));
        }
        s
    }
}

/// The rendering of a character constant, quoted.
pub fn char_string(c: char) -> (r: String)
    ensures
        r@ == spec_char_text(c),
{
    let mut s = String::new();
    push_char(&mut s, '\'');
    push_char(&mut s, c);
    push_char(&mut s, '\'');
    proof {
        assert(s@ =~= spec_char_text(c));
    }
    s
}

} // verus!
