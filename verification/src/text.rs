//! The error message for conversions given too short an input.

use vstd::prelude::*;
use vstd::string::StringExecFns;

verus! {

/// The character for one decimal digit.
pub open spec fn spec_digit_char(d: nat) -> char {
    if d == 0 {
        '0'
    } else if d == 1 {
        '1'
    } else if d == 2 {
        '2'
    } else if d == 3 {
        '3'
    } else if d == 4 {
        '4'
    } else if d == 5 {
        '5'
    } else if d == 6 {
        '6'
    } else if d == 7 {
        '7'
    } else if d == 8 {
        '8'
    } else {
        '9'
    }
}

/// The decimal spelling of a number, most significant digit first, with no
/// leading zeros (a single `'0'` for zero).
pub open spec fn spec_decimal(n: nat) -> Seq<char>
    decreases n,
{
    if n < 10 {
        seq![spec_digit_char(n)]
    } else {
        spec_decimal(n / 10).push(spec_digit_char(n % 10))
    }
}

/// The message raised when a conversion is given fewer elements than the
/// format has channels.
pub open spec fn short_input_msg(len: nat, required: nat) -> Seq<char> {
    "ERROR: Given vector was length "@ + spec_decimal(len)
        + ". This function requires length "@ + spec_decimal(required) + "."@
}

/// Appends the character for one decimal digit.
fn push_digit(s: &mut String, d: usize)
    requires
        d < 10,
    ensures
        final(s)@ == old(s)@ + seq![spec_digit_char(d as nat)],
{
    proof {
        reveal_strlit("0");
        reveal_strlit("1");
        reveal_strlit("2");
        reveal_strlit("3");
        reveal_strlit("4");
        reveal_strlit("5");
        reveal_strlit("6");
        reveal_strlit("7");
        reveal_strlit("8");
        reveal_strlit("9");
    }
    if d == 0 {
        s.append("0");
        assert(s@ =~= old(s)@ + seq![spec_digit_char(d as nat)]);
    } else if d == 1 {
        s.append("1");
        assert(s@ =~= old(s)@ + seq![spec_digit_char(d as nat)]);
    } else if d == 2 {
        s.append("2");
        assert(s@ =~= old(s)@ + seq![spec_digit_char(d as nat)]);
    } else if d == 3 {
        s.append("3");
        assert(s@ =~= old(s)@ + seq![spec_digit_char(d as nat)]);
    } else if d == 4 {
        s.append("4");
        assert(s@ =~= old(s)@ + seq![spec_digit_char(d as nat)]);
    } else if d == 5 {
        s.append("5");
        assert(s@ =~= old(s)@ + seq![spec_digit_char(d as nat)]);
    } else if d == 6 {
        s.append("6");
        assert(s@ =~= old(s)@ + seq![spec_digit_char(d as nat)]);
    } else if d == 7 {
        s.append("7");
        assert(s@ =~= old(s)@ + seq![spec_digit_char(d as nat)]);
    } else if d == 8 {
        s.append("8");
        assert(s@ =~= old(s)@ + seq![spec_digit_char(d as nat)]);
    } else {
        s.append("9");
        assert(s@ =~= old(s)@ + seq![spec_digit_char(d as nat)]);
    }
}

/// Appends the decimal spelling of a number.
fn push_decimal(s: &mut String, n: usize)
    ensures
        final(s)@ == old(s)@ + spec_decimal(n as nat),
    decreases n,
{
    if n < 10 {
        push_digit(s, n);
    } else {
        push_decimal(s, n / 10);
        push_digit(s, n % 10);
        assert(s@ =~= old(s)@ + spec_decimal(n as nat));
    }
}

/// Builds the short-input error message, exactly as [`short_input_msg`]
/// spells it.
pub(crate) fn short_input_error(len: usize, required: usize) -> (r: String)
    ensures
        r@ == short_input_msg(len as nat, required as nat),
{
    let mut s = String::from_str("ERROR: Given vector was length ");
    push_decimal(&mut s, len);
    s.append(". This function requires length ");
    push_decimal(&mut s, required);
    s.append(".");
    assert(s@ =~= short_input_msg(len as nat, required as nat));
    s
}

} // verus!
