//! Decimal rendering, indentation and the other small pieces of layout text.

use vstd::prelude::*;
use vstd::string::*;

verus! {

/// The ASCII digit for `d`, where `d < 10`.
pub open spec fn digit_char(d: nat) -> char {
    ((d + 48) as u8) as char
}

/// Base-ten rendering of `n`, most significant digit first, with no padding.
pub open spec fn decimal(n: nat) -> Seq<char>
    decreases n,
{
    if n < 10 {
        seq![digit_char(n)]
    } else {
        decimal(n / 10).push(digit_char(n % 10))
    }
}

/// Rendering of a signed integer: a minus sign before the magnitude when negative.
pub open spec fn signed_decimal(v: int) -> Seq<char> {
    if v < 0 {
        seq!['-'] + decimal((-v) as nat)
    } else {
        decimal(v as nat)
    }
}

/// `n` right-aligned in a field three characters wide (wider numbers are not cut).
pub open spec fn padded3(n: nat) -> Seq<char> {
    if n < 10 {
        seq![' ', ' '] + decimal(n)
    } else if n < 100 {
        seq![' '] + decimal(n)
    } else {
        decimal(n)
    }
}

/// `n` copies of a two-space step.
pub open spec fn steps(n: nat) -> Seq<char>
    decreases n,
{
    if n == 0 {
        Seq::empty()
    } else {
        steps((n - 1) as nat) + seq![' ', ' ']
    }
}

/// Indentation for a nesting depth: one space, then two per level.
pub open spec fn indent_text(depth: nat) -> Seq<char> {
    seq![' '] + steps(depth)
}

/// Relies on `String::push`: the character is appended at the end.
#[verifier::external_body]
pub(crate) fn push_char(f: &mut String, c: char)
    ensures
        final(f)@ == old(f)@.push(c),
{
    f.push(c)
}

/// Appends the decimal digits of `n`.
pub fn push_decimal(f: &mut String, n: u64)
    ensures
        final(f)@ == old(f)@ + decimal(n as nat),
    decreases n,
{
    if n >= 10 {
        push_decimal(f, n / 10);
    }
    let d: u8 = (n % 10) as u8;
    push_char(f, (d + 48) as char);
    proof {
        assert(old(f)@ + decimal(n as nat) =~= f@);
    }
}

/// Appends `v` in base ten, with a leading minus sign when it is negative.
pub fn push_signed_decimal(f: &mut String, v: i64)
    ensures
        final(f)@ == old(f)@ + signed_decimal(v as int),
{
    if v < 0 {
        push_char(f, '-');
        let mag: u64 = ((-(v + 1)) as u64) + 1;
        push_decimal(f, mag);
        assert(f@ =~= old(f)@ + signed_decimal(v as int));
    } else {
        push_decimal(f, v as u64);
    }
}

/// Appends `n` right-aligned in a three-character field.
pub fn push_padded3(f: &mut String, n: usize)
    ensures
        final(f)@ == old(f)@ + padded3(n as nat),
{
    if n < 10 {
        f.append("  ");
        proof { reveal_strlit("  "); }
    } else if n < 100 {
        f.append(" ");
        proof { reveal_strlit(" "); }
    }
    push_decimal(f, n as u64);
    assert(f@ =~= old(f)@ + padded3(n as nat));
}

} // verus!
