//! Integers as decimal text.

use vstd::prelude::*;
use crate::sql::push_char;

verus! {

/// The character for the digit `d`: `'0'` for 0, up to `'9'` for 9.
pub open spec fn digit_char(d: nat) -> char {
    ('0' as nat + d) as char
}

/// The digits of `n` in base ten, the most significant first, with no leading
/// zero; the one digit `0` for zero.
pub open spec fn digits(n: nat) -> Seq<char>
    decreases n,
{
    if n < 10 {
        seq![digit_char(n)]
    } else {
        digits(n / 10).push(digit_char(n % 10))
    }
}

/// The decimal text of `n`: its digits, after a minus sign where `n` is negative.
pub open spec fn decimal(n: int) -> Seq<char> {
    if n < 0 {
        seq!['-'] + digits((-n) as nat)
    } else {
        digits(n as nat)
    }
}

/// The character for the digit `d`.
fn digit(d: u8) -> (c: char)
    requires
        d < 10,
    ensures
        c == digit_char(d as nat),
{
    (48u8 + d) as char
}

/// Appends the digits of `n` to `f`.
fn write_digits(n: u64, f: &mut String)
    ensures
        final(f)@ == old(f)@ + digits(n as nat),
    decreases n,
{
    if n >= 10 {
        write_digits(n / 10, f);
    }
    push_char(f, digit((n % 10) as u8));
}

/// Appends the decimal text of `n` to `f`.
pub fn write_decimal(n: i64, f: &mut String)
    ensures
        final(f)@ == old(f)@ + decimal(n as int),
{
    if n < 0 {
        push_char(f, '-');
        let below: u64 = (-(n + 1)) as u64;
        write_digits(below + 1, f);
    } else {
        write_digits(n as u64, f);
    }
}

} // verus!
