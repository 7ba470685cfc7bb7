//! Decimal rendering of integers, as `Display` writes them.

use vstd::prelude::*;
use vstd::string::*;

verus! {

/// The character of a decimal digit.
pub open spec fn digit_char(d: nat) -> char {
    if d == 0 {
        '0'
    } else if d == 1 {
        '1'
    } else if d == 2 {
        '2'
    } else if d == 3 {
        '3'
    } else if d == 4 {
        '4'
    } else if d == 5 {
        '5'
    } else if d == 6 {
        '6'
    } else if d == 7 {
        '7'
    } else if d == 8 {
        '8'
    } else {
        '9'
    }
}

/// The decimal digits of a natural number, most significant first, without
/// leading zeros.
pub open spec fn decimal_nat(n: nat) -> Seq<char>
    decreases n,
{
    if n < 10 {
        seq![digit_char(n)]
    } else {
        decimal_nat(n / 10).push(digit_char(n % 10))
    }
}

/// The decimal rendering of an integer: a minus sign before the digits of
/// its magnitude when it is negative.
pub open spec fn decimal_int(n: int) -> Seq<char> {
    if n < 0 {
        seq!['-'] + decimal_nat((-n) as nat)
    } else {
        decimal_nat(n as nat)
    }
}

/// The number that a numeral written in base 10 stands for, reading each
/// character by its distance from the character `0`.
pub open spec fn numeral_value(s: Seq<char>) -> int
    decreases s.len(),
{
    if s.len() == 0 {
        0
    } else {
        numeral_value(s.drop_last()) * 10 + ((s.last() as int) - 48)
    }
}

/// Each decimal digit is written by its own character: the digit `d` by
/// the character of code 48 + d (`0` to `9`).
pub proof fn digit_char_codes(d: nat)
    requires
        d < 10,
    ensures
        digit_char(d) as int == 48 + d,
{
}

/// The decimal digits of a number, read back as a base-10 numeral, give the
/// number; and only digit characters are written.
pub proof fn decimal_nat_reads_back(n: nat)
    ensures
        numeral_value(decimal_nat(n)) == n,
        decimal_nat(n).len() >= 1,
        forall|i: int| 0 <= i < decimal_nat(n).len() ==> 48 <= #[trigger] (decimal_nat(n)[i] as int) <= 57,
    decreases n,
{
    digit_char_codes(n % 10);
    if n >= 10 {
        decimal_nat_reads_back(n / 10);
        let s = decimal_nat(n);
        assert(s.drop_last() =~= decimal_nat(n / 10));
        assert(s.last() == digit_char(n % 10));
        assert((n / 10) * 10 + n % 10 == n) by (nonlinear_arith);
        assert(numeral_value(s) == numeral_value(s.drop_last()) * 10 + ((s.last() as int) - 48));
        assert(numeral_value(s.drop_last()) == n / 10);
        assert forall|i: int| 0 <= i < s.len() implies 48 <= #[trigger] (s[i] as int) <= 57 by {
            if i < s.len() - 1 {
                assert(s[i] == decimal_nat(n / 10)[i]);
            }
        }
    } else {
        let s = decimal_nat(n);
        assert(s.drop_last() =~= Seq::<char>::empty());
        assert(numeral_value(s.drop_last()) == 0);
        assert(numeral_value(s) == numeral_value(s.drop_last()) * 10 + ((s.last() as int) - 48));
    }
}

/// Different numbers are written differently.
pub proof fn decimal_nat_injective(m: nat, n: nat)
    requires
        decimal_nat(m) == decimal_nat(n),
    ensures
        m == n,
{
    decimal_nat_reads_back(m);
    decimal_nat_reads_back(n);
}

/// A negative number is written as a minus sign before the digits of its
/// magnitude, and any other number by its digits alone; either way the
/// digits read back as the magnitude.
pub proof fn decimal_int_reads_back(n: int)
    ensures
        n < 0 ==> decimal_int(n)[0] == '-' && numeral_value(decimal_int(n).drop_first()) == -n,
        n >= 0 ==> numeral_value(decimal_int(n)) == n,
{
    if n < 0 {
        decimal_nat_reads_back((-n) as nat);
        assert(decimal_int(n).drop_first() =~= decimal_nat((-n) as nat));
    } else {
        decimal_nat_reads_back(n as nat);
    }
}

fn digit_text(d: u32) -> (s: &'static str)
    requires
        d < 10,
    ensures
        s@ == seq![digit_char(d as nat)],
{
    proof {
        reveal_strlit("0");
        reveal_strlit("1");
        reveal_strlit("2");
        reveal_strlit("3");
        reveal_strlit("4");
        reveal_strlit("5");
        reveal_strlit("6");
        reveal_strlit("7");
        reveal_strlit("8");
        reveal_strlit("9");
    }
    if d == 0 {
        "0"
    } else if d == 1 {
        "1"
    } else if d == 2 {
        "2"
    } else if d == 3 {
        "3"
    } else if d == 4 {
        "4"
    } else if d == 5 {
        "5"
    } else if d == 6 {
        "6"
    } else if d == 7 {
        "7"
    } else if d == 8 {
        "8"
    } else {
        "9"
    }
}

/// Appends the decimal digits of `n` to `out`.
pub fn push_decimal(out: &mut String, n: u32)
    ensures
        final(out)@ == old(out)@ + decimal_nat(n as nat),
    decreases n,
{
    if n >= 10 {
        push_decimal(out, n / 10);
    }
    out.append(digit_text(n % 10));
    assert(out@ =~= old(out)@ + decimal_nat(n as nat));
}

/// Renders a `u16` in decimal.
pub fn decimal_u16(n: u16) -> (s: String)
    ensures
        s@ == decimal_nat(n as nat),
{
    let mut s = String::new();
    push_decimal(&mut s, n as u32);
    proof {
        assert(s@ =~= decimal_nat(n as nat));
    }
    s
}

/// Renders an `i32` in decimal, with a leading minus sign when negative.
pub fn decimal_i32(n: i32) -> (s: String)
    ensures
        s@ == decimal_int(n as int),
{
    if n < 0 {
        let magnitude: u32 = (-(n as i64)) as u32;
        let mut s = String::from_str("-");
        proof {
            reveal_strlit("-");
        }
        push_decimal(&mut s, magnitude);
        s
    } else {
        let mut s = String::new();
        push_decimal(&mut s, n as u32);
        proof {
            assert(s@ =~= decimal_nat(n as nat));
        }
        s
    }
}

} // verus!
