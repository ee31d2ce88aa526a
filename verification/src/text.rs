//! Decimal rendering of counts and money amounts.
//!
//! Counts are rendered as plain decimal numerals. Money is held in integer
//! cents and rendered in euros with the shortest decimal fraction: whole
//! euros print no fraction, a multiple of ten cents prints one digit, and
//! anything else prints two digits.

use vstd::prelude::*;

verus! {

/// The numeral for a single decimal digit.
pub open spec fn digit_char(d: nat) -> char {
    if d == 0 {
        '0'
    } else if d == 1 {
        '1'
    } else if d == 2 {
        '2'
    } else if d == 3 {
        '3'
    } else if d == 4 {
        '4'
    } else if d == 5 {
        '5'
    } else if d == 6 {
        '6'
    } else if d == 7 {
        '7'
    } else if d == 8 {
        '8'
    } else {
        '9'
    }
}

/// The decimal numeral of `n`, most significant digit first, no leading
/// zeros (except for the single digit of `n == 0`).
pub open spec fn spec_decimal(n: nat) -> Seq<char>
    decreases n,
{
    if n < 10 {
        seq![digit_char(n)]
    } else {
        spec_decimal(n / 10) + seq![digit_char(n % 10)]
    }
}

/// The fractional part of a euro amount, from its cent remainder
/// (`frac < 100`): empty for whole euros, one digit for a multiple of ten
/// cents, two digits otherwise.
pub open spec fn spec_euro_fraction(frac: nat) -> Seq<char> {
    if frac == 0 {
        Seq::empty()
    } else if frac % 10 == 0 {
        seq!['.', digit_char(frac / 10)]
    } else {
        seq!['.', digit_char(frac / 10), digit_char(frac % 10)]
    }
}

/// A money amount in cents rendered in euros.
pub open spec fn spec_euros(cents: nat) -> Seq<char> {
    spec_decimal(cents / 100) + spec_euro_fraction(cents % 100)
}

/// The numeral for one digit, as a string slice.
pub fn digit_str(d: u64) -> (r: &'static str)
    requires
        d < 10,
    ensures
        r@ == seq![digit_char(d as nat)],
{
    proof {
        reveal_strlit("0");
        reveal_strlit("1");
        reveal_strlit("2");
        reveal_strlit("3");
        reveal_strlit("4");
        reveal_strlit("5");
        reveal_strlit("6");
        reveal_strlit("7");
        reveal_strlit("8");
        reveal_strlit("9");
    }
    let r: &'static str = match d {
        0 => "0",
        1 => "1",
        2 => "2",
        3 => "3",
        4 => "4",
        5 => "5",
        6 => "6",
        7 => "7",
        8 => "8",
        _ => "9",
    };
    proof {
        assert(r@ =~= seq![digit_char(d as nat)]);
    }
    r
}

/// Appends the decimal numeral of `n` to `s`.
pub fn push_decimal(s: &mut String, n: u64)
    ensures
        final(s)@ == old(s)@ + spec_decimal(n as nat),
    decreases n,
{
    if n < 10 {
        s.append(digit_str(n));
    } else {
        push_decimal(s, n / 10);
        s.append(digit_str(n % 10));
        proof {
            assert(old(s)@ + spec_decimal(n as nat) =~= (old(s)@ + spec_decimal(n as nat / 10))
                + seq![digit_char(n as nat % 10)]);
        }
    }
}

/// The decimal numeral of `n` as a fresh string.
pub fn decimal_string(n: u64) -> (r: String)
    ensures
        r@ == spec_decimal(n as nat),
{
    let mut r: String = String::new();
    push_decimal(&mut r, n);
    proof {
        assert(r@ =~= spec_decimal(n as nat));
    }
    r
}

/// Appends the euro rendering of a cent amount to `s`.
pub fn push_euros(s: &mut String, cents: u64)
    ensures
        final(s)@ == old(s)@ + spec_euros(cents as nat),
{
    push_decimal(s, cents / 100);
    let frac: u64 = cents % 100;
    if frac != 0 {
        proof {
            reveal_strlit(".");
        }
        s.append(".");
        if frac % 10 == 0 {
            s.append(digit_str(frac / 10));
        } else {
            s.append(digit_str(frac / 10));
            s.append(digit_str(frac % 10));
        }
    }
    proof {
        assert(s@ =~= old(s)@ + spec_euros(cents as nat));
    }
}

/// The euro rendering of a cent amount as a fresh string.
pub fn euros_string(cents: u64) -> (r: String)
    ensures
        r@ == spec_euros(cents as nat),
{
    let mut r: String = String::new();
    push_euros(&mut r, cents);
    proof {
        assert(r@ =~= spec_euros(cents as nat));
    }
    r
}

} // verus!
