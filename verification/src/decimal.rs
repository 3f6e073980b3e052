//! Decimal rendering of temperatures.
//!
//! A temperature arrives as milli-degrees Celsius in an `i64` and is shown
//! in degrees: an optional minus sign, the whole degrees without leading
//! zeros, and the milli-degree fraction with trailing zeros dropped and
//! omitted entirely when zero — "20", "-5", "27.999", "0.05".

use vstd::prelude::*;

verus! {

/// The glyph of a single decimal digit; `d` is meant to lie in 0..10.
pub open spec fn digit_view(d: int) -> Seq<char> {
    if d == 0 {
        "0"@
    } else if d == 1 {
        "1"@
    } else if d == 2 {
        "2"@
    } else if d == 3 {
        "3"@
    } else if d == 4 {
        "4"@
    } else if d == 5 {
        "5"@
    } else if d == 6 {
        "6"@
    } else if d == 7 {
        "7"@
    } else if d == 8 {
        "8"@
    } else {
        "9"@
    }
}

/// The decimal numeral of `n`, most significant digit first, without sign
/// or leading zeros (zero itself is a single "0").
pub open spec fn dec_view(n: nat) -> Seq<char>
    decreases n,
{
    if n < 10 {
        digit_view(n as int)
    } else {
        dec_view(n / 10) + digit_view((n % 10) as int)
    }
}

/// The shown form of a milli-degree fraction `f`, meant to lie in 1..1000:
/// up to three places, with trailing zeros dropped.
pub open spec fn frac_view(f: int) -> Seq<char> {
    if f % 10 != 0 {
        digit_view(f / 100) + digit_view((f / 10) % 10) + digit_view(f % 10)
    } else if f % 100 != 0 {
        digit_view(f / 100) + digit_view((f / 10) % 10)
    } else {
        digit_view(f / 100)
    }
}

/// The display text of a temperature given in milli-degrees Celsius.
pub open spec fn temp_view(t: int) -> Seq<char> {
    let a = if t < 0 {
        -t
    } else {
        t
    };
    let sign = if t < 0 {
        "-"@
    } else {
        Seq::<char>::empty()
    };
    if a % 1000 == 0 {
        sign + dec_view((a / 1000) as nat)
    } else {
        sign + dec_view((a / 1000) as nat) + "."@ + frac_view(a % 1000)
    }
}

/// Append the glyph of the decimal digit `d` to `s`.
fn append_digit(s: &mut String, d: u64)
    requires
        d < 10,
    ensures
        final(s)@ == old(s)@ + digit_view(d as int),
{
    let t: &str = if d == 0 {
        "0"
    } else if d == 1 {
        "1"
    } else if d == 2 {
        "2"
    } else if d == 3 {
        "3"
    } else if d == 4 {
        "4"
    } else if d == 5 {
        "5"
    } else if d == 6 {
        "6"
    } else if d == 7 {
        "7"
    } else if d == 8 {
        "8"
    } else {
        "9"
    };
    s.append(t);
}

/// Append the decimal numeral of `n` to `s`.
fn append_decimal(s: &mut String, n: u64)
    ensures
        final(s)@ == old(s)@ + dec_view(n as nat),
    decreases n,
{
    if n < 10 {
        append_digit(s, n);
    } else {
        append_decimal(s, n / 10);
        append_digit(s, n % 10);
        assert(s@ =~= old(s)@ + dec_view(n as nat));
    }
}

/// Append the display text of a temperature in milli-degrees Celsius.
pub fn append_temp(s: &mut String, t: i64)
    requires
        t > i64::MIN,
    ensures
        final(s)@ == old(s)@ + temp_view(t as int),
{
    if t < 0 {
        s.append("-");
    }
    let a: u64 = if t < 0 {
        (-t) as u64
    } else {
        t as u64
    };
    append_decimal(s, a / 1000);
    let f: u64 = a % 1000;
    if f != 0 {
        s.append(".");
        append_digit(s, f / 100);
        if f % 10 != 0 {
            append_digit(s, (f / 10) % 10);
            append_digit(s, f % 10);
        } else if f % 100 != 0 {
            append_digit(s, (f / 10) % 10);
        }
    }
    assert(s@ =~= old(s)@ + temp_view(t as int));
}

} // verus!
