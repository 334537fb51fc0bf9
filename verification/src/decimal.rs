//! Decimal rendering of the numbers the wire protocols carry: plain
//! unsigned integers, and model percentages (hundredths of a percent)
//! shown as a decimal with one or two fractional digits, the way a display
//! client expects them (`6000` renders as `60.0`, `39` as `0.39`).

use vstd::prelude::*;
use vstd::string::StringExecFns;

verus! {

/// The character for one decimal digit.
pub open spec fn spec_digit_char(d: int) -> char {
    if d == 0 {
        '0'
    } else if d == 1 {
        '1'
    } else if d == 2 {
        '2'
    } else if d == 3 {
        '3'
    } else if d == 4 {
        '4'
    } else if d == 5 {
        '5'
    } else if d == 6 {
        '6'
    } else if d == 7 {
        '7'
    } else if d == 8 {
        '8'
    } else {
        '9'
    }
}

/// The usual base-ten rendering of a nonnegative integer, most significant
/// digit first, with no leading zeros.
pub open spec fn spec_decimal(n: nat) -> Seq<char>
    decreases n,
{
    if n < 10 {
        seq![spec_digit_char(n as int)]
    } else {
        spec_decimal(n / 10).push(spec_digit_char((n % 10) as int))
    }
}

/// A percentage in hundredths rendered as a decimal: the integer part,
/// a dot, then the fraction as one digit if it is a multiple of ten
/// hundredths and as two digits otherwise.
pub open spec fn spec_pct_decimal(h: int) -> Seq<char>
    recommends
        0 <= h <= 10000,
{
    spec_decimal((h / 100) as nat) + seq!['.'] + (if (h % 100) % 10 == 0 {
        seq![spec_digit_char((h % 100) / 10)]
    } else {
        seq![spec_digit_char((h % 100) / 10), spec_digit_char((h % 100) % 10)]
    })
}

/// Appends the character for one digit.
fn append_digit(s: &mut String, d: u32)
    requires
        d < 10,
    ensures
        final(s)@ == old(s)@.push(spec_digit_char(d as int)),
{
    let lit: &str = match d {
        0 => "0",
        1 => "1",
        2 => "2",
        3 => "3",
        4 => "4",
        5 => "5",
        6 => "6",
        7 => "7",
        8 => "8",
        _ => "9",
    };
    proof {
        reveal_strlit("0");
        reveal_strlit("1");
        reveal_strlit("2");
        reveal_strlit("3");
        reveal_strlit("4");
        reveal_strlit("5");
        reveal_strlit("6");
        reveal_strlit("7");
        reveal_strlit("8");
        reveal_strlit("9");
        assert(lit@ =~= seq![spec_digit_char(d as int)]);
    }
    s.append(lit);
    proof {
        assert(s@ =~= old(s)@.push(spec_digit_char(d as int)));
    }
}

/// Appends the base-ten rendering of `n`.
pub fn append_decimal(s: &mut String, n: u32)
    ensures
        final(s)@ == old(s)@ + spec_decimal(n as nat),
    decreases n,
{
    if n < 10 {
        append_digit(s, n);
        proof {
            assert(s@ =~= old(s)@ + spec_decimal(n as nat));
        }
    } else {
        append_decimal(s, n / 10);
        append_digit(s, n % 10);
        proof {
            assert(s@ =~= old(s)@ + spec_decimal(n as nat));
        }
    }
}

/// The base-ten rendering of `n` as a fresh string.
pub fn decimal_string(n: u32) -> (r: String)
    ensures
        r@ == spec_decimal(n as nat),
{
    let mut s = String::new();
    append_decimal(&mut s, n);
    proof {
        assert(s@ =~= spec_decimal(n as nat));
    }
    s
}

/// Appends the decimal rendering of a percentage held in hundredths.
pub fn append_pct_decimal(s: &mut String, h: u32)
    requires
        h <= 10000,
    ensures
        final(s)@ == old(s)@ + spec_pct_decimal(h as int),
{
    append_decimal(s, h / 100);
    proof {
        reveal_strlit(".");
        assert("."@ =~= seq!['.']);
    }
    s.append(".");
    let frac = h % 100;
    if frac % 10 == 0 {
        append_digit(s, frac / 10);
    } else {
        append_digit(s, frac / 10);
        append_digit(s, frac % 10);
    }
    proof {
        assert(s@ =~= old(s)@ + spec_pct_decimal(h as int));
    }
}

} // verus!
