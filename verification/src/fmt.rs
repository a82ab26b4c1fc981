//! Decimal rendering of integers and version stamps.
//!
//! Version stamps travel on the wire as decimal seconds with a millisecond
//! fraction (`"1234.560"`), in conditional-write headers and in collection
//! query strings. The rendering is specified exactly, digit by digit.

use vstd::prelude::*;
use crate::timestamp::ServerTimestamp;

verus! {

/// The character for one decimal digit.
pub open spec fn spec_digit(d: int) -> char {
    if d == 0 {
        '0'
    } else if d == 1 {
        '1'
    } else if d == 2 {
        '2'
    } else if d == 3 {
        '3'
    } else if d == 4 {
        '4'
    } else if d == 5 {
        '5'
    } else if d == 6 {
        '6'
    } else if d == 7 {
        '7'
    } else if d == 8 {
        '8'
    } else {
        '9'
    }
}

/// The decimal digit string of `n`, most significant digit first.
pub open spec fn spec_decimal(n: int) -> Seq<char>
    decreases n,
{
    if n < 10 {
        seq![spec_digit(n)]
    } else {
        spec_decimal(n / 10) + seq![spec_digit(n % 10)]
    }
}

/// The wire form of a version stamp: whole seconds, a dot, and exactly
/// three fraction digits of milliseconds.
pub open spec fn spec_timestamp_string(millis: int) -> Seq<char> {
    spec_decimal(millis / 1000) + seq!['.'] + seq![
        spec_digit((millis % 1000) / 100),
        spec_digit((millis % 1000) / 10 % 10),
        spec_digit(millis % 10),
    ]
}

/// Appends the character of one decimal digit.
fn append_digit(s: &mut String, d: u64)
    requires
        d < 10,
    ensures
        final(s)@ == old(s)@ + seq![spec_digit(d as int)],
{
    let part: &str = match d {
        0 => "0",
        1 => "1",
        2 => "2",
        3 => "3",
        4 => "4",
        5 => "5",
        6 => "6",
        7 => "7",
        8 => "8",
        _ => "9",
    };
    proof {
        reveal_strlit("0");
        reveal_strlit("1");
        reveal_strlit("2");
        reveal_strlit("3");
        reveal_strlit("4");
        reveal_strlit("5");
        reveal_strlit("6");
        reveal_strlit("7");
        reveal_strlit("8");
        reveal_strlit("9");
        assert(part@ =~= seq![spec_digit(d as int)]);
    }
    s.append(part);
}

/// Appends the decimal digits of `n`, most significant first.
fn append_decimal(s: &mut String, n: u64)
    ensures
        final(s)@ == old(s)@ + spec_decimal(n as int),
    decreases n,
{
    if n < 10 {
        append_digit(s, n);
    } else {
        append_decimal(s, n / 10);
        append_digit(s, n % 10);
        proof {
            assert(final(s)@ =~= old(s)@ + spec_decimal(n as int));
        }
    }
}

/// Renders `n` in decimal.
pub fn render_u64(n: u64) -> (r: String)
    ensures
        r@ == spec_decimal(n as int),
{
    let mut s = String::new();
    append_decimal(&mut s, n);
    proof {
        assert(s@ =~= spec_decimal(n as int));
    }
    s
}

/// Renders a version stamp in its wire form, decimal seconds with three
/// fraction digits.
pub fn render_timestamp(ts: &ServerTimestamp) -> (r: String)
    ensures
        r@ == spec_timestamp_string(ts.millis as int),
{
    let millis = ts.millis;
    let mut s = render_u64(millis / 1000);
    proof {
        reveal_strlit(".");
        assert("."@ =~= seq!['.']);
    }
    s.append(".");
    let frac = millis % 1000;
    append_digit(&mut s, frac / 100);
    append_digit(&mut s, frac / 10 % 10);
    append_digit(&mut s, millis % 10);
    proof {
        assert(s@ =~= spec_timestamp_string(millis as int));
    }
    s
}

} // verus!
