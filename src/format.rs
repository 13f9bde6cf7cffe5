//! Human-readable rendering of transfer rates and completion.

use vstd::prelude::*;
use crate::text::{decimal, decimal_text, digit_char, digit_text};

verus! {

pub const KIB: u64 = 1024;

pub const MIB: u64 = 1048576;

pub const GIB: u64 = 1073741824;

/// `num / den` rounded to the nearest integer, ties to the even neighbour.
pub open spec fn round_half_even(num: nat, den: nat) -> nat
    recommends
        den > 0,
{
    let q = num / den;
    let r = num % den;
    if 2 * r > den || (2 * r == den && q % 2 == 1) {
        q + 1
    } else {
        q
    }
}

/// A count of hundredths written with two decimal places.
pub open spec fn hundredths_text(h: nat) -> Seq<char> {
    decimal(h / 100) + seq!['.', digit_char((h % 100) / 10), digit_char(h % 10)]
}

/// `b / unit` written with two decimal places.
pub open spec fn scaled_text(b: nat, unit: nat) -> Seq<char> {
    hundredths_text(round_half_even(b * 100, unit))
}

/// A rate in bytes per second, in the largest binary unit that it reaches.
pub open spec fn rate_text(b: nat) -> Seq<char> {
    if b >= GIB {
        scaled_text(b, GIB as nat) + seq![' ', 'G', 'B', '/', 's']
    } else if b >= MIB {
        scaled_text(b, MIB as nat) + seq![' ', 'M', 'B', '/', 's']
    } else if b >= KIB {
        scaled_text(b, KIB as nat) + seq![' ', 'K', 'B', '/', 's']
    } else {
        decimal(b) + seq![' ', 'B', '/', 's']
    }
}

/// A completion given in thousandths, as a percentage with one decimal place.
pub open spec fn percent_text(permille: nat) -> Seq<char> {
    decimal(permille / 10) + seq!['.', digit_char(permille % 10), '%']
}

fn hundredths(h: u64) -> (r: String)
    ensures
        r@ == hundredths_text(h as nat),
{
    let int_part = decimal_text(h / 100);
    let tens = digit_text((h % 100) / 10);
    let units = digit_text(h % 10);
    let point = ".";
    proof {
        reveal_strlit(".");
    }
    let r = int_part.concat(point).concat(tens.as_str()).concat(units.as_str());
    assert(r@ =~= hundredths_text(h as nat));
    r
}

fn scaled(b: u64, unit: u64) -> (r: String)
    requires
        unit >= 1024,
    ensures
        r@ == scaled_text(b as nat, unit as nat),
{
    let num: u128 = (b as u128) * 100;
    let q: u128 = num / (unit as u128);
    let rem: u128 = num % (unit as u128);
    let h: u128 = if 2 * rem > unit as u128 || (2 * rem == unit as u128 && q % 2 == 1) {
        q + 1
    } else {
        q
    };
    assert(q * 1024 <= num) by (nonlinear_arith)
        requires
            q == num / (unit as u128),
            unit >= 1024,
    ;
    assert(h < 0x1_0000_0000_0000_0000);
    hundredths(h as u64)
}

/// Renders a rate in bytes per second: `B/s` as an integer below 1024, else
/// `KB/s`, `MB/s` or `GB/s` with two decimal places, in the largest unit
/// whose size the rate reaches.
pub fn bytes_human(b: u64) -> (r: String)
    ensures
        r@ == rate_text(b as nat),
{
    let suffix;
    let head;
    if b >= GIB {
        head = scaled(b, GIB);
        suffix = " GB/s";
        proof {
            reveal_strlit(" GB/s");
        }
    } else if b >= MIB {
        head = scaled(b, MIB);
        suffix = " MB/s";
        proof {
            reveal_strlit(" MB/s");
        }
    } else if b >= KIB {
        head = scaled(b, KIB);
        suffix = " KB/s";
        proof {
            reveal_strlit(" KB/s");
        }
    } else {
        head = decimal_text(b);
        suffix = " B/s";
        proof {
            reveal_strlit(" B/s");
        }
    }
    let r = head.concat(suffix);
    assert(r@ =~= rate_text(b as nat));
    r
}

/// Renders a completion given in thousandths as a percentage with one
/// decimal place, e.g. `505` as `50.5%`.
pub fn percent(permille: u64) -> (r: String)
    ensures
        r@ == percent_text(permille as nat),
{
    let int_part = decimal_text(permille / 10);
    let tenth = digit_text(permille % 10);
    let point = ".";
    let sign = "%";
    proof {
        reveal_strlit(".");
        reveal_strlit("%");
    }
    let r = int_part.concat(point).concat(tenth.as_str()).concat(sign);
    assert(r@ =~= percent_text(permille as nat));
    r
}

} // verus!
