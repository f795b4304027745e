//! How a number of bytes is shown: `512 B`, `1.5 KB`, `14.4 GB`.
//!
//! The number shown is the one that binary floating point of double
//! precision gives: the size is first rounded to 53 significant bits, then
//! divided by the unit, then rounded to one decimal, both times to the
//! nearest value and, half-way between two values, to the even one. All of
//! it is computed here in whole numbers.

use crate::text::{concat3, decimal, decimal_string};
use vstd::arithmetic::div_mod::{lemma_fundamental_div_mod, lemma_mod_bound};
use vstd::prelude::*;

verus! {

/// `numerator / denominator` rounded to the nearest whole number, and to the
/// even one of the two nearest if it lies half-way between them.
pub open spec fn round_half_even(numerator: nat, denominator: nat) -> nat {
    let quotient = numerator / denominator;
    let rest = numerator % denominator;
    if 2 * rest < denominator {
        quotient
    } else if 2 * rest > denominator {
        quotient + 1
    } else if quotient % 2 == 0 {
        quotient
    } else {
        quotient + 1
    }
}

/// The distance between neighbouring numbers of 53 significant bits around
/// `bytes`.
pub open spec fn spacing(bytes: u64) -> nat {
    if bytes < 0x20_0000_0000_0000 {
        1
    } else if bytes < 0x40_0000_0000_0000 {
        2
    } else if bytes < 0x80_0000_0000_0000 {
        4
    } else if bytes < 0x100_0000_0000_0000 {
        8
    } else if bytes < 0x200_0000_0000_0000 {
        16
    } else if bytes < 0x400_0000_0000_0000 {
        32
    } else if bytes < 0x800_0000_0000_0000 {
        64
    } else if bytes < 0x1000_0000_0000_0000 {
        128
    } else if bytes < 0x2000_0000_0000_0000 {
        256
    } else if bytes < 0x4000_0000_0000_0000 {
        512
    } else if bytes < 0x8000_0000_0000_0000 {
        1024
    } else {
        2048
    }
}

/// `bytes` rounded to 53 significant bits.
pub open spec fn in_double_precision(bytes: u64) -> nat {
    round_half_even(bytes as nat, spacing(bytes)) * spacing(bytes)
}

/// How often a size can be divided by 1024 before it is below 1024, four
/// times at most.
pub open spec fn unit_index(bytes: u64) -> nat {
    if bytes < 0x400 {
        0
    } else if bytes < 0x10_0000 {
        1
    } else if bytes < 0x4000_0000 {
        2
    } else if bytes < 0x100_0000_0000 {
        3
    } else {
        4
    }
}

/// The bytes in one unit.
pub open spec fn unit_size(index: nat) -> nat {
    if index == 0 {
        1
    } else if index == 1 {
        0x400
    } else if index == 2 {
        0x10_0000
    } else if index == 3 {
        0x4000_0000
    } else {
        0x100_0000_0000
    }
}

pub open spec fn unit_name(index: nat) -> Seq<char> {
    if index == 0 {
        "B"@
    } else if index == 1 {
        "KB"@
    } else if index == 2 {
        "MB"@
    } else if index == 3 {
        "GB"@
    } else {
        "TB"@
    }
}

/// The size in tenths of its unit.
pub open spec fn tenths(bytes: u64) -> nat {
    round_half_even(in_double_precision(bytes) * 10, unit_size(unit_index(bytes)))
}

/// A size as it is shown.
pub open spec fn size_text(bytes: u64) -> Seq<char> {
    if unit_index(bytes) == 0 {
        decimal(bytes as nat) + " "@ + unit_name(0)
    } else {
        decimal(tenths(bytes) / 10) + "."@ + decimal(tenths(bytes) % 10) + " "@ + unit_name(
            unit_index(bytes),
        )
    }
}

fn rounded_quotient(numerator: u128, denominator: u128) -> (rounded: u128)
    requires
        0 < denominator <= 0x100_0000_0000,
        numerator <= 0x1000_0000_0000_0000_0000,
    ensures
        rounded == round_half_even(numerator as nat, denominator as nat),
        rounded <= numerator + 1,
        rounded * denominator <= numerator + denominator,
{
    let quotient = numerator / denominator;
    let rest = numerator % denominator;
    proof {
        lemma_fundamental_div_mod(numerator as int, denominator as int);
        lemma_mod_bound(numerator as int, denominator as int);
        assert(quotient * denominator <= numerator) by (nonlinear_arith)
            requires
                numerator == denominator * quotient + rest,
                rest >= 0,
                denominator > 0,
        ;
        assert(quotient <= numerator) by (nonlinear_arith)
            requires
                quotient * denominator <= numerator,
                denominator >= 1,
                quotient >= 0,
        ;
        assert((quotient + 1) * denominator <= numerator + denominator) by (nonlinear_arith)
            requires
                quotient * denominator <= numerator,
        ;
    }
    if 2 * rest < denominator {
        quotient
    } else if 2 * rest > denominator {
        quotient + 1
    } else if quotient % 2 == 0 {
        quotient
    } else {
        quotient + 1
    }
}

fn spacing_of(bytes: u64) -> (ulp: u128)
    ensures
        ulp == spacing(bytes),
        1 <= ulp <= 2048,
{
    if bytes < 0x20_0000_0000_0000 {
        1
    } else if bytes < 0x40_0000_0000_0000 {
        2
    } else if bytes < 0x80_0000_0000_0000 {
        4
    } else if bytes < 0x100_0000_0000_0000 {
        8
    } else if bytes < 0x200_0000_0000_0000 {
        16
    } else if bytes < 0x400_0000_0000_0000 {
        32
    } else if bytes < 0x800_0000_0000_0000 {
        64
    } else if bytes < 0x1000_0000_0000_0000 {
        128
    } else if bytes < 0x2000_0000_0000_0000 {
        256
    } else if bytes < 0x4000_0000_0000_0000 {
        512
    } else if bytes < 0x8000_0000_0000_0000 {
        1024
    } else {
        2048
    }
}

/// The size in tenths of its unit.
pub fn tenths_of(bytes: u64) -> (r: u64)
    requires
        bytes >= 0x400,
    ensures
        r == tenths(bytes),
{
    let ulp = spacing_of(bytes);
    let steps = rounded_quotient(bytes as u128, ulp);
    assert(steps * ulp <= bytes + ulp);
    let precise: u128 = steps * ulp;
    let unit: u128 = if bytes < 0x10_0000 {
        0x400
    } else if bytes < 0x4000_0000 {
        0x10_0000
    } else if bytes < 0x100_0000_0000 {
        0x4000_0000
    } else {
        0x100_0000_0000
    };
    let scaled = rounded_quotient(precise * 10, unit);
    assert(scaled <= 0xffff_ffff_ffff_ffff) by {
        assert(scaled * unit <= precise * 10 + unit);
        assert(unit >= 0x400);
        assert(scaled <= 0xffff_ffff_ffff_ffff) by (nonlinear_arith)
            requires
                scaled * unit <= precise * 10 + unit,
                unit >= 0x400,
                precise <= 0x1_0000_0000_0000_0800,
        ;
    }
    scaled as u64
}

/// A size as it is shown.
pub fn format_size(bytes: u64) -> (text: String)
    ensures
        text@ == size_text(bytes),
{
    if bytes < 0x400 {
        return concat3(decimal_string(bytes).as_str(), " ", "B");
    }
    let name = if bytes < 0x10_0000 {
        "KB"
    } else if bytes < 0x4000_0000 {
        "MB"
    } else if bytes < 0x100_0000_0000 {
        "GB"
    } else {
        "TB"
    };
    let tenths = tenths_of(bytes);
    let whole = decimal_string(tenths / 10);
    let fraction = decimal_string(tenths % 10);
    whole.concat(".").concat(fraction.as_str()).concat(" ").concat(name)
}

} // verus!
