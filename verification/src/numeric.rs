//! Fixed-point arithmetic helpers. Camera pose and input scaling work in
//! micro-units (millionths), so a fractional factor such as a speed of 1.5
//! units per second is the integer 1_500_000. Saturation and truncation
//! behaviour is stated exactly.

use vstd::prelude::*;
use vstd::arithmetic::div_mod::{lemma_div_is_ordered, lemma_div_pos_is_pos};

verus! {

/// Scale of the fixed-point representation: one unit is `MICRO` micro-units.
pub const MICRO: i64 = 1_000_000;

/// Largest magnitude accepted by [`scale_micro`]; keeps the intermediate
/// product and the scaled result inside the machine integer ranges.
pub const MICRO_MAG_BOUND: i64 = 2_000_000_000_000;

/// `x` clamped into the representable range of `i64`.
pub open spec fn spec_sat_i64(x: int) -> int {
    if x > i64::MAX {
        i64::MAX as int
    } else if x < i64::MIN {
        i64::MIN as int
    } else {
        x
    }
}

/// Saturating sum of two values.
pub open spec fn spec_sat_add(a: int, b: int) -> int {
    spec_sat_i64(a + b)
}

/// `x` clamped into `[lo, hi]`.
pub open spec fn spec_clamp(x: int, lo: int, hi: int) -> int {
    if x < lo {
        lo
    } else if x > hi {
        hi
    } else {
        x
    }
}

/// Quotient of `p` by one million, truncated toward zero (the rounding the
/// machine division of the implementation performs on either sign).
pub open spec fn spec_div_micro_trunc(p: int) -> int {
    if p >= 0 {
        p / (MICRO as int)
    } else {
        -((-p) / (MICRO as int))
    }
}

/// Fixed-point multiplication: the full product scaled back down by one
/// million, truncated toward zero.
pub open spec fn spec_scale_micro(value: int, factor: int) -> int {
    spec_div_micro_trunc(value * factor)
}

/// Saturating addition on `i64`.
pub fn sat_add_i64(a: i64, b: i64) -> (r: i64)
    ensures
        r == spec_sat_add(a as int, b as int),
{
    if b >= 0 {
        if a > i64::MAX - b {
            i64::MAX
        } else {
            a + b
        }
    } else {
        if a < i64::MIN - b {
            i64::MIN
        } else {
            a + b
        }
    }
}

/// `x` clamped into `[lo, hi]`.
pub fn clamp_i64(x: i64, lo: i64, hi: i64) -> (r: i64)
    requires
        lo <= hi,
    ensures
        r == spec_clamp(x as int, lo as int, hi as int),
        lo <= r <= hi,
{
    if x < lo {
        lo
    } else if x > hi {
        hi
    } else {
        x
    }
}

/// Multiply two micro-scaled values and rescale the product to micro-units,
/// truncating toward zero. The magnitude bound is what the 128-bit
/// intermediate and the 64-bit result force, not a policy of the library.
pub fn scale_micro(value: i64, factor: i64) -> (r: i64)
    requires
        -MICRO_MAG_BOUND <= value <= MICRO_MAG_BOUND,
        -MICRO_MAG_BOUND <= factor <= MICRO_MAG_BOUND,
    ensures
        r == spec_scale_micro(value as int, factor as int),
{
    let negative: bool = (value < 0) != (factor < 0);
    let abs_value: u64 = if value < 0 {
        (-value) as u64
    } else {
        value as u64
    };
    let abs_factor: u64 = if factor < 0 {
        (-factor) as u64
    } else {
        factor as u64
    };
    assert(abs_value as int * abs_factor as int <= MICRO_MAG_BOUND as int * MICRO_MAG_BOUND as int)
        by (nonlinear_arith)
        requires
            0 <= abs_value as int <= MICRO_MAG_BOUND as int,
            0 <= abs_factor as int <= MICRO_MAG_BOUND as int,
    ;
    let product: u128 = (abs_value as u128) * (abs_factor as u128);
    let quotient: u128 = product / (MICRO as u128);
    proof {
        vstd::arithmetic::div_mod::lemma_div_is_ordered(
            product as int,
            MICRO_MAG_BOUND as int * MICRO_MAG_BOUND as int,
            MICRO as int,
        );
    }
    assert(quotient as int <= MICRO_MAG_BOUND as int * MICRO_MAG_BOUND as int / (MICRO as int));
    assert(value as int * factor as int == if negative {
        -(abs_value as int * abs_factor as int)
    } else {
        abs_value as int * abs_factor as int
    }) by (nonlinear_arith)
        requires
            abs_value as int == (if value < 0 { -(value as int) } else { value as int }),
            abs_factor as int == (if factor < 0 { -(factor as int) } else { factor as int }),
            negative == ((value < 0) != (factor < 0)),
    ;
    if negative {
        -(quotient as i64)
    } else {
        quotient as i64
    }
}

/// Bounds on the operands of a micro multiplication bound its result.
pub proof fn lemma_scale_micro_bound(v: int, f: int, bv: int, bf: int)
    requires
        -bv <= v <= bv,
        -bf <= f <= bf,
        0 <= bv,
        0 <= bf,
    ensures
        -(bv * bf / (MICRO as int)) <= spec_scale_micro(v, f) <= bv * bf / (MICRO as int),
{
    let p = v * f;
    assert(-(bv * bf) <= p <= bv * bf) by (nonlinear_arith)
        requires
            -bv <= v <= bv,
            -bf <= f <= bf,
            0 <= bv,
            0 <= bf,
            p == v * f,
    ;
    lemma_div_pos_is_pos(bv * bf, MICRO as int);
    if p >= 0 {
        lemma_div_is_ordered(p, bv * bf, MICRO as int);
        lemma_div_pos_is_pos(p, MICRO as int);
    } else {
        lemma_div_is_ordered(-p, bv * bf, MICRO as int);
        lemma_div_pos_is_pos(-p, MICRO as int);
    }
}

} // verus!
