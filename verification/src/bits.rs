//! Bit patterns of 32-bit IEEE binary floating-point values, computed from
//! integers. The uniform layout the GPU kernel reads stores the sphere
//! radius as a 32-bit float in the last color channel; the conversion from
//! the integer radius is carried out here in pure integer arithmetic,
//! rounding to nearest with ties to even exactly as the machine conversion
//! does.

use vstd::prelude::*;
use vstd::arithmetic::div_mod::{
    lemma_div_by_multiple,
    lemma_div_is_ordered,
    lemma_multiply_divide_lt,
};
use vstd::arithmetic::mul::{lemma_mul_inequality, lemma_mul_strict_inequality};
use vstd::arithmetic::power2::{
    lemma2_to64,
    lemma_pow2_adds,
    lemma_pow2_pos,
    lemma_pow2_strictly_increases,
    lemma_pow2_unfold,
    pow2,
};

verus! {

/// The bit pattern of the 32-bit float with value one.
pub const F32_ONE_BITS: u32 = 0x3F80_0000;

/// The bit pattern of the 32-bit float with value zero.
pub const F32_ZERO_BITS: u32 = 0;

/// A three-component vector of 32-bit float bit patterns.
#[derive(Clone, Copy, Debug, PartialEq, Eq, Structural)]
pub struct Vec3Bits {
    pub x: u32,
    pub y: u32,
    pub z: u32,
}

/// A four-component vector of 32-bit float bit patterns.
#[derive(Clone, Copy, Debug, PartialEq, Eq, Structural)]
pub struct Vec4Bits {
    pub x: u32,
    pub y: u32,
    pub z: u32,
    pub w: u32,
}

/// An RGBA color of 32-bit float bit patterns.
#[derive(Clone, Copy, Debug, PartialEq, Eq, Structural)]
pub struct ColorBits {
    pub r: u32,
    pub g: u32,
    pub b: u32,
    pub a: u32,
}

/// Floor of the base-two logarithm.
pub open spec fn spec_ilog2(n: nat) -> nat
    decreases n,
{
    if n < 2 {
        0
    } else {
        1 + spec_ilog2(n / 2)
    }
}

/// The bit pattern of the 32-bit float nearest to the positive integer
/// `m`, ties to even: the significand keeps the leading 24 bits of `m`,
/// rounded, and the exponent field is biased by 127.
pub open spec fn spec_f32_bits_of_mag(m: nat) -> int
    recommends
        1 <= m,
{
    let e = spec_ilog2(m);
    if e <= 23 {
        (e + 127) * pow2(23) + (m * pow2((23 - e) as nat) - pow2(23))
    } else {
        let s = (e - 23) as nat;
        let q0 = m / pow2(s);
        let rem = m % pow2(s);
        let half = pow2((s - 1) as nat);
        let q: nat = if rem > half || (rem == half && q0 % 2 == 1) {
            q0 + 1
        } else {
            q0
        };
        if q == pow2(24) {
            ((e + 128) * pow2(23)) as int
        } else {
            (e + 127) * pow2(23) + (q - pow2(23))
        }
    }
}

/// The bit pattern of the 32-bit float nearest to the integer `v` (ties
/// to even): zero maps to all-zero bits, and a negative value sets the
/// sign bit over the bits of its magnitude.
pub open spec fn spec_f32_bits_of_i32(v: int) -> int {
    if v == 0 {
        0
    } else if v > 0 {
        spec_f32_bits_of_mag(v as nat)
    } else {
        0x8000_0000 + spec_f32_bits_of_mag((-v) as nat)
    }
}

/// `n` lies in the power-of-two interval of its floor logarithm.
proof fn lemma_ilog2_bounds(n: nat)
    requires
        n >= 1,
    ensures
        pow2(spec_ilog2(n)) <= n < pow2(spec_ilog2(n) + 1),
    decreases n,
{
    lemma2_to64();
    if n >= 2 {
        lemma_ilog2_bounds(n / 2);
        lemma_pow2_unfold(spec_ilog2(n));
        lemma_pow2_unfold(spec_ilog2(n) + 1);
    }
}

/// The bit pattern of a positive 32-bit magnitude stays below the sign
/// bit.
proof fn lemma_f32_bits_of_mag_bound(m: nat)
    requires
        1 <= m < pow2(32),
    ensures
        0 <= spec_f32_bits_of_mag(m) < 0x8000_0000,
{
    lemma2_to64();
    lemma_ilog2_bounds(m);
    let e = spec_ilog2(m);
    assert(e < 32) by {
        if e >= 32 {
            lemma_pow2_pos(e);
            if e > 32 {
                lemma_pow2_strictly_increases(32, e);
            }
        }
    }
    if e <= 23 {
        lemma_pow2_adds((23 - e) as nat, e);
        lemma_pow2_adds((23 - e) as nat, e + 1);
        lemma_mul_inequality(pow2(e) as int, m as int, pow2((23 - e) as nat) as int);
        lemma_mul_strict_inequality(m as int, pow2(e + 1) as int, pow2((23 - e) as nat) as int);
        assert(pow2(23) <= m * pow2((23 - e) as nat) < pow2(24));
    } else {
        let s = (e - 23) as nat;
        lemma_pow2_pos(s);
        lemma_pow2_adds(s, 23);
        lemma_pow2_adds(s, 24);
        lemma_div_by_multiple(pow2(23) as int, pow2(s) as int);
        lemma_div_is_ordered(pow2(e) as int, m as int, pow2(s) as int);
        lemma_multiply_divide_lt(m as int, pow2(s) as int, pow2(24) as int);
        assert(pow2(23) <= (m / pow2(s)) < pow2(24));
    }
}

/// The bit pattern of any 32-bit integer value fits in 32 bits.
pub proof fn lemma_f32_bits_of_i32_fits(v: int)
    requires
        -0x8000_0000 <= v < 0x8000_0000,
    ensures
        0 <= spec_f32_bits_of_i32(v) < 0x1_0000_0000,
{
    lemma2_to64();
    if v > 0 {
        lemma_f32_bits_of_mag_bound(v as nat);
    } else if v < 0 {
        lemma_f32_bits_of_mag_bound((-v) as nat);
    }
}

/// `spec_ilog2` is the unique exponent whose power-of-two interval holds `n`.
proof fn lemma_ilog2_agrees(n: nat, e: nat)
    requires
        pow2(e) <= n < pow2(e + 1),
    ensures
        spec_ilog2(n) == e,
    decreases e,
{
    lemma2_to64();
    if e == 0 {
        assert(n == 1);
    } else {
        lemma_pow2_unfold(e);
        lemma_pow2_unfold(e + 1);
        assert(pow2((e - 1) as nat) <= n / 2 < pow2(e));
        lemma_ilog2_agrees(n / 2, (e - 1) as nat);
        assert(n >= 2) by {
            lemma_pow2_pos((e - 1) as nat);
        }
    }
}

/// `2^e`, computed by repeated doubling.
fn pow2_u32(e: u32) -> (p: u32)
    requires
        e <= 31,
    ensures
        p as nat == pow2(e as nat),
{
    let mut i: u32 = 0;
    let mut p: u32 = 1;
    proof {
        lemma2_to64();
    }
    while i < e
        invariant
            i <= e,
            e <= 31,
            p as nat == pow2(i as nat),
        decreases e - i,
    {
        proof {
            if (i as nat) + 1 < 31 {
                lemma_pow2_strictly_increases((i as nat) + 1, 31);
            }
            lemma_pow2_unfold((i as nat) + 1);
            lemma2_to64();
        }
        p = p * 2;
        i = i + 1;
    }
    p
}

/// The bit pattern of the 32-bit float nearest to the positive magnitude
/// `m`, rounding ties to even.
fn f32_bits_of_mag(m: u32) -> (bits: u32)
    requires
        m >= 1,
    ensures
        bits as int == spec_f32_bits_of_mag(m as nat),
        bits < 0x8000_0000,
{
    let mut e: u32 = 0;
    let mut p: u32 = 1;
    proof {
        lemma2_to64();
    }
    while p <= m / 2
        invariant
            m >= 1,
            e <= 31,
            p as nat == pow2(e as nat),
            p <= m,
        decreases m - p,
    {
        proof {
            lemma2_to64();
            if (e as nat) + 1 < 31 {
                lemma_pow2_strictly_increases((e as nat) + 1, 31);
            }
            lemma_pow2_unfold((e as nat) + 1);
        }
        p = p * 2;
        e = e + 1;
    }
    assert(pow2(e as nat) <= (m as nat) < pow2((e as nat) + 1)) by {
        lemma_pow2_unfold((e as nat) + 1);
    }
    proof {
        lemma_ilog2_agrees(m as nat, e as nat);
        lemma2_to64();
    }
    if e <= 23 {
        let shift: u32 = pow2_u32(23 - e);
        proof {
            lemma_pow2_adds((23 - e) as nat, e as nat);
            lemma_pow2_adds((23 - e) as nat, (e as nat) + 1);
            lemma_mul_inequality(pow2(e as nat) as int, m as int, shift as int);
            lemma_mul_strict_inequality(m as int, pow2((e as nat) + 1) as int, shift as int);
        }
        assert(pow2(23) <= m as nat * pow2((23 - e) as nat) < pow2(24));
        let scaled: u32 = m * shift;
        let mantissa: u32 = scaled - 0x0080_0000;
        (e + 127) * 0x0080_0000 + mantissa
    } else {
        let s: u32 = e - 23;
        let ps: u32 = pow2_u32(s);
        proof {
            lemma_pow2_pos(s as nat);
            lemma_pow2_unfold(s as nat);
            lemma_pow2_adds(s as nat, 23);
            lemma_pow2_adds(s as nat, 24);
            // lower bound: 2^23 = (2^s * 2^23) / 2^s <= m / 2^s
            lemma_div_by_multiple(pow2(23) as int, pow2(s as nat) as int);
            lemma_div_is_ordered(pow2(e as nat) as int, m as int, pow2(s as nat) as int);
            // upper bound: m < 2^s * 2^24 so m / 2^s < 2^24
            lemma_multiply_divide_lt(m as int, pow2(s as nat) as int, pow2(24) as int);
        }
        let q0: u32 = m / ps;
        let rem: u32 = m % ps;
        let half: u32 = ps / 2;
        assert(q0 as nat == m as nat / pow2(s as nat));
        assert(pow2(23) <= (q0 as nat) < pow2(24));
        assert(half as nat == pow2((s - 1) as nat));
        let round_up: bool = rem > half || (rem == half && q0 % 2 == 1);
        let q: u32 = if round_up {
            q0 + 1
        } else {
            q0
        };
        if q == 0x0100_0000 {
            (e + 128) * 0x0080_0000
        } else {
            (e + 127) * 0x0080_0000 + (q - 0x0080_0000)
        }
    }
}

/// The bit pattern of the 32-bit float nearest to `value` (ties to even):
/// exactly the pattern the machine's integer-to-float conversion yields.
pub fn i32_to_f32_bits(value: i32) -> (bits: u32)
    ensures
        bits as int == spec_f32_bits_of_i32(value as int),
{
    if value == 0 {
        0
    } else if value > 0 {
        f32_bits_of_mag(value as u32)
    } else {
        let magnitude: u32 = (-(value as i64)) as u32;
        0x8000_0000u32 + f32_bits_of_mag(magnitude)
    }
}

} // verus!
