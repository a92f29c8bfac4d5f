//! Saturating conversions of IEEE 754 bit patterns to integers.
//!
//! A finite binary floating-point number is `m * 2^e` for a whole significand
//! `m` and a whole exponent `e`, both read off its bit pattern. The two
//! conversions of this module are defined on that reading and computed
//! with shifts.

use vstd::prelude::*;
use vstd::arithmetic::power2::{pow2, lemma_pow2_pos, lemma_pow2_strictly_increases, lemma2_to64, lemma2_to64_rest};
use vstd::bits::{lemma_u64_shr_is_div, lemma_u32_shr_is_div, lemma_u32_shl_is_mul};

verus! {

/// The biased exponent field of a binary64 pattern.
pub open spec fn f64_exponent_field(bits: u64) -> u64 {
    (bits >> 52) & 0x7ff
}

/// The fraction field of a binary64 pattern.
pub open spec fn f64_fraction_field(bits: u64) -> u64 {
    bits & 0xf_ffff_ffff_ffff
}

/// Whether the sign bit of a binary64 pattern is set.
pub open spec fn f64_sign(bits: u64) -> bool {
    bits >> 63 == 1
}

/// Whether a binary64 pattern is a NaN.
pub open spec fn f64_is_nan(bits: u64) -> bool {
    f64_exponent_field(bits) == 0x7ff && f64_fraction_field(bits) != 0
}

/// Whether a binary64 pattern is an infinity.
pub open spec fn f64_is_infinite(bits: u64) -> bool {
    f64_exponent_field(bits) == 0x7ff && f64_fraction_field(bits) == 0
}

/// Whether a binary64 pattern is a zero, of either sign.
pub open spec fn f64_is_zero(bits: u64) -> bool {
    f64_exponent_field(bits) == 0 && f64_fraction_field(bits) == 0
}

/// The significand `m` of a finite binary64 pattern, whose magnitude is
/// `m * 2^e` with `e` its [`f64_exponent`].
pub open spec fn f64_significand(bits: u64) -> nat {
    if f64_exponent_field(bits) == 0 {
        f64_fraction_field(bits) as nat
    } else {
        (f64_fraction_field(bits) + 0x10_0000_0000_0000) as nat
    }
}

/// The exponent `e` of a finite binary64 pattern.
pub open spec fn f64_exponent(bits: u64) -> int {
    if f64_exponent_field(bits) == 0 {
        -1074
    } else {
        f64_exponent_field(bits) - 1075
    }
}

/// The biased exponent field of a binary32 pattern.
pub open spec fn f32_exponent_field(bits: u32) -> u32 {
    (bits >> 23) & 0xff
}

/// The fraction field of a binary32 pattern.
pub open spec fn f32_fraction_field(bits: u32) -> u32 {
    bits & 0x7f_ffff
}

/// Whether the sign bit of a binary32 pattern is set.
pub open spec fn f32_sign(bits: u32) -> bool {
    bits >> 31 == 1
}

/// Whether a binary32 pattern is a NaN.
pub open spec fn f32_is_nan(bits: u32) -> bool {
    f32_exponent_field(bits) == 0xff && f32_fraction_field(bits) != 0
}

/// Whether a binary32 pattern is an infinity.
pub open spec fn f32_is_infinite(bits: u32) -> bool {
    f32_exponent_field(bits) == 0xff && f32_fraction_field(bits) == 0
}

/// The significand `m` of a finite binary32 pattern, whose magnitude is
/// `m * 2^e` with `e` its [`f32_exponent`].
pub open spec fn f32_significand(bits: u32) -> nat {
    if f32_exponent_field(bits) == 0 {
        f32_fraction_field(bits) as nat
    } else {
        (f32_fraction_field(bits) + 0x80_0000) as nat
    }
}

/// The exponent `e` of a finite binary32 pattern.
pub open spec fn f32_exponent(bits: u32) -> int {
    if f32_exponent_field(bits) == 0 {
        -149
    } else {
        f32_exponent_field(bits) - 150
    }
}

/// The largest whole number that is at most `m * 2^e`.
pub open spec fn floor_scaled(m: nat, e: int) -> nat {
    if e >= 0 {
        m * pow2(e as nat)
    } else {
        m / pow2((-e) as nat)
    }
}

/// The smallest whole number that is at least `m * 2^e`.
pub open spec fn ceil_scaled(m: nat, e: int) -> nat {
    if e >= 0 {
        m * pow2(e as nat)
    } else {
        ((m + pow2((-e) as nat) - 1) / (pow2((-e) as nat) as int)) as nat
    }
}

/// [`floor_scaled`] is the floor it is said to be: it is not above `m * 2^e`,
/// and the next whole number is. Below, `2^e` is brought to the other side
/// where `e` is negative.
pub proof fn lemma_floor_scaled_is_floor(m: nat, e: int)
    ensures
        e >= 0 ==> floor_scaled(m, e) == m * pow2(e as nat),
        e < 0 ==> floor_scaled(m, e) * pow2((-e) as nat) <= m < (floor_scaled(m, e) + 1) * pow2(
            (-e) as nat,
        ),
{
    if e < 0 {
        let p = pow2((-e) as nat);
        lemma_pow2_pos((-e) as nat);
        vstd::arithmetic::div_mod::lemma_fundamental_div_mod(m as int, p as int);
        vstd::arithmetic::div_mod::lemma_mod_bound(m as int, p as int);
        let q = m as int / p as int;
        assert((q + 1) * p == q * p + p) by (nonlinear_arith);
    }
}

/// [`ceil_scaled`] is the ceiling it is said to be: it is not below
/// `m * 2^e`, and the whole number before it is.
pub proof fn lemma_ceil_scaled_is_ceiling(m: nat, e: int)
    ensures
        e >= 0 ==> ceil_scaled(m, e) == m * pow2(e as nat),
        e < 0 ==> (ceil_scaled(m, e) - 1) * pow2((-e) as nat) < m <= ceil_scaled(m, e) * pow2(
            (-e) as nat,
        ),
{
    if e < 0 {
        let p = pow2((-e) as nat);
        lemma_pow2_pos((-e) as nat);
        vstd::arithmetic::div_mod::lemma_fundamental_div_mod(m as int, p as int);
        vstd::arithmetic::div_mod::lemma_mod_bound(m as int, p as int);
        let q = (m as int / p as int) as nat;
        let r = (m as int % p as int) as nat;
        lemma_ceil_of_division(m, p, q, r);
        assert((q + 1) * p == q * p + p) by (nonlinear_arith);
        assert((q - 1) * p == q * p - p) by (nonlinear_arith);
    }
}

/// What a binary64 value becomes when it is multiplied by 256, cut off
/// towards zero and held to the range of a byte: a NaN and every negative
/// value give 0, everything from 255/256 up gives 255.
pub open spec fn spec_times_256_to_u8(bits: u64) -> u8 {
    if f64_is_nan(bits) || f64_sign(bits) {
        0
    } else if f64_is_infinite(bits) {
        255
    } else {
        let scaled = floor_scaled(f64_significand(bits), f64_exponent(bits) + 8);
        if scaled >= 255 {
            255
        } else {
            scaled as u8
        }
    }
}

/// What a binary32 value becomes when it is rounded up to a whole number and
/// held to the range of a `u32`: a NaN and every negative value give 0.
pub open spec fn spec_ceil_to_u32(bits: u32) -> u32 {
    if f32_is_nan(bits) || f32_sign(bits) {
        0
    } else if f32_is_infinite(bits) {
        u32::MAX
    } else {
        let up = ceil_scaled(f32_significand(bits), f32_exponent(bits));
        if up >= u32::MAX {
            u32::MAX
        } else {
            up as u32
        }
    }
}

/// Rounding up a quotient whose division with remainder is known.
proof fn lemma_ceil_of_division(m: nat, p: nat, q: nat, r: nat)
    requires
        p > 0,
        m == q * p + r,
        r < p,
    ensures
        (m + p - 1) / (p as int) == if r == 0 { q as int } else { (q + 1) as int },
{
    if r == 0 {
        vstd::arithmetic::div_mod::lemma_fundamental_div_mod_converse(
            m + p - 1,
            p as int,
            q as int,
            p - 1,
        );
    } else {
        assert((q + 1) * p == q * p + p) by (nonlinear_arith);
        vstd::arithmetic::div_mod::lemma_fundamental_div_mod_converse(
            m + p - 1,
            p as int,
            (q + 1) as int,
            r - 1,
        );
    }
}

/// Multiplies a binary64 value by 256, cuts the product off towards zero and
/// holds it to the range of a byte.
pub fn times_256_to_u8(bits: u64) -> (r: u8)
    ensures
        r == spec_times_256_to_u8(bits),
{
    let field: u64 = (bits >> 52) & 0x7ff;
    let fraction: u64 = bits & 0xf_ffff_ffff_ffff;
    let negative: bool = (bits >> 63) == 1;
    assert((bits & 0xf_ffff_ffff_ffff) < 0x10_0000_0000_0000) by (bit_vector);
    proof {
        lemma2_to64();
        lemma2_to64_rest();
    }
    if negative {
        return 0;
    }
    if field == 0x7ff {
        return if fraction == 0 { 255 } else { 0 };
    }
    if field == 0 {
        proof {
            lemma_pow2_strictly_increases(52, 1066);
            vstd::arithmetic::div_mod::lemma_basic_div(fraction as int, pow2(1066) as int);
        }
        return 0;
    }
    let significand: u64 = fraction + 0x10_0000_0000_0000;
    if field >= 1067 {
        proof {
            let p = pow2((field - 1067) as nat);
            lemma_pow2_pos((field - 1067) as nat);
            assert(significand * p >= significand) by (nonlinear_arith)
                requires
                    p >= 1,
                    significand >= 0,
            ;
        }
        return 255;
    }
    let shift: u64 = 1067 - field;
    if shift >= 53 {
        proof {
            if shift > 53 {
                lemma_pow2_strictly_increases(53, shift as nat);
            }
            vstd::arithmetic::div_mod::lemma_basic_div(significand as int, pow2(shift as nat) as int);
        }
        return 0;
    }
    let quotient: u64 = significand >> shift;
    proof {
        lemma_u64_shr_is_div(significand, shift);
    }
    if quotient >= 255 {
        255
    } else {
        quotient as u8
    }
}

/// Rounds a binary32 value up to a whole number and holds it to the range of
/// a `u32`.
pub fn ceil_to_u32(bits: u32) -> (r: u32)
    ensures
        r == spec_ceil_to_u32(bits),
{
    let field: u32 = (bits >> 23) & 0xff;
    let fraction: u32 = bits & 0x7f_ffff;
    let negative: bool = (bits >> 31) == 1;
    assert((bits & 0x7f_ffff) < 0x80_0000) by (bit_vector);
    proof {
        lemma2_to64();
    }
    if negative {
        return 0;
    }
    if field == 0xff {
        return if fraction == 0 { u32::MAX } else { 0 };
    }
    if field == 0 {
        proof {
            let p = pow2(149);
            lemma_pow2_strictly_increases(23, 149);
            if fraction == 0 {
                lemma_ceil_of_division(0, p, 0, 0);
            } else {
                lemma_ceil_of_division(fraction as nat, p, 0, fraction as nat);
            }
        }
        return if fraction == 0 { 0 } else { 1 };
    }
    let significand: u32 = fraction + 0x80_0000;
    if field >= 150 {
        let up: u32 = field - 150;
        if up >= 9 {
            proof {
                let p = pow2(up as nat);
                if up > 9 {
                    lemma_pow2_strictly_increases(9, up as nat);
                }
                assert(significand * p >= 0x80_0000 * 0x200) by (nonlinear_arith)
                    requires
                        p >= 0x200,
                        significand >= 0x80_0000,
                ;
            }
            return u32::MAX;
        }
        proof {
            let p = pow2(up as nat);
            assert(significand * p <= 0xff_ffff * 0x100) by (nonlinear_arith)
                requires
                    0 <= p <= 0x100,
                    0 <= significand <= 0xff_ffff,
            ;
            lemma_u32_shl_is_mul(significand, up);
        }
        return significand << up;
    }
    let shift: u32 = 150 - field;
    if shift >= 25 {
        proof {
            let p = pow2(shift as nat);
            if shift > 25 {
                lemma_pow2_strictly_increases(25, shift as nat);
            }
            lemma_ceil_of_division(significand as nat, p, 0, significand as nat);
        }
        return 1;
    }
    let quotient: u32 = significand >> shift;
    proof {
        lemma_u32_shr_is_div(significand, shift);
        lemma_pow2_pos(shift as nat);
        let p = pow2(shift as nat);
        vstd::arithmetic::div_mod::lemma_fundamental_div_mod(significand as int, p as int);
        vstd::arithmetic::div_mod::lemma_mod_bound(significand as int, p as int);
        lemma_u32_shl_is_mul(quotient, shift);
    }
    let remainder: u32 = significand - (quotient << shift);
    proof {
        let p = pow2(shift as nat);
        lemma_ceil_of_division(significand as nat, p, quotient as nat, remainder as nat);
    }
    if remainder != 0 {
        quotient + 1
    } else {
        quotient
    }
}

} // verus!
