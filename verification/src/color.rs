//! Colours: what the plotting side hands over, and the scene's brush colour.

use vstd::prelude::*;
use vstd::arithmetic::power2::{pow2, lemma2_to64, lemma2_to64_rest};
use vello::peniko::Color;
use crate::ieee::{
    times_256_to_u8, spec_times_256_to_u8, f64_is_zero, f64_sign, f64_is_nan, f64_is_infinite,
    f64_exponent_field, f64_significand, f64_exponent, floor_scaled,
};

verus! {

/// `color::AlphaColor`, the scene's colour type: four floating-point
/// channels in a colour space. Nothing inside it is visible here.
#[verifier::external_type_specification]
#[verifier::external_body]
#[verifier::reject_recursive_types(CS)]
pub struct ExAlphaColor<CS>(vello::peniko::color::AlphaColor<CS>);

/// `color::Srgb`, the marker of the sRGB colour space.
#[verifier::external_type_specification]
#[verifier::external_body]
pub struct ExSrgb(vello::peniko::color::Srgb);

/// The sRGB colour that `peniko::Color::from_rgba8` makes of four channel
/// bytes, alpha last and not premultiplied.
pub uninterp spec fn rgba8_color(r: u8, g: u8, b: u8, a: u8) -> Color;

/// Calls `peniko::Color::from_rgba8`, which stores each byte divided by 255
/// as a floating-point channel. Nothing is proved of it: the contract only
/// gives the result its name, [`rgba8_color`] of the four bytes.
#[verifier::external_body]
fn color_from_rgba8(r: u8, g: u8, b: u8, a: u8) -> (c: Color)
    ensures
        c == rgba8_color(r, g, b, a),
{
    Color::from_rgba8(r, g, b, a)
}

/// The binary64 pattern of 1.0.
pub const ALPHA_OPAQUE: u64 = 0x3ff0_0000_0000_0000;

/// The binary64 pattern of 0.0.
pub const ALPHA_TRANSPARENT: u64 = 0;

/// A colour as the plotting side gives it: three 8-bit channels and an
/// opacity between 0 and 1.
#[derive(Clone, Copy, Debug, PartialEq, Eq)]
pub struct BackendColor {
    /// The opacity, as the bit pattern of a binary64 number.
    pub alpha: u64,
    /// Red, green and blue.
    pub rgb: (u8, u8, u8),
}

/// How a shape is drawn: its colour and the width of its outline in pixels.
#[derive(Clone, Copy, Debug, PartialEq, Eq)]
pub struct BackendStyle {
    pub color: BackendColor,
    pub stroke_width: u32,
}

/// Whether a binary64 pattern lies between 0 and 1, both included. A zero of
/// either sign does; of the other patterns those do whose sign bit is clear
/// and that are not above the pattern of 1.0, since non-negative patterns
/// are ordered as their values are.
pub open spec fn alpha_in_unit_interval(bits: u64) -> bool {
    f64_is_zero(bits) || (!f64_sign(bits) && bits <= ALPHA_OPAQUE)
}

impl BackendColor {
    /// Whether the opacity is exactly zero.
    pub open spec fn spec_is_transparent(&self) -> bool {
        f64_is_zero(self.alpha)
    }

    /// Whether the opacity is exactly zero, of either sign.
    #[verifier::when_used_as_spec(spec_is_transparent)]
    pub fn is_transparent(&self) -> (t: bool)
        ensures
            t == self.spec_is_transparent(),
    {
        let bits: u64 = self.alpha;
        assert(((bits & 0x7fff_ffff_ffff_ffff) == 0) == (((bits >> 52) & 0x7ff) == 0 && (bits
            & 0xf_ffff_ffff_ffff) == 0)) by (bit_vector);
        (bits & 0x7fff_ffff_ffff_ffff) == 0
    }
}

/// The 8-bit alpha of a colour: its opacity times 256, cut off towards zero
/// and held to the range of a byte.
pub open spec fn alpha_byte(col: BackendColor) -> u8 {
    spec_times_256_to_u8(col.alpha)
}

/// The scene colour of a plotting colour: the same three channels, and the
/// opacity as [`alpha_byte`] has it.
pub open spec fn scene_color(col: BackendColor) -> Color {
    rgba8_color(col.rgb.0, col.rgb.1, col.rgb.2, alpha_byte(col))
}

/// Turns a plotting colour into the scene's colour.
pub fn plotters_color_to_peniko(col: &BackendColor) -> (c: Color)
    ensures
        c == scene_color(*col),
{
    color_from_rgba8(col.rgb.0, col.rgb.1, col.rgb.2, times_256_to_u8(col.alpha))
}

/// For an opacity between 0 and 1 the 8-bit alpha is the whole part of 256
/// times the opacity, except that 256 becomes 255. Zero gives 0 and one
/// gives 255.
pub proof fn lemma_alpha_byte_of_unit_interval(col: BackendColor)
    requires
        alpha_in_unit_interval(col.alpha),
    ensures
        alpha_byte(col) as int == vstd::math::min(
            255,
            floor_scaled(f64_significand(col.alpha), f64_exponent(col.alpha) + 8) as int,
        ),
        f64_is_zero(col.alpha) ==> alpha_byte(col) == 0,
        col.alpha == ALPHA_OPAQUE ==> alpha_byte(col) == 255,
{
    let bits = col.alpha;
    lemma2_to64();
    lemma2_to64_rest();
    assert(bits <= 0x3ff0_0000_0000_0000 ==> ((bits >> 52) & 0x7ff) <= 0x3ff) by (bit_vector);
    assert(((0x3ff0_0000_0000_0000u64 >> 52) & 0x7ff) == 0x3ff) by (bit_vector);
    assert((0x3ff0_0000_0000_0000u64 & 0xf_ffff_ffff_ffff) == 0) by (bit_vector);
    if f64_is_zero(bits) {
        vstd::arithmetic::power2::lemma_pow2_pos(1066);
        vstd::arithmetic::div_mod::lemma_basic_div(0, pow2(1066) as int);
    }
    if bits == ALPHA_OPAQUE {
        assert(f64_significand(bits) == 0x10_0000_0000_0000);
    }
}

/// An opacity held to the range from 0 to 1: a negative pattern becomes
/// zero, a pattern above 1.0 becomes 1.0.
pub open spec fn clamped_alpha(bits: u64) -> u64 {
    if f64_sign(bits) {
        ALPHA_TRANSPARENT
    } else if bits > ALPHA_OPAQUE {
        ALPHA_OPAQUE
    } else {
        bits
    }
}

/// The 8-bit alpha of a colour is that of the colour with its opacity held
/// to the range from 0 to 1, for every opacity that is a number.
pub proof fn lemma_alpha_byte_clamps_opacity(col: BackendColor)
    requires
        !f64_is_nan(col.alpha),
    ensures
        alpha_in_unit_interval(clamped_alpha(col.alpha)),
        alpha_byte(col) == alpha_byte(BackendColor { alpha: clamped_alpha(col.alpha), ..col }),
{
    let bits = col.alpha;
    let held = BackendColor { alpha: clamped_alpha(bits), ..col };
    lemma2_to64();
    lemma2_to64_rest();
    assert(((0u64 >> 52) & 0x7ff) == 0 && (0u64 & 0xf_ffff_ffff_ffff) == 0 && (0u64 >> 63) == 0)
        by (bit_vector);
    assert((0x3ff0_0000_0000_0000u64 >> 63) == 0) by (bit_vector);
    if f64_sign(bits) {
        lemma_alpha_byte_of_unit_interval(held);
    } else if bits > ALPHA_OPAQUE {
        lemma_alpha_byte_of_unit_interval(held);
        assert(bits > 0x3ff0_0000_0000_0000 && (bits >> 63) != 1 ==> ((bits >> 52) & 0x7ff)
            >= 0x3ff) by (bit_vector);
        if !f64_is_infinite(bits) {
            let field = f64_exponent_field(bits);
            let significand = f64_significand(bits);
            if field >= 1067 {
                let p = pow2((field - 1067) as nat);
                vstd::arithmetic::power2::lemma_pow2_pos((field - 1067) as nat);
                assert(significand * p >= significand) by (nonlinear_arith)
                    requires
                        p >= 1,
                        significand >= 0,
                ;
            } else {
                let shift = (1067 - field) as nat;
                let p = pow2(shift);
                vstd::arithmetic::power2::lemma_pow2_pos(shift);
                if shift < 44 {
                    vstd::arithmetic::power2::lemma_pow2_strictly_increases(shift, 44);
                }
                vstd::arithmetic::div_mod::lemma_div_is_ordered(
                    0x10_0000_0000_0000,
                    significand as int,
                    p as int,
                );
                vstd::arithmetic::div_mod::lemma_div_is_ordered_by_denominator(
                    0x10_0000_0000_0000,
                    p as int,
                    pow2(44) as int,
                );
            }
        }
    }
}

} // verus!
