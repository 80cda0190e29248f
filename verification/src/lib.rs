//! Colour-science primitives on IEEE-754 binary32 bit patterns: gamma
//! expansion and compression for sRGB and Rec.709, the range of Rec.709
//! codes, and the change of basis between linear sRGB and CIE XYZ.
//!
//! Every component that the conversions read or produce is carried as the
//! `u32` bit pattern of a binary32 number, and every operation on such
//! patterns is integer arithmetic whose result is stated against the exact
//! value that the pattern stands for.  A caller that holds `f32` values
//! passes `to_bits` and reads the result with `from_bits`.
//!
//! One operation is left to the caller: the power with a binary32 exponent,
//! which the integers do not define.  A conversion that needs one gives a
//! [`gamma::Step`] that says what is to be raised to which exponent, and a
//! second function takes the power and finishes.
//!
//! The modules, from the ground up:
//!
//! - [`rounding`]: rounding of an exact value to binary32, ties to even;
//! - [`binary32`]: the format, the order of the numbers, the conversions
//!   from and to integers;
//! - [`arith`]: sum, difference, product, quotient and fused multiply-add,
//!   each rounded once;
//! - [`order`]: the arithmetic keeps the order of the numbers;
//! - [`maths`]: dot products and the product of a matrix with a column;
//! - [`gamma`], [`rec709`], [`xyz`]: the conversions and their constants;
//! - [`known`]: the arithmetic on given numbers, on which the proofs about
//!   the tables rest;
//! - [`round_trip`], [`segments`], [`rising`]: fast compression undoes
//!   expansion, and rises with the linear value;
//! - [`edges`]: the largest value of each code of the fast compression, and
//!   how near it lies to the edge of the exact curve;
//! - [`expansion`], [`derivation`]: the expansion table follows the sRGB
//!   formula, and the constants of the XYZ space derive from the
//!   chromaticities;
//! - [`studio`], [`survival`]: a code survives expansion and compression,
//!   on the linear piece as it is, and on the power piece for every power
//!   that lies near enough;
//! - [`codes`]: a code survives normalisation.

use vstd::prelude::*;

pub mod arith;
pub mod binary32;
pub mod codes;
pub mod derivation;
pub mod edges;
pub mod expansion;
pub mod gamma;
pub mod known;
pub mod maths;
pub mod order;
pub mod rec709;
pub mod rising;
pub mod round_trip;
pub mod rounding;
pub mod segments;
pub mod studio;
pub mod survival;
pub mod xyz;

verus! {

/// Applies `f` to each of the three components, keeping their order.
pub fn arr_map<F: Copy, T: Copy, Fun: Fn(F) -> T>(arr: [F; 3], f: Fun) -> (out: [T; 3])
    requires
        forall|i: int| 0 <= i < 3 ==> call_requires(f, (#[trigger] arr[i],)),
    ensures
        forall|i: int| 0 <= i < 3 ==> call_ensures(f, (arr[i],), #[trigger] out[i]),
{
    [f(arr[0]), f(arr[1]), f(arr[2])]
}

/// An 8-bit code as a fraction of 255.
fn normalised_from_code(v: u8) -> (r: u32)
    ensures
        r == arith::div_spec(binary32::number(v as nat), binary32::number(255)),
{
    arith::div(binary32::from_u32(v as u32), binary32::from_u32(255))
}

/// The 8-bit code of a value of the unit interval.
fn code_from_normalised(v: u32) -> (r: u8)
    ensures
        r == arith::quantise_spec(v, SCALE_U8, gamma::HALF),
        !binary32::less(0, v) ==> r == 0,
        !binary32::is_nan(v) && !binary32::less(v, binary32::ONE) ==> r == 255,
{
    proof {
        codes::lemma_u8_codes_stay_in_range(v);
    }
    arith::quantise(v, SCALE_U8, gamma::HALF, 255) as u8
}

/// 255, the last 8-bit code.
pub const SCALE_U8: u32 = 0x437f_0000;

/// Converts a 24-bit sRGB colour into normalised representation: each
/// component divided by 255.
pub fn normalised_from_u8(encoded: [u8; 3]) -> (normalised: [u32; 3])
    ensures
        forall|i: int|
            0 <= i < 3 ==> normalised[i] == arith::div_spec(
                binary32::number(#[trigger] encoded[i] as nat),
                binary32::number(255),
            ),
{
    arr_map(encoded, normalised_from_code)
}

/// Converts a normalised sRGB colour into 24-bit representation: each
/// component held between 0 and 1, multiplied by 255 and rounded to the
/// nearest code.  A component below 0 and a NaN give 0, a component above
/// 1 gives 255.
pub fn u8_from_normalised(normalised: [u32; 3]) -> (encoded: [u8; 3])
    ensures
        forall|i: int|
            0 <= i < 3 ==> encoded[i] == arith::quantise_spec(
                #[trigger] normalised[i],
                SCALE_U8,
                gamma::HALF,
            ),
        forall|i: int| 0 <= i < 3 && !binary32::less(0, #[trigger] normalised[i]) ==> encoded[i] == 0,
        forall|i: int|
            0 <= i < 3 && !binary32::is_nan(#[trigger] normalised[i]) && !binary32::less(
                normalised[i],
                binary32::ONE,
            ) ==> encoded[i] == 255,
{
    arr_map(normalised, code_from_normalised)
}

/// Converts a colour in XYZ into 24-bit sRGB: to linear sRGB, then gamma
/// compression of each component.
pub fn u8_from_xyz(xyz: [u32; 3]) -> (encoded: [u8; 3])
    ensures
        forall|i: int|
            0 <= i < 3 ==> encoded[i] == gamma::compress_u8_spec(
                maths::dot_sequential(#[trigger] xyz::SRGB_FROM_XYZ_MATRIX[i], xyz),
            ),
{
    gamma::u8_from_linear(xyz::linear_from_xyz(xyz))
}

/// Converts a 24-bit sRGB colour into XYZ: gamma expansion of each
/// component, then from linear sRGB to XYZ.
pub fn xyz_from_u8(rgb: [u8; 3]) -> (r: [u32; 3])
    ensures
        forall|i: int|
            0 <= i < 3 ==> r[i] == maths::dot_sequential(
                #[trigger] xyz::XYZ_FROM_SRGB_MATRIX[i],
                linear_of(rgb),
            ),
{
    let linear = gamma::linear_from_u8(rgb);
    assert(linear =~= linear_of(rgb));
    xyz::xyz_from_linear(linear)
}

/// The linear colour of a 24-bit sRGB colour.
pub open spec fn linear_of(rgb: [u8; 3]) -> [u32; 3] {
    [
        gamma::U8_TO_LINEAR_LUT[rgb[0] as int],
        gamma::U8_TO_LINEAR_LUT[rgb[1] as int],
        gamma::U8_TO_LINEAR_LUT[rgb[2] as int],
    ]
}

/// Converts a colour in XYZ into normalised sRGB, as far as that goes
/// without a power: to linear sRGB, then gamma compression of each
/// component.
pub fn normalised_from_xyz(xyz: [u32; 3]) -> (normalised: [gamma::Step<u32>; 3])
    ensures
        forall|i: int|
            0 <= i < 3 ==> normalised[i] == gamma::compress_normalised_spec(
                maths::dot_sequential(#[trigger] xyz::SRGB_FROM_XYZ_MATRIX[i], xyz),
            ),
{
    gamma::normalised_from_linear(xyz::linear_from_xyz(xyz))
}

} // verus!
