//! Conversion between linear sRGB and the CIE XYZ colour space, and the
//! constants that define the sRGB space: its white point, its primaries and
//! the two basis matrices, each a binary32 pattern.

use vstd::prelude::*;
use crate::maths::dot_sequential;

verus! {

/// xyY coordinates of the D65 reference white point: x = 0.312713,
/// y = 0.329016, Y = 1.
#[allow(non_upper_case_globals)]
pub const D65_xyY: [u32; 3] = [0x3ea0_1beb, 0x3ea8_74c9, 0x3f80_0000];

/// XYZ coordinates of the D65 reference white point: x / y, 1 and
/// (1 - x - y) / y.
pub const D65_XYZ: [u32; 3] = [0x3f73_50a4, 0x3f80_0000, 0x3f8b_619f];

/// xyY coordinates of the red, green and blue primaries.
#[allow(non_upper_case_globals)]
pub const PRIMARIES_xyY: [[u32; 3]; 3] = [
    [0x3f23_d70a, 0x3ea8_f5c3, 0x3f80_0000],
    [0x3e99_999a, 0x3f19_999a, 0x3f80_0000],
    [0x3e19_999a, 0x3d75_c28f, 0x3f80_0000],
];

/// XYZ coordinates of the red, green and blue primaries.
pub const PRIMARIES_XYZ: [[u32; 3]; 3] = [
    [0x3ed3_2784, 0x3e59_c0c0, 0x3c9e_5da3],
    [0x3eb7_1553, 0x3f37_1553, 0x3df4_1c6f],
    [0x3e38_c8e2, 0x3d93_d3e8, 0x3f73_4cc3],
];

/// The basis matrix from linear sRGB to XYZ, for colours written as
/// columns: `XYZ = XYZ_FROM_SRGB_MATRIX * RGB`.
pub const XYZ_FROM_SRGB_MATRIX: [[u32; 3]; 3] = [
    [0x3ed3_2784, 0x3eb7_1553, 0x3e38_c8e2],
    [0x3e59_c0c0, 0x3f37_1553, 0x3d93_d3e8],
    [0x3c9e_5da3, 0x3df4_1c6f, 0x3f73_4cc3],
];

/// The basis matrix from XYZ to linear sRGB, the inverse of
/// [`XYZ_FROM_SRGB_MATRIX`]: `RGB = SRGB_FROM_XYZ_MATRIX * XYZ`.
pub const SRGB_FROM_XYZ_MATRIX: [[u32; 3]; 3] = [
    [0x404f_6978, 0xbfc4_c686, 0xbeff_46bc],
    [0xbf78_204f, 0x3ff0_1faa, 0x3d2a_359c],
    [0x3d63_e517, 0xbe50_e755, 0x3f87_5006],
];

/// Converts a colour in linear sRGB into XYZ, where white has Y = 1.
pub fn xyz_from_linear(linear: [u32; 3]) -> (xyz: [u32; 3])
    ensures
        forall|i: int| 0 <= i < 3 ==> xyz[i] == dot_sequential(#[trigger] XYZ_FROM_SRGB_MATRIX[i], linear),
{
    crate::maths::matrix_product(&XYZ_FROM_SRGB_MATRIX, linear)
}

/// Converts a colour in XYZ, where white has Y = 1, into linear sRGB.
pub fn linear_from_xyz(xyz: [u32; 3]) -> (linear: [u32; 3])
    ensures
        forall|i: int| 0 <= i < 3 ==> linear[i] == dot_sequential(#[trigger] SRGB_FROM_XYZ_MATRIX[i], xyz),
{
    crate::maths::matrix_product(&SRGB_FROM_XYZ_MATRIX, xyz)
}

} // verus!
