//! The range of Rec.709 codes, apart from any gamma: the 8-bit coding puts
//! the unit interval on the codes 16 to 235, the 10-bit coding on the codes
//! 64 to 940.

use vstd::prelude::*;
use crate::arith::{div_spec, quantise_spec};
use crate::binary32::{is_nan, less, number, ONE};

verus! {

/// The first code of the 8-bit range, which stands for 0.
pub const LOW_8BIT: u8 = 16;

/// The last code of the 8-bit range, which stands for 1.
pub const HIGH_8BIT: u8 = 235;

/// The first code of the 10-bit range, which stands for 0.
pub const LOW_10BIT: u16 = 64;

/// The last code of the 10-bit range, which stands for 1.
pub const HIGH_10BIT: u16 = 940;

/// 219, the length of the 8-bit range.
pub const RANGE_8BIT: u32 = 0x435b_0000;

/// 876, the length of the 10-bit range.
pub const RANGE_10BIT: u32 = 0x445b_0000;

/// 16.5: the first code of the 8-bit range and one half.
pub const BIAS_8BIT: u32 = 0x4184_0000;

/// 64.5: the first code of the 10-bit range and one half.
pub const BIAS_10BIT: u32 = 0x4281_0000;

/// `code` held between `low` and `high`, counted from `low`.
pub open spec fn steps_above(code: int, low: int, high: int) -> nat {
    if code <= low {
        0
    } else if code >= high {
        (high - low) as nat
    } else {
        (code - low) as nat
    }
}

/// Converts an 8-bit Rec.709 code into the unit interval: a code up to 16
/// gives 0, a code from 235 gives 1, a code between them
/// `(value - 16) / 219`.
pub fn decode_rec709_8bit(value: u8) -> (r: u32)
    ensures
        r == div_spec(number(steps_above(value as int, 16, 235)), number(219)),
{
    let held: u8 = if value < LOW_8BIT {
        LOW_8BIT
    } else if value > HIGH_8BIT {
        HIGH_8BIT
    } else {
        value
    };
    crate::arith::div(
        crate::binary32::from_u32((held - LOW_8BIT) as u32),
        crate::binary32::from_u32((HIGH_8BIT - LOW_8BIT) as u32),
    )
}

/// Converts a 10-bit Rec.709 code into the unit interval: a code up to 64
/// gives 0, a code from 940 gives 1, a code between them
/// `(value - 64) / 876`.
pub fn decode_rec709_10bit(value: u16) -> (r: u32)
    ensures
        r == div_spec(number(steps_above(value as int, 64, 940)), number(876)),
{
    let held: u16 = if value < LOW_10BIT {
        LOW_10BIT
    } else if value > HIGH_10BIT {
        HIGH_10BIT
    } else {
        value
    };
    crate::arith::div(
        crate::binary32::from_u32((held - LOW_10BIT) as u32),
        crate::binary32::from_u32((HIGH_10BIT - LOW_10BIT) as u32),
    )
}

/// Converts a value of the unit interval into an 8-bit Rec.709 code: the
/// whole part of `value * 219 + 16.5`, for the value held between 0 and 1.
/// A value below 0 and a NaN give 16, a value above 1 gives 235.
pub fn encode_rec709_8bit(value: u32) -> (r: u8)
    ensures
        r == quantise_spec(value, RANGE_8BIT, BIAS_8BIT),
        16 <= r <= 235,
        !less(0, value) ==> r == 16,
        !is_nan(value) && !less(value, ONE) ==> r == 235,
{
    proof {
        crate::codes::lemma_rec709_8bit_codes_stay_in_range(value);
    }
    crate::arith::quantise(value, RANGE_8BIT, BIAS_8BIT, 255) as u8
}

/// Converts a value of the unit interval into a 10-bit Rec.709 code: the
/// whole part of `value * 876 + 64.5`, for the value held between 0 and 1.
/// A value below 0 and a NaN give 64, a value above 1 gives 940.
pub fn encode_rec709_10bit(value: u32) -> (r: u16)
    ensures
        r == quantise_spec(value, RANGE_10BIT, BIAS_10BIT),
        64 <= r <= 940,
        !less(0, value) ==> r == 64,
        !is_nan(value) && !less(value, ONE) ==> r == 940,
{
    proof {
        crate::codes::lemma_rec709_10bit_codes_stay_in_range(value);
    }
    crate::arith::quantise(value, RANGE_10BIT, BIAS_10BIT, 65535) as u16
}

} // verus!
