//! Parametric distances along a ray, held as IEEE-754 binary32 encodings.
//!
//! For every encoding that is not a NaN, the numbers compare as their keys
//! do: `a < b` exactly when `param_key(a) < param_key(b)`, and `+0` and `-0`
//! share the key `0`. NaN encodings get keys above that of the largest finite
//! value (sign clear) or below zero (sign set), so no ordering test in this
//! library treats a NaN as a visible distance.
use vstd::prelude::*;

verus! {

/// The sign bit of a binary32 encoding.
pub const SIGN_BIT: u32 = 0x8000_0000;

/// The encoding of the largest finite binary32 value.
pub const MAX_FINITE_BITS: u32 = 0x7f7f_ffff;

/// The encoding of positive infinity; magnitudes above it are NaNs.
pub const INFINITY_BITS: u32 = 0x7f80_0000;

/// The position of an encoded value in the order of the numbers: the
/// magnitude bits, negated when the sign bit is set.
pub open spec fn param_key(bits: u32) -> int {
    if bits < SIGN_BIT {
        bits as int
    } else {
        -((bits - SIGN_BIT) as int)
    }
}

/// A distance that hit selection may pick: finite and strictly in front of
/// the ray origin (so neither zero, a negative, an infinity nor a NaN).
pub open spec fn is_eligible(bits: u32) -> bool {
    0 < param_key(bits) <= MAX_FINITE_BITS as int
}

/// The encoding is a NaN: its magnitude lies above that of infinity.
pub open spec fn is_nan(bits: u32) -> bool {
    param_key(bits) > INFINITY_BITS as int || param_key(bits) < -(INFINITY_BITS as int)
}

/// The encoded number is strictly below zero (a NaN is not, whatever its
/// sign bit).
pub open spec fn is_negative(bits: u32) -> bool {
    param_key(bits) < 0 && !is_nan(bits)
}

/// The order key of an encoded distance.
pub fn order_key(bits: u32) -> (k: i32)
    ensures
        k as int == param_key(bits),
{
    if bits < SIGN_BIT {
        bits as i32
    } else {
        -((bits - SIGN_BIT) as i32)
    }
}

} // verus!
