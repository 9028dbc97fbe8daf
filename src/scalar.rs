//! Single-precision values held as their IEEE 754 binary32 bit patterns.
//!
//! Bit 31 is the sign; the remaining 31 bits are the magnitude, which orders
//! finite values and infinities like the numbers they stand for. A magnitude
//! above that of infinity is a NaN, which compares with nothing.
use vstd::prelude::*;

verus! {

/// Bit pattern of the sign bit.
pub const SIGN_BIT: u32 = 0x8000_0000;

/// Bit pattern of positive infinity, the largest magnitude that is no NaN.
pub const INFINITY: u32 = 0x7f80_0000;

/// Bit pattern of `+0.0`.
pub const ZERO: u32 = 0;

/// Bit pattern of `1.0`.
pub const ONE: u32 = 0x3f80_0000;

/// The magnitude bits of `b`.
pub open spec fn magnitude(b: u32) -> int {
    if b >= SIGN_BIT {
        b - SIGN_BIT
    } else {
        b as int
    }
}

pub open spec fn is_nan(b: u32) -> bool {
    magnitude(b) > INFINITY
}

/// An integer that orders non-NaN values as the numbers they encode;
/// `+0.0` and `-0.0` both get `0`.
pub open spec fn order_key(b: u32) -> int {
    if b >= SIGN_BIT {
        -magnitude(b)
    } else {
        magnitude(b)
    }
}

/// The comparison `a < b` on the encoded numbers.
pub open spec fn lt(a: u32, b: u32) -> bool {
    !is_nan(a) && !is_nan(b) && order_key(a) < order_key(b)
}

/// The comparison `a >= b` on the encoded numbers.
pub open spec fn ge(a: u32, b: u32) -> bool {
    !is_nan(a) && !is_nan(b) && order_key(a) >= order_key(b)
}

/// The comparison `b >= 0.0`.
pub open spec fn ge_zero(b: u32) -> bool {
    ge(b, ZERO)
}

/// `0.0 <= b <= 1.0`.
pub open spec fn is_frac(b: u32) -> bool {
    ge(b, ZERO) && ge(ONE, b)
}

fn order_key_exec(b: u32) -> (r: i64)
    ensures
        r == order_key(b),
{
    if b >= SIGN_BIT {
        -((b - SIGN_BIT) as i64)
    } else {
        b as i64
    }
}

fn nan(b: u32) -> (r: bool)
    ensures
        r == is_nan(b),
{
    let m = if b >= SIGN_BIT {
        b - SIGN_BIT
    } else {
        b
    };
    m > INFINITY
}

/// `a < b` on the encoded numbers; false when either is a NaN.
pub fn less_than(a: u32, b: u32) -> (r: bool)
    ensures
        r == lt(a, b),
{
    !nan(a) && !nan(b) && order_key_exec(a) < order_key_exec(b)
}

/// `a >= b` on the encoded numbers; false when either is a NaN.
pub fn greater_or_equal(a: u32, b: u32) -> (r: bool)
    ensures
        r == ge(a, b),
{
    !nan(a) && !nan(b) && order_key_exec(a) >= order_key_exec(b)
}

/// `b >= 0.0`: true for both zeros and every positive value.
pub fn non_negative(b: u32) -> (r: bool)
    ensures
        r == ge_zero(b),
{
    greater_or_equal(b, ZERO)
}

/// `0.0 <= b && b <= 1.0`.
pub fn in_unit_range(b: u32) -> (r: bool)
    ensures
        r == is_frac(b),
{
    greater_or_equal(b, ZERO) && greater_or_equal(ONE, b)
}

} // verus!
