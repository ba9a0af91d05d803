//! Order and range of real numbers, read off their bit patterns.
//!
//! A binary32 pattern is a sign bit over 31 bits of magnitude.  Among
//! patterns of numbers, a larger magnitude field means a larger absolute
//! value, infinity having the largest; magnitude fields above infinity's
//! stand for no number.  That is enough to compare absolute values and to
//! clamp to the unit interval without any arithmetic on the numbers.

use vstd::prelude::*;

verus! {

/// Bit pattern of `1.0`.
pub const ONE: u32 = 0x3f80_0000;

/// Bit pattern of positive infinity: the largest magnitude that is a number.
pub const INFINITY: u32 = 0x7f80_0000;

/// Bit pattern of `-0.0`: the sign bit alone.
pub const SIGN: u32 = 0x8000_0000;

/// The bit pattern with its sign cleared: the pattern of the absolute value.
pub open spec fn magnitude(bits: u32) -> u32 {
    (bits as int % 0x8000_0000) as u32
}

/// The pattern stands for no number.
pub open spec fn is_nan(bits: u32) -> bool {
    magnitude(bits) > INFINITY
}

/// `|a| <= |b|` as floating-point numbers compare: patterns of
/// non-negative numbers are ordered as the numbers are, and a comparison
/// with something that is no number is false.
pub open spec fn abs_le(a: u32, b: u32) -> bool {
    !is_nan(a) && !is_nan(b) && magnitude(a) <= magnitude(b)
}

/// The pattern stands for a number in `[0, 1]`: a non-negative number up
/// to `1.0`, or negative zero.
pub open spec fn in_unit_interval(bits: u32) -> bool {
    bits <= ONE || bits == SIGN
}

/// The pattern clamped to `[0, 1]` as floating-point clamping does it:
/// a number above `1.0` becomes `1.0`, a number below zero becomes `+0.0`,
/// and anything else, what is no number included, stays as it is.
pub open spec fn clamped_to_unit(bits: u32) -> u32 {
    if is_nan(bits) {
        bits
    } else if bits > SIGN {
        0
    } else if bits < SIGN && bits > ONE {
        ONE
    } else {
        bits
    }
}

/// Tells whether `|a| <= |b|`.
pub fn is_abs_le(a: u32, b: u32) -> (le: bool)
    ensures
        le == abs_le(a, b),
{
    let ma: u32 = a % 0x8000_0000;
    let mb: u32 = b % 0x8000_0000;
    ma <= INFINITY && mb <= INFINITY && ma <= mb
}

/// Clamps a pattern to `[0, 1]`.
///
/// The result of clamping a number lies in `[0, 1]` and is the number
/// itself where that already does; clamping twice changes nothing more.
pub fn clamp_unit(bits: u32) -> (clamped: u32)
    ensures
        clamped == clamped_to_unit(bits),
        !is_nan(bits) ==> in_unit_interval(clamped),
        in_unit_interval(bits) ==> clamped == bits,
        clamped_to_unit(clamped) == clamped,
{
    let m: u32 = bits % 0x8000_0000;
    if m > INFINITY {
        bits
    } else if bits > SIGN {
        0
    } else if bits < SIGN && bits > ONE {
        ONE
    } else {
        bits
    }
}

/// Clamps each of three patterns to `[0, 1]`.
pub fn clamp_unit3(bits: &[u32; 3]) -> (clamped: [u32; 3])
    ensures
        forall|k: int| 0 <= k < 3 ==> clamped[k] == clamped_to_unit(#[trigger] bits[k]),
        forall|k: int|
            0 <= k < 3 && !is_nan(#[trigger] bits[k]) ==> in_unit_interval(clamped[k]),
{
    [clamp_unit(bits[0]), clamp_unit(bits[1]), clamp_unit(bits[2])]
}

} // verus!
