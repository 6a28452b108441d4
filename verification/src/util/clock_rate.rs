use vstd::prelude::*;

verus! {

/// The bits of the single-precision float `0.01`, the slowest clock rate.
pub const MIN_RATE_SINGLE: u32 = 0x3C23_D70A;

/// The bits of the single-precision float `100.0`, the fastest clock rate.
pub const MAX_RATE_SINGLE: u32 = 0x42C8_0000;

/// The bits of the double `0.01`, the slowest clock rate.
pub const MIN_RATE_DOUBLE: u64 = 0x3F84_7AE1_47AE_147B;

/// The bits of the double `100.0`, the fastest clock rate.
pub const MAX_RATE_DOUBLE: u64 = 0x4059_0000_0000_0000;

/// The sign bit of a single-precision float.
pub const SIGN_SINGLE: u32 = 0x8000_0000;

/// The bits of positive infinity in single precision.
pub const INFINITY_SINGLE: u32 = 0x7F80_0000;

/// The sign bit of a double.
pub const SIGN_DOUBLE: u64 = 0x8000_0000_0000_0000;

/// The bits of positive infinity as a double.
pub const INFINITY_DOUBLE: u64 = 0x7FF0_0000_0000_0000;

/// Whether the sign bit of a single-precision float is set.
pub open spec fn is_negative_single(bits: u32) -> bool {
    bits >= SIGN_SINGLE
}

/// Whether the bits are those of a single-precision float that is not a number.
pub open spec fn is_nan_single(bits: u32) -> bool {
    if bits >= SIGN_SINGLE {
        bits - SIGN_SINGLE > INFINITY_SINGLE
    } else {
        bits > INFINITY_SINGLE
    }
}

/// Whether the sign bit of a double is set.
pub open spec fn is_negative_double(bits: u64) -> bool {
    bits >= SIGN_DOUBLE
}

/// Whether the bits are those of a double that is not a number.
pub open spec fn is_nan_double(bits: u64) -> bool {
    if bits >= SIGN_DOUBLE {
        bits - SIGN_DOUBLE > INFINITY_DOUBLE
    } else {
        bits > INFINITY_DOUBLE
    }
}

/// A clock rate in single precision, held between `0.01` and `100.0`.
///
/// Among the floats that are numbers and not negative, the larger float has
/// the larger bits. So a rate below the slowest one is one with its sign bit
/// set or with smaller bits, and a rate above the fastest one is one with
/// larger bits. What is not a number is below and above nothing and stays as
/// it is.
pub open spec fn spec_clamp_single(bits: u32) -> u32 {
    if is_nan_single(bits) {
        bits
    } else if is_negative_single(bits) || bits < MIN_RATE_SINGLE {
        MIN_RATE_SINGLE
    } else if bits > MAX_RATE_SINGLE {
        MAX_RATE_SINGLE
    } else {
        bits
    }
}

/// A clock rate as a double, held between `0.01` and `100.0` in the way of
/// [`spec_clamp_single`].
pub open spec fn spec_clamp_double(bits: u64) -> u64 {
    if is_nan_double(bits) {
        bits
    } else if is_negative_double(bits) || bits < MIN_RATE_DOUBLE {
        MIN_RATE_DOUBLE
    } else if bits > MAX_RATE_DOUBLE {
        MAX_RATE_DOUBLE
    } else {
        bits
    }
}

/// Holds a clock rate, given as the bits of a single-precision float, between
/// `0.01` and `100.0`.
pub fn clamp_single(bits: u32) -> (clamped: u32)
    ensures
        clamped == spec_clamp_single(bits),
        clamped != 0,
        !is_nan_single(bits) ==> MIN_RATE_SINGLE <= clamped <= MAX_RATE_SINGLE,
{
    let magnitude = if bits >= SIGN_SINGLE {
        bits - SIGN_SINGLE
    } else {
        bits
    };
    if magnitude > INFINITY_SINGLE {
        bits
    } else if bits >= SIGN_SINGLE || bits < MIN_RATE_SINGLE {
        MIN_RATE_SINGLE
    } else if bits > MAX_RATE_SINGLE {
        MAX_RATE_SINGLE
    } else {
        bits
    }
}

/// Holds a clock rate, given as the bits of a double, between `0.01` and
/// `100.0`.
pub fn clamp_double(bits: u64) -> (clamped: u64)
    ensures
        clamped == spec_clamp_double(bits),
        clamped != 0,
        !is_nan_double(bits) ==> MIN_RATE_DOUBLE <= clamped <= MAX_RATE_DOUBLE,
{
    let magnitude = if bits >= SIGN_DOUBLE {
        bits - SIGN_DOUBLE
    } else {
        bits
    };
    if magnitude > INFINITY_DOUBLE {
        bits
    } else if bits >= SIGN_DOUBLE || bits < MIN_RATE_DOUBLE {
        MIN_RATE_DOUBLE
    } else if bits > MAX_RATE_DOUBLE {
        MAX_RATE_DOUBLE
    } else {
        bits
    }
}

/// A clamped clock rate never has bits that are all zero, and clamping it
/// once more changes nothing.
pub proof fn lemma_clamp_single(bits: u32)
    ensures
        spec_clamp_single(bits) != 0,
        spec_clamp_single(spec_clamp_single(bits)) == spec_clamp_single(bits),
        !is_nan_single(bits) ==> MIN_RATE_SINGLE <= spec_clamp_single(bits) <= MAX_RATE_SINGLE,
{
}

/// A clamped clock rate never has bits that are all zero, and clamping it
/// once more changes nothing.
pub proof fn lemma_clamp_double(bits: u64)
    ensures
        spec_clamp_double(bits) != 0,
        spec_clamp_double(spec_clamp_double(bits)) == spec_clamp_double(bits),
        !is_nan_double(bits) ==> MIN_RATE_DOUBLE <= spec_clamp_double(bits) <= MAX_RATE_DOUBLE,
{
}

} // verus!
