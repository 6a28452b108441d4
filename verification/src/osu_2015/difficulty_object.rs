use vstd::prelude::*;

use crate::util::float_bits::{
    floor_at_single, spec_floor_at_single, spec_is_nan_single, spec_lt_single,
};

verus! {

/// The bits of the single-precision float `50.0`: the least time between two
/// objects that the strain is computed with, in milliseconds.
pub const MIN_DELTA: u32 = 0x4248_0000;

/// The time between two objects that the strain is computed with, given the
/// time that lies between them at the clock rate of the play as the bits of
/// a single-precision float: no less than 50 milliseconds, so that objects
/// at one and the same time are never divided by a time of zero.
pub fn clamp_delta(delta: u32) -> (clamped: u32)
    ensures
        clamped == spec_floor_at_single(delta, MIN_DELTA),
        !spec_is_nan_single(clamped),
        !spec_lt_single(clamped, MIN_DELTA),
{
    floor_at_single(delta, MIN_DELTA)
}

} // verus!
