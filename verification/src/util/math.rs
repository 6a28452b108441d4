use vstd::prelude::*;

use crate::util::float_bits::{gt, lt, spec_lt};

verus! {

/// The bits of the double `5.0`: the middle of the range of a difficulty
/// setting.
pub const MIDDLE: u64 = 0x4014_0000_0000_0000;

/// On which side of the middle a difficulty setting lies.
#[derive(Copy, Clone, Debug, PartialEq, Eq, Structural)]
pub enum RangeSide {
    /// Above five: the value lies between the average and the maximum.
    Upper,
    /// Below five: the value lies between the minimum and the average.
    Lower,
    /// Five, or not a number: the value is the average.
    Middle,
}

/// On which side of the middle a difficulty setting lies, given as the bits
/// of a double.
pub fn difficulty_range_side(val: u64) -> (side: RangeSide)
    ensures
        side == if spec_lt(MIDDLE, val) {
            RangeSide::Upper
        } else if spec_lt(val, MIDDLE) {
            RangeSide::Lower
        } else {
            RangeSide::Middle
        },
{
    if gt(val, MIDDLE) {
        RangeSide::Upper
    } else if lt(val, MIDDLE) {
        RangeSide::Lower
    } else {
        RangeSide::Middle
    }
}

} // verus!
