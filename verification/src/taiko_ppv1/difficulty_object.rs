use vstd::prelude::*;

use crate::taiko_2020::rim::Rim;

verus! {

/// Whether two hits in a row are played on different parts of the drum,
/// given the flags of their sounds.
pub fn has_type_change(base_sound: u8, prev_sound: u8) -> (change: bool)
    ensures
        change == (prev_sound.spec_rim() != base_sound.spec_rim()),
{
    prev_sound.rim() != base_sound.rim()
}

} // verus!
