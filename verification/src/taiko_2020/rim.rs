use rosu_map::section::hit_objects::hit_samples::HitSoundType;
use vstd::prelude::*;

verus! {

/// The flag of the whistle among the sounds of a hit.
pub const WHISTLE: u8 = 2;

/// The flag of the clap among the sounds of a hit.
pub const CLAP: u8 = 8;

/// Asks `HitSoundType::has_flag` whether the sounds of a hit, given as their
/// flags, hold any of the given flags: the two have a bit in common.
#[verifier::external_body]
fn has_flag(sound: u8, flag: u8) -> (any: bool)
    ensures
        any == (sound & flag != 0),
{
    HitSoundType::from(sound).has_flag(flag)
}

/// Whether a hit is played on the rim of the drum.
pub trait Rim {
    /// Whether the sounds hold a clap or a whistle.
    spec fn spec_rim(self) -> bool;

    fn rim(self) -> (rim: bool)
        ensures
            rim == self.spec_rim(),
    ;
}

impl Rim for u8 {
    open spec fn spec_rim(self) -> bool {
        self & (CLAP | WHISTLE) != 0
    }

    fn rim(self) -> (rim: bool) {
        has_flag(self, CLAP | WHISTLE)
    }
}

} // verus!
