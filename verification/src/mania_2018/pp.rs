use vstd::prelude::*;

use crate::util::mods::Mods;

verus! {

/// Performance calculator on mania charts: the parameters of a score as far
/// as they are known.
#[derive(Copy, Clone, Debug, PartialEq, Eq, Structural)]
pub struct ManiaPP {
    /// The star rating, if it is known, as the bits of a double.
    pub stars: Option<u64>,
    pub mods: u32,
    pub score: Option<u32>,
    pub passed_objects: Option<usize>,
}

/// One for a modifier that is on, nothing for one that is off.
pub open spec fn spec_one_if(on: bool) -> int {
    if on {
        1
    } else {
        0
    }
}

impl ManiaPP {
    pub fn new() -> (this: Self)
        ensures
            this == (Self { stars: None, mods: 0, score: None, passed_objects: None }),
    {
        Self { stars: None, mods: 0, score: None, passed_objects: None }
    }

    /// Provide the star rating of a previous calculation, as the bits of a
    /// double.
    pub fn attributes(self, stars: u64) -> (this: Self)
        ensures
            this == (Self { stars: Some(stars), ..self }),
    {
        Self { stars: Some(stars), ..self }
    }

    /// Specify mods through their bit values.
    pub fn mods(self, mods: u32) -> (this: Self)
        ensures
            this == (Self { mods, ..self }),
    {
        Self { mods, ..self }
    }

    /// Score of a play.
    pub fn score(self, score: u32) -> (this: Self)
        ensures
            this == (Self { score: Some(score), ..self }),
    {
        Self { score: Some(score), ..self }
    }

    /// Amount of passed objects for partial plays, e.g. a fail.
    pub fn passed_objects(self, passed_objects: usize) -> (this: Self)
        ensures
            this == (Self { passed_objects: Some(passed_objects), ..self }),
    {
        Self { passed_objects: Some(passed_objects), ..self }
    }

    /// How often the score was halved by modifiers: once for each of easy,
    /// no fail and half time.
    pub fn score_halvings(&self) -> (halvings: i32)
        ensures
            halvings == spec_one_if(self.mods.spec_ez()) + spec_one_if(self.mods.spec_nf())
                + spec_one_if(self.mods.spec_ht()),
            0 <= halvings <= 3,
    {
        let ez: i32 = if self.mods.ez() {
            1
        } else {
            0
        };
        let nf: i32 = if self.mods.nf() {
            1
        } else {
            0
        };
        let ht: i32 = if self.mods.ht() {
            1
        } else {
            0
        };
        ez + nf + ht
    }
}

} // verus!
