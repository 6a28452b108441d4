//! The 2024 revision of the standard mode.

use vstd::prelude::*;

pub mod performance;

pub use self::performance::OsuPP;

use crate::any_2024::difficulty::Difficulty;
use crate::util::clock_rate::spec_clamp_double;
use crate::util::mods::GameMods;

verus! {

/// The settings of a difficulty calculation on a standard chart.
#[derive(Clone, Debug, PartialEq, Eq)]
pub struct OsuStars {
    difficulty: Difficulty,
}

impl OsuStars {
    /// The settings as those of a calculation on any mode.
    pub closed spec fn spec_difficulty(&self) -> Difficulty {
        self.difficulty
    }

    /// Create a new difficulty calculator.
    pub fn new() -> (this: Self)
        ensures
            this.spec_difficulty().spec_mods() == GameMods::Legacy(0),
            this.spec_difficulty().spec_passed_objects() is None,
            this.spec_difficulty().spec_clock_rate() is None,
            this.spec_difficulty().spec_lazer() is None,
    {
        Self { difficulty: Difficulty::new() }
    }

    /// Specify mods through their bits.
    pub fn mods(self, mods: u32) -> (this: Self)
        ensures
            this.spec_difficulty().spec_mods() == GameMods::Legacy(mods),
            this.spec_difficulty().spec_passed_objects()
                == self.spec_difficulty().spec_passed_objects(),
            this.spec_difficulty().spec_clock_rate() == self.spec_difficulty().spec_clock_rate(),
            this.spec_difficulty().spec_lazer() == self.spec_difficulty().spec_lazer(),
    {
        Self { difficulty: self.difficulty.mods(GameMods::Legacy(mods)) }
    }

    /// Amount of passed objects for partial plays, e.g. a fail.
    pub fn passed_objects(self, passed_objects: u32) -> (this: Self)
        ensures
            this.spec_difficulty().spec_mods() == self.spec_difficulty().spec_mods(),
            this.spec_difficulty().spec_passed_objects() == Some(passed_objects),
            this.spec_difficulty().spec_clock_rate() == self.spec_difficulty().spec_clock_rate(),
            this.spec_difficulty().spec_lazer() == self.spec_difficulty().spec_lazer(),
    {
        Self { difficulty: self.difficulty.passed_objects(passed_objects) }
    }

    /// Adjust the clock rate used in the calculation, given as the bits of a
    /// double.
    ///
    /// If none is specified, it will take the clock rate based on the mods
    /// i.e. 1.5 for DT, 0.75 for HT and 1.0 otherwise.
    ///
    /// | Minimum | Maximum |
    /// | :-----: | :-----: |
    /// | 0.01    | 100     |
    pub fn clock_rate(self, clock_rate: u64) -> (this: Self)
        ensures
            this.spec_difficulty().spec_mods() == self.spec_difficulty().spec_mods(),
            this.spec_difficulty().spec_passed_objects()
                == self.spec_difficulty().spec_passed_objects(),
            this.spec_difficulty().spec_clock_rate() == Some(spec_clamp_double(clock_rate)),
            this.spec_difficulty().spec_lazer() == self.spec_difficulty().spec_lazer(),
    {
        Self { difficulty: self.difficulty.clock_rate(clock_rate) }
    }

    /// The settings as those of a calculation on any mode.
    pub fn difficulty(&self) -> (difficulty: &Difficulty)
        ensures
            *difficulty == self.spec_difficulty(),
    {
        &self.difficulty
    }
}

} // verus!
