use vstd::prelude::*;

use crate::util::clock_rate::{clamp_double, spec_clamp_double};
use crate::util::mods::{spec_clock_rate, GameMods, Mods};

verus! {

/// The settings of a difficulty calculation on charts of any mode.
#[derive(Clone, Debug, PartialEq, Eq)]
pub struct Difficulty {
    mods: GameMods,
    passed_objects: Option<u32>,
    /// The clock rate is held between 0.01 and 100.0 and stored as the bits
    /// of a double. Since its least value is 0.01, the bits are never all
    /// zero.
    clock_rate: Option<u64>,
    lazer: Option<bool>,
}

impl Difficulty {
    /// The modifiers.
    pub closed spec fn spec_mods(&self) -> GameMods {
        self.mods
    }

    /// The amount of passed objects, if one was given.
    pub closed spec fn spec_passed_objects(&self) -> Option<u32> {
        self.passed_objects
    }

    /// The clock rate, if one was given, as the bits of a double.
    pub closed spec fn spec_clock_rate(&self) -> Option<u64> {
        self.clock_rate
    }

    /// Whether the score was set on lazer, if that was said.
    pub closed spec fn spec_lazer(&self) -> Option<bool> {
        self.lazer
    }

    /// The clock rate that the calculation runs at, as the bits of a double:
    /// the one that was given, else the one of the modifiers.
    pub open spec fn spec_get_clock_rate(&self) -> u64 {
        match self.spec_clock_rate() {
            Some(rate) => rate,
            None => spec_clock_rate(self.spec_mods().spec_dt(), self.spec_mods().spec_ht()),
        }
    }

    /// The amount of objects that the calculation looks at: the one that was
    /// given, else as many as there are.
    pub open spec fn spec_get_passed_objects(&self) -> usize {
        match self.spec_passed_objects() {
            Some(n) => n as usize,
            None => usize::MAX,
        }
    }

    /// Whether the score counts as set on lazer: yes, unless said otherwise.
    pub open spec fn spec_get_lazer(&self) -> bool {
        match self.spec_lazer() {
            Some(lazer) => lazer,
            None => true,
        }
    }

    /// Create a new difficulty calculator.
    pub fn new() -> (this: Self)
        ensures
            this.spec_mods() == GameMods::Legacy(0),
            this.spec_passed_objects() is None,
            this.spec_clock_rate() is None,
            this.spec_lazer() is None,
    {
        Self { mods: GameMods::no_mod(), passed_objects: None, clock_rate: None, lazer: None }
    }

    /// Specify mods.
    pub fn mods(self, mods: GameMods) -> (this: Self)
        ensures
            this.spec_mods() == mods,
            this.spec_passed_objects() == self.spec_passed_objects(),
            this.spec_clock_rate() == self.spec_clock_rate(),
            this.spec_lazer() == self.spec_lazer(),
    {
        Self {
            mods,
            passed_objects: self.passed_objects,
            clock_rate: self.clock_rate,
            lazer: self.lazer,
        }
    }

    /// Amount of passed objects for partial plays, e.g. a fail.
    pub fn passed_objects(self, passed_objects: u32) -> (this: Self)
        ensures
            this.spec_mods() == self.spec_mods(),
            this.spec_passed_objects() == Some(passed_objects),
            this.spec_clock_rate() == self.spec_clock_rate(),
            this.spec_lazer() == self.spec_lazer(),
    {
        Self {
            mods: self.mods,
            passed_objects: Some(passed_objects),
            clock_rate: self.clock_rate,
            lazer: self.lazer,
        }
    }

    /// Adjust the clock rate used in the calculation, given as the bits of a
    /// double.
    ///
    /// If none is specified, it will take the clock rate based on the mods
    /// i.e. 1.5 for DT, 0.75 for HT and 1.0 otherwise.
    ///
    /// | Minimum | Maximum |
    /// | :-----: | :-----: |
    /// | 0.01    | 100     |
    pub fn clock_rate(self, clock_rate: u64) -> (this: Self)
        ensures
            this.spec_mods() == self.spec_mods(),
            this.spec_passed_objects() == self.spec_passed_objects(),
            this.spec_clock_rate() == Some(spec_clamp_double(clock_rate)),
            this.spec_clock_rate() != Some(0u64),
            this.spec_lazer() == self.spec_lazer(),
    {
        let clamped = clamp_double(clock_rate);
        Self {
            mods: self.mods,
            passed_objects: self.passed_objects,
            clock_rate: Some(clamped),
            lazer: self.lazer,
        }
    }

    /// Whether the calculated attributes belong to a lazer or a stable score.
    ///
    /// Defaults to `true`.
    pub fn lazer(self, lazer: bool) -> (this: Self)
        ensures
            this.spec_mods() == self.spec_mods(),
            this.spec_passed_objects() == self.spec_passed_objects(),
            this.spec_clock_rate() == self.spec_clock_rate(),
            this.spec_lazer() == Some(lazer),
    {
        Self {
            mods: self.mods,
            passed_objects: self.passed_objects,
            clock_rate: self.clock_rate,
            lazer: Some(lazer),
        }
    }

    /// The amount of passed objects, if one was given.
    pub fn given_passed_objects(&self) -> (passed_objects: Option<u32>)
        ensures
            passed_objects == self.spec_passed_objects(),
    {
        self.passed_objects
    }

    /// The clock rate, if one was given, as the bits of a double.
    pub fn given_clock_rate(&self) -> (clock_rate: Option<u64>)
        ensures
            clock_rate == self.spec_clock_rate(),
    {
        self.clock_rate
    }

    /// Whether the score was set on lazer, if that was said.
    pub fn given_lazer(&self) -> (lazer: Option<bool>)
        ensures
            lazer == self.spec_lazer(),
    {
        self.lazer
    }

    pub fn get_mods(&self) -> (mods: &GameMods)
        ensures
            *mods == self.spec_mods(),
    {
        &self.mods
    }

    /// The clock rate that the calculation runs at, as the bits of a double.
    pub fn get_clock_rate(&self) -> (rate: u64)
        ensures
            rate == self.spec_get_clock_rate(),
    {
        match self.clock_rate {
            Some(rate) => rate,
            None => self.mods.clock_rate(),
        }
    }

    pub fn get_passed_objects(&self) -> (take: usize)
        ensures
            take == self.spec_get_passed_objects(),
    {
        match self.passed_objects {
            Some(n) => n as usize,
            None => usize::MAX,
        }
    }

    pub fn get_lazer(&self) -> (lazer: bool)
        ensures
            lazer == self.spec_get_lazer(),
    {
        match self.lazer {
            Some(lazer) => lazer,
            None => true,
        }
    }
}

impl Default for Difficulty {
    fn default() -> (this: Self)
        ensures
            this.spec_mods() == GameMods::Legacy(0),
            this.spec_passed_objects() is None,
            this.spec_clock_rate() is None,
            this.spec_lazer() is None,
    {
        Self::new()
    }
}

} // verus!
