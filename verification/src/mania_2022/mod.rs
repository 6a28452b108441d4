//! The 2022 revision of the mania mode.

use vstd::prelude::*;

pub mod mania_object;
pub mod pp;

pub use self::pp::ManiaPP;

use crate::util::clock_rate::{clamp_single, spec_clamp_single};
use crate::util::mods::{rate_as_single, spec_clock_rate, spec_rate_as_single, Mods};

verus! {

/// The settings of a difficulty calculation on a mania chart.
#[derive(Clone, Debug, PartialEq, Eq)]
pub struct ManiaStars {
    mods: u32,
    passed_objects: Option<u32>,
    /// The clock rate is held between 0.01 and 100.0 and stored as the bits
    /// of a single-precision float. Since its least value is 0.01, the bits
    /// are never all zero.
    clock_rate: Option<u32>,
}

impl ManiaStars {
    /// The modifiers, as bits.
    pub closed spec fn spec_mods(&self) -> u32 {
        self.mods
    }

    /// The amount of passed objects, if one was given.
    pub closed spec fn spec_passed_objects(&self) -> Option<u32> {
        self.passed_objects
    }

    /// The clock rate, if one was given, as the bits of a single-precision
    /// float.
    pub closed spec fn spec_clock_rate(&self) -> Option<u32> {
        self.clock_rate
    }

    /// The clock rate that the calculation runs at, as the bits of a
    /// single-precision float: the one that was given, else the one of the
    /// modifiers.
    pub open spec fn spec_get_clock_rate(&self) -> u32 {
        match self.spec_clock_rate() {
            Some(rate) => rate,
            None => spec_rate_as_single(
                spec_clock_rate(self.spec_mods().spec_dt(), self.spec_mods().spec_ht()),
            ),
        }
    }

    /// The amount of objects that the calculation looks at: the one that was
    /// given, else as many as there are.
    pub open spec fn spec_get_passed_objects(&self) -> usize {
        match self.spec_passed_objects() {
            Some(n) => n as usize,
            None => usize::MAX,
        }
    }

    /// Create a new difficulty calculator.
    pub fn new() -> (this: Self)
        ensures
            this.spec_mods() == 0,
            this.spec_passed_objects() is None,
            this.spec_clock_rate() is None,
    {
        Self { mods: 0, passed_objects: None, clock_rate: None }
    }

    /// Specify mods through their bits.
    pub fn mods(self, mods: u32) -> (this: Self)
        ensures
            this.spec_mods() == mods,
            this.spec_passed_objects() == self.spec_passed_objects(),
            this.spec_clock_rate() == self.spec_clock_rate(),
    {
        Self { mods, passed_objects: self.passed_objects, clock_rate: self.clock_rate }
    }

    /// Amount of passed objects for partial plays, e.g. a fail.
    pub fn passed_objects(self, passed_objects: u32) -> (this: Self)
        ensures
            this.spec_mods() == self.spec_mods(),
            this.spec_passed_objects() == Some(passed_objects),
            this.spec_clock_rate() == self.spec_clock_rate(),
    {
        Self { mods: self.mods, passed_objects: Some(passed_objects), clock_rate: self.clock_rate }
    }

    /// Adjust the clock rate used in the calculation, given as the bits of a
    /// single-precision float.
    ///
    /// If none is specified, it will take the clock rate based on the mods
    /// i.e. 1.5 for DT, 0.75 for HT and 1.0 otherwise.
    ///
    /// | Minimum | Maximum |
    /// | :-----: | :-----: |
    /// | 0.01    | 100     |
    pub fn clock_rate(self, clock_rate: u32) -> (this: Self)
        ensures
            this.spec_mods() == self.spec_mods(),
            this.spec_passed_objects() == self.spec_passed_objects(),
            this.spec_clock_rate() == Some(spec_clamp_single(clock_rate)),
            this.spec_clock_rate() != Some(0u32),
    {
        let clamped = clamp_single(clock_rate);
        Self { mods: self.mods, passed_objects: self.passed_objects, clock_rate: Some(clamped) }
    }

    pub fn get_mods(&self) -> (mods: u32)
        ensures
            mods == self.spec_mods(),
    {
        self.mods
    }

    /// The clock rate that the calculation runs at, as the bits of a
    /// single-precision float.
    pub fn get_clock_rate(&self) -> (rate: u32)
        ensures
            rate == self.spec_get_clock_rate(),
    {
        match self.clock_rate {
            Some(rate) => rate,
            None => rate_as_single(self.mods.clock_rate()),
        }
    }

    pub fn get_passed_objects(&self) -> (take: usize)
        ensures
            take == self.spec_get_passed_objects(),
    {
        match self.passed_objects {
            Some(n) => n as usize,
            None => usize::MAX,
        }
    }
}

impl Default for ManiaStars {
    fn default() -> (this: Self)
        ensures
            this.spec_mods() == 0,
            this.spec_passed_objects() is None,
            this.spec_clock_rate() is None,
    {
        Self::new()
    }
}


impl ManiaStars {
    /// The number of objects that the play got to, out of the objects of the
    /// chart.
    pub fn n_objects(&self, n_hit_objects: usize) -> (n: u32)
        requires
            n_hit_objects <= u32::MAX,
        ensures
            n == if self.spec_get_passed_objects() <= n_hit_objects {
                self.spec_get_passed_objects() as int
            } else {
                n_hit_objects as int
            },
    {
        let passed = self.get_passed_objects();
        if passed <= n_hit_objects {
            passed as u32
        } else {
            n_hit_objects as u32
        }
    }
}


/// Whether `make` can be asked for the difficulty object at place `i`.
pub open spec fn can_make<O, D, F: Fn(&O, &O, usize) -> D>(make: &F, objects: &[O], i: int)
    -> bool {
    call_requires(make, (&objects@[i + 1], &objects@[i], i as usize))
}

/// The steps of a difficulty calculation that come before the skills.
pub struct DifficultyValues;

impl DifficultyValues {
    /// Builds the difficulty objects of a chart: one for each object but the
    /// first, made by `make` from the object, the object before it and the
    /// place of the new difficulty object. With fewer than two objects there
    /// is none.
    pub fn create_difficulty_objects<O, D, F: Fn(&O, &O, usize) -> D>(
        objects: &[O],
        make: &F,
    ) -> (diff_objects: Vec<D>)
        requires
            forall|i: int| 0 <= i < objects@.len() - 1 ==> #[trigger] can_make(make, objects, i),
        ensures
            diff_objects@.len() == if objects@.len() >= 1 {
                objects@.len() - 1
            } else {
                0
            },
            forall|i: int|
                0 <= i < diff_objects@.len() ==> call_ensures(
                    make,
                    (&objects@[i + 1], &objects@[i], i as usize),
                    #[trigger] diff_objects@[i],
                ),
    {
        let mut diff_objects: Vec<D> = Vec::new();
        let n = objects.len();
        if n < 2 {
            return diff_objects;
        }
        let mut i: usize = 0;
        while i < n - 1
            invariant
                n == objects@.len(),
                n >= 2,
                i <= n - 1,
                diff_objects@.len() == i,
                forall|k: int| 0 <= k < objects@.len() - 1 ==> #[trigger] can_make(make, objects, k),
                forall|k: int|
                    0 <= k < i ==> call_ensures(
                        make,
                        (&objects@[k + 1], &objects@[k], k as usize),
                        #[trigger] diff_objects@[k],
                    ),
            decreases n - 1 - i,
        {
            assert(can_make(make, objects, i as int));
            let diff_object = make(&objects[i + 1], &objects[i], i);
            diff_objects.push(diff_object);
            i += 1;
        }
        diff_objects
    }
}

} // verus!
