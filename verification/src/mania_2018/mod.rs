//! The 2018 revision of the mania mode.

use vstd::prelude::*;

pub mod pp;

pub use self::pp::ManiaPP;

verus! {

/// The settings of a difficulty calculation on a mania chart.
#[derive(Copy, Clone, Debug, PartialEq, Eq, Structural)]
pub struct ManiaStars {
    pub mods: u32,
    pub passed_objects: Option<usize>,
}

impl ManiaStars {
    /// Create a new difficulty calculator for mania charts.
    pub fn new() -> (this: Self)
        ensures
            this == (Self { mods: 0, passed_objects: None }),
    {
        Self { mods: 0, passed_objects: None }
    }

    /// Specify mods through their bit values.
    pub fn mods(self, mods: u32) -> (this: Self)
        ensures
            this == (Self { mods, ..self }),
    {
        Self { mods, ..self }
    }

    /// Amount of passed objects for partial plays, e.g. a fail.
    pub fn passed_objects(self, passed_objects: usize) -> (this: Self)
        ensures
            this == (Self { passed_objects: Some(passed_objects), ..self }),
    {
        Self { passed_objects: Some(passed_objects), ..self }
    }

    /// The number of objects that the calculation looks at: the given
    /// amount, else all of the chart, and never more than the chart has.
    pub fn take(&self, n_hit_objects: usize) -> (take: usize)
        ensures
            take == match self.passed_objects {
                Some(n) => if n <= n_hit_objects {
                    n
                } else {
                    n_hit_objects
                },
                None => n_hit_objects,
            },
            take <= n_hit_objects,
    {
        match self.passed_objects {
            Some(n) => if n <= n_hit_objects {
                n
            } else {
                n_hit_objects
            },
            None => n_hit_objects,
        }
    }
}


/// The result of a difficulty calculation on a mania chart.
#[derive(Copy, Clone, Debug, PartialEq, Eq, Structural)]
pub struct ManiaDifficultyAttributes {
    /// The final star rating, as the bits of a double.
    pub stars: u64,
}

impl Default for ManiaDifficultyAttributes {
    /// The attributes of a chart without objects: a rating of `0.0`.
    fn default() -> (attrs: Self)
        ensures
            attrs.stars == 0,
    {
        Self { stars: 0 }
    }
}

/// The result of a performance calculation on a mania chart. Every value
/// is the bits of a double.
#[derive(Copy, Clone, Debug, PartialEq, Eq, Structural)]
pub struct ManiaPerformanceAttributes {
    /// The difficulty attributes that were used for the performance
    /// calculation.
    pub difficulty: ManiaDifficultyAttributes,
    /// The final performance points.
    pub pp: u64,
    /// The accuracy portion of the final pp.
    pub pp_acc: u64,
    /// The strain portion of the final pp.
    pub pp_strain: u64,
}

impl ManiaPerformanceAttributes {
    /// Return the star value.
    pub fn stars(&self) -> (stars: u64)
        ensures
            stars == self.difficulty.stars,
    {
        self.difficulty.stars
    }

    /// Return the performance point value.
    pub fn pp(&self) -> (pp: u64)
        ensures
            pp == self.pp,
    {
        self.pp
    }

    /// Gives up the performance values and keeps the difficulty attributes.
    pub fn into_difficulty(self) -> (attrs: ManiaDifficultyAttributes)
        ensures
            attrs == self.difficulty,
    {
        self.difficulty
    }
}

/// Where the star rating of a chart can be taken from: the rating itself,
/// the result of a difficulty calculation or that of a performance
/// calculation.
#[derive(Copy, Clone, Debug, PartialEq, Eq, Structural)]
pub enum ManiaAttributeProvider {
    Stars(u64),
    Difficulty(ManiaDifficultyAttributes),
    Performance(ManiaPerformanceAttributes),
}

impl ManiaAttributeProvider {
    /// The star rating that the result holds, as the bits of a double.
    pub fn attributes(self) -> (stars: u64)
        ensures
            stars == match self {
                ManiaAttributeProvider::Stars(stars) => stars,
                ManiaAttributeProvider::Difficulty(attrs) => attrs.stars,
                ManiaAttributeProvider::Performance(attrs) => attrs.difficulty.stars,
            },
    {
        match self {
            ManiaAttributeProvider::Stars(stars) => stars,
            ManiaAttributeProvider::Difficulty(attrs) => attrs.stars,
            ManiaAttributeProvider::Performance(attrs) => attrs.difficulty.stars,
        }
    }
}

} // verus!
