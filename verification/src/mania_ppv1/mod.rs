//! The first revision of the mania mode.

pub mod pp;

pub use self::pp::ManiaPP;

use vstd::prelude::*;

verus! {

/// The result of a difficulty calculation on a mania chart.
#[derive(Copy, Clone, Debug, PartialEq, Eq, Structural)]
pub struct ManiaDifficultyAttributes {
    /// The final star rating, as the bits of a double.
    pub stars: u64,
}

impl Default for ManiaDifficultyAttributes {
    /// The attributes of a chart without objects: a rating of `0.0`.
    fn default() -> (attrs: Self)
        ensures
            attrs.stars == 0,
    {
        Self { stars: 0 }
    }
}

/// The result of a performance calculation on a mania chart. Every value
/// is the bits of a double.
#[derive(Copy, Clone, Debug, PartialEq, Eq, Structural)]
pub struct ManiaPerformanceAttributes {
    /// The difficulty attributes that were used for the performance
    /// calculation.
    pub difficulty: ManiaDifficultyAttributes,
    /// The final performance points.
    pub pp: u64,
    /// The accuracy portion of the final pp.
    pub pp_acc: u64,
    /// The strain portion of the final pp.
    pub pp_strain: u64,
}

impl ManiaPerformanceAttributes {
    /// Return the star value.
    pub fn stars(&self) -> (stars: u64)
        ensures
            stars == self.difficulty.stars,
    {
        self.difficulty.stars
    }

    /// Return the performance point value.
    pub fn pp(&self) -> (pp: u64)
        ensures
            pp == self.pp,
    {
        self.pp
    }

    /// Gives up the performance values and keeps the difficulty attributes.
    pub fn into_difficulty(self) -> (attrs: ManiaDifficultyAttributes)
        ensures
            attrs == self.difficulty,
    {
        self.difficulty
    }
}

/// Where the star rating of a chart can be taken from: the rating itself,
/// the result of a difficulty calculation or that of a performance
/// calculation.
#[derive(Copy, Clone, Debug, PartialEq, Eq, Structural)]
pub enum ManiaAttributeProvider {
    Stars(u64),
    Difficulty(ManiaDifficultyAttributes),
    Performance(ManiaPerformanceAttributes),
}

impl ManiaAttributeProvider {
    /// The star rating that the result holds, as the bits of a double.
    pub fn attributes(self) -> (stars: u64)
        ensures
            stars == match self {
                ManiaAttributeProvider::Stars(stars) => stars,
                ManiaAttributeProvider::Difficulty(attrs) => attrs.stars,
                ManiaAttributeProvider::Performance(attrs) => attrs.difficulty.stars,
            },
    {
        match self {
            ManiaAttributeProvider::Stars(stars) => stars,
            ManiaAttributeProvider::Difficulty(attrs) => attrs.stars,
            ManiaAttributeProvider::Performance(attrs) => attrs.difficulty.stars,
        }
    }
}

/// Whether a chart has enough objects for a star rating: with fewer than two
/// it is zero.
pub fn is_rated(n_hit_objects: usize) -> (rated: bool)
    ensures
        rated == (n_hit_objects >= 2),
{
    n_hit_objects >= 2
}

/// The attributes of a chart with fewer than two objects: a star rating of
/// `0.0`. A longer chart has none yet.
pub fn unrated(n_hit_objects: usize) -> (attrs: Option<ManiaDifficultyAttributes>)
    ensures
        attrs == if n_hit_objects < 2 {
            Some(ManiaDifficultyAttributes { stars: 0 })
        } else {
            None
        },
{
    if is_rated(n_hit_objects) {
        None
    } else {
        Some(ManiaDifficultyAttributes { stars: 0 })
    }
}

} // verus!
