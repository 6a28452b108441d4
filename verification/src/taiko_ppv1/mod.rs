//! The first revision of the taiko mode.

pub mod difficulty_object;
pub mod strain;

use vstd::prelude::*;

verus! {

/// The result of a difficulty calculation on a taiko chart.
#[derive(Copy, Clone, Debug, PartialEq, Eq, Structural)]
pub struct TaikoDifficultyAttributes {
    /// The final star rating, as the bits of a double.
    pub stars: u64,
    /// The maximum combo.
    pub max_combo: u32,
}

/// The result of a performance calculation on a taiko chart. Every value
/// but the combo is the bits of a double.
#[derive(Copy, Clone, Debug, PartialEq, Eq, Structural)]
pub struct TaikoPerformanceAttributes {
    /// The difficulty attributes that were used for the performance
    /// calculation.
    pub difficulty: TaikoDifficultyAttributes,
    /// The final performance points.
    pub pp: u64,
    /// The accuracy portion of the final pp.
    pub pp_acc: u64,
    /// The strain portion of the final pp.
    pub pp_strain: u64,
}

impl TaikoPerformanceAttributes {
    /// Return the maximum combo of the chart.
    pub fn max_combo(&self) -> (combo: u32)
        ensures
            combo == self.difficulty.max_combo,
    {
        self.difficulty.max_combo
    }
}

/// Whether a chart has enough objects for a star rating: with fewer than two
/// it is zero.
pub fn is_rated(n_hit_objects: usize) -> (rated: bool)
    ensures
        rated == (n_hit_objects >= 2),
{
    n_hit_objects >= 2
}

/// The attributes of a chart with fewer than two objects: a star rating of
/// `0.0` and a combo of zero. A longer chart has none yet.
pub fn unrated(n_hit_objects: usize) -> (attrs: Option<TaikoDifficultyAttributes>)
    ensures
        attrs == if n_hit_objects < 2 {
            Some(TaikoDifficultyAttributes { stars: 0, max_combo: 0 })
        } else {
            None
        },
{
    if is_rated(n_hit_objects) {
        None
    } else {
        Some(TaikoDifficultyAttributes { stars: 0, max_combo: 0 })
    }
}

} // verus!
