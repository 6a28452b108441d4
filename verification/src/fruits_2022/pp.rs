use vstd::prelude::*;

use super::attributes::CatchDifficultyAttributes;
use super::CatchStars;
use crate::util::closest::{lemma_scan_within, range_len, scan, scanned, spec_scan, Closest};
use crate::util::priority::{min_u32, spec_min, spec_sub, sub_or_zero};

verus! {

/// The result counts and the combo of a catch score.
#[derive(Copy, Clone, Debug, PartialEq, Eq, Structural)]
pub struct CatchScoreState {
    /// Maximum combo that the score has had so far.
    pub max_combo: u32,
    /// Amount of current fruits (300s).
    pub fruits: u32,
    /// Amount of current droplets (100s).
    pub droplets: u32,
    /// Amount of current tiny droplets (50s).
    pub tiny_droplets: u32,
    /// Amount of current tiny droplet misses (katus).
    pub tiny_droplet_misses: u32,
    /// Amount of current misses (fruits and droplets).
    pub misses: u32,
}

impl CatchScoreState {
    /// Create a new empty score state.
    pub fn new() -> (state: Self)
        ensures
            state == (Self {
                max_combo: 0,
                fruits: 0,
                droplets: 0,
                tiny_droplets: 0,
                tiny_droplet_misses: 0,
                misses: 0,
            }),
    {
        Self {
            max_combo: 0,
            fruits: 0,
            droplets: 0,
            tiny_droplets: 0,
            tiny_droplet_misses: 0,
            misses: 0,
        }
    }

    /// The number of results that count for the combo.
    pub open spec fn spec_combo_hits(&self) -> int {
        self.fruits + self.droplets + self.misses
    }

    /// The number of results that were caught.
    pub open spec fn spec_caught(&self) -> int {
        self.fruits + self.droplets + self.tiny_droplets
    }

    /// The number of results.
    pub open spec fn spec_total_hits(&self) -> int {
        self.spec_caught() + self.tiny_droplet_misses + self.misses
    }

    /// Return the total amount of hits by adding everything up.
    pub fn total_hits(&self) -> (total: u32)
        requires
            self.spec_total_hits() <= u32::MAX,
        ensures
            total == self.spec_total_hits(),
    {
        self.fruits + self.droplets + self.tiny_droplets + self.tiny_droplet_misses + self.misses
    }

    /// The number of fruits, droplets and misses.
    pub fn combo_hits(&self) -> (hits: u32)
        requires
            self.spec_combo_hits() <= u32::MAX,
        ensures
            hits == self.spec_combo_hits(),
    {
        self.fruits + self.droplets + self.misses
    }

    /// The accuracy of the score as a fraction of two counts: what was
    /// caught, and what there was to catch.
    pub fn accuracy_parts(&self) -> (parts: (u32, u32))
        requires
            self.spec_total_hits() <= u32::MAX,
        ensures
            parts.0 == self.spec_caught(),
            parts.1 == self.spec_total_hits(),
            parts.0 <= parts.1,
    {
        accuracy_parts(
            self.fruits,
            self.droplets,
            self.tiny_droplets,
            self.tiny_droplet_misses,
            self.misses,
        )
    }
}

impl Default for CatchScoreState {
    fn default() -> (state: Self)
        ensures
            state.spec_total_hits() == 0,
            state.max_combo == 0,
    {
        Self::new()
    }
}

/// The accuracy of a catch score as a fraction of two counts: what was
/// caught, and what there was to catch.
pub fn accuracy_parts(
    n_fruits: u32,
    n_droplets: u32,
    n_tiny_droplets: u32,
    n_tiny_droplet_misses: u32,
    misses: u32,
) -> (parts: (u32, u32))
    requires
        n_fruits + n_droplets + n_tiny_droplets + n_tiny_droplet_misses + misses <= u32::MAX,
    ensures
        parts.0 == n_fruits + n_droplets + n_tiny_droplets,
        parts.1 == n_fruits + n_droplets + n_tiny_droplets + n_tiny_droplet_misses + misses,
{
    let numerator = n_fruits + n_droplets + n_tiny_droplets;
    let denominator = numerator + n_tiny_droplet_misses + misses;
    (numerator, denominator)
}

/// A search that is still to be made: the number of tiny droplets that
/// brings the accuracy closest to the wanted one.
#[derive(Copy, Clone, Debug, PartialEq, Eq, Structural)]
pub struct CatchSearch {
    /// The fruits of the chart.
    pub n_fruits: u32,
    /// The droplets of the chart.
    pub n_droplets: u32,
    /// The tiny droplets of the chart.
    pub n_tiny_droplets: u32,
    /// The fruits of the score.
    pub fruits: u32,
    /// The droplets of the score.
    pub droplets: u32,
    /// The misses of the score.
    pub misses: u32,
    /// The combo of the score.
    pub max_combo: u32,
}

/// What the given counts settle of a score's results.
#[derive(Copy, Clone, Debug, PartialEq, Eq, Structural)]
pub enum CatchHitResults {
    /// Every count is settled.
    Settled(CatchScoreState),
    /// All but the tiny droplets and their misses are settled; those depend
    /// on the wanted accuracy.
    Open(CatchSearch),
}

/// The fruits and droplets of a score.
///
/// With both given, what is left of the chart's fruits and droplets goes to
/// the droplets as far as the chart has more of them, and to the fruits
/// otherwise; then each count is cut down to what the other one and the
/// misses leave. With one given, the misses are taken from the other kind
/// first. With none given, the misses are taken from the droplets first.
pub open spec fn spec_fruits_droplets(
    fruits: Option<u32>,
    droplets: Option<u32>,
    n_fruits: int,
    n_droplets: int,
    misses: int,
) -> (int, int) {
    let all = n_fruits + n_droplets;
    match (fruits, droplets) {
        (Some(f), Some(d)) => {
            let n_remaining = spec_sub(all, f + d + misses);
            let new_droplets = spec_min(n_remaining, spec_sub(n_droplets, d as int));
            let d1 = d + new_droplets;
            let f1 = f + n_remaining - new_droplets;
            let f2 = spec_min(f1, spec_sub(all, d1 + misses));
            (f2, spec_min(d1, all - f2 - misses))
        },
        (Some(f), None) => {
            let d = spec_sub(n_droplets, spec_sub(misses, spec_sub(n_fruits, f as int)));
            (all - misses - d, d)
        },
        (None, Some(d)) => {
            let f = spec_sub(n_fruits, spec_sub(misses, spec_sub(n_droplets, d as int)));
            (f, all - misses - f)
        },
        (None, None) => {
            let d = spec_sub(n_droplets, misses);
            (n_fruits - (misses - (n_droplets - d)), d)
        },
    }
}

/// The fruits, droplets and misses of a score are never more than the chart
/// has fruits and droplets, and exactly as many unless both counts are given
/// and too large.
pub proof fn lemma_fruits_droplets(
    fruits: Option<u32>,
    droplets: Option<u32>,
    n_fruits: int,
    n_droplets: int,
    misses: int,
)
    requires
        0 <= n_fruits,
        0 <= n_droplets,
        0 <= misses <= n_fruits + n_droplets,
    ensures
        ({
            let counts = spec_fruits_droplets(fruits, droplets, n_fruits, n_droplets, misses);
            &&& counts.0 >= 0 && counts.1 >= 0
            &&& counts.0 + counts.1 + misses <= n_fruits + n_droplets
            &&& (fruits is None || droplets is None || fruits.unwrap() + droplets.unwrap() + misses
                <= n_fruits + n_droplets) ==> counts.0 + counts.1 + misses == n_fruits
                + n_droplets
        }),
{
}

/// The tiny droplets and their misses where they do not depend on a wanted
/// accuracy.
pub open spec fn spec_tiny_droplets(
    tiny_droplets: Option<u32>,
    tiny_droplet_misses: Option<u32>,
    n_tiny_droplets: int,
) -> (int, int) {
    match (tiny_droplets, tiny_droplet_misses) {
        (Some(t), Some(m)) => (t + spec_sub(n_tiny_droplets, t + m), m as int),
        (Some(t), None) => (spec_min(n_tiny_droplets, t as int), spec_sub(n_tiny_droplets, t as int)),
        (None, Some(m)) => (spec_sub(n_tiny_droplets, m as int), spec_min(n_tiny_droplets, m as int)),
        (None, None) => (n_tiny_droplets, 0),
    }
}

/// Performance calculator on catch charts: the parameters of a score as far
/// as they are known.
#[derive(Clone, Debug, PartialEq, Eq)]
pub struct FruitsPP {
    pub difficulty: CatchStars,
    /// The wanted accuracy between `0.0` and `1.0`, as the bits of a double.
    pub acc: Option<u64>,
    pub combo: Option<u32>,
    pub fruits: Option<u32>,
    pub droplets: Option<u32>,
    pub tiny_droplets: Option<u32>,
    pub tiny_droplet_misses: Option<u32>,
    pub misses: Option<u32>,
}

impl FruitsPP {
    /// The misses of a score: the given ones, but no more than the chart has
    /// fruits and droplets.
    pub open spec fn spec_misses(&self, attrs: &CatchDifficultyAttributes) -> int {
        match self.misses {
            Some(n) => spec_min(n as int, attrs.n_fruits + attrs.n_droplets),
            None => 0,
        }
    }

    /// Whether the tiny droplets depend on the wanted accuracy: an accuracy
    /// is wanted, and either neither count of tiny droplets is given or the
    /// two do not add up to the tiny droplets of the chart.
    pub open spec fn spec_is_open(&self, attrs: &CatchDifficultyAttributes) -> bool {
        &&& self.acc is Some
        &&& match (self.tiny_droplets, self.tiny_droplet_misses) {
            (Some(t), Some(m)) => t + m != attrs.n_tiny_droplets,
            (None, None) => true,
            _ => false,
        }
    }

    /// Whether the counts are small enough to be added up.
    pub open spec fn in_range(&self, attrs: &CatchDifficultyAttributes) -> bool {
        &&& attrs.n_fruits + attrs.n_droplets <= u32::MAX
        &&& self.acc is Some ==> attrs.n_fruits + attrs.n_droplets + attrs.n_tiny_droplets
            <= u32::MAX
        &&& match (self.fruits, self.droplets) {
            (Some(f), Some(d)) => f + d + self.spec_misses(attrs) <= u32::MAX,
            _ => true,
        }
        &&& match (self.tiny_droplets, self.tiny_droplet_misses) {
            (Some(t), Some(m)) => t + m <= u32::MAX,
            _ => true,
        }
    }

    /// What [`FruitsPP::generate_state`] returns.
    pub open spec fn spec_generate_state(&self, attrs: &CatchDifficultyAttributes)
        -> CatchHitResults {
        let misses = self.spec_misses(attrs);
        let max_combo = match self.combo {
            Some(combo) => combo as int,
            None => attrs.n_fruits + attrs.n_droplets - misses,
        };
        let caught = spec_fruits_droplets(
            self.fruits,
            self.droplets,
            attrs.n_fruits as int,
            attrs.n_droplets as int,
            misses,
        );
        if self.spec_is_open(attrs) {
            CatchHitResults::Open(
                CatchSearch {
                    n_fruits: attrs.n_fruits,
                    n_droplets: attrs.n_droplets,
                    n_tiny_droplets: attrs.n_tiny_droplets,
                    fruits: caught.0 as u32,
                    droplets: caught.1 as u32,
                    misses: misses as u32,
                    max_combo: max_combo as u32,
                },
            )
        } else {
            let tiny = if self.acc is Some && self.tiny_droplets is Some
                && self.tiny_droplet_misses is Some {
                (self.tiny_droplets.unwrap() as int, self.tiny_droplet_misses.unwrap() as int)
            } else {
                spec_tiny_droplets(
                    self.tiny_droplets,
                    self.tiny_droplet_misses,
                    attrs.n_tiny_droplets as int,
                )
            };
            CatchHitResults::Settled(
                CatchScoreState {
                    max_combo: max_combo as u32,
                    fruits: caught.0 as u32,
                    droplets: caught.1 as u32,
                    tiny_droplets: tiny.0 as u32,
                    tiny_droplet_misses: tiny.1 as u32,
                    misses: misses as u32,
                },
            )
        }
    }

    /// Create a new performance calculator for catch charts.
    pub fn new() -> (this: Self)
        ensures
            this.difficulty.spec_mods() == 0,
            this.difficulty.spec_passed_objects() is None,
            this.difficulty.spec_clock_rate() is None,
            this.acc is None,
            this.combo is None,
            this.fruits is None,
            this.droplets is None,
            this.tiny_droplets is None,
            this.tiny_droplet_misses is None,
            this.misses is None,
    {
        Self {
            difficulty: CatchStars::new(),
            acc: None,
            combo: None,
            fruits: None,
            droplets: None,
            tiny_droplets: None,
            tiny_droplet_misses: None,
            misses: None,
        }
    }

    /// Specify mods through their bits.
    pub fn mods(self, mods: u32) -> (this: Self)
        ensures
            this.difficulty.spec_mods() == mods,
            this.difficulty.spec_passed_objects() == self.difficulty.spec_passed_objects(),
            this.difficulty.spec_clock_rate() == self.difficulty.spec_clock_rate(),
            this == (Self { difficulty: this.difficulty, ..self }),
    {
        let Self {
            difficulty,
            acc,
            combo,
            fruits,
            droplets,
            tiny_droplets,
            tiny_droplet_misses,
            misses,
        } = self;
        Self {
            difficulty: difficulty.mods(mods),
            acc,
            combo,
            fruits,
            droplets,
            tiny_droplets,
            tiny_droplet_misses,
            misses,
        }
    }

    /// Specify the max combo of the play.
    pub fn combo(self, combo: u32) -> (this: Self)
        ensures
            this == (Self { combo: Some(combo), ..self }),
    {
        Self { combo: Some(combo), ..self }
    }

    /// Specify the amount of fruits of a play i.e. n300.
    pub fn fruits(self, n_fruits: u32) -> (this: Self)
        ensures
            this == (Self { fruits: Some(n_fruits), ..self }),
    {
        Self { fruits: Some(n_fruits), ..self }
    }

    /// Specify the amount of droplets of a play i.e. n100.
    pub fn droplets(self, n_droplets: u32) -> (this: Self)
        ensures
            this == (Self { droplets: Some(n_droplets), ..self }),
    {
        Self { droplets: Some(n_droplets), ..self }
    }

    /// Specify the amount of tiny droplets of a play i.e. n50.
    pub fn tiny_droplets(self, n_tiny_droplets: u32) -> (this: Self)
        ensures
            this == (Self { tiny_droplets: Some(n_tiny_droplets), ..self }),
    {
        Self { tiny_droplets: Some(n_tiny_droplets), ..self }
    }

    /// Specify the amount of tiny droplet misses of a play i.e. `n_katu`.
    pub fn tiny_droplet_misses(self, n_tiny_droplet_misses: u32) -> (this: Self)
        ensures
            this == (Self { tiny_droplet_misses: Some(n_tiny_droplet_misses), ..self }),
    {
        Self { tiny_droplet_misses: Some(n_tiny_droplet_misses), ..self }
    }

    /// Specify the amount of fruit / droplet misses of the play.
    pub fn misses(self, n_misses: u32) -> (this: Self)
        ensures
            this == (Self { misses: Some(n_misses), ..self }),
    {
        Self { misses: Some(n_misses), ..self }
    }

    /// Use the specified settings of the given [`CatchStars`].
    pub fn difficulty(self, difficulty: CatchStars) -> (this: Self)
        ensures
            this == (Self { difficulty, ..self }),
    {
        Self { difficulty, ..self }
    }

    /// Amount of passed objects for partial plays, e.g. a fail.
    pub fn passed_objects(self, passed_objects: u32) -> (this: Self)
        ensures
            this.difficulty.spec_mods() == self.difficulty.spec_mods(),
            this.difficulty.spec_passed_objects() == Some(passed_objects),
            this.difficulty.spec_clock_rate() == self.difficulty.spec_clock_rate(),
            this == (Self { difficulty: this.difficulty, ..self }),
    {
        let Self {
            difficulty,
            acc,
            combo,
            fruits,
            droplets,
            tiny_droplets,
            tiny_droplet_misses,
            misses,
        } = self;
        Self {
            difficulty: difficulty.passed_objects(passed_objects),
            acc,
            combo,
            fruits,
            droplets,
            tiny_droplets,
            tiny_droplet_misses,
            misses,
        }
    }

    /// Provide parameters through a [`CatchScoreState`].
    pub fn state(self, state: CatchScoreState) -> (this: Self)
        ensures
            this == (Self {
                combo: Some(state.max_combo),
                fruits: Some(state.fruits),
                droplets: Some(state.droplets),
                tiny_droplets: Some(state.tiny_droplets),
                tiny_droplet_misses: Some(state.tiny_droplet_misses),
                misses: Some(state.misses),
                ..self
            }),
    {
        Self {
            combo: Some(state.max_combo),
            fruits: Some(state.fruits),
            droplets: Some(state.droplets),
            tiny_droplets: Some(state.tiny_droplets),
            tiny_droplet_misses: Some(state.tiny_droplet_misses),
            misses: Some(state.misses),
            ..self
        }
    }

    /// Specify the accuracy of a play as a share between `0.0` and `1.0`,
    /// given as the bits of a double. This will be used to generate matching
    /// hitresults.
    pub fn accuracy(self, acc: u64) -> (this: Self)
        ensures
            this == (Self { acc: Some(acc), ..self }),
    {
        Self { acc: Some(acc), ..self }
    }

    /// Create the [`CatchScoreState`] that will be used for performance
    /// calculation, as far as the given counts settle it.
    pub fn generate_state(&self, attrs: &CatchDifficultyAttributes) -> (results: CatchHitResults)
        requires
            self.in_range(attrs),
        ensures
            results == self.spec_generate_state(attrs),
    {
        let all = attrs.n_fruits + attrs.n_droplets;
        let misses = match self.misses {
            Some(n) => min_u32(n, all),
            None => 0,
        };

        let max_combo = match self.combo {
            Some(combo) => combo,
            None => attrs.max_combo() - misses,
        };

        let (n_fruits, n_droplets) = match (self.fruits, self.droplets) {
            (Some(n_fruits), Some(n_droplets)) => {
                let mut n_fruits = n_fruits;
                let mut n_droplets = n_droplets;
                let n_remaining = sub_or_zero(all, n_fruits + n_droplets + misses);

                let new_droplets = min_u32(n_remaining, sub_or_zero(attrs.n_droplets, n_droplets));
                n_droplets += new_droplets;
                n_fruits += n_remaining - new_droplets;

                n_fruits = min_u32(n_fruits, sub_or_zero(all, n_droplets + misses));
                n_droplets = min_u32(n_droplets, all - n_fruits - misses);

                (n_fruits, n_droplets)
            },
            (Some(n_fruits), None) => {
                let n_droplets = sub_or_zero(
                    attrs.n_droplets,
                    sub_or_zero(misses, sub_or_zero(attrs.n_fruits, n_fruits)),
                );

                (all - misses - n_droplets, n_droplets)
            },
            (None, Some(n_droplets)) => {
                let n_fruits = sub_or_zero(
                    attrs.n_fruits,
                    sub_or_zero(misses, sub_or_zero(attrs.n_droplets, n_droplets)),
                );

                (n_fruits, all - misses - n_fruits)
            },
            (None, None) => {
                let n_droplets = sub_or_zero(attrs.n_droplets, misses);
                let n_fruits = attrs.n_fruits - (misses - (attrs.n_droplets - n_droplets));

                (n_fruits, n_droplets)
            },
        };

        let search = CatchSearch {
            n_fruits: attrs.n_fruits,
            n_droplets: attrs.n_droplets,
            n_tiny_droplets: attrs.n_tiny_droplets,
            fruits: n_fruits,
            droplets: n_droplets,
            misses,
            max_combo,
        };

        let (tiny_droplets, tiny_droplet_misses) = match (
            self.tiny_droplets,
            self.tiny_droplet_misses,
        ) {
            (Some(n_tiny_droplets), Some(n_tiny_droplet_misses)) => {
                if self.acc.is_some() {
                    if n_tiny_droplets + n_tiny_droplet_misses == attrs.n_tiny_droplets {
                        (n_tiny_droplets, n_tiny_droplet_misses)
                    } else {
                        return CatchHitResults::Open(search);
                    }
                } else {
                    let n_remaining = sub_or_zero(
                        attrs.n_tiny_droplets,
                        n_tiny_droplets + n_tiny_droplet_misses,
                    );

                    (n_tiny_droplets + n_remaining, n_tiny_droplet_misses)
                }
            },
            (Some(n_tiny_droplets), None) => (
                min_u32(attrs.n_tiny_droplets, n_tiny_droplets),
                sub_or_zero(attrs.n_tiny_droplets, n_tiny_droplets),
            ),
            (None, Some(n_tiny_droplet_misses)) => (
                sub_or_zero(attrs.n_tiny_droplets, n_tiny_droplet_misses),
                min_u32(attrs.n_tiny_droplets, n_tiny_droplet_misses),
            ),
            (None, None) => {
                if self.acc.is_some() {
                    return CatchHitResults::Open(search);
                } else {
                    (attrs.n_tiny_droplets, 0)
                }
            },
        };

        CatchHitResults::Settled(
            CatchScoreState {
                max_combo,
                fruits: n_fruits,
                droplets: n_droplets,
                tiny_droplets,
                tiny_droplet_misses,
                misses,
            },
        )
    }
}

impl CatchSearch {
    /// The score that results from the tiny droplets that a search has
    /// found.
    pub fn settle(&self, tiny_droplets: u32, tiny_droplet_misses: u32) -> (state: CatchScoreState)
        ensures
            state == (CatchScoreState {
                max_combo: self.max_combo,
                fruits: self.fruits,
                droplets: self.droplets,
                tiny_droplets,
                tiny_droplet_misses,
                misses: self.misses,
            }),
    {
        CatchScoreState {
            max_combo: self.max_combo,
            fruits: self.fruits,
            droplets: self.droplets,
            tiny_droplets,
            tiny_droplet_misses,
            misses: self.misses,
        }
    }

    /// The tiny droplets that a candidate of the search leaves missed.
    pub fn tiny_droplet_misses_for(&self, tiny_droplets: u32) -> (missed: u32)
        requires
            tiny_droplets <= self.n_tiny_droplets,
        ensures
            missed == self.n_tiny_droplets - tiny_droplets,
    {
        self.n_tiny_droplets - tiny_droplets
    }
}


/// The bits of positive infinity as a double: the distance that a search
/// starts with.
pub const INFINITE_DIST: u64 = 0x7FF0_0000_0000_0000;

impl CatchSearch {
    /// The least and the largest number of tiny droplets that the search
    /// looks at, given the number that the wanted accuracy asks for, rounded
    /// down and rounded up: neither is more than the tiny droplets of the
    /// chart.
    pub open spec fn spec_bounds(&self, raw_floor: u32, raw_ceil: u32) -> (u32, u32) {
        (
            spec_min(self.n_tiny_droplets as int, raw_floor as int) as u32,
            spec_min(self.n_tiny_droplets as int, raw_ceil as int) as u32,
        )
    }

    /// The tiny droplets and their misses that a search ends with, given
    /// what came closest: without a candidate that came closer than
    /// infinity, none of either.
    pub open spec fn spec_found(&self, best: Closest) -> (u32, u32) {
        match best.found {
            Some(tiny_droplets) => (tiny_droplets, (self.n_tiny_droplets - tiny_droplets) as u32),
            None => (0, 0),
        }
    }

    /// Whether `found` is what a search ends with, where `dists` are
    /// distances that `dist` has for the candidates: from the fewest tiny
    /// droplets to the most, each with the misses that it leaves.
    pub open spec fn searched<D: Fn(u32, u32) -> u64>(
        &self,
        raw_floor: u32,
        raw_ceil: u32,
        dist: &D,
        dists: Seq<u64>,
        found: (u32, u32),
    ) -> bool {
        let (lo, hi) = self.spec_bounds(raw_floor, raw_ceil);
        &&& dists.len() == range_len(lo, hi)
        &&& forall|i: int|
            0 <= i < dists.len() ==> call_ensures(
                dist,
                ((lo + i) as u32, (self.n_tiny_droplets - (lo + i)) as u32),
                #[trigger] dists[i],
            )
        &&& found == self.spec_found(
            spec_scan(Closest { dist: INFINITE_DIST, found: None }, lo, dists),
        )
    }

    /// Searches the number of tiny droplets whose accuracy comes closest to
    /// the wanted one. `raw_floor` and `raw_ceil` are the number that the
    /// wanted accuracy asks for, rounded down and rounded up, and `dist` says
    /// for tiny droplets and their misses how far the accuracy of a score
    /// with them is from the wanted one, as the bits of a double.
    ///
    /// The candidates are looked at from the fewest tiny droplets to the
    /// most, and of those that come closest the first one is taken.
    pub fn closest<D: Fn(u32, u32) -> u64>(&self, raw_floor: u32, raw_ceil: u32, dist: &D) -> (found:
        (u32, u32))
        requires
            forall|tiny_droplets: u32, tiny_droplet_misses: u32|
                tiny_droplets + tiny_droplet_misses == self.n_tiny_droplets ==> call_requires(
                    dist,
                    (tiny_droplets, tiny_droplet_misses),
                ),
        ensures
            exists|dists: Seq<u64>| #[trigger]
                self.searched(raw_floor, raw_ceil, dist, dists, found),
            found.0 + found.1 == self.n_tiny_droplets || found == (0u32, 0u32),
    {
        let n_tiny_droplets = self.n_tiny_droplets;
        let lo = min_u32(n_tiny_droplets, raw_floor);
        let hi = min_u32(n_tiny_droplets, raw_ceil);

        let of_candidate = |tiny_droplets: u32| -> (d: u64)
            requires
                tiny_droplets <= n_tiny_droplets,
                call_requires(dist, (tiny_droplets, (n_tiny_droplets - tiny_droplets) as u32)),
            ensures
                call_ensures(dist, (tiny_droplets, (n_tiny_droplets - tiny_droplets) as u32), d),
            {
                let tiny_droplet_misses = n_tiny_droplets - tiny_droplets;
                dist(tiny_droplets, tiny_droplet_misses)
            };

        let start = Closest { dist: INFINITE_DIST, found: None };
        let best = scan(start, lo, hi, &of_candidate);
        proof {
            let dists = choose|dists: Seq<u64>| scanned(start, lo, hi, &of_candidate, dists, best);
            lemma_scan_within(start, lo, dists);
            assert forall|i: int| 0 <= i < dists.len() implies call_ensures(
                dist,
                ((lo + i) as u32, (self.n_tiny_droplets - (lo + i)) as u32),
                #[trigger] dists[i],
            ) by {
                assert(call_ensures(of_candidate, ((lo + i) as u32,), dists[i]));
            }
            assert(self.searched(raw_floor, raw_ceil, dist, dists, self.spec_found(best)));
        }

        match best.found {
            Some(tiny_droplets) => (tiny_droplets, n_tiny_droplets - tiny_droplets),
            None => (0, 0),
        }
    }
}

} // verus!
