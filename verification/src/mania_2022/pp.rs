use vstd::prelude::*;

use super::ManiaStars;
use crate::util::closest::{
    lemma_scan2_within, lemma_scan3_within, range_len, rows_fit, scan, scan2, scan3, scanned,
    scanned2, scanned3, spec_clamp,
    spec_rest, spec_scan, spec_scan2, spec_scan3, Closest, Closest2, Closest3, Plane, Row,
};
use crate::util::priority::{
    given, limit_to, max_u32, min_u32, spec_given, spec_max, spec_min, spec_sub, sub_or_zero,
    HitResultPriority,
};

verus! {

/// The result counts of a mania score.
#[derive(Copy, Clone, Debug, PartialEq, Eq, Structural)]
pub struct ManiaScoreState {
    /// Amount of current 320s.
    pub n320: u32,
    /// Amount of current 300s.
    pub n300: u32,
    /// Amount of current 200s.
    pub n200: u32,
    /// Amount of current 100s.
    pub n100: u32,
    /// Amount of current 50s.
    pub n50: u32,
    /// Amount of current misses.
    pub misses: u32,
}

impl ManiaScoreState {
    /// Create a new empty score state.
    pub fn new() -> (state: Self)
        ensures
            state == (Self { n320: 0, n300: 0, n200: 0, n100: 0, n50: 0, misses: 0 }),
    {
        Self { n320: 0, n300: 0, n200: 0, n100: 0, n50: 0, misses: 0 }
    }

    /// The number of results.
    pub open spec fn spec_total_hits(&self) -> int {
        self.n320 + self.n300 + self.n200 + self.n100 + self.n50 + self.misses
    }

    /// What the results earn towards the accuracy, out of six for each
    /// result.
    pub open spec fn spec_earned(&self) -> int {
        6 * (self.n320 + self.n300) + 4 * self.n200 + 2 * self.n100 + self.n50
    }

    /// What the results earn towards the accuracy that tells 320s from 300s,
    /// out of 32 for each result.
    pub open spec fn spec_custom_earned(&self) -> int {
        self.n320 * 32 + self.n300 * 30 + self.n200 * 20 + self.n100 * 10 + self.n50 * 5
    }

    /// Return the total amount of hits by adding everything up.
    pub fn total_hits(&self) -> (total: u32)
        requires
            self.spec_total_hits() <= u32::MAX,
        ensures
            total == self.spec_total_hits(),
    {
        self.n320 + self.n300 + self.n200 + self.n100 + self.n50 + self.misses
    }

    /// The accuracy of the score as a fraction of two counts.
    pub fn accuracy_parts(&self) -> (parts: (u32, u32))
        requires
            6 * self.spec_total_hits() <= u32::MAX,
        ensures
            parts.0 == self.spec_earned(),
            parts.1 == 6 * self.spec_total_hits(),
            parts.0 <= parts.1,
    {
        let numerator = 6 * (self.n320 + self.n300) + 4 * self.n200 + 2 * self.n100 + self.n50;
        let denominator = 6 * (self.n320 + self.n300 + self.n200 + self.n100 + self.n50
            + self.misses);
        (numerator, denominator)
    }

    /// The accuracy that tells 320s from 300s, as a fraction of two counts
    /// of which the second is 32 for each result.
    pub fn custom_accuracy_parts(&self) -> (parts: (u32, u32))
        requires
            32 * self.spec_total_hits() <= u32::MAX,
        ensures
            parts.0 == self.spec_custom_earned(),
            parts.1 == 32 * self.spec_total_hits(),
            parts.0 <= parts.1,
    {
        let total_hits = self.total_hits();
        let numerator = self.n320 * 32 + self.n300 * 30 + self.n200 * 20 + self.n100 * 10
            + self.n50 * 5;
        let denominator = total_hits * 32;
        (numerator, denominator)
    }
}

impl Default for ManiaScoreState {
    fn default() -> (state: Self)
        ensures
            state.spec_total_hits() == 0,
    {
        Self::new()
    }
}

/// Which of the 200s, 100s and 50s a search has to leave as they are.
#[derive(Copy, Clone, Debug, PartialEq, Eq, Structural)]
pub enum ManiaSearchKind {
    /// 100s and 50s are given; the 200s are searched.
    N200Missing,
    /// 200s and 50s are given; the 100s are searched.
    N100Missing,
    /// 200s and 100s are given; the 50s are searched.
    N50Missing,
    /// The 200s are given; 100s and 50s are searched.
    N200Given,
    /// The 100s are given; 200s and 50s are searched.
    N100Given,
    /// The 50s are given; 200s and 100s are searched.
    N50Given,
    /// 200s, 100s and 50s are searched.
    NoneGiven,
}

/// The five counts of results that are no misses.
#[derive(Copy, Clone, Debug, PartialEq, Eq, Structural)]
pub struct ManiaCounts {
    pub n320: u32,
    pub n300: u32,
    pub n200: u32,
    pub n100: u32,
    pub n50: u32,
}

/// A search that is still to be made: among the ways to split the
/// results that are no misses into the sum of 320s and 300s and the counts
/// that are not given, the one whose accuracy comes closest to the wanted one.
#[derive(Copy, Clone, Debug, PartialEq, Eq, Structural)]
pub struct ManiaSearch {
    pub kind: ManiaSearchKind,
    /// The number of results of the score.
    pub n_objects: u32,
    /// The number of results that are no misses.
    pub n_remaining: u32,
    /// Whether the 320s are given.
    pub n320_given: bool,
    /// Whether the 300s are given.
    pub n300_given: bool,
    /// The given counts, and nothing where none is given.
    pub counts: ManiaCounts,
    /// The number of misses.
    pub misses: u32,
    /// The sum of 320s and 300s to start from: the results that no given
    /// count and no miss accounts for.
    pub n3x0: u32,
    pub priority: HitResultPriority,
}

/// What the given counts settle of a score's results.
#[derive(Copy, Clone, Debug, PartialEq, Eq, Structural)]
pub enum ManiaHitResults {
    /// Every count is settled.
    Settled(ManiaScoreState),
    /// The misses are settled; other counts depend on the wanted accuracy.
    Open(ManiaSearch),
}

/// Performance calculator on mania charts: the parameters of a score as far
/// as they are known.
#[derive(Clone, Debug, PartialEq, Eq)]
pub struct ManiaPP {
    pub difficulty: ManiaStars,
    pub n320: Option<u32>,
    pub n300: Option<u32>,
    pub n200: Option<u32>,
    pub n100: Option<u32>,
    pub n50: Option<u32>,
    pub misses: Option<u32>,
    /// The wanted accuracy between `0.0` and `1.0`, as the bits of a double.
    pub acc: Option<u64>,
    pub hitresult_priority: HitResultPriority,
}

/// One for a count that is not given, nothing for one that is.
pub open spec fn spec_one_if_missing(count: Option<u32>) -> int {
    if count is None {
        1
    } else {
        0
    }
}

impl ManiaPP {
    /// The number of results of a score: one for each object that the play
    /// got to.
    pub open spec fn spec_n_objects(&self, n_objects: u32) -> int {
        spec_min(self.difficulty.spec_get_passed_objects() as int, n_objects as int)
    }

    /// Whether the counts are small enough to be added up, and to be weighed
    /// where an accuracy is wanted.
    pub open spec fn in_range(&self, n_objects: u32) -> bool {
        &&& 5 * self.spec_n_objects(n_objects) <= u32::MAX
        &&& self.acc is Some ==> 6 * self.spec_n_objects(n_objects) <= u32::MAX
    }

    /// How many of the five counts are not given.
    pub open spec fn spec_missing(&self) -> int {
        spec_one_if_missing(self.n320) + spec_one_if_missing(self.n300) + spec_one_if_missing(
            self.n200,
        ) + spec_one_if_missing(self.n100) + spec_one_if_missing(self.n50)
    }

    /// Whether the counts depend on the wanted accuracy: an accuracy is
    /// wanted, two or more counts are missing, and one of them is that of the
    /// 200s, 100s or 50s.
    pub open spec fn spec_is_open(&self) -> bool {
        &&& self.acc is Some
        &&& self.spec_missing() >= 2
        &&& (self.n200 is None || self.n100 is None || self.n50 is None)
    }

    /// The given counts, each held to what the misses leave, and nothing
    /// where none is given.
    pub open spec fn spec_given_counts(&self, n_remaining: int) -> ManiaCounts {
        ManiaCounts {
            n320: spec_given(self.n320, n_remaining) as u32,
            n300: spec_given(self.n300, n_remaining) as u32,
            n200: spec_given(self.n200, n_remaining) as u32,
            n100: spec_given(self.n100, n_remaining) as u32,
            n50: spec_given(self.n50, n_remaining) as u32,
        }
    }

    /// The counts of a score that do not depend on a wanted accuracy.
    ///
    /// Results that no given count and no miss accounts for go to the first
    /// count that was not given, in the order of the priority, and to the
    /// priority's first count if all were given.
    pub open spec fn spec_settled(&self, total: int, misses: int) -> ManiaCounts {
        let c = self.spec_given_counts(total - misses);
        let remaining = spec_sub(total, c.n320 + c.n300 + c.n200 + c.n100 + c.n50 + misses) as u32;
        match self.hitresult_priority {
            HitResultPriority::BestCase => if self.n320 is None {
                ManiaCounts { n320: remaining, ..c }
            } else if self.n300 is None {
                ManiaCounts { n300: remaining, ..c }
            } else if self.n200 is None {
                ManiaCounts { n200: remaining, ..c }
            } else if self.n100 is None {
                ManiaCounts { n100: remaining, ..c }
            } else if self.n50 is None {
                ManiaCounts { n50: remaining, ..c }
            } else {
                ManiaCounts { n320: (c.n320 + remaining) as u32, ..c }
            },
            HitResultPriority::WorstCase => if self.n50 is None {
                ManiaCounts { n50: remaining, ..c }
            } else if self.n100 is None {
                ManiaCounts { n100: remaining, ..c }
            } else if self.n200 is None {
                ManiaCounts { n200: remaining, ..c }
            } else if self.n300 is None {
                ManiaCounts { n300: remaining, ..c }
            } else if self.n320 is None {
                ManiaCounts { n320: remaining, ..c }
            } else {
                ManiaCounts { n50: (c.n50 + remaining) as u32, ..c }
            },
        }
    }

    /// Which counts a search has to leave as they are.
    pub open spec fn spec_kind(&self) -> ManiaSearchKind {
        if self.n200 is None && self.n100 is Some && self.n50 is Some {
            ManiaSearchKind::N200Missing
        } else if self.n200 is Some && self.n100 is None && self.n50 is Some {
            ManiaSearchKind::N100Missing
        } else if self.n200 is Some && self.n100 is Some && self.n50 is None {
            ManiaSearchKind::N50Missing
        } else if self.n200 is Some && self.n100 is None && self.n50 is None {
            ManiaSearchKind::N200Given
        } else if self.n200 is None && self.n100 is Some && self.n50 is None {
            ManiaSearchKind::N100Given
        } else if self.n200 is None && self.n100 is None && self.n50 is Some {
            ManiaSearchKind::N50Given
        } else {
            ManiaSearchKind::NoneGiven
        }
    }

    /// What [`ManiaPP::generate_state`] returns.
    pub open spec fn spec_generate_state(&self, n_objects: u32) -> ManiaHitResults {
        let total = self.spec_n_objects(n_objects);
        let misses = spec_given(self.misses, total);
        if self.spec_is_open() {
            let c = self.spec_given_counts(total - misses);
            ManiaHitResults::Open(
                ManiaSearch {
                    kind: self.spec_kind(),
                    n_objects: total as u32,
                    n_remaining: (total - misses) as u32,
                    n320_given: self.n320 is Some,
                    n300_given: self.n300 is Some,
                    counts: c,
                    misses: misses as u32,
                    n3x0: spec_sub(total, c.n320 + c.n300 + c.n200 + c.n100 + c.n50 + misses) as u32,
                    priority: self.hitresult_priority,
                },
            )
        } else {
            let c = self.spec_settled(total, misses);
            ManiaHitResults::Settled(
                ManiaScoreState {
                    n320: c.n320,
                    n300: c.n300,
                    n200: c.n200,
                    n100: c.n100,
                    n50: c.n50,
                    misses: misses as u32,
                },
            )
        }
    }

    /// Create a new performance calculator for mania charts.
    pub fn new() -> (this: Self)
        ensures
            this.difficulty.spec_mods() == 0,
            this.difficulty.spec_passed_objects() is None,
            this.difficulty.spec_clock_rate() is None,
            this.n320 is None,
            this.n300 is None,
            this.n200 is None,
            this.n100 is None,
            this.n50 is None,
            this.misses is None,
            this.acc is None,
            this.hitresult_priority == HitResultPriority::BestCase,
    {
        Self {
            difficulty: ManiaStars::new(),
            n320: None,
            n300: None,
            n200: None,
            n100: None,
            n50: None,
            misses: None,
            acc: None,
            hitresult_priority: HitResultPriority::BestCase,
        }
    }

    /// Specify mods through their bits.
    pub fn mods(self, mods: u32) -> (this: Self)
        ensures
            this.difficulty.spec_mods() == mods,
            this.difficulty.spec_passed_objects() == self.difficulty.spec_passed_objects(),
            this.difficulty.spec_clock_rate() == self.difficulty.spec_clock_rate(),
            this == (Self { difficulty: this.difficulty, ..self }),
    {
        let Self { difficulty, n320, n300, n200, n100, n50, misses, acc, hitresult_priority } =
            self;
        Self {
            difficulty: difficulty.mods(mods),
            n320,
            n300,
            n200,
            n100,
            n50,
            misses,
            acc,
            hitresult_priority,
        }
    }

    /// Use the specified settings of the given [`ManiaStars`].
    pub fn difficulty(self, difficulty: ManiaStars) -> (this: Self)
        ensures
            this == (Self { difficulty, ..self }),
    {
        Self { difficulty, ..self }
    }

    /// Amount of passed objects for partial plays, e.g. a fail.
    pub fn passed_objects(self, passed_objects: u32) -> (this: Self)
        ensures
            this.difficulty.spec_mods() == self.difficulty.spec_mods(),
            this.difficulty.spec_passed_objects() == Some(passed_objects),
            this.difficulty.spec_clock_rate() == self.difficulty.spec_clock_rate(),
            this == (Self { difficulty: this.difficulty, ..self }),
    {
        let Self { difficulty, n320, n300, n200, n100, n50, misses, acc, hitresult_priority } =
            self;
        Self {
            difficulty: difficulty.passed_objects(passed_objects),
            n320,
            n300,
            n200,
            n100,
            n50,
            misses,
            acc,
            hitresult_priority,
        }
    }

    /// Specify the accuracy of a play as a share between `0.0` and `1.0`,
    /// given as the bits of a double. This will be used to generate matching
    /// hitresults.
    pub fn accuracy(self, acc: u64) -> (this: Self)
        ensures
            this == (Self { acc: Some(acc), ..self }),
    {
        Self { acc: Some(acc), ..self }
    }

    /// Specify how hitresults should be generated.
    ///
    /// Defauls to [`HitResultPriority::BestCase`].
    pub fn hitresult_priority(self, priority: HitResultPriority) -> (this: Self)
        ensures
            this == (Self { hitresult_priority: priority, ..self }),
    {
        Self { hitresult_priority: priority, ..self }
    }

    /// Specify the amount of 320s of a play.
    pub fn n320(self, n320: u32) -> (this: Self)
        ensures
            this == (Self { n320: Some(n320), ..self }),
    {
        Self { n320: Some(n320), ..self }
    }

    /// Specify the amount of 300s of a play.
    pub fn n300(self, n300: u32) -> (this: Self)
        ensures
            this == (Self { n300: Some(n300), ..self }),
    {
        Self { n300: Some(n300), ..self }
    }

    /// Specify the amount of 200s of a play.
    pub fn n200(self, n200: u32) -> (this: Self)
        ensures
            this == (Self { n200: Some(n200), ..self }),
    {
        Self { n200: Some(n200), ..self }
    }

    /// Specify the amount of 100s of a play.
    pub fn n100(self, n100: u32) -> (this: Self)
        ensures
            this == (Self { n100: Some(n100), ..self }),
    {
        Self { n100: Some(n100), ..self }
    }

    /// Specify the amount of 50s of a play.
    pub fn n50(self, n50: u32) -> (this: Self)
        ensures
            this == (Self { n50: Some(n50), ..self }),
    {
        Self { n50: Some(n50), ..self }
    }

    /// Specify the amount of misses of a play.
    pub fn misses(self, n_misses: u32) -> (this: Self)
        ensures
            this == (Self { misses: Some(n_misses), ..self }),
    {
        Self { misses: Some(n_misses), ..self }
    }

    /// Provide parameters through a [`ManiaScoreState`].
    pub fn state(self, state: ManiaScoreState) -> (this: Self)
        ensures
            this == (Self {
                n320: Some(state.n320),
                n300: Some(state.n300),
                n200: Some(state.n200),
                n100: Some(state.n100),
                n50: Some(state.n50),
                misses: Some(state.misses),
                ..self
            }),
    {
        Self {
            n320: Some(state.n320),
            n300: Some(state.n300),
            n200: Some(state.n200),
            n100: Some(state.n100),
            n50: Some(state.n50),
            misses: Some(state.misses),
            ..self
        }
    }

    /// Create the [`ManiaScoreState`] that will be used for performance
    /// calculation, as far as the given counts settle it. `n_objects` is the
    /// number of objects of the chart.
    pub fn generate_state(&self, n_objects: u32) -> (results: ManiaHitResults)
        requires
            self.in_range(n_objects),
        ensures
            results == self.spec_generate_state(n_objects),
            results matches ManiaHitResults::Open(search) ==> search.wf(),
    {
        let n_objects = limit_to(self.difficulty.get_passed_objects(), n_objects);
        let priority = self.hitresult_priority;

        let misses = given(self.misses, n_objects);
        let n_remaining = n_objects - misses;

        let mut n320 = given(self.n320, n_remaining);
        let mut n300 = given(self.n300, n_remaining);
        let mut n200 = given(self.n200, n_remaining);
        let mut n100 = given(self.n100, n_remaining);
        let mut n50 = given(self.n50, n_remaining);

        let remaining = sub_or_zero(n_objects, n320 + n300 + n200 + n100 + n50 + misses);

        let has320 = self.n320.is_some();
        let has300 = self.n300.is_some();
        let has200 = self.n200.is_some();
        let has100 = self.n100.is_some();
        let has50 = self.n50.is_some();

        if self.acc.is_some() {
            let kind = match (has320 && has300, has200, has100, has50) {
                // All, or all but one of the 200s, 100s and 50s given
                (_, true, true, true) => None,
                (true, false, true, true) => None,
                (true, true, false, true) => None,
                (true, true, true, false) => None,
                (false, false, true, true) => Some(ManiaSearchKind::N200Missing),
                (false, true, false, true) => Some(ManiaSearchKind::N100Missing),
                (false, true, true, false) => Some(ManiaSearchKind::N50Missing),
                (_, true, false, false) => Some(ManiaSearchKind::N200Given),
                (_, false, true, false) => Some(ManiaSearchKind::N100Given),
                (_, false, false, true) => Some(ManiaSearchKind::N50Given),
                (_, false, false, false) => Some(ManiaSearchKind::NoneGiven),
            };
            if let Some(kind) = kind {
                return ManiaHitResults::Open(
                    ManiaSearch {
                        kind,
                        n_objects,
                        n_remaining,
                        n320_given: has320,
                        n300_given: has300,
                        counts: ManiaCounts { n320, n300, n200, n100, n50 },
                        misses,
                        n3x0: remaining,
                        priority,
                    },
                );
            }
        }
        match priority {
            HitResultPriority::BestCase => {
                if !has320 {
                    n320 = remaining;
                } else if !has300 {
                    n300 = remaining;
                } else if !has200 {
                    n200 = remaining;
                } else if !has100 {
                    n100 = remaining;
                } else if !has50 {
                    n50 = remaining;
                } else {
                    n320 += remaining;
                }
            },
            HitResultPriority::WorstCase => {
                if !has50 {
                    n50 = remaining;
                } else if !has100 {
                    n100 = remaining;
                } else if !has200 {
                    n200 = remaining;
                } else if !has300 {
                    n300 = remaining;
                } else if !has320 {
                    n320 = remaining;
                } else {
                    n50 += remaining;
                }
            },
        }

        ManiaHitResults::Settled(ManiaScoreState { n320, n300, n200, n100, n50, misses })
    }
}

impl ManiaSearch {
    /// The least and the largest sum of 320s and 300s that a search looks at,
    /// from the two that the wanted accuracy alone asks for: with both counts
    /// given their sum, held to the results that are no misses, and with one
    /// given no less than that one.
    pub open spec fn spec_n3x0_bounds(&self, min_n3x0: u32, max_n3x0: u32) -> (int, int) {
        if self.n320_given && self.n300_given {
            let both = spec_min(self.n_remaining as int, self.counts.n320 + self.counts.n300);
            (both, both)
        } else if self.n320_given {
            (
                spec_max(min_n3x0 as int, self.counts.n320 as int),
                spec_max(max_n3x0 as int, self.counts.n320 as int),
            )
        } else if self.n300_given {
            (
                spec_max(min_n3x0 as int, self.counts.n300 as int),
                spec_max(max_n3x0 as int, self.counts.n300 as int),
            )
        } else {
            (min_n3x0 as int, max_n3x0 as int)
        }
    }

    /// The least and the largest sum of 320s and 300s that a search looks
    /// at.
    pub fn n3x0_bounds(&self, min_n3x0: u32, max_n3x0: u32) -> (bounds: (u32, u32))
        requires
            self.counts.n320 + self.counts.n300 <= u32::MAX,
        ensures
            bounds.0 == self.spec_n3x0_bounds(min_n3x0, max_n3x0).0,
            bounds.1 == self.spec_n3x0_bounds(min_n3x0, max_n3x0).1,
            min_n3x0 <= max_n3x0 ==> bounds.0 <= bounds.1,
    {
        let n320 = self.counts.n320;
        let n300 = self.counts.n300;
        match (self.n320_given, self.n300_given) {
            (true, true) => (
                min_u32(self.n_remaining, n320 + n300),
                min_u32(self.n_remaining, n320 + n300),
            ),
            (true, false) => (max_u32(min_n3x0, n320), max_u32(max_n3x0, n320)),
            (false, true) => (max_u32(min_n3x0, n300), max_u32(max_n3x0, n300)),
            (false, false) => (min_n3x0, max_n3x0),
        }
    }

    /// Whether the counts that a search has found can be taken over: they
    /// add up, and the sum of 320s and 300s is no less than the one of them
    /// that is given alone.
    pub open spec fn can_settle(&self, n3x0: u32, n200: u32, n100: u32, n50: u32) -> bool {
        &&& n3x0 + n200 + n100 + n50 <= u32::MAX
        &&& self.n320_given && !self.n300_given ==> n3x0 >= self.counts.n320
        &&& self.n300_given && !self.n320_given ==> n3x0 >= self.counts.n300
        &&& self.n320_given && self.n300_given ==> self.counts.n320 + self.counts.n300 + n200
            + n100 + n50 <= u32::MAX
    }

    /// How the sum of 320s and 300s is split: with both given as they are,
    /// with one given the rest goes to the other, and with none given all
    /// goes to the count that the priority prefers.
    pub open spec fn spec_split(&self, n3x0: u32) -> (int, int) {
        if self.n320_given && self.n300_given {
            (self.counts.n320 as int, self.counts.n300 as int)
        } else if self.n320_given {
            (self.counts.n320 as int, n3x0 - self.counts.n320)
        } else if self.n300_given {
            (n3x0 - self.counts.n300, self.counts.n300 as int)
        } else {
            match self.priority {
                HitResultPriority::BestCase => (n3x0 as int, self.counts.n300 as int),
                HitResultPriority::WorstCase => (self.counts.n320 as int, n3x0 as int),
            }
        }
    }

    /// Whether 200s are traded for 320s and 100s at the end: only where the
    /// 200s and the 100s were searched, the 320s are not given and the best
    /// case is wanted.
    pub open spec fn spec_trades(&self) -> bool {
        &&& self.kind == ManiaSearchKind::N50Given || self.kind == ManiaSearchKind::NoneGiven
        &&& !self.n320_given
        &&& self.priority == HitResultPriority::BestCase
    }

    /// The score that results from the counts that a search has found.
    pub open spec fn spec_settle(&self, n3x0: u32, n200: u32, n100: u32, n50: u32)
        -> ManiaScoreState {
        let split = self.spec_split(n3x0);
        let n = if self.spec_trades() {
            n200 as int / 2
        } else {
            0
        };
        ManiaScoreState {
            n320: (split.0 + n) as u32,
            n300: split.1 as u32,
            n200: (n200 - 2 * n) as u32,
            n100: (n100 + n) as u32,
            n50,
            misses: self.misses,
        }
    }

    /// Takes over the counts that a search has found and hands out the score
    /// that results. Trading two 200s for a 320 and a 100 keeps the number of
    /// results and what they earn towards the accuracy.
    pub fn settle(&self, n3x0: u32, n200: u32, n100: u32, n50: u32) -> (state: ManiaScoreState)
        requires
            self.can_settle(n3x0, n200, n100, n50),
        ensures
            state == self.spec_settle(n3x0, n200, n100, n50),
            state.n320 + state.n300 == self.spec_split(n3x0).0 + self.spec_split(n3x0).1 + (
            n200 - state.n200) / 2,
            state.n200 + state.n100 + state.n50 + (n200 - state.n200) / 2 == n200 + n100 + n50,
            state.spec_earned() == 6 * (self.spec_split(n3x0).0 + self.spec_split(n3x0).1) + 4
                * n200 + 2 * n100 + n50,
    {
        let mut n320 = self.counts.n320;
        let mut n300 = self.counts.n300;
        let mut n200 = n200;
        let mut n100 = n100;

        match (self.n320_given, self.n300_given) {
            (false, false) => match self.priority {
                HitResultPriority::BestCase => n320 = n3x0,
                HitResultPriority::WorstCase => n300 = n3x0,
            },
            (true, false) => n300 = n3x0 - n320,
            (false, true) => n320 = n3x0 - n300,
            _ => {},
        }

        let trades = match self.kind {
            ManiaSearchKind::N50Given | ManiaSearchKind::NoneGiven => !self.n320_given,
            _ => false,
        };
        if trades {
            if let HitResultPriority::BestCase = self.priority {
                // Distribute n200 onto n320 and n100
                let n = n200 / 2;
                n320 += n;
                n200 -= 2 * n;
                n100 += n;
            }
        }

        ManiaScoreState { n320, n300, n200, n100, n50, misses: self.misses }
    }
}

/// A settled score accounts for every object that the play got to, and for
/// no more unless the given counts alone are too many.
pub proof fn lemma_settled_accounts_for_all(pp: ManiaPP, total: int, misses: int)
    requires
        0 <= misses <= total,
        5 * total <= u32::MAX,
    ensures
        ({
            let given = pp.spec_given_counts(total - misses);
            let counts = pp.spec_settled(total, misses);
            let sum = counts.n320 + counts.n300 + counts.n200 + counts.n100 + counts.n50;
            &&& sum + misses >= total
            &&& given.n320 + given.n300 + given.n200 + given.n100 + given.n50 <= total - misses
                ==> sum + misses == total
        }),
{
}


/// The bits of positive infinity as a double: the distance that a search
/// starts with.
pub const INFINITE_DIST: u64 = 0x7FF0_0000_0000_0000;

impl ManiaSearch {
    /// Misses and the other results make up the results of the score, no
    /// given count is more than the results that are no misses, only given
    /// counts are set, and the results are few enough to be weighed.
    pub open spec fn wf(&self) -> bool {
        &&& self.n_remaining + self.misses == self.n_objects
        &&& 6 * self.n_objects <= u32::MAX
        &&& self.counts.n320 <= self.n_remaining
        &&& self.counts.n300 <= self.n_remaining
        &&& self.counts.n200 <= self.n_remaining
        &&& self.counts.n100 <= self.n_remaining
        &&& self.counts.n50 <= self.n_remaining
        &&& !self.n320_given ==> self.counts.n320 == 0
        &&& !self.n300_given ==> self.counts.n300 == 0
        &&& match self.kind {
            ManiaSearchKind::N200Missing => self.counts.n200 == 0,
            ManiaSearchKind::N100Missing => self.counts.n100 == 0,
            ManiaSearchKind::N50Missing => self.counts.n50 == 0,
            ManiaSearchKind::N200Given => self.counts.n100 == 0 && self.counts.n50 == 0,
            ManiaSearchKind::N100Given => self.counts.n200 == 0 && self.counts.n50 == 0,
            ManiaSearchKind::N50Given => self.counts.n200 == 0 && self.counts.n100 == 0,
            ManiaSearchKind::NoneGiven => self.counts.n200 == 0 && self.counts.n100 == 0
                && self.counts.n50 == 0,
        }
    }

    /// The results that the given 200s, 100s and 50s leave of those that are
    /// no misses.
    pub open spec fn spec_limit(&self) -> u32 {
        spec_sub(
            self.n_remaining as int,
            self.counts.n200 + self.counts.n100 + self.counts.n50,
        ) as u32
    }

    /// The least and the largest sum of 320s and 300s that a search looks
    /// at, from the two that the wanted accuracy alone asks for: neither is
    /// more than the given 200s, 100s and 50s leave, unless given 320s or
    /// 300s ask for more.
    pub open spec fn spec_outer(&self, raw_min: u32, raw_max: u32) -> (u32, u32) {
        let limit = self.spec_limit();
        let bounds = self.spec_n3x0_bounds(
            spec_min(raw_min as int, limit as int) as u32,
            spec_min(raw_max as int, limit as int) as u32,
        );
        (bounds.0 as u32, bounds.1 as u32)
    }

    /// The counts that a sum of 320s and 300s stands for where one count of
    /// 200s, 100s and 50s is searched: that count takes the rest.
    pub open spec fn spec_counts_one(&self, n3x0: u32) -> (u32, u32, u32, u32) {
        let rest = spec_rest(self.spec_limit(), n3x0);
        match self.kind {
            ManiaSearchKind::N200Missing => (n3x0, rest, self.counts.n100, self.counts.n50),
            ManiaSearchKind::N100Missing => (n3x0, self.counts.n200, rest, self.counts.n50),
            _ => (n3x0, self.counts.n200, self.counts.n100, rest),
        }
    }

    /// The counts that a sum of 320s and 300s and a second candidate stand
    /// for where two counts of 200s, 100s and 50s are searched: the second
    /// candidate is the better one of the two, and the other one takes the
    /// rest.
    pub open spec fn spec_counts_two(&self, n3x0: u32, second: u32) -> (u32, u32, u32, u32) {
        let rest = (spec_rest(self.spec_limit(), n3x0) - second) as u32;
        match self.kind {
            ManiaSearchKind::N200Given => (n3x0, self.counts.n200, second, rest),
            ManiaSearchKind::N100Given => (n3x0, second, self.counts.n100, rest),
            _ => (n3x0, second, rest, self.counts.n50),
        }
    }

    /// The counts that a sum of 320s and 300s, a number of 200s and a number
    /// of 100s stand for: the 50s take the rest.
    pub open spec fn spec_counts_all(&self, n3x0: u32, n200: u32, n100: u32) -> (
        u32,
        u32,
        u32,
        u32,
    ) {
        (n3x0, n200, n100, (spec_rest(spec_rest(self.spec_limit(), n3x0), n200) - n100) as u32)
    }

    /// The counts that a search starts from: the results that no given count
    /// and no miss accounts for as the sum of 320s and 300s, and the given
    /// 200s, 100s and 50s.
    pub open spec fn spec_initial(&self) -> (u32, u32, u32, u32) {
        (self.n3x0, self.counts.n200, self.counts.n100, self.counts.n50)
    }

    /// Whether `found` is what a search for one count ends with, where
    /// `dists` are distances that `dist` has for the candidates in rising
    /// order.
    pub open spec fn searched_one<D: Fn(u32, u32, u32, u32) -> u64>(
        &self,
        raw_min: u32,
        raw_max: u32,
        dist: &D,
        dists: Seq<u64>,
        found: (u32, u32, u32, u32),
    ) -> bool {
        let (lo, hi) = self.spec_outer(raw_min, raw_max);
        &&& dists.len() == range_len(lo, hi)
        &&& forall|i: int|
            0 <= i < dists.len() ==> call_ensures(
                dist,
                self.spec_counts_one((lo + i) as u32),
                #[trigger] dists[i],
            )
        &&& found == match spec_scan(
            Closest { dist: INFINITE_DIST, found: None },
            lo,
            dists,
        ).found {
            Some(n3x0) => self.spec_counts_one(n3x0),
            None => self.spec_initial(),
        }
    }

    /// Whether `row` holds what `bounds` and `dist` have for a sum of 320s
    /// and 300s: bounds for the second candidates, and a distance for each
    /// second candidate between them.
    pub open spec fn row_of<B: Fn(u32) -> (u32, u32), D: Fn(u32, u32, u32, u32) -> u64>(
        &self,
        n3x0: u32,
        bounds: &B,
        dist: &D,
        row: Row,
    ) -> bool {
        let (lo, hi) = spec_clamp(row.0, self.spec_limit(), n3x0);
        &&& call_ensures(bounds, (n3x0,), row.0)
        &&& row.1.len() == range_len(lo, hi)
        &&& forall|j: int|
            0 <= j < row.1.len() ==> call_ensures(
                dist,
                self.spec_counts_two(n3x0, (lo + j) as u32),
                #[trigger] row.1[j],
            )
    }

    /// Whether `found` is what a search for two counts ends with, where
    /// `rows` hold what `bounds` and `dist` have for the sums of 320s and
    /// 300s in rising order.
    pub open spec fn searched_two<B: Fn(u32) -> (u32, u32), D: Fn(u32, u32, u32, u32) -> u64>(
        &self,
        raw_min: u32,
        raw_max: u32,
        bounds: &B,
        dist: &D,
        rows: Seq<Row>,
        found: (u32, u32, u32, u32),
    ) -> bool {
        let (lo, hi) = self.spec_outer(raw_min, raw_max);
        &&& rows.len() == range_len(lo, hi)
        &&& forall|i: int|
            0 <= i < rows.len() ==> self.row_of((lo + i) as u32, bounds, dist, #[trigger] rows[i])
        &&& found == match spec_scan2(
            Closest2 { dist: INFINITE_DIST, found: None },
            lo,
            self.spec_limit(),
            rows,
        ).found {
            Some(pair) => self.spec_counts_two(pair.0, pair.1),
            None => self.spec_initial(),
        }
    }

    /// Whether `row` holds what `bounds` and `dist` have for a sum of 320s
    /// and 300s and a number of 200s: bounds for the 100s, and a distance
    /// for each number of 100s between them.
    pub open spec fn row_of_pair<B: Fn(u32, u32) -> (u32, u32), D: Fn(u32, u32, u32, u32) -> u64>(
        &self,
        n3x0: u32,
        n200: u32,
        bounds: &B,
        dist: &D,
        row: Row,
    ) -> bool {
        let (lo, hi) = spec_clamp(row.0, spec_rest(self.spec_limit(), n3x0), n200);
        &&& call_ensures(bounds, (n3x0, n200), row.0)
        &&& row.1.len() == range_len(lo, hi)
        &&& forall|j: int|
            0 <= j < row.1.len() ==> call_ensures(
                dist,
                self.spec_counts_all(n3x0, n200, (lo + j) as u32),
                #[trigger] row.1[j],
            )
    }

    /// Whether `plane` holds what the bounds and `dist` have for a sum of
    /// 320s and 300s.
    pub open spec fn plane_of<
        B: Fn(u32) -> (u32, u32),
        C: Fn(u32, u32) -> (u32, u32),
        D: Fn(u32, u32, u32, u32) -> u64,
    >(&self, n3x0: u32, bounds_200: &B, bounds_100: &C, dist: &D, plane: Plane) -> bool {
        let (lo, hi) = spec_clamp(plane.0, self.spec_limit(), n3x0);
        &&& call_ensures(bounds_200, (n3x0,), plane.0)
        &&& plane.1.len() == range_len(lo, hi)
        &&& forall|j: int|
            0 <= j < plane.1.len() ==> self.row_of_pair(
                n3x0,
                (lo + j) as u32,
                bounds_100,
                dist,
                #[trigger] plane.1[j],
            )
    }

    /// Whether `found` is what a search for all three counts ends with,
    /// where `planes` hold what the bounds and `dist` have for the sums of
    /// 320s and 300s in rising order.
    pub open spec fn searched_all<
        B: Fn(u32) -> (u32, u32),
        C: Fn(u32, u32) -> (u32, u32),
        D: Fn(u32, u32, u32, u32) -> u64,
    >(
        &self,
        raw_min: u32,
        raw_max: u32,
        bounds_200: &B,
        bounds_100: &C,
        dist: &D,
        planes: Seq<Plane>,
        found: (u32, u32, u32, u32),
    ) -> bool {
        let (lo, hi) = self.spec_outer(raw_min, raw_max);
        &&& planes.len() == range_len(lo, hi)
        &&& forall|i: int|
            0 <= i < planes.len() ==> self.plane_of(
                (lo + i) as u32,
                bounds_200,
                bounds_100,
                dist,
                #[trigger] planes[i],
            )
        &&& found == match spec_scan3(
            Closest3 { dist: INFINITE_DIST, found: None },
            lo,
            self.spec_limit(),
            planes,
        ).found {
            Some(triple) => self.spec_counts_all(triple.0, triple.1, triple.2),
            None => self.spec_initial(),
        }
    }

    /// The results that the given 200s, 100s and 50s leave of those that are
    /// no misses.
    pub fn limit(&self) -> (limit: u32)
        requires
            self.wf(),
        ensures
            limit == self.spec_limit(),
            limit <= self.n_remaining,
    {
        sub_or_zero(self.n_remaining, self.counts.n200 + self.counts.n100 + self.counts.n50)
    }

    /// The least and the largest sum of 320s and 300s that a search looks
    /// at.
    pub fn outer(&self, raw_min: u32, raw_max: u32) -> (bounds: (u32, u32))
        requires
            self.wf(),
        ensures
            bounds == self.spec_outer(raw_min, raw_max),
            bounds.1 <= self.n_remaining,
    {
        let limit = self.limit();
        self.n3x0_bounds(min_u32(raw_min, limit), min_u32(raw_max, limit))
    }

    /// Searches, where one count of 200s, 100s and 50s is missing, the sum
    /// of 320s and 300s whose accuracy comes closest to the wanted one; the
    /// missing count takes the rest. `raw_min` and `raw_max` are the least
    /// and the largest sum that the wanted accuracy asks for, and `dist` says
    /// for a sum of 320s and 300s, 200s, 100s and 50s how far the accuracy of
    /// a score with them is from the wanted one, as the bits of a double.
    ///
    /// The candidates are looked at in rising order, and of those that come
    /// closest the first one is taken.
    pub fn closest_one<D: Fn(u32, u32, u32, u32) -> u64>(
        &self,
        raw_min: u32,
        raw_max: u32,
        dist: &D,
    ) -> (found: (u32, u32, u32, u32))
        requires
            self.wf(),
            self.kind == ManiaSearchKind::N200Missing || self.kind == ManiaSearchKind::N100Missing
                || self.kind == ManiaSearchKind::N50Missing,
            forall|n3x0: u32, n200: u32, n100: u32, n50: u32|
                n3x0 <= self.n_remaining && n200 <= self.n_remaining && n100 <= self.n_remaining
                    && n50 <= self.n_remaining ==> call_requires(dist, (n3x0, n200, n100, n50)),
        ensures
            exists|dists: Seq<u64>| #[trigger]
                self.searched_one(raw_min, raw_max, dist, dists, found),
    {
        let (lo, hi) = self.outer(raw_min, raw_max);
        let limit = self.limit();
        let kind = self.kind;
        let counts = self.counts;

        let of_candidate = |n3x0: u32| -> (d: u64)
            requires
                n3x0 <= self.n_remaining,
                call_requires(dist, self.spec_counts_one(n3x0)),
            ensures
                call_ensures(dist, self.spec_counts_one(n3x0), d),
            {
                let rest = sub_or_zero(limit, n3x0);
                match kind {
                    ManiaSearchKind::N200Missing => dist(n3x0, rest, counts.n100, counts.n50),
                    ManiaSearchKind::N100Missing => dist(n3x0, counts.n200, rest, counts.n50),
                    _ => dist(n3x0, counts.n200, counts.n100, rest),
                }
            };

        let start = Closest { dist: INFINITE_DIST, found: None };
        let best = scan(start, lo, hi, &of_candidate);
        proof {
            let dists = choose|dists: Seq<u64>| scanned(start, lo, hi, &of_candidate, dists, best);
            assert forall|i: int| 0 <= i < dists.len() implies call_ensures(
                dist,
                self.spec_counts_one((lo + i) as u32),
                #[trigger] dists[i],
            ) by {
                assert(call_ensures(of_candidate, ((lo + i) as u32,), dists[i]));
            }
            assert(self.searched_one(
                raw_min,
                raw_max,
                dist,
                dists,
                match best.found {
                    Some(n3x0) => self.spec_counts_one(n3x0),
                    None => self.spec_initial(),
                },
            ));
        }

        match best.found {
            Some(n3x0) => {
                let rest = sub_or_zero(limit, n3x0);
                match kind {
                    ManiaSearchKind::N200Missing => (n3x0, rest, counts.n100, counts.n50),
                    ManiaSearchKind::N100Missing => (n3x0, counts.n200, rest, counts.n50),
                    _ => (n3x0, counts.n200, counts.n100, rest),
                }
            },
            None => (self.n3x0, counts.n200, counts.n100, counts.n50),
        }
    }

    /// Searches, where one count of 200s, 100s and 50s is given, the sum of
    /// 320s and 300s and the better one of the other two counts whose
    /// accuracy comes closest to the wanted one; the last count takes the
    /// rest. `raw_min` and `raw_max` are the least and the largest sum that
    /// the wanted accuracy asks for, `bounds` says the same of the second
    /// candidate for a sum, and `dist` says for a sum of 320s and 300s, 200s,
    /// 100s and 50s how far the accuracy of a score with them is from the
    /// wanted one, as the bits of a double.
    ///
    /// The candidates are looked at in rising order, sums first, and of
    /// those that come closest the first one is taken.
    pub fn closest_two<B: Fn(u32) -> (u32, u32), D: Fn(u32, u32, u32, u32) -> u64>(
        &self,
        raw_min: u32,
        raw_max: u32,
        bounds: &B,
        dist: &D,
    ) -> (found: (u32, u32, u32, u32))
        requires
            self.wf(),
            self.kind == ManiaSearchKind::N200Given || self.kind == ManiaSearchKind::N100Given
                || self.kind == ManiaSearchKind::N50Given,
            forall|n3x0: u32| n3x0 <= self.n_remaining ==> call_requires(bounds, (n3x0,)),
            forall|n3x0: u32, n200: u32, n100: u32, n50: u32|
                n3x0 <= self.n_remaining && n200 <= self.n_remaining && n100 <= self.n_remaining
                    && n50 <= self.n_remaining ==> call_requires(dist, (n3x0, n200, n100, n50)),
        ensures
            exists|rows: Seq<Row>| #[trigger]
                self.searched_two(raw_min, raw_max, bounds, dist, rows, found),
    {
        let (lo, hi) = self.outer(raw_min, raw_max);
        let limit = self.limit();
        let kind = self.kind;
        let counts = self.counts;

        let of_pair = |n3x0: u32, second: u32| -> (d: u64)
            requires
                n3x0 <= self.n_remaining,
                second <= spec_rest(limit, n3x0),
                call_requires(dist, self.spec_counts_two(n3x0, second)),
            ensures
                call_ensures(dist, self.spec_counts_two(n3x0, second), d),
            {
                let rest = sub_or_zero(limit, n3x0) - second;
                match kind {
                    ManiaSearchKind::N200Given => dist(n3x0, counts.n200, second, rest),
                    ManiaSearchKind::N100Given => dist(n3x0, second, counts.n100, rest),
                    _ => dist(n3x0, second, rest, counts.n50),
                }
            };

        let start = Closest2 { dist: INFINITE_DIST, found: None };
        let best = scan2(start, lo, hi, limit, bounds, &of_pair);
        proof {
            let rows = choose|rows: Seq<Row>|
                scanned2(start, lo, hi, limit, bounds, &of_pair, rows, best);
            assert forall|i: int| 0 <= i < rows.len() implies self.row_of(
                (lo + i) as u32,
                bounds,
                dist,
                #[trigger] rows[i],
            ) by {
                let a = (lo + i) as u32;
                let row = rows[i];
                assert(crate::util::closest::row_of(a, limit, bounds, &of_pair, row));
                let lo2 = spec_clamp(row.0, limit, a).0;
                assert forall|j: int| 0 <= j < row.1.len() implies call_ensures(
                    dist,
                    self.spec_counts_two(a, (lo2 + j) as u32),
                    #[trigger] row.1[j],
                ) by {
                    assert(call_ensures(of_pair, (a, (lo2 + j) as u32), row.1[j]));
                }
            }
            assert forall|i: int| 0 <= i < rows.len() implies (#[trigger] rows[i]).1.len()
                == range_len(
                spec_clamp(rows[i].0, limit, (lo + i) as u32).0,
                spec_clamp(rows[i].0, limit, (lo + i) as u32).1,
            ) by {
                assert(crate::util::closest::row_of(
                    (lo + i) as u32,
                    limit,
                    bounds,
                    &of_pair,
                    rows[i],
                ));
            }
            lemma_scan2_within(start, lo, limit, rows);
            assert(self.searched_two(
                raw_min,
                raw_max,
                bounds,
                dist,
                rows,
                match best.found {
                    Some(pair) => self.spec_counts_two(pair.0, pair.1),
                    None => self.spec_initial(),
                },
            ));
        }

        match best.found {
            Some(pair) => {
                let rest = sub_or_zero(limit, pair.0) - pair.1;
                match kind {
                    ManiaSearchKind::N200Given => (pair.0, counts.n200, pair.1, rest),
                    ManiaSearchKind::N100Given => (pair.0, pair.1, counts.n100, rest),
                    _ => (pair.0, pair.1, rest, counts.n50),
                }
            },
            None => (self.n3x0, counts.n200, counts.n100, counts.n50),
        }
    }

    /// Searches, where none of the 200s, 100s and 50s is given, the sum of
    /// 320s and 300s, the 200s and the 100s whose accuracy comes closest to
    /// the wanted one; the 50s take the rest. `raw_min` and `raw_max` are the
    /// least and the largest sum that the wanted accuracy asks for,
    /// `bounds_200` says the same of the 200s for a sum, `bounds_100` of the
    /// 100s for a sum and a number of 200s, and `dist` says for a sum of 320s
    /// and 300s, 200s, 100s and 50s how far the accuracy of a score with them
    /// is from the wanted one, as the bits of a double.
    ///
    /// The candidates are looked at in rising order, sums first and 100s
    /// last, and of those that come closest the first one is taken.
    pub fn closest_all<
        B: Fn(u32) -> (u32, u32),
        C: Fn(u32, u32) -> (u32, u32),
        D: Fn(u32, u32, u32, u32) -> u64,
    >(&self, raw_min: u32, raw_max: u32, bounds_200: &B, bounds_100: &C, dist: &D) -> (found: (
        u32,
        u32,
        u32,
        u32,
    ))
        requires
            self.wf(),
            self.kind == ManiaSearchKind::NoneGiven,
            forall|n3x0: u32| n3x0 <= self.n_remaining ==> call_requires(bounds_200, (n3x0,)),
            forall|n3x0: u32, n200: u32|
                n3x0 <= self.n_remaining && n200 <= self.n_remaining ==> call_requires(
                    bounds_100,
                    (n3x0, n200),
                ),
            forall|n3x0: u32, n200: u32, n100: u32, n50: u32|
                n3x0 <= self.n_remaining && n200 <= self.n_remaining && n100 <= self.n_remaining
                    && n50 <= self.n_remaining ==> call_requires(dist, (n3x0, n200, n100, n50)),
        ensures
            exists|planes: Seq<Plane>| #[trigger]
                self.searched_all(raw_min, raw_max, bounds_200, bounds_100, dist, planes, found),
    {
        let (lo, hi) = self.outer(raw_min, raw_max);
        let limit = self.limit();

        let of_triple = |n3x0: u32, n200: u32, n100: u32| -> (d: u64)
            requires
                n3x0 <= self.n_remaining,
                n200 <= spec_rest(limit, n3x0),
                n100 <= spec_rest(spec_rest(limit, n3x0), n200),
                call_requires(dist, self.spec_counts_all(n3x0, n200, n100)),
            ensures
                call_ensures(dist, self.spec_counts_all(n3x0, n200, n100), d),
            {
                let n50 = sub_or_zero(sub_or_zero(limit, n3x0), n200) - n100;
                dist(n3x0, n200, n100, n50)
            };

        let start = Closest3 { dist: INFINITE_DIST, found: None };
        let best = scan3(start, lo, hi, limit, bounds_200, bounds_100, &of_triple);
        proof {
            let planes = choose|planes: Seq<Plane>|
                scanned3(start, lo, hi, limit, bounds_200, bounds_100, &of_triple, planes, best);
            assert forall|i: int| 0 <= i < planes.len() implies self.plane_of(
                (lo + i) as u32,
                bounds_200,
                bounds_100,
                dist,
                #[trigger] planes[i],
            ) && {
                let a = (lo + i) as u32;
                let plane = planes[i];
                let b_lo = spec_clamp(plane.0, limit, a).0;
                &&& plane.1.len() == range_len(b_lo, spec_clamp(plane.0, limit, a).1)
                &&& rows_fit(plane.1, b_lo, spec_rest(limit, a))
            } by {
                let a = (lo + i) as u32;
                let plane = planes[i];
                assert(crate::util::closest::plane_of(
                    a,
                    limit,
                    bounds_200,
                    bounds_100,
                    &of_triple,
                    plane,
                ));
                let b_lo = spec_clamp(plane.0, limit, a).0;
                let rest = spec_rest(limit, a);
                assert forall|j: int| 0 <= j < plane.1.len() implies self.row_of_pair(
                    a,
                    (b_lo + j) as u32,
                    bounds_100,
                    dist,
                    #[trigger] plane.1[j],
                ) && plane.1[j].1.len() == range_len(
                    spec_clamp(plane.1[j].0, rest, (b_lo + j) as u32).0,
                    spec_clamp(plane.1[j].0, rest, (b_lo + j) as u32).1,
                ) by {
                    let b = (b_lo + j) as u32;
                    let row = plane.1[j];
                    assert(crate::util::closest::row_of_pair(
                        a,
                        b,
                        rest,
                        bounds_100,
                        &of_triple,
                        row,
                    ));
                    let c_lo = spec_clamp(row.0, rest, b).0;
                    assert forall|k: int| 0 <= k < row.1.len() implies call_ensures(
                        dist,
                        self.spec_counts_all(a, b, (c_lo + k) as u32),
                        #[trigger] row.1[k],
                    ) by {
                        assert(call_ensures(of_triple, (a, b, (c_lo + k) as u32), row.1[k]));
                    }
                }
            }
            lemma_scan3_within(start, lo, limit, planes);
            assert(self.searched_all(
                raw_min,
                raw_max,
                bounds_200,
                bounds_100,
                dist,
                planes,
                match best.found {
                    Some(triple) => self.spec_counts_all(triple.0, triple.1, triple.2),
                    None => self.spec_initial(),
                },
            ));
        }

        match best.found {
            Some(triple) => {
                let n50 = sub_or_zero(sub_or_zero(limit, triple.0), triple.1) - triple.2;
                (triple.0, triple.1, triple.2, n50)
            },
            None => (self.n3x0, self.counts.n200, self.counts.n100, self.counts.n50),
        }
    }

    /// Takes over the counts that a search has found and hands out the score
    /// that results, unless the counts cannot be taken over.
    pub fn try_settle(&self, n3x0: u32, n200: u32, n100: u32, n50: u32) -> (state: Option<
        ManiaScoreState,
    >)
        ensures
            state == if self.can_settle(n3x0, n200, n100, n50) {
                Some(self.spec_settle(n3x0, n200, n100, n50))
            } else {
                None
            },
    {
        let limit: u64 = 0xFFFF_FFFF;
        let lows: u64 = n200 as u64 + n100 as u64 + n50 as u64;
        let fits = n3x0 as u64 + lows <= limit;
        let first = !self.n320_given || self.n300_given || n3x0 >= self.counts.n320;
        let second = !self.n300_given || self.n320_given || n3x0 >= self.counts.n300;
        let both = !(self.n320_given && self.n300_given) || self.counts.n320 as u64
            + self.counts.n300 as u64 + lows <= limit;

        if fits && first && second && both {
            Some(self.settle(n3x0, n200, n100, n50))
        } else {
            None
        }
    }
}

} // verus!
