use vstd::prelude::*;

use crate::any_2024::difficulty::Difficulty;
use crate::util::closest::{lemma_scan_within, range_len, scan, scanned, spec_scan, Closest};
use crate::util::mods::GameMods;
use crate::util::priority::{
    given, limit_to, min_u32, spec_given, spec_min, spec_sub, HitResultPriority,
};

verus! {

/// The result counts and the combo of a taiko score.
#[derive(Copy, Clone, Debug, PartialEq, Eq, Structural)]
pub struct TaikoScoreState {
    /// Maximum combo that the score has had so far.
    pub max_combo: u32,
    /// Amount of current 300s.
    pub n300: u32,
    /// Amount of current 100s.
    pub n100: u32,
    /// Amount of current misses.
    pub misses: u32,
}

impl TaikoScoreState {
    /// The number of results.
    pub open spec fn spec_total_hits(&self) -> int {
        self.n300 + self.n100 + self.misses
    }

    /// Return the total amount of hits by adding everything up.
    pub fn total_hits(&self) -> (total: u32)
        requires
            self.spec_total_hits() <= u32::MAX,
        ensures
            total == self.spec_total_hits(),
    {
        self.n300 + self.n100 + self.misses
    }
}

/// The two parts of the accuracy of a taiko score: what was earned and what
/// could have been earned. A score without results has an accuracy of zero,
/// which shows as a second part of zero.
pub open spec fn spec_accuracy_parts(n300: u32, n100: u32, misses: u32) -> (int, int) {
    (2 * n300 + n100, 2 * (n300 + n100 + misses))
}

/// The accuracy of a taiko score as a fraction of two counts. Where the
/// second count is zero the accuracy is zero.
pub fn accuracy_parts(n300: u32, n100: u32, misses: u32) -> (parts: (u32, u32))
    requires
        2 * (n300 + n100 + misses) <= u32::MAX,
    ensures
        parts.0 == spec_accuracy_parts(n300, n100, misses).0,
        parts.1 == spec_accuracy_parts(n300, n100, misses).1,
        parts.0 <= parts.1,
{
    (2 * n300 + n100, 2 * (n300 + n100 + misses))
}

/// A search that is still to be made: among the ways to split
/// `n_remaining` results into 300s and 100s, the one whose accuracy comes
/// closest to the wanted one.
#[derive(Copy, Clone, Debug, PartialEq, Eq, Structural)]
pub struct TaikoSearch {
    /// The number of results of the score.
    pub total_result_count: u32,
    /// The number of results that are no misses.
    pub n_remaining: u32,
    /// The number of misses.
    pub misses: u32,
    /// The combo of the score.
    pub max_combo: u32,
}

/// What the given counts settle of a score's results.
#[derive(Copy, Clone, Debug, PartialEq, Eq, Structural)]
pub enum TaikoHitResults {
    /// Every count is settled.
    Settled(TaikoScoreState),
    /// The misses and the combo are settled; the 300s and 100s depend on the
    /// wanted accuracy.
    Open(TaikoSearch),
}

/// Performance calculator on taiko charts: the parameters of a score as far
/// as they are known.
#[derive(Clone, Debug, PartialEq, Eq)]
pub struct TaikoPP {
    pub difficulty: Difficulty,
    pub combo: Option<u32>,
    /// The wanted accuracy between `0.0` and `1.0`, as the bits of a double.
    pub acc: Option<u64>,
    pub hitresult_priority: HitResultPriority,
    pub n300: Option<u32>,
    pub n100: Option<u32>,
    pub misses: Option<u32>,
}

/// The number of results of a score: one for each object that the play got
/// to.
pub open spec fn spec_total_result_count(passed_objects: usize, max_combo: u32) -> int {
    spec_min(passed_objects as int, max_combo as int)
}

/// The combo of a score: the given one, but no more than the misses leave.
pub open spec fn spec_combo(combo: Option<u32>, max_combo: u32, misses: int) -> int {
    match combo {
        Some(combo) => spec_min(combo as int, spec_sub(max_combo as int, misses)),
        None => spec_sub(max_combo as int, misses),
    }
}

/// The results of a taiko score for which no accuracy is wanted, or for which
/// at least one of the two counts is given.
///
/// Given counts are held to what the misses leave. Results that no count
/// accounts for go to the first count that was not given, in the order of the
/// priority, and to the priority's first count if both were given.
pub open spec fn spec_settled(
    priority: HitResultPriority,
    n300: Option<u32>,
    n100: Option<u32>,
    total: int,
    misses: int,
) -> (int, int) {
    let n_remaining = total - misses;
    let c300 = spec_given(n300, n_remaining);
    let c100 = spec_given(n100, n_remaining);
    let remaining = spec_sub(total, c300 + c100 + misses);
    match (n300, n100) {
        (Some(_), Some(_)) => match priority {
            HitResultPriority::WorstCase => (c300, c100 + remaining),
            HitResultPriority::BestCase => (c300 + remaining, c100),
        },
        (Some(_), None) => (c300, remaining),
        (None, Some(_)) => (remaining, c100),
        (None, None) => match priority {
            HitResultPriority::WorstCase => (c300, remaining),
            HitResultPriority::BestCase => (remaining, c100),
        },
    }
}

impl TaikoPP {
    /// Whether the counts are small enough to be added up.
    pub open spec fn in_range(&self, max_combo: u32) -> bool {
        2 * spec_total_result_count(self.difficulty.spec_get_passed_objects(), max_combo)
            <= u32::MAX
    }

    /// What [`TaikoPP::generate_state`] returns.
    pub open spec fn spec_generate_state(&self, max_combo: u32) -> TaikoHitResults {
        let total = spec_total_result_count(self.difficulty.spec_get_passed_objects(), max_combo);
        let misses = spec_given(self.misses, total);
        let combo = spec_combo(self.combo, max_combo, misses);
        if self.acc is Some && self.n300 is None && self.n100 is None {
            TaikoHitResults::Open(
                TaikoSearch {
                    total_result_count: total as u32,
                    n_remaining: (total - misses) as u32,
                    misses: misses as u32,
                    max_combo: combo as u32,
                },
            )
        } else {
            let counts = spec_settled(
                self.hitresult_priority,
                self.n300,
                self.n100,
                total,
                misses,
            );
            TaikoHitResults::Settled(
                TaikoScoreState {
                    max_combo: combo as u32,
                    n300: counts.0 as u32,
                    n100: counts.1 as u32,
                    misses: misses as u32,
                },
            )
        }
    }

    /// Create a new performance calculator for taiko charts.
    pub fn new() -> (this: Self)
        ensures
            this.difficulty.spec_mods() == GameMods::Legacy(0),
            this.difficulty.spec_passed_objects() is None,
            this.difficulty.spec_clock_rate() is None,
            this.difficulty.spec_lazer() is None,
            this.combo is None,
            this.acc is None,
            this.hitresult_priority == HitResultPriority::BestCase,
            this.n300 is None,
            this.n100 is None,
            this.misses is None,
    {
        Self {
            difficulty: Difficulty::new(),
            combo: None,
            acc: None,
            hitresult_priority: HitResultPriority::BestCase,
            n300: None,
            n100: None,
            misses: None,
        }
    }

    /// Specify mods.
    pub fn mods(self, mods: GameMods) -> (this: Self)
        ensures
            this.difficulty.spec_mods() == mods,
            this.difficulty.spec_passed_objects() == self.difficulty.spec_passed_objects(),
            this.difficulty.spec_clock_rate() == self.difficulty.spec_clock_rate(),
            this.difficulty.spec_lazer() == self.difficulty.spec_lazer(),
            this.combo == self.combo,
            this.acc == self.acc,
            this.hitresult_priority == self.hitresult_priority,
            this.n300 == self.n300,
            this.n100 == self.n100,
            this.misses == self.misses,
    {
        Self {
            difficulty: self.difficulty.mods(mods),
            combo: self.combo,
            acc: self.acc,
            hitresult_priority: self.hitresult_priority,
            n300: self.n300,
            n100: self.n100,
            misses: self.misses,
        }
    }

    /// Specify the max combo of the play.
    pub fn combo(self, combo: u32) -> (this: Self)
        ensures
            this == (Self { combo: Some(combo), ..self }),
    {
        Self { combo: Some(combo), ..self }
    }

    /// Specify how hitresults should be generated.
    ///
    /// Defauls to [`HitResultPriority::BestCase`].
    pub fn hitresult_priority(self, priority: HitResultPriority) -> (this: Self)
        ensures
            this == (Self { hitresult_priority: priority, ..self }),
    {
        Self { hitresult_priority: priority, ..self }
    }

    /// Specify the amount of 300s of a play.
    pub fn n300(self, n300: u32) -> (this: Self)
        ensures
            this == (Self { n300: Some(n300), ..self }),
    {
        Self { n300: Some(n300), ..self }
    }

    /// Specify the amount of 100s of a play.
    pub fn n100(self, n100: u32) -> (this: Self)
        ensures
            this == (Self { n100: Some(n100), ..self }),
    {
        Self { n100: Some(n100), ..self }
    }

    /// Specify the amount of misses of the play.
    pub fn misses(self, n_misses: u32) -> (this: Self)
        ensures
            this == (Self { misses: Some(n_misses), ..self }),
    {
        Self { misses: Some(n_misses), ..self }
    }

    /// Specify the accuracy of a play as a share between `0.0` and `1.0`,
    /// given as the bits of a double. This will be used to generate matching
    /// hitresults.
    pub fn accuracy(self, acc: u64) -> (this: Self)
        ensures
            this == (Self { acc: Some(acc), ..self }),
    {
        Self { acc: Some(acc), ..self }
    }

    /// Use the specified settings of the given [`Difficulty`].
    pub fn difficulty(self, difficulty: Difficulty) -> (this: Self)
        ensures
            this == (Self { difficulty, ..self }),
    {
        Self { difficulty, ..self }
    }

    /// Amount of passed objects for partial plays, e.g. a fail.
    pub fn passed_objects(self, passed_objects: u32) -> (this: Self)
        ensures
            this.difficulty.spec_mods() == self.difficulty.spec_mods(),
            this.difficulty.spec_passed_objects() == Some(passed_objects),
            this.difficulty.spec_clock_rate() == self.difficulty.spec_clock_rate(),
            this.difficulty.spec_lazer() == self.difficulty.spec_lazer(),
            this.combo == self.combo,
            this.acc == self.acc,
            this.hitresult_priority == self.hitresult_priority,
            this.n300 == self.n300,
            this.n100 == self.n100,
            this.misses == self.misses,
    {
        Self {
            difficulty: self.difficulty.passed_objects(passed_objects),
            combo: self.combo,
            acc: self.acc,
            hitresult_priority: self.hitresult_priority,
            n300: self.n300,
            n100: self.n100,
            misses: self.misses,
        }
    }

    /// Provide parameters through a [`TaikoScoreState`].
    pub fn state(self, state: TaikoScoreState) -> (this: Self)
        ensures
            this == (Self {
                combo: Some(state.max_combo),
                n300: Some(state.n300),
                n100: Some(state.n100),
                misses: Some(state.misses),
                ..self
            }),
    {
        Self {
            combo: Some(state.max_combo),
            n300: Some(state.n300),
            n100: Some(state.n100),
            misses: Some(state.misses),
            ..self
        }
    }

    /// Create the [`TaikoScoreState`] that will be used for performance
    /// calculation, as far as the given counts settle it, and remember what
    /// was settled. `max_combo` is the maximum combo of the chart.
    pub fn generate_state(&mut self, max_combo: u32) -> (results: TaikoHitResults)
        requires
            old(self).in_range(max_combo),
        ensures
            results == old(self).spec_generate_state(max_combo),
            final(self).difficulty == old(self).difficulty,
            final(self).acc == old(self).acc,
            final(self).hitresult_priority == old(self).hitresult_priority,
            match results {
                TaikoHitResults::Settled(state) => {
                    &&& final(self).combo == Some(state.max_combo)
                    &&& final(self).n300 == Some(state.n300)
                    &&& final(self).n100 == Some(state.n100)
                    &&& final(self).misses == Some(state.misses)
                },
                TaikoHitResults::Open(search) => {
                    &&& final(self).combo == Some(search.max_combo)
                    &&& final(self).n300 == old(self).n300
                    &&& final(self).n100 == old(self).n100
                    &&& final(self).misses == Some(search.misses)
                },
            },
    {
        let passed = self.difficulty.get_passed_objects();
        let total_result_count = limit_to(passed, max_combo);
        let priority = self.hitresult_priority;

        let misses = given(self.misses, total_result_count);
        let n_remaining = total_result_count - misses;

        let mut n300 = given(self.n300, n_remaining);
        let mut n100 = given(self.n100, n_remaining);

        let max_possible_combo = if max_combo >= misses {
            max_combo - misses
        } else {
            0
        };
        let combo = match self.combo {
            Some(combo) => min_u32(combo, max_possible_combo),
            None => max_possible_combo,
        };

        self.combo = Some(combo);
        self.misses = Some(misses);

        if self.acc.is_some() && self.n300.is_none() && self.n100.is_none() {
            return TaikoHitResults::Open(
                TaikoSearch { total_result_count, n_remaining, misses, max_combo: combo },
            );
        }
        let sum = n300 + n100 + misses;
        let remaining = if total_result_count >= sum {
            total_result_count - sum
        } else {
            0
        };

        match (self.n300, self.n100) {
            (Some(_), Some(_)) => match priority {
                HitResultPriority::WorstCase => n100 += remaining,
                HitResultPriority::BestCase => n300 += remaining,
            },
            (Some(_), None) => n100 = remaining,
            (None, Some(_)) => n300 = remaining,
            (None, None) => match priority {
                HitResultPriority::WorstCase => n100 = remaining,
                HitResultPriority::BestCase => n300 = remaining,
            },
        }

        self.n300 = Some(n300);
        self.n100 = Some(n100);

        TaikoHitResults::Settled(TaikoScoreState { max_combo: combo, n300, n100, misses })
    }

    /// Takes over the 300s and 100s that a search has found and hands out
    /// the score that results.
    pub fn settle(&mut self, search: &TaikoSearch, n300: u32, n100: u32) -> (state:
        TaikoScoreState)
        ensures
            state == (TaikoScoreState {
                max_combo: search.max_combo,
                n300,
                n100,
                misses: search.misses,
            }),
            *final(self) == (Self { n300: Some(n300), n100: Some(n100), ..*old(self) }),
    {
        self.n300 = Some(n300);
        self.n100 = Some(n100);
        TaikoScoreState { max_combo: search.max_combo, n300, n100, misses: search.misses }
    }
}

/// A settled score accounts for every object that the play got to, and for
/// no more unless the given 300s and 100s alone are too many.
pub proof fn lemma_settled_accounts_for_all(
    priority: HitResultPriority,
    n300: Option<u32>,
    n100: Option<u32>,
    total: int,
    misses: int,
)
    requires
        0 <= misses <= total,
    ensures
        ({
            let counts = spec_settled(priority, n300, n100, total, misses);
            &&& counts.0 >= 0
            &&& counts.1 >= 0
            &&& counts.0 + counts.1 + misses >= total
            &&& (n300 is None || n100 is None || spec_given(n300, total - misses) + spec_given(
                n100,
                total - misses,
            ) <= total - misses) ==> counts.0 + counts.1 + misses == total
        }),
{
}

/// The bits of the largest double that is a number: the distance that a
/// search starts with.
pub const MAX_DIST: u64 = 0x7FEF_FFFF_FFFF_FFFF;

impl TaikoSearch {
    /// The least and the largest number of 300s that the search looks at,
    /// given the number that the wanted accuracy asks for, rounded down and
    /// rounded up: neither is more than the results that are no misses.
    pub open spec fn spec_bounds(&self, raw_floor: u32, raw_ceil: u32) -> (u32, u32) {
        (
            spec_min(self.n_remaining as int, raw_floor as int) as u32,
            spec_min(self.n_remaining as int, raw_ceil as int) as u32,
        )
    }

    /// The 300s and 100s that a search ends with, given what came closest:
    /// without a candidate that came closer than any number, none of either.
    pub open spec fn spec_found(&self, best: Closest) -> (u32, u32) {
        match best.found {
            Some(n300) => (n300, (self.n_remaining - n300) as u32),
            None => (0, 0),
        }
    }

    /// Whether `found` is what a search ends with, where `dists` are
    /// distances that `dist` has for the candidates: from the fewest 300s to
    /// the most, each with the 100s that it leaves.
    pub open spec fn searched<D: Fn(u32, u32) -> u64>(
        &self,
        raw_floor: u32,
        raw_ceil: u32,
        dist: &D,
        dists: Seq<u64>,
        found: (u32, u32),
    ) -> bool {
        let (lo, hi) = self.spec_bounds(raw_floor, raw_ceil);
        &&& dists.len() == range_len(lo, hi)
        &&& forall|i: int|
            0 <= i < dists.len() ==> call_ensures(
                dist,
                ((lo + i) as u32, (self.n_remaining - (lo + i)) as u32),
                #[trigger] dists[i],
            )
        &&& found == self.spec_found(
            spec_scan(Closest { dist: MAX_DIST, found: None }, lo, dists),
        )
    }

    /// Searches the split of the results that are no misses into 300s and
    /// 100s whose accuracy comes closest to the wanted one. `raw_floor` and
    /// `raw_ceil` are the number of 300s that the wanted accuracy asks for,
    /// rounded down and rounded up, and `dist` says for 300s and 100s how far
    /// the accuracy of a score with them is from the wanted one, as the bits
    /// of a double.
    ///
    /// The candidates are looked at from the fewest 300s to the most, and of
    /// those that come closest the first one is taken.
    pub fn closest<D: Fn(u32, u32) -> u64>(&self, raw_floor: u32, raw_ceil: u32, dist: &D) -> (found:
        (u32, u32))
        requires
            forall|n300: u32, n100: u32|
                n300 + n100 == self.n_remaining ==> call_requires(dist, (n300, n100)),
        ensures
            exists|dists: Seq<u64>| #[trigger] self.searched(raw_floor, raw_ceil, dist, dists, found),
            found.0 + found.1 == self.n_remaining || found == (0u32, 0u32),
    {
        let n_remaining = self.n_remaining;
        let min_n300 = min_u32(n_remaining, raw_floor);
        let max_n300 = min_u32(n_remaining, raw_ceil);

        let by_n300 = |new300: u32| -> (d: u64)
            requires
                new300 <= n_remaining,
                call_requires(dist, (new300, (n_remaining - new300) as u32)),
            ensures
                call_ensures(dist, (new300, (n_remaining - new300) as u32), d),
            {
                let new100 = n_remaining - new300;
                dist(new300, new100)
            };

        let start = Closest { dist: MAX_DIST, found: None };
        let best = scan(start, min_n300, max_n300, &by_n300);
        proof {
            let dists = choose|dists: Seq<u64>|
                scanned(start, min_n300, max_n300, &by_n300, dists, best);
            lemma_scan_within(start, min_n300, dists);
            assert forall|i: int| 0 <= i < dists.len() implies call_ensures(
                dist,
                ((min_n300 + i) as u32, (self.n_remaining - (min_n300 + i)) as u32),
                #[trigger] dists[i],
            ) by {
                assert(call_ensures(by_n300, ((min_n300 + i) as u32,), dists[i]));
            }
            assert(self.searched(raw_floor, raw_ceil, dist, dists, self.spec_found(best)));
        }

        match best.found {
            Some(n300) => (n300, n_remaining - n300),
            None => (0, 0),
        }
    }
}

} // verus!
