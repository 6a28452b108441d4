use vstd::prelude::*;

use super::OsuStars;
use crate::util::closest::{
    lemma_scan2_within, lemma_scan_within, range_len, scan, scan2, scanned, scanned2, spec_clamp,
    spec_scan, spec_scan2, Closest, Closest2, Row,
};
use crate::util::priority::{
    given, limit_to, min_u32, spec_given, spec_min, spec_sub, sub_or_zero, HitResultPriority,
};
use crate::util::score_state::OsuScoreState;

verus! {

/// Which of the three counts a search has to leave as it is.
#[derive(Copy, Clone, Debug, PartialEq, Eq, Structural)]
pub enum OsuSearchKind {
    /// The 300s are given; 100s and 50s are searched.
    N300Given,
    /// The 100s are given; 300s and 50s are searched.
    N100Given,
    /// The 50s are given; 300s and 100s are searched.
    N50Given,
    /// All three counts are searched.
    NoneGiven,
}

/// A search that is still to be made: among the ways to split
/// `n_remaining` results into the counts that are not given, the one whose
/// accuracy comes closest to the wanted one.
#[derive(Copy, Clone, Debug, PartialEq, Eq, Structural)]
pub struct OsuSearch {
    pub kind: OsuSearchKind,
    /// The number of results of the score.
    pub n_objects: u32,
    /// The number of results that go to the counts that are searched.
    pub n_remaining: u32,
    /// The given 300s, or none.
    pub n300: u32,
    /// The given 100s, or none.
    pub n100: u32,
    /// The given 50s, or none.
    pub n50: u32,
    /// The number of misses.
    pub misses: u32,
    /// The combo of the score.
    pub max_combo: u32,
    pub priority: HitResultPriority,
}

/// What the given counts settle of a score's results.
#[derive(Copy, Clone, Debug, PartialEq, Eq, Structural)]
pub enum OsuHitResults {
    /// Every count is settled.
    Settled(OsuScoreState),
    /// The misses and the combo are settled; other counts depend on the
    /// wanted accuracy.
    Open(OsuSearch),
}

/// The combo of a score: the given one, but no more than the misses leave.
pub open spec fn spec_combo(combo: Option<u32>, max_combo: u32, misses: int) -> int {
    match combo {
        Some(combo) => spec_min(combo as int, spec_sub(max_combo as int, misses)),
        None => spec_sub(max_combo as int, misses),
    }
}

/// The counts of a score for which at most one count is missing, or for
/// which no accuracy is wanted.
///
/// Given counts are held to what the misses leave. Results that no count
/// accounts for go to the first count that was not given, in the order of the
/// priority, and to the priority's first count if all were given.
pub open spec fn spec_settled(
    priority: HitResultPriority,
    n300: Option<u32>,
    n100: Option<u32>,
    n50: Option<u32>,
    total: int,
    misses: int,
) -> (int, int, int) {
    let n_remaining = total - misses;
    let c300 = spec_given(n300, n_remaining);
    let c100 = spec_given(n100, n_remaining);
    let c50 = spec_given(n50, n_remaining);
    let remaining = spec_sub(total, c300 + c100 + c50 + misses);
    match priority {
        HitResultPriority::BestCase => if n300 is None {
            (remaining, c100, c50)
        } else if n100 is None {
            (c300, remaining, c50)
        } else if n50 is None {
            (c300, c100, remaining)
        } else {
            (c300 + remaining, c100, c50)
        },
        HitResultPriority::WorstCase => if n50 is None {
            (c300, c100, remaining)
        } else if n100 is None {
            (c300, remaining, c50)
        } else if n300 is None {
            (remaining, c100, c50)
        } else {
            (c300, c100, c50 + remaining)
        },
    }
}

/// How many of the three counts are not given.
pub open spec fn spec_missing(n300: Option<u32>, n100: Option<u32>, n50: Option<u32>) -> int {
    (if n300 is None {
        1int
    } else {
        0int
    }) + (if n100 is None {
        1int
    } else {
        0int
    }) + (if n50 is None {
        1int
    } else {
        0int
    })
}

/// The search that is left when an accuracy is wanted and two or three
/// counts are missing.
pub open spec fn spec_search(
    priority: HitResultPriority,
    n300: Option<u32>,
    n100: Option<u32>,
    n50: Option<u32>,
    total: int,
    misses: int,
    combo: int,
) -> OsuSearch {
    let n_remaining = total - misses;
    let c300 = spec_given(n300, n_remaining);
    let c100 = spec_given(n100, n_remaining);
    let c50 = spec_given(n50, n_remaining);
    OsuSearch {
        kind: if n300 is Some {
            OsuSearchKind::N300Given
        } else if n100 is Some {
            OsuSearchKind::N100Given
        } else if n50 is Some {
            OsuSearchKind::N50Given
        } else {
            OsuSearchKind::NoneGiven
        },
        n_objects: total as u32,
        n_remaining: (n_remaining - c300 - c100 - c50) as u32,
        n300: c300 as u32,
        n100: c100 as u32,
        n50: c50 as u32,
        misses: misses as u32,
        max_combo: combo as u32,
        priority,
    }
}

/// The counts after results were moved between them in favour of the
/// priority, which changes neither their sum nor the accuracy: in the best
/// case each 300 that is given up together with four 50s makes five 100s, and
/// in the worst case five 100s make a 300 and four 50s.
pub open spec fn spec_shift(priority: HitResultPriority, n300: int, n100: int, n50: int) -> (
    int,
    int,
    int,
) {
    match priority {
        HitResultPriority::BestCase => {
            let n = spec_min(n300, n50 / 4);
            (n300 - n, n100 + 5 * n, n50 - 4 * n)
        },
        HitResultPriority::WorstCase => {
            let n = n100 / 5;
            (n300 + n, n100 - 5 * n, n50 + 4 * n)
        },
    }
}

/// Moving results between the counts keeps their sum and what they earn
/// towards the accuracy, and leaves no count below zero.
pub proof fn lemma_shift_keeps_accuracy(priority: HitResultPriority, n300: int, n100: int, n50: int)
    requires
        n300 >= 0,
        n100 >= 0,
        n50 >= 0,
    ensures
        ({
            let shifted = spec_shift(priority, n300, n100, n50);
            &&& shifted.0 >= 0 && shifted.1 >= 0 && shifted.2 >= 0
            &&& shifted.0 + shifted.1 + shifted.2 == n300 + n100 + n50
            &&& 6 * shifted.0 + 2 * shifted.1 + shifted.2 == 6 * n300 + 2 * n100 + n50
        }),
{
}

/// A settled score accounts for every object that the play got to, and for
/// no more unless the given counts alone are too many.
pub proof fn lemma_settled_accounts_for_all(
    priority: HitResultPriority,
    n300: Option<u32>,
    n100: Option<u32>,
    n50: Option<u32>,
    total: int,
    misses: int,
)
    requires
        0 <= misses <= total,
    ensures
        ({
            let counts = spec_settled(priority, n300, n100, n50, total, misses);
            let given = spec_given(n300, total - misses) + spec_given(n100, total - misses)
                + spec_given(n50, total - misses);
            &&& counts.0 >= 0 && counts.1 >= 0 && counts.2 >= 0
            &&& counts.0 + counts.1 + counts.2 + misses >= total
            &&& given <= total - misses ==> counts.0 + counts.1 + counts.2 + misses == total
        }),
{
}

/// The two parts of the accuracy of a score: what was earned and what could
/// have been earned.
pub open spec fn spec_accuracy_parts(n300: u32, n100: u32, n50: u32, misses: u32) -> (int, int) {
    (6 * n300 + 2 * n100 + n50, 6 * (n300 + n100 + n50 + misses))
}

/// The accuracy of a score as a fraction of two counts. Where the second
/// count is zero the accuracy is zero.
pub fn accuracy_parts(n300: u32, n100: u32, n50: u32, misses: u32) -> (parts: (u32, u32))
    requires
        6 * (n300 + n100 + n50 + misses) <= u32::MAX,
    ensures
        parts.0 == spec_accuracy_parts(n300, n100, n50, misses).0,
        parts.1 == spec_accuracy_parts(n300, n100, n50, misses).1,
        parts.0 <= parts.1,
{
    (6 * n300 + 2 * n100 + n50, 6 * (n300 + n100 + n50 + misses))
}

/// Performance calculator on charts of the standard mode: the parameters of
/// a score as far as they are known.
#[derive(Clone, Debug, PartialEq, Eq)]
pub struct OsuPP {
    pub difficulty: OsuStars,
    /// The wanted accuracy between `0.0` and `1.0`, as the bits of a double.
    pub acc: Option<u64>,
    pub combo: Option<u32>,
    pub n300: Option<u32>,
    pub n100: Option<u32>,
    pub n50: Option<u32>,
    pub misses: Option<u32>,
    pub hitresult_priority: HitResultPriority,
}

impl OsuPP {
    /// The number of results of a score: one for each object that the play
    /// got to.
    pub open spec fn spec_n_objects(&self, n_objects: u32) -> int {
        spec_min(self.difficulty.spec_get_passed_objects() as int, n_objects as int)
    }

    /// Whether the counts are small enough to be added up, and to be weighed
    /// where an accuracy is wanted.
    pub open spec fn in_range(&self, n_objects: u32) -> bool {
        &&& 3 * self.spec_n_objects(n_objects) <= u32::MAX
        &&& self.acc is Some ==> 6 * self.spec_n_objects(n_objects) <= u32::MAX
    }

    /// What [`OsuPP::generate_state`] returns.
    pub open spec fn spec_generate_state(&self, max_combo: u32, n_objects: u32) -> OsuHitResults {
        let total = self.spec_n_objects(n_objects);
        let misses = spec_given(self.misses, total);
        let combo = spec_combo(self.combo, max_combo, misses);
        if self.acc is Some && spec_missing(self.n300, self.n100, self.n50) >= 2 {
            OsuHitResults::Open(
                spec_search(
                    self.hitresult_priority,
                    self.n300,
                    self.n100,
                    self.n50,
                    total,
                    misses,
                    combo,
                ),
            )
        } else {
            let counts = spec_settled(
                self.hitresult_priority,
                self.n300,
                self.n100,
                self.n50,
                total,
                misses,
            );
            OsuHitResults::Settled(
                OsuScoreState {
                    max_combo: combo as u32,
                    n300: counts.0 as u32,
                    n100: counts.1 as u32,
                    n50: counts.2 as u32,
                    misses: misses as u32,
                    large_tick_hits: 0,
                    small_tick_hits: 0,
                    slider_end_hits: 0,
                },
            )
        }
    }

    /// Create a new performance calculator for charts of the standard mode.
    pub fn new() -> (this: Self)
        ensures
            this.difficulty.spec_mods() == 0,
            this.difficulty.spec_passed_objects() is None,
            this.difficulty.spec_clock_rate() is None,
            this.acc is None,
            this.combo is None,
            this.n300 is None,
            this.n100 is None,
            this.n50 is None,
            this.misses is None,
            this.hitresult_priority == HitResultPriority::BestCase,
    {
        Self {
            difficulty: OsuStars::new(),
            acc: None,
            combo: None,
            n300: None,
            n100: None,
            n50: None,
            misses: None,
            hitresult_priority: HitResultPriority::BestCase,
        }
    }

    /// Specify mods through their bits.
    pub fn mods(self, mods: u32) -> (this: Self)
        ensures
            this.difficulty.spec_mods() == mods,
            this.difficulty.spec_passed_objects() == self.difficulty.spec_passed_objects(),
            this.difficulty.spec_clock_rate() == self.difficulty.spec_clock_rate(),
            this.acc == self.acc,
            this.combo == self.combo,
            this.n300 == self.n300,
            this.n100 == self.n100,
            this.n50 == self.n50,
            this.misses == self.misses,
            this.hitresult_priority == self.hitresult_priority,
    {
        Self {
            difficulty: self.difficulty.mods(mods),
            acc: self.acc,
            combo: self.combo,
            n300: self.n300,
            n100: self.n100,
            n50: self.n50,
            misses: self.misses,
            hitresult_priority: self.hitresult_priority,
        }
    }

    /// Specify the max combo of the play.
    pub fn combo(self, combo: u32) -> (this: Self)
        ensures
            this == (Self { combo: Some(combo), ..self }),
    {
        Self { combo: Some(combo), ..self }
    }

    /// Specify how hitresults should be generated.
    ///
    /// Defauls to [`HitResultPriority::BestCase`].
    pub fn hitresult_priority(self, priority: HitResultPriority) -> (this: Self)
        ensures
            this == (Self { hitresult_priority: priority, ..self }),
    {
        Self { hitresult_priority: priority, ..self }
    }

    /// Specify the amount of 300s of a play.
    pub fn n300(self, n300: u32) -> (this: Self)
        ensures
            this == (Self { n300: Some(n300), ..self }),
    {
        Self { n300: Some(n300), ..self }
    }

    /// Specify the amount of 100s of a play.
    pub fn n100(self, n100: u32) -> (this: Self)
        ensures
            this == (Self { n100: Some(n100), ..self }),
    {
        Self { n100: Some(n100), ..self }
    }

    /// Specify the amount of 50s of a play.
    pub fn n50(self, n50: u32) -> (this: Self)
        ensures
            this == (Self { n50: Some(n50), ..self }),
    {
        Self { n50: Some(n50), ..self }
    }

    /// Specify the amount of misses of a play.
    pub fn misses(self, n_misses: u32) -> (this: Self)
        ensures
            this == (Self { misses: Some(n_misses), ..self }),
    {
        Self { misses: Some(n_misses), ..self }
    }

    /// Use the specified settings of the given [`OsuStars`].
    pub fn difficulty(self, difficulty: OsuStars) -> (this: Self)
        ensures
            this == (Self { difficulty, ..self }),
    {
        Self { difficulty, ..self }
    }

    /// Amount of passed objects for partial plays, e.g. a fail.
    pub fn passed_objects(self, passed_objects: u32) -> (this: Self)
        ensures
            this.difficulty.spec_mods() == self.difficulty.spec_mods(),
            this.difficulty.spec_passed_objects() == Some(passed_objects),
            this.difficulty.spec_clock_rate() == self.difficulty.spec_clock_rate(),
            this.acc == self.acc,
            this.combo == self.combo,
            this.n300 == self.n300,
            this.n100 == self.n100,
            this.n50 == self.n50,
            this.misses == self.misses,
            this.hitresult_priority == self.hitresult_priority,
    {
        Self {
            difficulty: self.difficulty.passed_objects(passed_objects),
            acc: self.acc,
            combo: self.combo,
            n300: self.n300,
            n100: self.n100,
            n50: self.n50,
            misses: self.misses,
            hitresult_priority: self.hitresult_priority,
        }
    }

    /// Provide parameters through an [`OsuScoreState`].
    pub fn state(self, state: OsuScoreState) -> (this: Self)
        ensures
            this == (Self {
                combo: Some(state.max_combo),
                n300: Some(state.n300),
                n100: Some(state.n100),
                n50: Some(state.n50),
                misses: Some(state.misses),
                ..self
            }),
    {
        Self {
            combo: Some(state.max_combo),
            n300: Some(state.n300),
            n100: Some(state.n100),
            n50: Some(state.n50),
            misses: Some(state.misses),
            ..self
        }
    }

    /// Specify the accuracy of a play as a share between `0.0` and `1.0`,
    /// given as the bits of a double. This will be used to generate matching
    /// hitresults.
    pub fn accuracy(self, acc: u64) -> (this: Self)
        ensures
            this == (Self { acc: Some(acc), ..self }),
    {
        Self { acc: Some(acc), ..self }
    }

    /// Create the [`OsuScoreState`] that will be used for performance
    /// calculation, as far as the given counts settle it. `max_combo` is the
    /// maximum combo of the chart and `n_objects` the number of its objects.
    pub fn generate_state(&self, max_combo: u32, n_objects: u32) -> (results: OsuHitResults)
        requires
            self.in_range(n_objects),
        ensures
            results == self.spec_generate_state(max_combo, n_objects),
            results matches OsuHitResults::Open(search) ==> search.wf(),
    {
        let n_objects = limit_to(self.difficulty.get_passed_objects(), n_objects);
        let priority = self.hitresult_priority;

        let misses = given(self.misses, n_objects);
        let n_remaining = n_objects - misses;

        let mut n300 = given(self.n300, n_remaining);
        let mut n100 = given(self.n100, n_remaining);
        let mut n50 = given(self.n50, n_remaining);

        let max_possible_combo = sub_or_zero(max_combo, misses);
        let max_combo = match self.combo {
            Some(combo) => min_u32(combo, max_possible_combo),
            None => max_possible_combo,
        };

        if self.acc.is_some() {
            let kind = match (self.n300, self.n100, self.n50) {
                (Some(_), None, None) => Some(OsuSearchKind::N300Given),
                (None, Some(_), None) => Some(OsuSearchKind::N100Given),
                (None, None, Some(_)) => Some(OsuSearchKind::N50Given),
                (None, None, None) => Some(OsuSearchKind::NoneGiven),
                _ => None,
            };
            if let Some(kind) = kind {
                return OsuHitResults::Open(
                    OsuSearch {
                        kind,
                        n_objects,
                        n_remaining: n_remaining - n300 - n100 - n50,
                        n300,
                        n100,
                        n50,
                        misses,
                        max_combo,
                        priority,
                    },
                );
            }
        }
        let remaining = sub_or_zero(n_objects, n300 + n100 + n50 + misses);

        match priority {
            HitResultPriority::BestCase => match (self.n300, self.n100, self.n50) {
                (None, _, _) => n300 = remaining,
                (_, None, _) => n100 = remaining,
                (_, _, None) => n50 = remaining,
                _ => n300 += remaining,
            },
            HitResultPriority::WorstCase => match (self.n50, self.n100, self.n300) {
                (None, _, _) => n50 = remaining,
                (_, None, _) => n100 = remaining,
                (_, _, None) => n300 = remaining,
                _ => n50 += remaining,
            },
        }

        OsuHitResults::Settled(
            OsuScoreState {
                max_combo,
                n300,
                n100,
                n50,
                misses,
                large_tick_hits: 0,
                small_tick_hits: 0,
                slider_end_hits: 0,
            },
        )
    }
}

impl OsuSearch {
    /// The score that results from the counts that a search has found.
    /// Where all three counts were searched, results are moved between them
    /// in favour of the priority.
    pub open spec fn spec_settle(&self, n300: u32, n100: u32, n50: u32) -> OsuScoreState {
        let counts = if self.kind == OsuSearchKind::NoneGiven {
            spec_shift(self.priority, n300 as int, n100 as int, n50 as int)
        } else {
            (n300 as int, n100 as int, n50 as int)
        };
        OsuScoreState {
            max_combo: self.max_combo,
            n300: counts.0 as u32,
            n100: counts.1 as u32,
            n50: counts.2 as u32,
            misses: self.misses,
            large_tick_hits: 0,
            small_tick_hits: 0,
            slider_end_hits: 0,
        }
    }

    /// Takes over the counts that a search has found and hands out the score
    /// that results.
    pub fn settle(&self, n300: u32, n100: u32, n50: u32) -> (state: OsuScoreState)
        requires
            n300 + n100 + n50 <= u32::MAX,
        ensures
            state == self.spec_settle(n300, n100, n50),
            state.n300 + state.n100 + state.n50 == n300 + n100 + n50,
            spec_accuracy_parts(state.n300, state.n100, state.n50, state.misses)
                == spec_accuracy_parts(n300, n100, n50, self.misses),
    {
        let mut n300 = n300;
        let mut n100 = n100;
        let mut n50 = n50;
        if let OsuSearchKind::NoneGiven = self.kind {
            match self.priority {
                HitResultPriority::BestCase => {
                    // Shift n50 to n100 by sacrificing n300
                    let n = min_u32(n300, n50 / 4);
                    n300 -= n;
                    n100 += 5 * n;
                    n50 -= 4 * n;
                },
                HitResultPriority::WorstCase => {
                    // Shift n100 to n50 by gaining n300
                    let n = n100 / 5;
                    n300 += n;
                    n100 -= 5 * n;
                    n50 += 4 * n;
                },
            }
        }
        OsuScoreState {
            max_combo: self.max_combo,
            n300,
            n100,
            n50,
            misses: self.misses,
            large_tick_hits: 0,
            small_tick_hits: 0,
            slider_end_hits: 0,
        }
    }
}


/// The accuracy on circles alone as a fraction of two counts, where every
/// result that is no 300 is taken to be one on a circle: what the circles
/// earned, and six for each circle. Without circles, and where the other
/// objects outnumber the 300s, the accuracy is zero, which shows as a first
/// count of zero.
pub open spec fn spec_circle_accuracy_parts(state: OsuScoreState, n_circles: u32) -> (int, int) {
    let others = state.spec_total_hits() - n_circles;
    if n_circles == 0 || state.n300 < others {
        (0, 6 * n_circles)
    } else {
        ((state.n300 - others) * 6 + state.n100 * 2 + state.n50, 6 * n_circles)
    }
}

/// The accuracy on circles alone as a fraction of two counts. Where the
/// second count is zero the accuracy is zero.
pub fn circle_accuracy_parts(state: &OsuScoreState, n_circles: u32) -> (parts: (u32, u32))
    requires
        n_circles <= state.spec_total_hits(),
        6 * state.spec_total_hits() <= u32::MAX,
    ensures
        parts.0 == spec_circle_accuracy_parts(*state, n_circles).0,
        parts.1 == spec_circle_accuracy_parts(*state, n_circles).1,
{
    let amount_hit_objects_with_acc = n_circles;

    if amount_hit_objects_with_acc > 0 {
        let sub = state.total_hits() - amount_hit_objects_with_acc;

        // * It is possible to reach a negative accuracy with this formula. Cap it at zero - zero points.
        if state.n300 < sub {
            (0, amount_hit_objects_with_acc * 6)
        } else {
            (
                (state.n300 - sub) * 6 + state.n100 * 2 + state.n50,
                amount_hit_objects_with_acc * 6,
            )
        }
    } else {
        (0, 0)
    }
}

/// The most slider ends that a score can have dropped: no more than it has
/// results that are no 300s, and no more than its combo is short of the
/// maximum combo.
pub fn max_slider_ends_dropped(state: &OsuScoreState, max_combo: u32) -> (dropped: u32)
    requires
        state.n100 + state.n50 + state.misses <= u32::MAX,
    ensures
        dropped == spec_min(
            state.n100 + state.n50 + state.misses,
            spec_sub(max_combo as int, state.max_combo as int),
        ),
{
    min_u32(state.n100 + state.n50 + state.misses, sub_or_zero(max_combo, state.max_combo))
}


/// The bits of the largest double that is a number: the distance that a
/// search starts with.
pub const MAX_DIST: u64 = 0x7FEF_FFFF_FFFF_FFFF;

impl OsuSearch {
    /// The counts of the search add up to the results of the score, only
    /// given counts are set, and the results are few enough to be weighed.
    pub open spec fn wf(&self) -> bool {
        &&& self.n300 + self.n100 + self.n50 + self.n_remaining + self.misses == self.n_objects
        &&& 6 * self.n_objects <= u32::MAX
        &&& self.kind != OsuSearchKind::N300Given ==> self.n300 == 0
        &&& self.kind != OsuSearchKind::N100Given ==> self.n100 == 0
        &&& self.kind != OsuSearchKind::N50Given ==> self.n50 == 0
    }

    /// The least and the largest candidate that a search looks at, given
    /// the candidate that the wanted accuracy asks for, rounded down and
    /// rounded up: neither is more than the results that are searched.
    pub open spec fn spec_bounds(&self, raw_floor: u32, raw_ceil: u32) -> (u32, u32) {
        (
            spec_min(self.n_remaining as int, raw_floor as int) as u32,
            spec_min(self.n_remaining as int, raw_ceil as int) as u32,
        )
    }

    /// The counts that a candidate stands for where one count is given: the
    /// candidate is the better one of the two counts that are searched, and
    /// the other one takes the rest.
    pub open spec fn spec_candidate(&self, candidate: u32) -> (u32, u32, u32) {
        let rest = (self.n_remaining - candidate) as u32;
        match self.kind {
            OsuSearchKind::N300Given => (self.n300, candidate, rest),
            OsuSearchKind::N100Given => (candidate, self.n100, rest),
            _ => (candidate, rest, self.n50),
        }
    }

    /// The counts that a search with one given count ends with, given what
    /// came closest: without a candidate that came closer than any number,
    /// the given count alone.
    pub open spec fn spec_found_given(&self, best: Closest) -> (u32, u32, u32) {
        match best.found {
            Some(candidate) => self.spec_candidate(candidate),
            None => (self.n300, self.n100, self.n50),
        }
    }

    /// Whether `found` is what a search with one given count ends with,
    /// where `dists` are distances that `dist` has for the candidates in
    /// rising order.
    pub open spec fn searched_given<D: Fn(u32, u32, u32) -> u64>(
        &self,
        raw_floor: u32,
        raw_ceil: u32,
        dist: &D,
        dists: Seq<u64>,
        found: (u32, u32, u32),
    ) -> bool {
        let (lo, hi) = self.spec_bounds(raw_floor, raw_ceil);
        &&& dists.len() == range_len(lo, hi)
        &&& forall|i: int|
            0 <= i < dists.len() ==> call_ensures(
                dist,
                self.spec_candidate((lo + i) as u32),
                #[trigger] dists[i],
            )
        &&& found == self.spec_found_given(
            spec_scan(Closest { dist: MAX_DIST, found: None }, lo, dists),
        )
    }

    /// Searches, where one of the three counts is given, the split of the
    /// remaining results into the other two whose accuracy comes closest to
    /// the wanted one. `raw_floor` and `raw_ceil` are the candidate that the
    /// wanted accuracy asks for, rounded down and rounded up, and `dist` says
    /// for 300s, 100s and 50s how far the accuracy of a score with them is
    /// from the wanted one, as the bits of a double.
    ///
    /// The candidates are looked at in rising order, and of those that come
    /// closest the first one is taken.
    pub fn closest_given<D: Fn(u32, u32, u32) -> u64>(
        &self,
        raw_floor: u32,
        raw_ceil: u32,
        dist: &D,
    ) -> (found: (u32, u32, u32))
        requires
            self.wf(),
            self.kind != OsuSearchKind::NoneGiven,
            forall|n300: u32, n100: u32, n50: u32|
                n300 + n100 + n50 + self.misses == self.n_objects ==> call_requires(
                    dist,
                    (n300, n100, n50),
                ),
        ensures
            exists|dists: Seq<u64>| #[trigger]
                self.searched_given(raw_floor, raw_ceil, dist, dists, found),
            found.0 + found.1 + found.2 + self.misses <= self.n_objects,
    {
        let n_remaining = self.n_remaining;
        let lo = min_u32(n_remaining, raw_floor);
        let hi = min_u32(n_remaining, raw_ceil);
        let kind = self.kind;
        let n300 = self.n300;
        let n100 = self.n100;
        let n50 = self.n50;

        let of_candidate = |candidate: u32| -> (d: u64)
            requires
                candidate <= n_remaining,
                call_requires(dist, self.spec_candidate(candidate)),
            ensures
                call_ensures(dist, self.spec_candidate(candidate), d),
            {
                let rest = n_remaining - candidate;
                match kind {
                    OsuSearchKind::N300Given => dist(n300, candidate, rest),
                    OsuSearchKind::N100Given => dist(candidate, n100, rest),
                    _ => dist(candidate, rest, n50),
                }
            };

        let start = Closest { dist: MAX_DIST, found: None };
        let best = scan(start, lo, hi, &of_candidate);
        proof {
            let dists = choose|dists: Seq<u64>| scanned(start, lo, hi, &of_candidate, dists, best);
            lemma_scan_within(start, lo, dists);
            assert forall|i: int| 0 <= i < dists.len() implies call_ensures(
                dist,
                self.spec_candidate((lo + i) as u32),
                #[trigger] dists[i],
            ) by {
                assert(call_ensures(of_candidate, ((lo + i) as u32,), dists[i]));
            }
            assert(self.searched_given(
                raw_floor,
                raw_ceil,
                dist,
                dists,
                self.spec_found_given(best),
            ));
        }

        match best.found {
            Some(candidate) => {
                let rest = n_remaining - candidate;
                match kind {
                    OsuSearchKind::N300Given => (n300, candidate, rest),
                    OsuSearchKind::N100Given => (candidate, n100, rest),
                    _ => (candidate, rest, n50),
                }
            },
            None => (n300, n100, n50),
        }
    }

    /// The counts that a search of all three counts ends with, given what
    /// came closest: without a candidate that came closer than any number,
    /// no results at all.
    pub open spec fn spec_found_free(&self, best: Closest2) -> (u32, u32, u32) {
        match best.found {
            Some(pair) => (pair.0, pair.1, (self.n_remaining - pair.0 - pair.1) as u32),
            None => (0, 0, 0),
        }
    }

    /// Whether `row` holds what `bounds` and `dist` have for a number of
    /// 300s: bounds for the 100s, and a distance for each number of 100s
    /// between them, with the 50s that it leaves.
    pub open spec fn row_of<B: Fn(u32) -> (u32, u32), D: Fn(u32, u32, u32) -> u64>(
        &self,
        n300: u32,
        bounds: &B,
        dist: &D,
        row: Row,
    ) -> bool {
        let (lo, hi) = spec_clamp(row.0, self.n_remaining, n300);
        &&& call_ensures(bounds, (n300,), row.0)
        &&& row.1.len() == range_len(lo, hi)
        &&& forall|j: int|
            0 <= j < row.1.len() ==> call_ensures(
                dist,
                (n300, (lo + j) as u32, (self.n_remaining - n300 - (lo + j)) as u32),
                #[trigger] row.1[j],
            )
    }

    /// Whether `found` is what a search of all three counts ends with, where
    /// `rows` hold what `bounds` and `dist` have for the numbers of 300s in
    /// rising order.
    pub open spec fn searched_free<B: Fn(u32) -> (u32, u32), D: Fn(u32, u32, u32) -> u64>(
        &self,
        raw_floor: u32,
        raw_ceil: u32,
        bounds: &B,
        dist: &D,
        rows: Seq<Row>,
        found: (u32, u32, u32),
    ) -> bool {
        let (lo, hi) = self.spec_bounds(raw_floor, raw_ceil);
        &&& rows.len() == range_len(lo, hi)
        &&& forall|i: int|
            0 <= i < rows.len() ==> self.row_of((lo + i) as u32, bounds, dist, #[trigger] rows[i])
        &&& found == self.spec_found_free(
            spec_scan2(Closest2 { dist: MAX_DIST, found: None }, lo, self.n_remaining, rows),
        )
    }

    /// Searches, where none of the three counts is given, the split of the
    /// results that are no misses whose accuracy comes closest to the wanted
    /// one. `raw_floor` and `raw_ceil` are the number of 300s that the wanted
    /// accuracy asks for, rounded down and rounded up; `bounds` says the
    /// same of the 100s for a number of 300s; and `dist` says for 300s, 100s
    /// and 50s how far the accuracy of a score with them is from the wanted
    /// one, as the bits of a double.
    ///
    /// The candidates are looked at in rising order, 300s before 100s, and
    /// of those that come closest the first one is taken.
    pub fn closest_free<B: Fn(u32) -> (u32, u32), D: Fn(u32, u32, u32) -> u64>(
        &self,
        raw_floor: u32,
        raw_ceil: u32,
        bounds: &B,
        dist: &D,
    ) -> (found: (u32, u32, u32))
        requires
            self.wf(),
            self.kind == OsuSearchKind::NoneGiven,
            forall|n300: u32| n300 <= self.n_remaining ==> call_requires(bounds, (n300,)),
            forall|n300: u32, n100: u32, n50: u32|
                n300 + n100 + n50 + self.misses == self.n_objects ==> call_requires(
                    dist,
                    (n300, n100, n50),
                ),
        ensures
            exists|rows: Seq<Row>| #[trigger]
                self.searched_free(raw_floor, raw_ceil, bounds, dist, rows, found),
            found.0 + found.1 + found.2 + self.misses <= self.n_objects,
    {
        let n_remaining = self.n_remaining;
        let lo = min_u32(n_remaining, raw_floor);
        let hi = min_u32(n_remaining, raw_ceil);

        let of_pair = |new300: u32, new100: u32| -> (d: u64)
            requires
                new300 <= n_remaining,
                new100 <= n_remaining - new300,
                call_requires(dist, (new300, new100, (n_remaining - new300 - new100) as u32)),
            ensures
                call_ensures(dist, (new300, new100, (n_remaining - new300 - new100) as u32), d),
            {
                let new50 = n_remaining - new300 - new100;
                dist(new300, new100, new50)
            };

        let start = Closest2 { dist: MAX_DIST, found: None };
        let best = scan2(start, lo, hi, n_remaining, bounds, &of_pair);
        proof {
            let rows = choose|rows: Seq<Row>|
                scanned2(start, lo, hi, n_remaining, bounds, &of_pair, rows, best);
            assert forall|i: int| 0 <= i < rows.len() implies self.row_of(
                (lo + i) as u32,
                bounds,
                dist,
                #[trigger] rows[i],
            ) by {
                let a = (lo + i) as u32;
                let row = rows[i];
                assert(crate::util::closest::row_of(a, n_remaining, bounds, &of_pair, row));
                let lo2 = spec_clamp(row.0, n_remaining, a).0;
                assert forall|j: int| 0 <= j < row.1.len() implies call_ensures(
                    dist,
                    (a, (lo2 + j) as u32, (n_remaining - a - (lo2 + j)) as u32),
                    #[trigger] row.1[j],
                ) by {
                    assert(call_ensures(of_pair, (a, (lo2 + j) as u32), row.1[j]));
                }
            }
            assert forall|i: int| 0 <= i < rows.len() implies (#[trigger] rows[i]).1.len()
                == range_len(
                spec_clamp(rows[i].0, n_remaining, (lo + i) as u32).0,
                spec_clamp(rows[i].0, n_remaining, (lo + i) as u32).1,
            ) by {
                assert(crate::util::closest::row_of(
                    (lo + i) as u32,
                    n_remaining,
                    bounds,
                    &of_pair,
                    rows[i],
                ));
            }
            lemma_scan2_within(start, lo, n_remaining, rows);
            assert(self.searched_free(
                raw_floor,
                raw_ceil,
                bounds,
                dist,
                rows,
                self.spec_found_free(best),
            ));
        }

        match best.found {
            Some(pair) => (pair.0, pair.1, n_remaining - pair.0 - pair.1),
            None => (0, 0, 0),
        }
    }
}

} // verus!
