use vstd::prelude::*;

use crate::any_2024::difficulty::Difficulty;
use crate::util::mods::{GameMods, Mods};
use crate::util::closest::{
    lemma_scan2_within, lemma_scan_within, range_len, scan, scan2, scanned, scanned2, spec_clamp,
    spec_scan, spec_scan2, Closest, Closest2, Row,
};
use crate::util::priority::{
    given, limit_to, min_u32, spec_given, spec_min, spec_sub, sub_or_zero, HitResultPriority,
};
use crate::util::score_state::{spec_denominator, spec_numerator, OsuScoreOrigin, OsuScoreState};

verus! {

/// Which of the three counts a search has to leave as it is.
#[derive(Copy, Clone, Debug, PartialEq, Eq, Structural)]
pub enum OsuSearchKind {
    /// The 300s are given; 100s and 50s are searched.
    N300Given,
    /// The 100s are given; 300s and 50s are searched.
    N100Given,
    /// The 50s are given; 300s and 100s are searched.
    N50Given,
    /// All three counts are searched.
    NoneGiven,
}

/// What a chart holds, as far as the results of a score depend on it.
#[derive(Copy, Clone, Debug, PartialEq, Eq, Structural)]
pub struct OsuObjectCounts {
    /// The maximum combo.
    pub max_combo: u32,
    /// The number of circles, sliders and spinners.
    pub n_objects: u32,
    /// The number of sliders.
    pub n_sliders: u32,
    /// The number of slider ticks and repeats.
    pub n_large_ticks: u32,
}

/// The hits on parts of sliders, as far as the score's origin counts them.
#[derive(Copy, Clone, Debug, PartialEq, Eq, Structural)]
pub struct SliderHits {
    pub origin: OsuScoreOrigin,
    pub slider_end_hits: u32,
    pub large_tick_hits: u32,
    pub small_tick_hits: u32,
}

/// A search that is still to be made: among the ways to split
/// `n_remaining` results into the counts that are not given, the one whose
/// accuracy comes closest to the wanted one.
#[derive(Copy, Clone, Debug, PartialEq, Eq, Structural)]
pub struct OsuSearch {
    pub kind: OsuSearchKind,
    /// The number of results of the score.
    pub n_objects: u32,
    /// The number of results that go to the counts that are searched.
    pub n_remaining: u32,
    /// The given 300s, or none.
    pub n300: u32,
    /// The given 100s, or none.
    pub n100: u32,
    /// The given 50s, or none.
    pub n50: u32,
    /// The number of misses.
    pub misses: u32,
    /// The combo of the score.
    pub max_combo: u32,
    pub priority: HitResultPriority,
    pub sliders: SliderHits,
    /// What the hits on parts of sliders earn towards the accuracy.
    pub slider_acc_value: u32,
    /// What the parts of sliders could earn towards the accuracy.
    pub max_slider_acc_value: u32,
}

/// What the given counts settle of a score's results.
#[derive(Copy, Clone, Debug, PartialEq, Eq, Structural)]
pub enum OsuHitResults {
    /// Every count is settled.
    Settled(OsuScoreState),
    /// The misses, the combo and the hits on sliders are settled; other
    /// counts depend on the wanted accuracy.
    Open(OsuSearch),
}

/// Where a score comes from: stable, or lazer with or without the accuracy
/// of slider heads.
pub open spec fn spec_origin(lazer: bool, classic: bool, n_sliders: u32, n_large_ticks: u32)
    -> OsuScoreOrigin {
    if !lazer {
        OsuScoreOrigin::Stable
    } else if !classic {
        OsuScoreOrigin::WithSliderAcc {
            max_large_ticks: n_large_ticks,
            max_slider_ends: n_sliders,
        }
    } else {
        OsuScoreOrigin::WithoutSliderAcc {
            max_large_ticks: (n_sliders + n_large_ticks) as u32,
            max_small_ticks: n_sliders,
        }
    }
}

/// A given count of hits, held to at most `limit`; without a count, all.
pub open spec fn spec_given_or_all(count: Option<u32>, limit: u32) -> u32 {
    match count {
        Some(n) => if n <= limit {
            n
        } else {
            limit
        },
        None => limit,
    }
}

/// The hits on parts of sliders that a score of the given origin counts.
pub open spec fn spec_slider_hits(
    origin: OsuScoreOrigin,
    slider_end_hits: Option<u32>,
    large_tick_hits: Option<u32>,
    small_tick_hits: Option<u32>,
) -> SliderHits {
    match origin {
        OsuScoreOrigin::Stable => SliderHits {
            origin,
            slider_end_hits: 0,
            large_tick_hits: 0,
            small_tick_hits: 0,
        },
        OsuScoreOrigin::WithSliderAcc { max_large_ticks, max_slider_ends } => SliderHits {
            origin,
            slider_end_hits: spec_given_or_all(slider_end_hits, max_slider_ends),
            large_tick_hits: spec_given_or_all(large_tick_hits, max_large_ticks),
            small_tick_hits: 0,
        },
        OsuScoreOrigin::WithoutSliderAcc { max_large_ticks, max_small_ticks } => SliderHits {
            origin,
            slider_end_hits: 0,
            large_tick_hits: spec_given_or_all(large_tick_hits, max_large_ticks),
            small_tick_hits: spec_given_or_all(small_tick_hits, max_small_ticks),
        },
    }
}

/// What the hits on parts of sliders earn towards the accuracy.
pub open spec fn spec_slider_acc_value(hits: SliderHits) -> int {
    match hits.origin {
        OsuScoreOrigin::Stable => 0,
        OsuScoreOrigin::WithSliderAcc { .. } => 150 * hits.slider_end_hits + 30
            * hits.large_tick_hits,
        OsuScoreOrigin::WithoutSliderAcc { .. } => 30 * hits.large_tick_hits + 10
            * hits.small_tick_hits,
    }
}

/// What the parts of sliders could earn towards the accuracy.
pub open spec fn spec_max_slider_acc_value(origin: OsuScoreOrigin) -> int {
    match origin {
        OsuScoreOrigin::Stable => 0,
        OsuScoreOrigin::WithSliderAcc { max_large_ticks, max_slider_ends } => 150
            * max_slider_ends + 30 * max_large_ticks,
        OsuScoreOrigin::WithoutSliderAcc { max_large_ticks, max_small_ticks } => 30
            * max_large_ticks + 10 * max_small_ticks,
    }
}

/// The combo of a score: the given one, but no more than the misses leave.
pub open spec fn spec_combo(combo: Option<u32>, max_combo: u32, misses: int) -> int {
    match combo {
        Some(combo) => spec_min(combo as int, spec_sub(max_combo as int, misses)),
        None => spec_sub(max_combo as int, misses),
    }
}

/// The counts of a score for which at most one count is missing, or for
/// which no accuracy is wanted.
///
/// Given counts are held to what the misses leave. Results that no count
/// accounts for go to the first count that was not given, in the order of the
/// priority, and to the priority's first count if all were given.
pub open spec fn spec_settled(
    priority: HitResultPriority,
    n300: Option<u32>,
    n100: Option<u32>,
    n50: Option<u32>,
    total: int,
    misses: int,
) -> (int, int, int) {
    let n_remaining = total - misses;
    let c300 = spec_given(n300, n_remaining);
    let c100 = spec_given(n100, n_remaining);
    let c50 = spec_given(n50, n_remaining);
    let remaining = spec_sub(total, c300 + c100 + c50 + misses);
    match priority {
        HitResultPriority::BestCase => if n300 is None {
            (remaining, c100, c50)
        } else if n100 is None {
            (c300, remaining, c50)
        } else if n50 is None {
            (c300, c100, remaining)
        } else {
            (c300 + remaining, c100, c50)
        },
        HitResultPriority::WorstCase => if n50 is None {
            (c300, c100, remaining)
        } else if n100 is None {
            (c300, remaining, c50)
        } else if n300 is None {
            (remaining, c100, c50)
        } else {
            (c300, c100, c50 + remaining)
        },
    }
}

/// How many of the three counts are not given.
pub open spec fn spec_missing(n300: Option<u32>, n100: Option<u32>, n50: Option<u32>) -> int {
    (if n300 is None {
        1int
    } else {
        0int
    }) + (if n100 is None {
        1int
    } else {
        0int
    }) + (if n50 is None {
        1int
    } else {
        0int
    })
}

/// The counts after results were moved between them in favour of the
/// priority, which changes neither their sum nor the accuracy: in the best
/// case each 300 that is given up together with four 50s makes five 100s, and
/// in the worst case five 100s make a 300 and four 50s.
pub open spec fn spec_shift(priority: HitResultPriority, n300: int, n100: int, n50: int) -> (
    int,
    int,
    int,
) {
    match priority {
        HitResultPriority::BestCase => {
            let n = spec_min(n300, n50 / 4);
            (n300 - n, n100 + 5 * n, n50 - 4 * n)
        },
        HitResultPriority::WorstCase => {
            let n = n100 / 5;
            (n300 + n, n100 - 5 * n, n50 + 4 * n)
        },
    }
}

/// Moving results between the counts keeps their sum and what they earn
/// towards the accuracy, and leaves no count below zero.
pub proof fn lemma_shift_keeps_accuracy(priority: HitResultPriority, n300: int, n100: int, n50: int)
    requires
        n300 >= 0,
        n100 >= 0,
        n50 >= 0,
    ensures
        ({
            let shifted = spec_shift(priority, n300, n100, n50);
            &&& shifted.0 >= 0 && shifted.1 >= 0 && shifted.2 >= 0
            &&& shifted.0 + shifted.1 + shifted.2 == n300 + n100 + n50
            &&& 300 * shifted.0 + 100 * shifted.1 + 50 * shifted.2 == 300 * n300 + 100 * n100 + 50
                * n50
        }),
{
}

/// A settled score accounts for every object that the play got to, and for
/// no more unless the given counts alone are too many.
pub proof fn lemma_settled_accounts_for_all(
    priority: HitResultPriority,
    n300: Option<u32>,
    n100: Option<u32>,
    n50: Option<u32>,
    total: int,
    misses: int,
)
    requires
        0 <= misses <= total,
    ensures
        ({
            let counts = spec_settled(priority, n300, n100, n50, total, misses);
            let given = spec_given(n300, total - misses) + spec_given(n100, total - misses)
                + spec_given(n50, total - misses);
            &&& counts.0 >= 0 && counts.1 >= 0 && counts.2 >= 0
            &&& counts.0 + counts.1 + counts.2 + misses >= total
            &&& given <= total - misses ==> counts.0 + counts.1 + counts.2 + misses == total
        }),
{
}

/// Performance calculator on charts of the standard mode: the parameters of
/// a score as far as they are known.
#[derive(Clone, Debug, PartialEq, Eq)]
pub struct OsuPP {
    pub difficulty: Difficulty,
    /// The wanted accuracy between `0.0` and `1.0`, as the bits of a double.
    pub acc: Option<u64>,
    pub combo: Option<u32>,
    pub large_tick_hits: Option<u32>,
    pub small_tick_hits: Option<u32>,
    pub slider_end_hits: Option<u32>,
    pub n300: Option<u32>,
    pub n100: Option<u32>,
    pub n50: Option<u32>,
    pub misses: Option<u32>,
    pub hitresult_priority: HitResultPriority,
}

impl OsuPP {
    /// The number of results of a score: one for each object that the play
    /// got to.
    pub open spec fn spec_n_objects(&self, n_objects: u32) -> int {
        spec_min(self.difficulty.spec_get_passed_objects() as int, n_objects as int)
    }

    /// Where the score comes from.
    pub open spec fn spec_score_origin(&self, chart: OsuObjectCounts) -> OsuScoreOrigin {
        let lazer = self.difficulty.spec_get_lazer();
        spec_origin(
            lazer,
            self.difficulty.spec_mods().spec_no_slider_head_acc(lazer),
            chart.n_sliders,
            chart.n_large_ticks,
        )
    }

    /// The hits on parts of sliders that the score counts.
    pub open spec fn spec_sliders(&self, chart: OsuObjectCounts) -> SliderHits {
        spec_slider_hits(
            self.spec_score_origin(chart),
            self.slider_end_hits,
            self.large_tick_hits,
            self.small_tick_hits,
        )
    }

    /// Whether the counts are small enough to be added up, and to be weighed
    /// where an accuracy is wanted.
    pub open spec fn in_range(&self, chart: OsuObjectCounts) -> bool {
        &&& 3 * self.spec_n_objects(chart.n_objects) <= u32::MAX
        &&& chart.n_sliders + chart.n_large_ticks <= u32::MAX
        &&& spec_max_slider_acc_value(self.spec_score_origin(chart)) <= u32::MAX
        &&& self.acc is Some ==> 300 * self.spec_n_objects(chart.n_objects)
            + spec_max_slider_acc_value(self.spec_score_origin(chart)) <= u32::MAX
    }

    /// What [`OsuPP::generate_state`] returns.
    pub open spec fn spec_generate_state(&self, chart: OsuObjectCounts) -> OsuHitResults {
        let total = self.spec_n_objects(chart.n_objects);
        let misses = spec_given(self.misses, total);
        let n_remaining = total - misses;
        let combo = spec_combo(self.combo, chart.max_combo, misses);
        let sliders = self.spec_sliders(chart);
        if self.acc is Some && spec_missing(self.n300, self.n100, self.n50) >= 2 {
            let c300 = spec_given(self.n300, n_remaining);
            let c100 = spec_given(self.n100, n_remaining);
            let c50 = spec_given(self.n50, n_remaining);
            OsuHitResults::Open(
                OsuSearch {
                    kind: if self.n300 is Some {
                        OsuSearchKind::N300Given
                    } else if self.n100 is Some {
                        OsuSearchKind::N100Given
                    } else if self.n50 is Some {
                        OsuSearchKind::N50Given
                    } else {
                        OsuSearchKind::NoneGiven
                    },
                    n_objects: total as u32,
                    n_remaining: (n_remaining - c300 - c100 - c50) as u32,
                    n300: c300 as u32,
                    n100: c100 as u32,
                    n50: c50 as u32,
                    misses: misses as u32,
                    max_combo: combo as u32,
                    priority: self.hitresult_priority,
                    sliders,
                    slider_acc_value: spec_slider_acc_value(sliders) as u32,
                    max_slider_acc_value: spec_max_slider_acc_value(sliders.origin) as u32,
                },
            )
        } else {
            let counts = spec_settled(
                self.hitresult_priority,
                self.n300,
                self.n100,
                self.n50,
                total,
                misses,
            );
            OsuHitResults::Settled(
                OsuScoreState {
                    max_combo: combo as u32,
                    large_tick_hits: sliders.large_tick_hits,
                    small_tick_hits: sliders.small_tick_hits,
                    slider_end_hits: sliders.slider_end_hits,
                    n300: counts.0 as u32,
                    n100: counts.1 as u32,
                    n50: counts.2 as u32,
                    misses: misses as u32,
                },
            )
        }
    }

    /// Create a new performance calculator for charts of the standard mode.
    pub fn new() -> (this: Self)
        ensures
            this.difficulty.spec_mods() == GameMods::Legacy(0),
            this.difficulty.spec_passed_objects() is None,
            this.difficulty.spec_clock_rate() is None,
            this.difficulty.spec_lazer() is None,
            this.acc is None,
            this.combo is None,
            this.large_tick_hits is None,
            this.small_tick_hits is None,
            this.slider_end_hits is None,
            this.n300 is None,
            this.n100 is None,
            this.n50 is None,
            this.misses is None,
            this.hitresult_priority == HitResultPriority::BestCase,
    {
        Self {
            difficulty: Difficulty::new(),
            acc: None,
            combo: None,
            large_tick_hits: None,
            small_tick_hits: None,
            slider_end_hits: None,
            n300: None,
            n100: None,
            n50: None,
            misses: None,
            hitresult_priority: HitResultPriority::BestCase,
        }
    }

    /// Use the specified settings of the given [`Difficulty`].
    pub fn difficulty(self, difficulty: Difficulty) -> (this: Self)
        ensures
            this == (Self { difficulty, ..self }),
    {
        Self { difficulty, ..self }
    }

    /// Specify mods.
    pub fn mods(self, mods: GameMods) -> (this: Self)
        ensures
            this.difficulty.spec_mods() == mods,
            this.difficulty.spec_passed_objects() == self.difficulty.spec_passed_objects(),
            this.difficulty.spec_clock_rate() == self.difficulty.spec_clock_rate(),
            this.difficulty.spec_lazer() == self.difficulty.spec_lazer(),
            this == (Self { difficulty: this.difficulty, ..self }),
    {
        let Self {
            difficulty,
            acc,
            combo,
            large_tick_hits,
            small_tick_hits,
            slider_end_hits,
            n300,
            n100,
            n50,
            misses,
            hitresult_priority,
        } = self;
        Self {
            difficulty: difficulty.mods(mods),
            acc,
            combo,
            large_tick_hits,
            small_tick_hits,
            slider_end_hits,
            n300,
            n100,
            n50,
            misses,
            hitresult_priority,
        }
    }

    /// Amount of passed objects for partial plays, e.g. a fail.
    pub fn passed_objects(self, passed_objects: u32) -> (this: Self)
        ensures
            this.difficulty.spec_mods() == self.difficulty.spec_mods(),
            this.difficulty.spec_passed_objects() == Some(passed_objects),
            this.difficulty.spec_clock_rate() == self.difficulty.spec_clock_rate(),
            this.difficulty.spec_lazer() == self.difficulty.spec_lazer(),
            this == (Self { difficulty: this.difficulty, ..self }),
    {
        let Self {
            difficulty,
            acc,
            combo,
            large_tick_hits,
            small_tick_hits,
            slider_end_hits,
            n300,
            n100,
            n50,
            misses,
            hitresult_priority,
        } = self;
        Self {
            difficulty: difficulty.passed_objects(passed_objects),
            acc,
            combo,
            large_tick_hits,
            small_tick_hits,
            slider_end_hits,
            n300,
            n100,
            n50,
            misses,
            hitresult_priority,
        }
    }

    /// Whether the calculated attributes belong to a lazer or a stable
    /// score.
    ///
    /// Defaults to `true`.
    ///
    /// This affects internal accuracy calculation because lazer considers
    /// slider heads for accuracy whereas stable does not.
    pub fn lazer(self, lazer: bool) -> (this: Self)
        ensures
            this.difficulty.spec_mods() == self.difficulty.spec_mods(),
            this.difficulty.spec_passed_objects() == self.difficulty.spec_passed_objects(),
            this.difficulty.spec_clock_rate() == self.difficulty.spec_clock_rate(),
            this.difficulty.spec_lazer() == Some(lazer),
            this == (Self { difficulty: this.difficulty, ..self }),
    {
        let Self {
            difficulty,
            acc,
            combo,
            large_tick_hits,
            small_tick_hits,
            slider_end_hits,
            n300,
            n100,
            n50,
            misses,
            hitresult_priority,
        } = self;
        Self {
            difficulty: difficulty.lazer(lazer),
            acc,
            combo,
            large_tick_hits,
            small_tick_hits,
            slider_end_hits,
            n300,
            n100,
            n50,
            misses,
            hitresult_priority,
        }
    }

    /// Specify the max combo of the play.
    pub fn combo(self, combo: u32) -> (this: Self)
        ensures
            this == (Self { combo: Some(combo), ..self }),
    {
        Self { combo: Some(combo), ..self }
    }

    /// Specify how hitresults should be generated.
    ///
    /// Defauls to [`HitResultPriority::BestCase`].
    pub fn hitresult_priority(self, priority: HitResultPriority) -> (this: Self)
        ensures
            this == (Self { hitresult_priority: priority, ..self }),
    {
        Self { hitresult_priority: priority, ..self }
    }

    /// Specify the amount of "large tick" hits.
    ///
    /// The meaning depends on the kind of score:
    /// - if set on stable, this value is irrelevant and can be `0`
    /// - if set on lazer *without* `CL`, this value is the amount of hit
    ///   slider ticks and repeats
    /// - if set on lazer *with* `CL`, this value is the amount of hit
    ///   slider heads, ticks, and repeats
    pub fn large_tick_hits(self, large_tick_hits: u32) -> (this: Self)
        ensures
            this == (Self { large_tick_hits: Some(large_tick_hits), ..self }),
    {
        Self { large_tick_hits: Some(large_tick_hits), ..self }
    }

    /// Specify the amount of "small tick" hits.
    ///
    /// Only relevant for lazer scores without slider accuracy. In that case,
    /// this value is the amount of slider tail hits.
    pub fn small_tick_hits(self, small_tick_hits: u32) -> (this: Self)
        ensures
            this == (Self { small_tick_hits: Some(small_tick_hits), ..self }),
    {
        Self { small_tick_hits: Some(small_tick_hits), ..self }
    }

    /// Specify the amount of hit slider ends.
    ///
    /// Only relevant for lazer scores with slider accuracy.
    pub fn slider_end_hits(self, slider_end_hits: u32) -> (this: Self)
        ensures
            this == (Self { slider_end_hits: Some(slider_end_hits), ..self }),
    {
        Self { slider_end_hits: Some(slider_end_hits), ..self }
    }

    /// Specify the amount of 300s of a play.
    pub fn n300(self, n300: u32) -> (this: Self)
        ensures
            this == (Self { n300: Some(n300), ..self }),
    {
        Self { n300: Some(n300), ..self }
    }

    /// Specify the amount of 100s of a play.
    pub fn n100(self, n100: u32) -> (this: Self)
        ensures
            this == (Self { n100: Some(n100), ..self }),
    {
        Self { n100: Some(n100), ..self }
    }

    /// Specify the amount of 50s of a play.
    pub fn n50(self, n50: u32) -> (this: Self)
        ensures
            this == (Self { n50: Some(n50), ..self }),
    {
        Self { n50: Some(n50), ..self }
    }

    /// Specify the amount of misses of a play.
    pub fn misses(self, n_misses: u32) -> (this: Self)
        ensures
            this == (Self { misses: Some(n_misses), ..self }),
    {
        Self { misses: Some(n_misses), ..self }
    }

    /// Provide parameters through an [`OsuScoreState`].
    pub fn state(self, state: OsuScoreState) -> (this: Self)
        ensures
            this == (Self {
                combo: Some(state.max_combo),
                large_tick_hits: Some(state.large_tick_hits),
                small_tick_hits: Some(state.small_tick_hits),
                slider_end_hits: Some(state.slider_end_hits),
                n300: Some(state.n300),
                n100: Some(state.n100),
                n50: Some(state.n50),
                misses: Some(state.misses),
                ..self
            }),
    {
        Self {
            combo: Some(state.max_combo),
            large_tick_hits: Some(state.large_tick_hits),
            small_tick_hits: Some(state.small_tick_hits),
            slider_end_hits: Some(state.slider_end_hits),
            n300: Some(state.n300),
            n100: Some(state.n100),
            n50: Some(state.n50),
            misses: Some(state.misses),
            ..self
        }
    }

    /// Specify the accuracy of a play as a share between `0.0` and `1.0`,
    /// given as the bits of a double. This will be used to generate matching
    /// hitresults.
    pub fn accuracy(self, acc: u64) -> (this: Self)
        ensures
            this == (Self { acc: Some(acc), ..self }),
    {
        Self { acc: Some(acc), ..self }
    }

    /// Where the score comes from.
    pub fn score_origin(&self, chart: OsuObjectCounts) -> (origin: OsuScoreOrigin)
        requires
            chart.n_sliders + chart.n_large_ticks <= u32::MAX,
        ensures
            origin == self.spec_score_origin(chart),
    {
        let lazer = self.difficulty.get_lazer();
        let using_classic_slider_acc = self.difficulty.get_mods().no_slider_head_acc(lazer);

        match (lazer, using_classic_slider_acc) {
            (false, _) => OsuScoreOrigin::Stable,
            (true, false) => OsuScoreOrigin::WithSliderAcc {
                max_large_ticks: chart.n_large_ticks,
                max_slider_ends: chart.n_sliders,
            },
            (true, true) => OsuScoreOrigin::WithoutSliderAcc {
                max_large_ticks: chart.n_sliders + chart.n_large_ticks,
                max_small_ticks: chart.n_sliders,
            },
        }
    }

    /// The hits on parts of sliders that the score counts.
    pub fn slider_hits(&self, chart: OsuObjectCounts) -> (hits: SliderHits)
        requires
            chart.n_sliders + chart.n_large_ticks <= u32::MAX,
        ensures
            hits == self.spec_sliders(chart),
    {
        let origin = self.score_origin(chart);
        match origin {
            OsuScoreOrigin::Stable => SliderHits {
                origin,
                slider_end_hits: 0,
                large_tick_hits: 0,
                small_tick_hits: 0,
            },
            OsuScoreOrigin::WithSliderAcc { max_large_ticks, max_slider_ends } => SliderHits {
                origin,
                slider_end_hits: given_or_all(self.slider_end_hits, max_slider_ends),
                large_tick_hits: given_or_all(self.large_tick_hits, max_large_ticks),
                small_tick_hits: 0,
            },
            OsuScoreOrigin::WithoutSliderAcc { max_large_ticks, max_small_ticks } => SliderHits {
                origin,
                slider_end_hits: 0,
                large_tick_hits: given_or_all(self.large_tick_hits, max_large_ticks),
                small_tick_hits: given_or_all(self.small_tick_hits, max_small_ticks),
            },
        }
    }

    /// Create the [`OsuScoreState`] that will be used for performance
    /// calculation, as far as the given counts settle it, and remember what
    /// was settled.
    pub fn generate_state(&mut self, chart: OsuObjectCounts) -> (results: OsuHitResults)
        requires
            old(self).in_range(chart),
        ensures
            results == old(self).spec_generate_state(chart),
            results matches OsuHitResults::Open(search) ==> search.wf(),
            final(self).difficulty == old(self).difficulty,
            final(self).acc == old(self).acc,
            final(self).hitresult_priority == old(self).hitresult_priority,
            match results {
                OsuHitResults::Settled(state) => *final(self) == (Self {
                    combo: Some(state.max_combo),
                    large_tick_hits: Some(state.large_tick_hits),
                    small_tick_hits: Some(state.small_tick_hits),
                    slider_end_hits: Some(state.slider_end_hits),
                    n300: Some(state.n300),
                    n100: Some(state.n100),
                    n50: Some(state.n50),
                    misses: Some(state.misses),
                    ..*old(self)
                }),
                OsuHitResults::Open(search) => *final(self) == (Self {
                    combo: Some(search.max_combo),
                    large_tick_hits: Some(search.sliders.large_tick_hits),
                    small_tick_hits: Some(search.sliders.small_tick_hits),
                    slider_end_hits: Some(search.sliders.slider_end_hits),
                    misses: Some(search.misses),
                    ..*old(self)
                }),
            },
    {
        let n_objects = limit_to(self.difficulty.get_passed_objects(), chart.n_objects);
        let priority = self.hitresult_priority;

        let misses = given(self.misses, n_objects);
        let n_remaining = n_objects - misses;

        let mut n300 = given(self.n300, n_remaining);
        let mut n100 = given(self.n100, n_remaining);
        let mut n50 = given(self.n50, n_remaining);

        let sliders = self.slider_hits(chart);

        let (slider_acc_value, max_slider_acc_value) = match sliders.origin {
            OsuScoreOrigin::Stable => (0, 0),
            OsuScoreOrigin::WithSliderAcc { max_large_ticks, max_slider_ends } => (
                150 * sliders.slider_end_hits + 30 * sliders.large_tick_hits,
                150 * max_slider_ends + 30 * max_large_ticks,
            ),
            OsuScoreOrigin::WithoutSliderAcc { max_large_ticks, max_small_ticks } => (
                30 * sliders.large_tick_hits + 10 * sliders.small_tick_hits,
                30 * max_large_ticks + 10 * max_small_ticks,
            ),
        };

        let max_possible_combo = sub_or_zero(chart.max_combo, misses);
        let max_combo = match self.combo {
            Some(combo) => min_u32(combo, max_possible_combo),
            None => max_possible_combo,
        };

        let kind = if self.acc.is_some() {
            match (self.n300, self.n100, self.n50) {
                (Some(_), None, None) => Some(OsuSearchKind::N300Given),
                (None, Some(_), None) => Some(OsuSearchKind::N100Given),
                (None, None, Some(_)) => Some(OsuSearchKind::N50Given),
                (None, None, None) => Some(OsuSearchKind::NoneGiven),
                _ => None,
            }
        } else {
            None
        };

        self.combo = Some(max_combo);
        self.slider_end_hits = Some(sliders.slider_end_hits);
        self.large_tick_hits = Some(sliders.large_tick_hits);
        self.small_tick_hits = Some(sliders.small_tick_hits);
        self.misses = Some(misses);

        if let Some(kind) = kind {
            return OsuHitResults::Open(
                OsuSearch {
                    kind,
                    n_objects,
                    n_remaining: n_remaining - n300 - n100 - n50,
                    n300,
                    n100,
                    n50,
                    misses,
                    max_combo,
                    priority,
                    sliders,
                    slider_acc_value,
                    max_slider_acc_value,
                },
            );
        }
        let remaining = sub_or_zero(n_objects, n300 + n100 + n50 + misses);

        let (given300, given100, given50) = (
            self.n300.is_some(),
            self.n100.is_some(),
            self.n50.is_some(),
        );
        match priority {
            HitResultPriority::WorstCase => {
                if !given50 {
                    n50 = remaining;
                } else if !given100 {
                    n100 = remaining;
                } else if !given300 {
                    n300 = remaining;
                } else {
                    n50 += remaining;
                }
            },
            HitResultPriority::BestCase => {
                if !given300 {
                    n300 = remaining;
                } else if !given100 {
                    n100 = remaining;
                } else if !given50 {
                    n50 = remaining;
                } else {
                    n300 += remaining;
                }
            },
        }

        self.n300 = Some(n300);
        self.n100 = Some(n100);
        self.n50 = Some(n50);

        OsuHitResults::Settled(
            OsuScoreState {
                max_combo,
                large_tick_hits: sliders.large_tick_hits,
                small_tick_hits: sliders.small_tick_hits,
                slider_end_hits: sliders.slider_end_hits,
                n300,
                n100,
                n50,
                misses,
            },
        )
    }

    /// Takes over the counts that a search has found, remembers them and
    /// hands out the score that results.
    pub fn settle(&mut self, search: &OsuSearch, n300: u32, n100: u32, n50: u32) -> (state:
        OsuScoreState)
        requires
            n300 + n100 + n50 <= u32::MAX,
        ensures
            state == search.spec_settle(n300, n100, n50),
            *final(self) == (Self {
                n300: Some(state.n300),
                n100: Some(state.n100),
                n50: Some(state.n50),
                ..*old(self)
            }),
    {
        let state = search.settle(n300, n100, n50);
        self.n300 = Some(state.n300);
        self.n100 = Some(state.n100);
        self.n50 = Some(state.n50);
        state
    }
}

/// A given count of hits, held to at most `limit`; without a count, all.
pub fn given_or_all(count: Option<u32>, limit: u32) -> (n: u32)
    ensures
        n == spec_given_or_all(count, limit),
        n <= limit,
{
    match count {
        Some(n) => min_u32(n, limit),
        None => limit,
    }
}

impl OsuSearch {
    /// The score that results from the counts that a search has found.
    /// Where all three counts were searched, results are moved between them
    /// in favour of the priority.
    pub open spec fn spec_settle(&self, n300: u32, n100: u32, n50: u32) -> OsuScoreState {
        let counts = if self.kind == OsuSearchKind::NoneGiven {
            spec_shift(self.priority, n300 as int, n100 as int, n50 as int)
        } else {
            (n300 as int, n100 as int, n50 as int)
        };
        OsuScoreState {
            max_combo: self.max_combo,
            large_tick_hits: self.sliders.large_tick_hits,
            small_tick_hits: self.sliders.small_tick_hits,
            slider_end_hits: self.sliders.slider_end_hits,
            n300: counts.0 as u32,
            n100: counts.1 as u32,
            n50: counts.2 as u32,
            misses: self.misses,
        }
    }

    /// The score that results from the counts that a search has found.
    pub fn settle(&self, n300: u32, n100: u32, n50: u32) -> (state: OsuScoreState)
        requires
            n300 + n100 + n50 <= u32::MAX,
        ensures
            state == self.spec_settle(n300, n100, n50),
            state.n300 + state.n100 + state.n50 == n300 + n100 + n50,
            spec_numerator(
                self.sliders.origin,
                state.n300,
                state.n100,
                state.n50,
                state.large_tick_hits,
                state.small_tick_hits,
                state.slider_end_hits,
            ) == spec_numerator(
                self.sliders.origin,
                n300,
                n100,
                n50,
                self.sliders.large_tick_hits,
                self.sliders.small_tick_hits,
                self.sliders.slider_end_hits,
            ),
            spec_denominator(self.sliders.origin, state.n300, state.n100, state.n50, state.misses)
                == spec_denominator(self.sliders.origin, n300, n100, n50, self.misses),
    {
        let mut n300 = n300;
        let mut n100 = n100;
        let mut n50 = n50;
        if let OsuSearchKind::NoneGiven = self.kind {
            match self.priority {
                HitResultPriority::WorstCase => {
                    // Shift n100 to n50 by gaining n300
                    let n = n100 / 5;
                    n300 += n;
                    n100 -= 5 * n;
                    n50 += 4 * n;
                },
                HitResultPriority::BestCase => {
                    // Shift n50 to n100 by sacrificing n300
                    let n = min_u32(n300, n50 / 4);
                    n300 -= n;
                    n100 += 5 * n;
                    n50 -= 4 * n;
                },
            }
        }
        OsuScoreState {
            max_combo: self.max_combo,
            large_tick_hits: self.sliders.large_tick_hits,
            small_tick_hits: self.sliders.small_tick_hits,
            slider_end_hits: self.sliders.slider_end_hits,
            n300,
            n100,
            n50,
            misses: self.misses,
        }
    }
}

/// The number of slider ends that a score has dropped.
pub fn n_slider_ends_dropped(n_sliders: u32, state: &OsuScoreState) -> (dropped: u32)
    requires
        state.slider_end_hits <= n_sliders,
    ensures
        dropped == n_sliders - state.slider_end_hits,
{
    n_sliders - state.slider_end_hits
}

/// The number of large ticks that a score has missed.
pub fn n_large_tick_miss(n_large_ticks: u32, state: &OsuScoreState) -> (missed: u32)
    requires
        state.large_tick_hits <= n_large_ticks,
    ensures
        missed == n_large_ticks - state.large_tick_hits,
{
    n_large_ticks - state.large_tick_hits
}

/// The number of results that are no 300s.
pub fn total_imperfect_hits(state: &OsuScoreState) -> (imperfect: u32)
    requires
        state.n100 + state.n50 + state.misses <= u32::MAX,
    ensures
        imperfect == state.n100 + state.n50 + state.misses,
{
    state.n100 + state.n50 + state.misses
}


/// What the objects with a hit window earned towards their accuracy, where
/// every result that is no 300 is taken to be one on such an object. The
/// count falls below zero where the other objects outnumber the 300s.
pub open spec fn spec_better_accuracy_numerator(state: OsuScoreState, n_with_acc: u32) -> int {
    (state.n300 - (state.spec_total_hits() - n_with_acc)) * 6 + state.n100 * 2 + state.n50
}

/// The number of objects with a hit window: the circles, and the sliders
/// where their heads count for the accuracy.
pub fn amount_hit_objects_with_acc(n_circles: u32, n_sliders: u32, using_classic_slider_acc: bool)
    -> (amount: u32)
    requires
        n_circles + n_sliders <= u32::MAX,
    ensures
        amount == if using_classic_slider_acc {
            n_circles as int
        } else {
            n_circles + n_sliders
        },
{
    let mut amount = n_circles;

    if !using_classic_slider_acc {
        amount += n_sliders;
    }

    amount
}

/// The accuracy on objects with a hit window as a fraction of two counts.
/// Where the second count is zero the accuracy is zero, and so it is where
/// the first count is below zero.
pub fn better_accuracy_parts(state: &OsuScoreState, n_with_acc: u32) -> (parts: (i32, u32))
    requires
        6 * state.spec_total_hits() <= i32::MAX,
        6 * n_with_acc <= i32::MAX,
    ensures
        parts.1 == 6 * n_with_acc,
        n_with_acc > 0 ==> parts.0 == spec_better_accuracy_numerator(*state, n_with_acc),
        n_with_acc == 0 ==> parts.0 == 0,
{
    if n_with_acc > 0 {
        let total_hits = state.total_hits();
        (
            (state.n300 as i32 - (total_hits as i32 - n_with_acc as i32)) * 6 + state.n100 as i32
                * 2 + state.n50 as i32,
            n_with_acc * 6,
        )
    } else {
        (0, 0)
    }
}


/// The bits of the largest double that is a number: the distance that a
/// search starts with.
pub const MAX_DIST: u64 = 0x7FEF_FFFF_FFFF_FFFF;

impl OsuSearch {
    /// The counts of the search add up to the results of the score, only
    /// given counts are set, and the results are few enough to be weighed.
    pub open spec fn wf(&self) -> bool {
        &&& self.n300 + self.n100 + self.n50 + self.n_remaining + self.misses == self.n_objects
        &&& 6 * self.n_objects <= u32::MAX
        &&& self.kind != OsuSearchKind::N300Given ==> self.n300 == 0
        &&& self.kind != OsuSearchKind::N100Given ==> self.n100 == 0
        &&& self.kind != OsuSearchKind::N50Given ==> self.n50 == 0
    }

    /// The least and the largest candidate that a search looks at, given
    /// the candidate that the wanted accuracy asks for, rounded down and
    /// rounded up: neither is more than the results that are searched.
    pub open spec fn spec_bounds(&self, raw_floor: u32, raw_ceil: u32) -> (u32, u32) {
        (
            spec_min(self.n_remaining as int, raw_floor as int) as u32,
            spec_min(self.n_remaining as int, raw_ceil as int) as u32,
        )
    }

    /// The counts that a candidate stands for where one count is given: the
    /// candidate is the better one of the two counts that are searched, and
    /// the other one takes the rest.
    pub open spec fn spec_candidate(&self, candidate: u32) -> (u32, u32, u32) {
        let rest = (self.n_remaining - candidate) as u32;
        match self.kind {
            OsuSearchKind::N300Given => (self.n300, candidate, rest),
            OsuSearchKind::N100Given => (candidate, self.n100, rest),
            _ => (candidate, rest, self.n50),
        }
    }

    /// The counts that a search with one given count ends with, given what
    /// came closest: without a candidate that came closer than any number,
    /// the given count alone.
    pub open spec fn spec_found_given(&self, best: Closest) -> (u32, u32, u32) {
        match best.found {
            Some(candidate) => self.spec_candidate(candidate),
            None => (self.n300, self.n100, self.n50),
        }
    }

    /// Whether `found` is what a search with one given count ends with,
    /// where `dists` are distances that `dist` has for the candidates in
    /// rising order.
    pub open spec fn searched_given<D: Fn(u32, u32, u32) -> u64>(
        &self,
        raw_floor: u32,
        raw_ceil: u32,
        dist: &D,
        dists: Seq<u64>,
        found: (u32, u32, u32),
    ) -> bool {
        let (lo, hi) = self.spec_bounds(raw_floor, raw_ceil);
        &&& dists.len() == range_len(lo, hi)
        &&& forall|i: int|
            0 <= i < dists.len() ==> call_ensures(
                dist,
                self.spec_candidate((lo + i) as u32),
                #[trigger] dists[i],
            )
        &&& found == self.spec_found_given(
            spec_scan(Closest { dist: MAX_DIST, found: None }, lo, dists),
        )
    }

    /// Searches, where one of the three counts is given, the split of the
    /// remaining results into the other two whose accuracy comes closest to
    /// the wanted one. `raw_floor` and `raw_ceil` are the candidate that the
    /// wanted accuracy asks for, rounded down and rounded up, and `dist` says
    /// for 300s, 100s and 50s how far the accuracy of a score with them is
    /// from the wanted one, as the bits of a double.
    ///
    /// The candidates are looked at in rising order, and of those that come
    /// closest the first one is taken.
    pub fn closest_given<D: Fn(u32, u32, u32) -> u64>(
        &self,
        raw_floor: u32,
        raw_ceil: u32,
        dist: &D,
    ) -> (found: (u32, u32, u32))
        requires
            self.wf(),
            self.kind != OsuSearchKind::NoneGiven,
            forall|n300: u32, n100: u32, n50: u32|
                n300 + n100 + n50 + self.misses == self.n_objects ==> call_requires(
                    dist,
                    (n300, n100, n50),
                ),
        ensures
            exists|dists: Seq<u64>| #[trigger]
                self.searched_given(raw_floor, raw_ceil, dist, dists, found),
            found.0 + found.1 + found.2 + self.misses <= self.n_objects,
    {
        let n_remaining = self.n_remaining;
        let lo = min_u32(n_remaining, raw_floor);
        let hi = min_u32(n_remaining, raw_ceil);
        let kind = self.kind;
        let n300 = self.n300;
        let n100 = self.n100;
        let n50 = self.n50;

        let of_candidate = |candidate: u32| -> (d: u64)
            requires
                candidate <= n_remaining,
                call_requires(dist, self.spec_candidate(candidate)),
            ensures
                call_ensures(dist, self.spec_candidate(candidate), d),
            {
                let rest = n_remaining - candidate;
                match kind {
                    OsuSearchKind::N300Given => dist(n300, candidate, rest),
                    OsuSearchKind::N100Given => dist(candidate, n100, rest),
                    _ => dist(candidate, rest, n50),
                }
            };

        let start = Closest { dist: MAX_DIST, found: None };
        let best = scan(start, lo, hi, &of_candidate);
        proof {
            let dists = choose|dists: Seq<u64>| scanned(start, lo, hi, &of_candidate, dists, best);
            lemma_scan_within(start, lo, dists);
            assert forall|i: int| 0 <= i < dists.len() implies call_ensures(
                dist,
                self.spec_candidate((lo + i) as u32),
                #[trigger] dists[i],
            ) by {
                assert(call_ensures(of_candidate, ((lo + i) as u32,), dists[i]));
            }
            assert(self.searched_given(
                raw_floor,
                raw_ceil,
                dist,
                dists,
                self.spec_found_given(best),
            ));
        }

        match best.found {
            Some(candidate) => {
                let rest = n_remaining - candidate;
                match kind {
                    OsuSearchKind::N300Given => (n300, candidate, rest),
                    OsuSearchKind::N100Given => (candidate, n100, rest),
                    _ => (candidate, rest, n50),
                }
            },
            None => (n300, n100, n50),
        }
    }

    /// The counts that a search of all three counts ends with, given what
    /// came closest: without a candidate that came closer than any number,
    /// no results at all.
    pub open spec fn spec_found_free(&self, best: Closest2) -> (u32, u32, u32) {
        match best.found {
            Some(pair) => (pair.0, pair.1, (self.n_remaining - pair.0 - pair.1) as u32),
            None => (0, 0, 0),
        }
    }

    /// Whether `row` holds what `bounds` and `dist` have for a number of
    /// 300s: bounds for the 100s, and a distance for each number of 100s
    /// between them, with the 50s that it leaves.
    pub open spec fn row_of<B: Fn(u32) -> (u32, u32), D: Fn(u32, u32, u32) -> u64>(
        &self,
        n300: u32,
        bounds: &B,
        dist: &D,
        row: Row,
    ) -> bool {
        let (lo, hi) = spec_clamp(row.0, self.n_remaining, n300);
        &&& call_ensures(bounds, (n300,), row.0)
        &&& row.1.len() == range_len(lo, hi)
        &&& forall|j: int|
            0 <= j < row.1.len() ==> call_ensures(
                dist,
                (n300, (lo + j) as u32, (self.n_remaining - n300 - (lo + j)) as u32),
                #[trigger] row.1[j],
            )
    }

    /// Whether `found` is what a search of all three counts ends with, where
    /// `rows` hold what `bounds` and `dist` have for the numbers of 300s in
    /// rising order.
    pub open spec fn searched_free<B: Fn(u32) -> (u32, u32), D: Fn(u32, u32, u32) -> u64>(
        &self,
        raw_floor: u32,
        raw_ceil: u32,
        bounds: &B,
        dist: &D,
        rows: Seq<Row>,
        found: (u32, u32, u32),
    ) -> bool {
        let (lo, hi) = self.spec_bounds(raw_floor, raw_ceil);
        &&& rows.len() == range_len(lo, hi)
        &&& forall|i: int|
            0 <= i < rows.len() ==> self.row_of((lo + i) as u32, bounds, dist, #[trigger] rows[i])
        &&& found == self.spec_found_free(
            spec_scan2(Closest2 { dist: MAX_DIST, found: None }, lo, self.n_remaining, rows),
        )
    }

    /// Searches, where none of the three counts is given, the split of the
    /// results that are no misses whose accuracy comes closest to the wanted
    /// one. `raw_floor` and `raw_ceil` are the number of 300s that the wanted
    /// accuracy asks for, rounded down and rounded up; `bounds` says the
    /// same of the 100s for a number of 300s; and `dist` says for 300s, 100s
    /// and 50s how far the accuracy of a score with them is from the wanted
    /// one, as the bits of a double.
    ///
    /// The candidates are looked at in rising order, 300s before 100s, and
    /// of those that come closest the first one is taken.
    pub fn closest_free<B: Fn(u32) -> (u32, u32), D: Fn(u32, u32, u32) -> u64>(
        &self,
        raw_floor: u32,
        raw_ceil: u32,
        bounds: &B,
        dist: &D,
    ) -> (found: (u32, u32, u32))
        requires
            self.wf(),
            self.kind == OsuSearchKind::NoneGiven,
            forall|n300: u32| n300 <= self.n_remaining ==> call_requires(bounds, (n300,)),
            forall|n300: u32, n100: u32, n50: u32|
                n300 + n100 + n50 + self.misses == self.n_objects ==> call_requires(
                    dist,
                    (n300, n100, n50),
                ),
        ensures
            exists|rows: Seq<Row>| #[trigger]
                self.searched_free(raw_floor, raw_ceil, bounds, dist, rows, found),
            found.0 + found.1 + found.2 + self.misses <= self.n_objects,
    {
        let n_remaining = self.n_remaining;
        let lo = min_u32(n_remaining, raw_floor);
        let hi = min_u32(n_remaining, raw_ceil);

        let of_pair = |new300: u32, new100: u32| -> (d: u64)
            requires
                new300 <= n_remaining,
                new100 <= n_remaining - new300,
                call_requires(dist, (new300, new100, (n_remaining - new300 - new100) as u32)),
            ensures
                call_ensures(dist, (new300, new100, (n_remaining - new300 - new100) as u32), d),
            {
                let new50 = n_remaining - new300 - new100;
                dist(new300, new100, new50)
            };

        let start = Closest2 { dist: MAX_DIST, found: None };
        let best = scan2(start, lo, hi, n_remaining, bounds, &of_pair);
        proof {
            let rows = choose|rows: Seq<Row>|
                scanned2(start, lo, hi, n_remaining, bounds, &of_pair, rows, best);
            assert forall|i: int| 0 <= i < rows.len() implies self.row_of(
                (lo + i) as u32,
                bounds,
                dist,
                #[trigger] rows[i],
            ) by {
                let a = (lo + i) as u32;
                let row = rows[i];
                assert(crate::util::closest::row_of(a, n_remaining, bounds, &of_pair, row));
                let lo2 = spec_clamp(row.0, n_remaining, a).0;
                assert forall|j: int| 0 <= j < row.1.len() implies call_ensures(
                    dist,
                    (a, (lo2 + j) as u32, (n_remaining - a - (lo2 + j)) as u32),
                    #[trigger] row.1[j],
                ) by {
                    assert(call_ensures(of_pair, (a, (lo2 + j) as u32), row.1[j]));
                }
            }
            assert forall|i: int| 0 <= i < rows.len() implies (#[trigger] rows[i]).1.len()
                == range_len(
                spec_clamp(rows[i].0, n_remaining, (lo + i) as u32).0,
                spec_clamp(rows[i].0, n_remaining, (lo + i) as u32).1,
            ) by {
                assert(crate::util::closest::row_of(
                    (lo + i) as u32,
                    n_remaining,
                    bounds,
                    &of_pair,
                    rows[i],
                ));
            }
            lemma_scan2_within(start, lo, n_remaining, rows);
            assert(self.searched_free(
                raw_floor,
                raw_ceil,
                bounds,
                dist,
                rows,
                self.spec_found_free(best),
            ));
        }

        match best.found {
            Some(pair) => (pair.0, pair.1, n_remaining - pair.0 - pair.1),
            None => (0, 0, 0),
        }
    }
}

} // verus!
