use vstd::prelude::*;

verus! {

/// Type to pass [`OsuScoreState::accuracy_parts`] and specify the origin of a
/// score.
#[derive(Copy, Clone, Debug, PartialEq, Eq, Structural)]
pub enum OsuScoreOrigin {
    /// For scores set on stable.
    Stable,
    /// For scores set on lazer with slider accuracy.
    WithSliderAcc { max_large_ticks: u32, max_slider_ends: u32 },
    /// For scores set on lazer without slider accuracy.
    WithoutSliderAcc { max_large_ticks: u32, max_small_ticks: u32 },
}

/// The result counts and the combo of a score in the standard mode.
#[derive(Copy, Clone, Debug, PartialEq, Eq, Structural)]
pub struct OsuScoreState {
    /// Maximum combo that the score has had so far.
    pub max_combo: u32,
    /// "Large tick" hits.
    pub large_tick_hits: u32,
    /// "Small ticks" hits.
    pub small_tick_hits: u32,
    /// Amount of successfully hit slider ends.
    pub slider_end_hits: u32,
    /// Amount of current 300s.
    pub n300: u32,
    /// Amount of current 100s.
    pub n100: u32,
    /// Amount of current 50s.
    pub n50: u32,
    /// Amount of current misses.
    pub misses: u32,
}

/// What a score has earned towards its accuracy, out of [`spec_denominator`].
pub open spec fn spec_numerator(
    origin: OsuScoreOrigin,
    n300: u32,
    n100: u32,
    n50: u32,
    large_tick_hits: u32,
    small_tick_hits: u32,
    slider_end_hits: u32,
) -> int {
    let hits = 300 * n300 + 100 * n100 + 50 * n50;
    match origin {
        OsuScoreOrigin::Stable => hits,
        OsuScoreOrigin::WithSliderAcc { max_large_ticks, max_slider_ends } => {
            let ends = if slider_end_hits <= max_slider_ends {
                slider_end_hits
            } else {
                max_slider_ends
            };
            let ticks = if large_tick_hits <= max_large_ticks {
                large_tick_hits
            } else {
                max_large_ticks
            };
            hits + 150 * ends + 30 * ticks
        },
        OsuScoreOrigin::WithoutSliderAcc { max_large_ticks, max_small_ticks } => {
            let large = if large_tick_hits <= max_large_ticks {
                large_tick_hits
            } else {
                max_large_ticks
            };
            let small = if small_tick_hits <= max_small_ticks {
                small_tick_hits
            } else {
                max_small_ticks
            };
            hits + 30 * large + 10 * small
        },
    }
}

/// What a score could have earned towards its accuracy.
pub open spec fn spec_denominator(
    origin: OsuScoreOrigin,
    n300: u32,
    n100: u32,
    n50: u32,
    misses: u32,
) -> int {
    let hits = 300 * (n300 + n100 + n50 + misses);
    match origin {
        OsuScoreOrigin::Stable => hits,
        OsuScoreOrigin::WithSliderAcc { max_large_ticks, max_slider_ends } => hits + 150
            * max_slider_ends + 30 * max_large_ticks,
        OsuScoreOrigin::WithoutSliderAcc { max_large_ticks, max_small_ticks } => hits + 30
            * max_large_ticks + 10 * max_small_ticks,
    }
}

impl OsuScoreState {
    /// Create a new empty score state.
    pub fn new() -> (state: Self)
        ensures
            state == (Self {
                max_combo: 0,
                large_tick_hits: 0,
                small_tick_hits: 0,
                slider_end_hits: 0,
                n300: 0,
                n100: 0,
                n50: 0,
                misses: 0,
            }),
    {
        Self {
            max_combo: 0,
            large_tick_hits: 0,
            small_tick_hits: 0,
            slider_end_hits: 0,
            n300: 0,
            n100: 0,
            n50: 0,
            misses: 0,
        }
    }

    /// The number of results.
    pub open spec fn spec_total_hits(&self) -> int {
        self.n300 + self.n100 + self.n50 + self.misses
    }

    /// Return the total amount of hits by adding everything up.
    pub fn total_hits(&self) -> (total: u32)
        requires
            self.spec_total_hits() <= u32::MAX,
        ensures
            total == self.spec_total_hits(),
    {
        self.n300 + self.n100 + self.n50 + self.misses
    }

    /// The accuracy of the score as a fraction of two counts: what was
    /// earned, and what could have been earned. Where the second count is
    /// zero the accuracy is zero.
    pub fn accuracy_parts(&self, origin: OsuScoreOrigin) -> (parts: (u32, u32))
        requires
            spec_denominator(origin, self.n300, self.n100, self.n50, self.misses) <= u32::MAX,
        ensures
            parts.0 == spec_numerator(
                origin,
                self.n300,
                self.n100,
                self.n50,
                self.large_tick_hits,
                self.small_tick_hits,
                self.slider_end_hits,
            ),
            parts.1 == spec_denominator(origin, self.n300, self.n100, self.n50, self.misses),
            parts.0 <= parts.1,
    {
        let mut numerator = 300 * self.n300 + 100 * self.n100 + 50 * self.n50;
        let mut denominator = 300 * (self.n300 + self.n100 + self.n50 + self.misses);

        match origin {
            OsuScoreOrigin::Stable => {},
            OsuScoreOrigin::WithSliderAcc { max_large_ticks, max_slider_ends } => {
                let slider_end_hits = if self.slider_end_hits <= max_slider_ends {
                    self.slider_end_hits
                } else {
                    max_slider_ends
                };
                let large_tick_hits = if self.large_tick_hits <= max_large_ticks {
                    self.large_tick_hits
                } else {
                    max_large_ticks
                };

                numerator += 150 * slider_end_hits + 30 * large_tick_hits;
                denominator += 150 * max_slider_ends + 30 * max_large_ticks;
            },
            OsuScoreOrigin::WithoutSliderAcc { max_large_ticks, max_small_ticks } => {
                let large_tick_hits = if self.large_tick_hits <= max_large_ticks {
                    self.large_tick_hits
                } else {
                    max_large_ticks
                };
                let small_tick_hits = if self.small_tick_hits <= max_small_ticks {
                    self.small_tick_hits
                } else {
                    max_small_ticks
                };

                numerator += 30 * large_tick_hits + 10 * small_tick_hits;
                denominator += 30 * max_large_ticks + 10 * max_small_ticks;
            },
        }

        (numerator, denominator)
    }
}

impl Default for OsuScoreState {
    fn default() -> (state: Self)
        ensures
            state.spec_total_hits() == 0,
            state.max_combo == 0,
    {
        Self::new()
    }
}

} // verus!
