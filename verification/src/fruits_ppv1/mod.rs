//! The first revision of the catch mode.

use vstd::prelude::*;

pub mod movement;
pub mod pp;

pub use self::pp::FruitsPP;
pub use crate::fruits_2022::attributes::{CatchAttributeProvider, CatchDifficultyAttributes};

verus! {

/// The tiny droplets of a slider, from the tiny droplets before one tick,
/// before one reverse and before the tail: each tick of each span has its
/// own, and so has each reverse.
pub open spec fn spec_tiny_droplet_total(
    per_tick: u32,
    span_last_section: u32,
    last_section: u32,
    n_ticks: usize,
    span_count: usize,
) -> int {
    per_tick * (n_ticks * span_count) + span_last_section * if span_count >= 1 {
        span_count - 1
    } else {
        0
    } + last_section
}

/// Combines the tiny droplet counts of the sections of a slider.
pub fn tiny_droplet_total(
    per_tick: u32,
    span_last_section: u32,
    last_section: u32,
    n_ticks: usize,
    span_count: usize,
) -> (total: u32)
    requires
        spec_tiny_droplet_total(per_tick, span_last_section, last_section, n_ticks, span_count)
            <= u32::MAX,
        n_ticks * span_count <= u32::MAX,
        span_count <= u32::MAX,
    ensures
        total == spec_tiny_droplet_total(
            per_tick,
            span_last_section,
            last_section,
            n_ticks,
            span_count,
        ),
{
    let spans_before = if span_count >= 1 {
        span_count - 1
    } else {
        0
    };
    assert(per_tick * (n_ticks * span_count) >= 0 && span_last_section * spans_before >= 0
        && per_tick * (n_ticks * span_count) + span_last_section * spans_before + last_section
        <= u32::MAX) by (nonlinear_arith)
        requires
            per_tick * (n_ticks * span_count) + span_last_section * spans_before + last_section
                <= u32::MAX,
    ;
    assert(per_tick * (n_ticks * span_count) <= u32::MAX && span_last_section * spans_before
        <= u32::MAX) by (nonlinear_arith)
        requires
            per_tick * (n_ticks * span_count) + span_last_section * spans_before + last_section
                <= u32::MAX,
            per_tick >= 0,
            span_last_section >= 0,
            last_section >= 0,
            n_ticks * span_count >= 0,
            spans_before >= 0,
    ;
    let ticks = (n_ticks * span_count) as u32;
    per_tick * ticks + span_last_section * (spans_before as u32) + last_section
}

/// The fruits and droplets that one slider adds to a chart: a fruit for the
/// head, the tail and each reverse, and a droplet for each tick of each
/// span.
pub open spec fn spec_slider_objects(repeats: usize, n_ticks: usize) -> (int, int) {
    (repeats + 2, (repeats + 1) * n_ticks)
}

/// The fruits and droplets that one slider adds to a chart.
pub fn slider_objects(repeats: usize, n_ticks: usize) -> (counts: (u32, u32))
    requires
        repeats + 2 <= u32::MAX,
        (repeats + 1) * n_ticks <= u32::MAX,
    ensures
        counts.0 == spec_slider_objects(repeats, n_ticks).0,
        counts.1 == spec_slider_objects(repeats, n_ticks).1,
{
    let new_fruits = repeats + 2;
    let spans = repeats + 1;
    ((new_fruits as u32), ((spans * n_ticks) as u32))
}

/// Whether a chart has enough objects for a star rating: with fewer than two
/// it is zero and no object is counted.
pub fn is_rated(n_hit_objects: usize) -> (rated: bool)
    ensures
        rated == (n_hit_objects >= 2),
{
    n_hit_objects >= 2
}

/// The attributes of a chart with fewer than two objects: a star rating of
/// `0.0`, an approach rate of `0.0` and no object of any kind. A longer
/// chart has none yet.
pub fn unrated(n_hit_objects: usize) -> (attrs: Option<CatchDifficultyAttributes>)
    ensures
        n_hit_objects >= 2 <==> attrs is None,
        attrs matches Some(attrs) ==> {
            &&& attrs.stars == 0
            &&& attrs.ar == 0
            &&& attrs.n_fruits == 0
            &&& attrs.n_droplets == 0
            &&& attrs.n_tiny_droplets == 0
            &&& !attrs.is_convert
        },
{
    if is_rated(n_hit_objects) {
        None
    } else {
        Some(CatchDifficultyAttributes::default())
    }
}

} // verus!
