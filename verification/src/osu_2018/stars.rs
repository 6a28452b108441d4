use vstd::prelude::*;

verus! {

/// The result of a difficulty calculation on a chart of the standard mode.
/// Ratings and settings are the bits of doubles.
#[derive(Copy, Clone, Debug, PartialEq, Eq, Structural)]
pub struct OsuDifficultyAttributes {
    pub aim_strain: u64,
    pub speed_strain: u64,
    pub ar: u64,
    pub od: u64,
    pub hp: u64,
    pub n_circles: usize,
    pub n_sliders: usize,
    pub n_spinners: usize,
    pub stars: u64,
    pub max_combo: usize,
}

impl Default for OsuDifficultyAttributes {
    /// The attributes of a chart without objects: ratings of `0.0` and no
    /// object of any kind.
    fn default() -> (attrs: Self)
        ensures
            attrs == (Self {
                aim_strain: 0,
                speed_strain: 0,
                ar: 0,
                od: 0,
                hp: 0,
                n_circles: 0,
                n_sliders: 0,
                n_spinners: 0,
                stars: 0,
                max_combo: 0,
            }),
    {
        Self {
            aim_strain: 0,
            speed_strain: 0,
            ar: 0,
            od: 0,
            hp: 0,
            n_circles: 0,
            n_sliders: 0,
            n_spinners: 0,
            stars: 0,
            max_combo: 0,
        }
    }
}

/// The result of a performance calculation on a chart of the standard mode.
/// Every value is the bits of a double.
#[derive(Copy, Clone, Debug, PartialEq, Eq, Structural)]
pub struct OsuPerformanceAttributes {
    pub difficulty: OsuDifficultyAttributes,
    pub pp: u64,
    pub pp_acc: u64,
    pub pp_aim: u64,
    pub pp_flashlight: u64,
    pub pp_speed: u64,
}

/// The number of objects that the calculation looks at: the given amount
/// where the chart has that many, else all of the chart.
pub open spec fn spec_take(passed_objects: Option<usize>, n_hit_objects: usize) -> usize {
    match passed_objects {
        Some(n) => if n <= n_hit_objects {
            n
        } else {
            n_hit_objects
        },
        None => n_hit_objects,
    }
}

/// The number of objects that the calculation looks at: the given amount,
/// else all of the chart, and never more than the chart has.
pub fn take(passed_objects: Option<usize>, n_hit_objects: usize) -> (take: usize)
    ensures
        take == spec_take(passed_objects, n_hit_objects),
        take <= n_hit_objects,
{
    match passed_objects {
        Some(n) => if n <= n_hit_objects {
            n
        } else {
            n_hit_objects
        },
        None => n_hit_objects,
    }
}

/// Whether a play got to enough objects for a star rating: with fewer than
/// two it is zero.
pub fn is_rated(take: usize) -> (rated: bool)
    ensures
        rated == (take >= 2),
{
    take >= 2
}

/// The attributes of a play that got to fewer than two of the objects of a
/// chart, given the approach rate and the overall difficulty of the chart:
/// ratings of `0.0` and no object of any kind. A play that got further has
/// none yet.
pub fn unrated(
    passed_objects: Option<usize>,
    n_hit_objects: usize,
    ar: u64,
    od: u64,
) -> (attrs: Option<OsuDifficultyAttributes>)
    ensures
        attrs == if spec_take(passed_objects, n_hit_objects) < 2 {
            Some(
                OsuDifficultyAttributes {
                    aim_strain: 0,
                    speed_strain: 0,
                    ar,
                    od,
                    hp: 0,
                    n_circles: 0,
                    n_sliders: 0,
                    n_spinners: 0,
                    stars: 0,
                    max_combo: 0,
                },
            )
        } else {
            None
        },
{
    if is_rated(take(passed_objects, n_hit_objects)) {
        return None;
    }

    let mut attrs = OsuDifficultyAttributes::default();
    attrs.ar = ar;
    attrs.od = od;
    Some(attrs)
}

/// A chart with fewer than two objects is never rated, whatever amount of
/// passed objects is given.
pub proof fn lemma_short_chart_is_unrated(passed_objects: Option<usize>, n_hit_objects: usize)
    requires
        n_hit_objects < 2,
    ensures
        spec_take(passed_objects, n_hit_objects) < 2,
{
}

} // verus!
