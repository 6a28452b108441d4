//! The 2022 revision of the taiko mode.

use vstd::prelude::*;

use crate::util::float_bits::{gt, lt, spec_lt};

use crate::util::clock_rate::{clamp_single, spec_clamp_single};
use crate::util::mods::{rate_as_single, spec_clock_rate, spec_rate_as_single, Mods};

verus! {

/// The settings of a difficulty calculation on a taiko chart.
#[derive(Clone, Debug, PartialEq, Eq)]
pub struct TaikoStars {
    mods: u32,
    passed_objects: Option<u32>,
    /// The clock rate is held between 0.01 and 100.0 and stored as the bits
    /// of a single-precision float. Since its least value is 0.01, the bits
    /// are never all zero.
    clock_rate: Option<u32>,
}

impl TaikoStars {
    /// The modifiers, as bits.
    pub closed spec fn spec_mods(&self) -> u32 {
        self.mods
    }

    /// The amount of passed objects, if one was given.
    pub closed spec fn spec_passed_objects(&self) -> Option<u32> {
        self.passed_objects
    }

    /// The clock rate, if one was given, as the bits of a single-precision
    /// float.
    pub closed spec fn spec_clock_rate(&self) -> Option<u32> {
        self.clock_rate
    }

    /// The clock rate that the calculation runs at, as the bits of a
    /// single-precision float: the one that was given, else the one of the
    /// modifiers.
    pub open spec fn spec_get_clock_rate(&self) -> u32 {
        match self.spec_clock_rate() {
            Some(rate) => rate,
            None => spec_rate_as_single(
                spec_clock_rate(self.spec_mods().spec_dt(), self.spec_mods().spec_ht()),
            ),
        }
    }

    /// The amount of objects that the calculation looks at: the one that was
    /// given, else as many as there are.
    pub open spec fn spec_get_passed_objects(&self) -> usize {
        match self.spec_passed_objects() {
            Some(n) => n as usize,
            None => usize::MAX,
        }
    }

    /// Create a new difficulty calculator.
    pub fn new() -> (this: Self)
        ensures
            this.spec_mods() == 0,
            this.spec_passed_objects() is None,
            this.spec_clock_rate() is None,
    {
        Self { mods: 0, passed_objects: None, clock_rate: None }
    }

    /// Specify mods through their bits.
    pub fn mods(self, mods: u32) -> (this: Self)
        ensures
            this.spec_mods() == mods,
            this.spec_passed_objects() == self.spec_passed_objects(),
            this.spec_clock_rate() == self.spec_clock_rate(),
    {
        Self { mods, passed_objects: self.passed_objects, clock_rate: self.clock_rate }
    }

    /// Amount of passed objects for partial plays, e.g. a fail.
    pub fn passed_objects(self, passed_objects: u32) -> (this: Self)
        ensures
            this.spec_mods() == self.spec_mods(),
            this.spec_passed_objects() == Some(passed_objects),
            this.spec_clock_rate() == self.spec_clock_rate(),
    {
        Self { mods: self.mods, passed_objects: Some(passed_objects), clock_rate: self.clock_rate }
    }

    /// Adjust the clock rate used in the calculation, given as the bits of a
    /// single-precision float.
    ///
    /// If none is specified, it will take the clock rate based on the mods
    /// i.e. 1.5 for DT, 0.75 for HT and 1.0 otherwise.
    ///
    /// | Minimum | Maximum |
    /// | :-----: | :-----: |
    /// | 0.01    | 100     |
    pub fn clock_rate(self, clock_rate: u32) -> (this: Self)
        ensures
            this.spec_mods() == self.spec_mods(),
            this.spec_passed_objects() == self.spec_passed_objects(),
            this.spec_clock_rate() == Some(spec_clamp_single(clock_rate)),
            this.spec_clock_rate() != Some(0u32),
    {
        let clamped = clamp_single(clock_rate);
        Self { mods: self.mods, passed_objects: self.passed_objects, clock_rate: Some(clamped) }
    }

    pub fn get_mods(&self) -> (mods: u32)
        ensures
            mods == self.spec_mods(),
    {
        self.mods
    }

    /// The clock rate that the calculation runs at, as the bits of a
    /// single-precision float.
    pub fn get_clock_rate(&self) -> (rate: u32)
        ensures
            rate == self.spec_get_clock_rate(),
    {
        match self.clock_rate {
            Some(rate) => rate,
            None => rate_as_single(self.mods.clock_rate()),
        }
    }

    pub fn get_passed_objects(&self) -> (take: usize)
        ensures
            take == self.spec_get_passed_objects(),
    {
        match self.passed_objects {
            Some(n) => n as usize,
            None => usize::MAX,
        }
    }
}

impl Default for TaikoStars {
    fn default() -> (this: Self)
        ensures
            this.spec_mods() == 0,
            this.spec_passed_objects() is None,
            this.spec_clock_rate() is None,
    {
        Self::new()
    }
}


/// The maximum combo and the number of objects that a play got to, after the
/// objects counted so far.
#[derive(Copy, Clone, Debug, PartialEq, Eq, Structural)]
pub struct ObjectCount {
    /// The hits among the counted objects.
    pub max_combo: u32,
    /// The counted objects.
    pub n_diff_objects: usize,
}

/// The counts after one more object: it is counted as long as the combo is
/// below the amount of hits that the play got to.
pub open spec fn spec_count_step(count: ObjectCount, is_hit: bool, take: u32) -> ObjectCount {
    if count.max_combo < take {
        ObjectCount {
            max_combo: if is_hit {
                (count.max_combo + 1) as u32
            } else {
                count.max_combo
            },
            n_diff_objects: (count.n_diff_objects + 1) as usize,
        }
    } else {
        count
    }
}

/// The counts after the objects of a chart, each given by whether it is a
/// hit, in their order.
pub open spec fn spec_count_objects(is_hit: Seq<bool>, take: u32) -> ObjectCount
    decreases is_hit.len(),
{
    if is_hit.len() == 0 {
        ObjectCount { max_combo: 0, n_diff_objects: 0 }
    } else {
        spec_count_step(spec_count_objects(is_hit.drop_last(), take), is_hit.last(), take)
    }
}

/// No more hits are counted than the play got to, and no more objects than
/// there are.
pub proof fn lemma_count_objects_bounds(is_hit: Seq<bool>, take: u32)
    requires
        is_hit.len() <= usize::MAX,
    ensures
        spec_count_objects(is_hit, take).max_combo <= take,
        spec_count_objects(is_hit, take).max_combo <= spec_count_objects(
            is_hit,
            take,
        ).n_diff_objects,
        spec_count_objects(is_hit, take).n_diff_objects <= is_hit.len(),
    decreases is_hit.len(),
{
    if is_hit.len() > 0 {
        lemma_count_objects_bounds(is_hit.drop_last(), take);
    }
}

/// Counts the hits and the objects that a play got to.
pub fn count_objects(is_hit: &[bool], take: u32) -> (count: ObjectCount)
    ensures
        count == spec_count_objects(is_hit@, take),
        count.max_combo <= take,
        count.n_diff_objects <= is_hit@.len(),
{
    let mut max_combo: u32 = 0;
    let mut n_diff_objects: usize = 0;
    let mut i: usize = 0;
    while i < is_hit.len()
        invariant
            i <= is_hit@.len(),
            (ObjectCount { max_combo, n_diff_objects }) == spec_count_objects(
                is_hit@.take(i as int),
                take,
            ),
            max_combo <= take,
            n_diff_objects <= i,
        decreases is_hit@.len() - i,
    {
        proof {
            assert(is_hit@.take(i + 1).drop_last() =~= is_hit@.take(i as int));
        }
        if max_combo < take {
            n_diff_objects += 1;
            if is_hit[i] {
                max_combo += 1;
            }
        }
        i += 1;
    }
    proof {
        assert(is_hit@.take(i as int) =~= is_hit@);
    }
    ObjectCount { max_combo, n_diff_objects }
}

/// The number of difficulty objects that the skills process: the first two
/// objects have none.
pub fn n_processed(count: ObjectCount) -> (n: usize)
    ensures
        n == if count.n_diff_objects >= 2 {
            count.n_diff_objects - 2
        } else {
            0
        },
        count.n_diff_objects < 3 ==> n == 0,
{
    if count.n_diff_objects >= 2 {
        count.n_diff_objects - 2
    } else {
        0
    }
}


/// The bits of the double `0.0`.
pub const ZERO: u64 = 0;

/// The bits of the double `2.0`: below this colour rating a converted chart
/// has little change of colour.
pub const LOW_COLOR: u64 = 0x4000_0000_0000_0000;

/// The bits of the double `8.0`: above this stamina rating a converted chart
/// asks for much stamina.
pub const HIGH_STAMINA: u64 = 0x4020_0000_0000_0000;

/// What is taken off the star rating of a chart because it was converted
/// from another mode.
#[derive(Copy, Clone, Debug, PartialEq, Eq, Structural)]
pub enum ConvertPenalty {
    /// Nothing: the chart was made for taiko.
    Native,
    /// The rating is multiplied by 0.925.
    Convert,
    /// The rating is multiplied by 0.925 and by 0.8: the chart has little
    /// change of colour and asks for much stamina, so that playing it with
    /// more than one input is likely.
    ConvertMultiInput,
}

/// The penalty on a chart, given its colour and stamina ratings as the bits
/// of doubles.
pub open spec fn spec_convert_penalty(is_convert: bool, color_rating: u64, stamina_rating: u64)
    -> ConvertPenalty {
    if !is_convert {
        ConvertPenalty::Native
    } else if spec_lt(color_rating, LOW_COLOR) && spec_lt(HIGH_STAMINA, stamina_rating) {
        ConvertPenalty::ConvertMultiInput
    } else {
        ConvertPenalty::Convert
    }
}

/// The penalty on a chart, given its colour and stamina ratings as the bits
/// of doubles.
pub fn convert_penalty(is_convert: bool, color_rating: u64, stamina_rating: u64) -> (penalty:
    ConvertPenalty)
    ensures
        penalty == spec_convert_penalty(is_convert, color_rating, stamina_rating),
{
    if is_convert {
        if lt(color_rating, LOW_COLOR) && gt(stamina_rating, HIGH_STAMINA) {
            ConvertPenalty::ConvertMultiInput
        } else {
            ConvertPenalty::Convert
        }
    } else {
        ConvertPenalty::Native
    }
}

/// With a colour rating below 2.0 the heavier penalty sets in exactly where
/// the stamina rating rises above 8.0, and only on a converted chart.
pub proof fn lemma_convert_penalty_threshold(
    is_convert: bool,
    color_rating: u64,
    stamina_rating: u64,
)
    requires
        spec_lt(color_rating, LOW_COLOR),
    ensures
        spec_convert_penalty(is_convert, color_rating, stamina_rating)
            == ConvertPenalty::ConvertMultiInput <==> is_convert && spec_lt(
            HIGH_STAMINA,
            stamina_rating,
        ),
        !is_convert ==> spec_convert_penalty(is_convert, color_rating, stamina_rating)
            == ConvertPenalty::Native,
{
}

/// Whether a combined rating is rescaled: a rating below zero is kept as
/// it is.
pub fn is_rescaled(stars: u64) -> (rescaled: bool)
    ensures
        rescaled == !spec_lt(stars, ZERO),
{
    !lt(stars, ZERO)
}


/// The steps of a difficulty calculation that come before the skills.
pub struct DifficultyValues;

/// Whether `make` can be asked for the difficulty object at place `i`.
pub open spec fn can_make<O, D, F: Fn(&O, &O, &O, usize) -> D>(make: &F, objects: &[O], i: int)
    -> bool {
    call_requires(make, (&objects@[i + 2], &objects@[i + 1], &objects@[i], i as usize))
}

/// Whether `hits` say of each object what `is_hit` says of it.
pub open spec fn hits_of<O, H: Fn(&O) -> bool>(objects: &[O], is_hit: &H, hits: Seq<bool>)
    -> bool {
    &&& hits.len() == objects@.len()
    &&& forall|i: int| 0 <= i < hits.len() ==> call_ensures(is_hit, (&objects@[i],), #[trigger] hits[i])
}

impl DifficultyValues {
    /// Builds the difficulty objects of a chart and counts what a play got
    /// to. There is a difficulty object for each object but the first two,
    /// made by `make` from the object, the one and the two objects before it
    /// and the place of the new difficulty object. Objects are counted, and
    /// their hits among them, as long as the hits are below `take`.
    pub fn create_difficulty_objects<O, D, H: Fn(&O) -> bool, F: Fn(&O, &O, &O, usize) -> D>(
        objects: &[O],
        take: u32,
        is_hit: &H,
        make: &F,
    ) -> (built: (Vec<D>, ObjectCount))
        requires
            forall|i: int| 0 <= i < objects@.len() ==> call_requires(is_hit, (&#[trigger] objects@[i],)),
            forall|i: int| 0 <= i < objects@.len() - 2 ==> #[trigger] can_make(make, objects, i),
        ensures
            built.0@.len() == if objects@.len() >= 2 {
                objects@.len() - 2
            } else {
                0
            },
            forall|i: int|
                0 <= i < built.0@.len() ==> call_ensures(
                    make,
                    (&objects@[i + 2], &objects@[i + 1], &objects@[i], i as usize),
                    #[trigger] built.0@[i],
                ),
            exists|hits: Seq<bool>| #[trigger]
                hits_of(objects, is_hit, hits) && built.1 == spec_count_objects(hits, take),
    {
        let n = objects.len();
        let mut hits: Vec<bool> = Vec::new();
        let mut i: usize = 0;
        while i < n
            invariant
                n == objects@.len(),
                i <= n,
                hits@.len() == i,
                forall|k: int|
                    0 <= k < objects@.len() ==> call_requires(is_hit, (&#[trigger] objects@[k],)),
                forall|k: int|
                    0 <= k < i ==> call_ensures(is_hit, (&objects@[k],), #[trigger] hits@[k]),
            decreases n - i,
        {
            let hit = is_hit(&objects[i]);
            hits.push(hit);
            i += 1;
        }
        let count = count_objects(hits.as_slice(), take);
        proof {
            assert(hits_of(objects, is_hit, hits@));
        }

        let mut diff_objects: Vec<D> = Vec::new();
        if n < 3 {
            return (diff_objects, count);
        }
        let mut i: usize = 0;
        while i < n - 2
            invariant
                n == objects@.len(),
                n >= 3,
                i <= n - 2,
                diff_objects@.len() == i,
                forall|k: int| 0 <= k < objects@.len() - 2 ==> #[trigger] can_make(make, objects, k),
                forall|k: int|
                    0 <= k < i ==> call_ensures(
                        make,
                        (&objects@[k + 2], &objects@[k + 1], &objects@[k], k as usize),
                        #[trigger] diff_objects@[k],
                    ),
            decreases n - 2 - i,
        {
            assert(can_make(make, objects, i as int));
            let diff_object = make(&objects[i + 2], &objects[i + 1], &objects[i], i);
            diff_objects.push(diff_object);
            i += 1;
        }
        (diff_objects, count)
    }
}

} // verus!
