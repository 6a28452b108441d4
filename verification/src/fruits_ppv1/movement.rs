use vstd::prelude::*;

use crate::util::float_bits::{gt, max, place, spec_is_nan, spec_lt, spec_max};
use crate::util::sort::{sort_descending, sorted_desc};

verus! {

/// The bits of the double `1.0`: the strain that a chart starts with.
pub const INITIAL_STRAIN: u64 = 0x3FF0_0000_0000_0000;

/// The bits of positive infinity as a double.
pub const INFINITY: u64 = 0x7FF0_0000_0000_0000;

/// Whether each value is the bits of a double that is a number and has no
/// sign. Among such doubles the larger one has the larger bits.
pub open spec fn all_non_negative(values: Seq<u64>) -> bool {
    forall|i: int| 0 <= i < values.len() ==> #[trigger] values[i] <= INFINITY
}

/// The movement skill of the catch mode: the strain that has built up, the
/// peak of the current section and the peaks of the sections before it.
/// Every quantity is the bits of a float: a double, but for the position and
/// the distance, which are in single precision.
#[derive(Clone, Debug)]
pub struct Movement {
    pub last_player_position: Option<u32>,
    pub last_distance_moved: u32,
    pub current_strain: u64,
    pub current_section_peak: u64,
    pub strain_peaks: Vec<u64>,
    pub prev_time: Option<u64>,
}

impl Movement {
    pub fn new() -> (movement: Self)
        ensures
            movement.last_player_position is None,
            movement.last_distance_moved == 0,
            movement.current_strain == INITIAL_STRAIN,
            movement.current_section_peak == INITIAL_STRAIN,
            movement.strain_peaks@ == Seq::<u64>::empty(),
            movement.prev_time is None,
    {
        Self {
            last_player_position: None,
            last_distance_moved: 0,
            current_strain: INITIAL_STRAIN,
            current_section_peak: INITIAL_STRAIN,
            strain_peaks: Vec::with_capacity(128),
            prev_time: None,
        }
    }

    /// Saves the peak of the current section behind the peaks of the
    /// sections before it.
    pub fn save_current_peak(&mut self)
        ensures
            final(self).strain_peaks@ == old(self).strain_peaks@.push(
                old(self).current_section_peak,
            ),
            final(self).last_player_position == old(self).last_player_position,
            final(self).last_distance_moved == old(self).last_distance_moved,
            final(self).current_strain == old(self).current_strain,
            final(self).current_section_peak == old(self).current_section_peak,
            final(self).prev_time == old(self).prev_time,
    {
        self.strain_peaks.push(self.current_section_peak);
    }

    /// Starts a new section from the strain that is left at its start.
    pub fn start_new_section_from(&mut self, peak_strain: u64)
        ensures
            *final(self) == (Self { current_section_peak: peak_strain, ..*old(self) }),
    {
        self.current_section_peak = peak_strain;
    }

    /// Takes in an object at `time` after which the strain has built up to
    /// `current_strain`: the peak of the section is the larger of that strain
    /// and the peak so far.
    pub fn process(&mut self, current_strain: u64, time: u64)
        ensures
            *final(self) == (Self {
                current_strain,
                current_section_peak: spec_max(current_strain, old(self).current_section_peak),
                prev_time: Some(time),
                ..*old(self)
            }),
    {
        self.current_strain = current_strain;
        self.current_section_peak = max(self.current_strain, self.current_section_peak);
        self.prev_time = Some(time);
    }

    /// Remembers where the player stands and how far the last move went.
    pub fn moved(&mut self, position: u32, distance: u32)
        ensures
            *final(self) == (Self {
                last_player_position: Some(position),
                last_distance_moved: distance,
                ..*old(self)
            }),
    {
        self.last_player_position = Some(position);
        self.last_distance_moved = distance;
    }

    /// Puts the peaks in descending order, as the weighted sum of the
    /// difficulty value takes them. The peaks have to be numbers without a
    /// sign.
    pub fn sort_strain_peaks(&mut self)
        requires
            all_non_negative(old(self).strain_peaks@),
        ensures
            sorted_desc(final(self).strain_peaks@),
            final(self).strain_peaks@.to_multiset() == old(self).strain_peaks@.to_multiset(),
            final(self).strain_peaks@.len() == old(self).strain_peaks@.len(),
            all_non_negative(final(self).strain_peaks@),
            final(self).last_player_position == old(self).last_player_position,
            final(self).last_distance_moved == old(self).last_distance_moved,
            final(self).current_strain == old(self).current_strain,
            final(self).current_section_peak == old(self).current_section_peak,
            final(self).prev_time == old(self).prev_time,
    {
        let ghost before = self.strain_peaks@;
        sort_descending(&mut self.strain_peaks);
        proof {
            let after = self.strain_peaks@;
            broadcast use vstd::seq_lib::group_to_multiset_ensures;

            vstd::seq_lib::to_multiset_len(after);
            vstd::seq_lib::to_multiset_len(before);
            assert forall|i: int| 0 <= i < after.len() implies #[trigger] after[i] <= INFINITY by {
                assert(after.contains(after[i]));
                assert(after.to_multiset().count(after[i]) > 0);
                assert(before.contains(after[i]));
                let k = choose|k: int| 0 <= k < before.len() && before[k] == after[i];
                assert(before[k] <= INFINITY);
            }
        }
    }
}

/// How far the end of a section lies before a time, in places among the
/// doubles: zero where it does not lie before it.
pub open spec fn ahead(end: u64, time: u64) -> int {
    if spec_lt(end, time) {
        place(time) - place(end)
    } else {
        0
    }
}

/// Whether the skill `after` is the skill `before` with its sections rolled
/// over towards an object at `time`.
///
/// `ends` are the ends of the sections from the current one, which ends at
/// `first_end`, to the one that the object lies in: each but the last lies
/// before the object, the last does not, and `next_end` leads from each to
/// the next. `sections` are the peaks of the same sections: the first is the
/// peak that `before` has reached, and every later section starts from what
/// `decay` leaves of the strain of `before` at the end of the section before
/// it. All sections but the last are saved behind the peaks of `before`, in
/// their order.
pub open spec fn rolled_over<F: Fn(u64) -> u64, G: Fn(u64, u64) -> u64>(
    before: Movement,
    first_end: u64,
    next_end: &F,
    decay: &G,
    time: u64,
    ends: Seq<u64>,
    sections: Seq<u64>,
    after: Movement,
) -> bool {
    &&& ends.len() >= 1
    &&& sections.len() == ends.len()
    &&& ends[0] == first_end
    &&& sections[0] == before.current_section_peak
    &&& forall|i: int|
        0 <= i < ends.len() - 1 ==> {
            &&& spec_lt(#[trigger] ends[i], time)
            &&& call_ensures(next_end, (ends[i],), ends[i + 1])
            &&& call_ensures(decay, (before.current_strain, ends[i]), sections[i + 1])
        }
    &&& !spec_lt(ends.last(), time)
    &&& after.strain_peaks@ == before.strain_peaks@ + sections.drop_last()
    &&& after.current_section_peak == sections.last()
    &&& after.current_strain == before.current_strain
    &&& after.prev_time == before.prev_time
    &&& after.last_player_position == before.last_player_position
    &&& after.last_distance_moved == before.last_distance_moved
}

impl Movement {
    /// Rolls the sections over towards an object at `time`, from the
    /// current section, which ends at `section_end`: while the object lies
    /// past the end of the section, the peak of the section is saved and a
    /// new section is started from the strain that is left at that end.
    /// `next_end` takes the end of a section and hands back the end of the
    /// one after it, which has to be later. `decay` takes the strain that
    /// has built up and the end of a section and hands back what is left of
    /// the strain at that end.
    ///
    /// As many peaks are saved as ends lie before the object. What comes
    /// back is the end of the section that the object lies in.
    pub fn roll_sections<F: Fn(u64) -> u64, G: Fn(u64, u64) -> u64>(
        &mut self,
        time: u64,
        section_end: u64,
        next_end: &F,
        decay: &G,
    ) -> (end: u64)
        requires
            forall|end: u64| call_requires(next_end, (end,)),
            forall|strain: u64, end: u64| call_requires(decay, (strain, end)),
            forall|end: u64, next: u64|
                spec_lt(end, time) && #[trigger] call_ensures(next_end, (end,), next) ==> spec_lt(
                    end,
                    next,
                ),
        ensures
            exists|ends: Seq<u64>, sections: Seq<u64>|
                {
                    &&& #[trigger] rolled_over(
                        *old(self),
                        section_end,
                        next_end,
                        decay,
                        time,
                        ends,
                        sections,
                        *final(self),
                    )
                    &&& end == ends.last()
                },
            !spec_lt(end, time),
            !spec_lt(section_end, time) ==> end == section_end && final(self).strain_peaks@ == old(
                self,
            ).strain_peaks@ && final(self).current_section_peak == old(self).current_section_peak,
    {
        let ghost before = *self;
        let ghost mut ends: Seq<u64> = seq![section_end];
        let ghost mut sections: Seq<u64> = seq![self.current_section_peak];
        let mut end = section_end;
        proof {
            assert(self.strain_peaks@ =~= before.strain_peaks@ + sections.drop_last());
        }

        while gt(time, end)
            invariant
                before == *old(self),
                ends.len() >= 1,
                sections.len() == ends.len(),
                ends[0] == section_end,
                sections[0] == before.current_section_peak,
                forall|i: int|
                    0 <= i < ends.len() - 1 ==> {
                        &&& spec_lt(#[trigger] ends[i], time)
                        &&& call_ensures(next_end, (ends[i],), ends[i + 1])
                        &&& call_ensures(decay, (before.current_strain, ends[i]), sections[i + 1])
                    },
                end == ends.last(),
                ends.len() == 1 ==> end == section_end,
                self.strain_peaks@ == before.strain_peaks@ + sections.drop_last(),
                self.current_section_peak == sections.last(),
                self.current_strain == before.current_strain,
                self.prev_time == before.prev_time,
                self.last_player_position == before.last_player_position,
                self.last_distance_moved == before.last_distance_moved,
                forall|end: u64| call_requires(next_end, (end,)),
                forall|strain: u64, end: u64| call_requires(decay, (strain, end)),
                forall|end: u64, next: u64|
                    spec_lt(end, time) && #[trigger] call_ensures(next_end, (end,), next)
                        ==> spec_lt(end, next),
            decreases ahead(end, time),
        {
            let ghost saved = sections.drop_last();
            let ghost peak = self.current_section_peak;
            self.save_current_peak();
            let left = decay(self.current_strain, end);
            let next = next_end(end);
            self.start_new_section_from(left);
            proof {
                assert(spec_lt(end, next));
                ends = ends.push(next);
                sections = sections.push(left);
                assert(sections.drop_last() =~= saved.push(peak));
                assert(self.strain_peaks@ =~= before.strain_peaks@ + sections.drop_last());
            }
            end = next;
        }
        proof {
            assert(rolled_over(before, section_end, next_end, decay, time, ends, sections, *self));
            if !spec_lt(section_end, time) {
                assert(ends.len() == 1);
                assert(sections.drop_last() =~= Seq::<u64>::empty());
                assert(self.strain_peaks@ =~= before.strain_peaks@);
            }
        }
        end
    }
}

/// The bits of the double `0.0`: the difficulty before any peak is weighed.
pub const NO_DIFFICULTY: u64 = 0;

/// The bits of the double `1.0`: the weight of the highest peak.
pub const FULL_WEIGHT: u64 = 0x3FF0_0000_0000_0000;

/// Whether `sums` are the difficulty and the weight as they stand before
/// each peak is weighed and after the last one: they start with no
/// difficulty and the full weight, and `weigh` leads from each to the next by
/// the peak in between.
pub open spec fn weighed<F: Fn(u64, u64, u64) -> (u64, u64)>(
    peaks: Seq<u64>,
    weigh: &F,
    sums: Seq<(u64, u64)>,
) -> bool {
    &&& sums.len() == peaks.len() + 1
    &&& sums[0] == (NO_DIFFICULTY, FULL_WEIGHT)
    &&& forall|i: int|
        0 <= i < peaks.len() ==> call_ensures(
            weigh,
            (sums[i].0, sums[i].1, peaks[i]),
            #[trigger] sums[i + 1],
        )
}

/// Whether `weigh` never lowers a difficulty: from a difficulty that is a
/// number it leads to a number that is not less.
pub open spec fn never_lowers<F: Fn(u64, u64, u64) -> (u64, u64)>(weigh: &F) -> bool {
    forall|difficulty: u64, weight: u64, strain: u64, next: (u64, u64)|
        !spec_is_nan(difficulty) && #[trigger] call_ensures(
            weigh,
            (difficulty, weight, strain),
            next,
        ) ==> !spec_is_nan(next.0) && !spec_lt(next.0, difficulty)
}

/// Weighing more peaks never lowers the difficulty value: where no single
/// peak lowers it, the difficulty after any number of peaks is a number that
/// is not less than the difficulty after fewer of them.
pub proof fn lemma_more_peaks_never_lower<F: Fn(u64, u64, u64) -> (u64, u64)>(
    peaks: Seq<u64>,
    weigh: &F,
    sums: Seq<(u64, u64)>,
    fewer: int,
    more: int,
)
    requires
        weighed(peaks, weigh, sums),
        never_lowers(weigh),
        0 <= fewer <= more <= peaks.len(),
    ensures
        !spec_is_nan(sums[more].0),
        !spec_lt(sums[more].0, sums[fewer].0),
        !spec_lt(sums[more].0, NO_DIFFICULTY),
    decreases more,
{
    if more > 0 {
        lemma_more_peaks_never_lower(peaks, weigh, sums, 0, more - 1);
        assert(call_ensures(
            weigh,
            (sums[more - 1].0, sums[more - 1].1, peaks[more - 1]),
            sums[more - 1 + 1],
        ));
        if fewer < more {
            lemma_more_peaks_never_lower(peaks, weigh, sums, fewer, more - 1);
        }
    }
}

impl Movement {
    /// The difficulty value of the skill: the peaks are put in descending
    /// order and weighed one after the other, the highest first. `weigh`
    /// takes the difficulty so far, the weight of the next peak and the peak,
    /// and hands back the difficulty with the peak and the weight of the peak
    /// after it. The peaks have to be numbers without a sign. Without peaks
    /// the difficulty value is zero.
    pub fn difficulty_value<F: Fn(u64, u64, u64) -> (u64, u64)>(&mut self, weigh: &F) -> (difficulty:
        u64)
        requires
            all_non_negative(old(self).strain_peaks@),
            forall|difficulty: u64, weight: u64, strain: u64|
                call_requires(weigh, (difficulty, weight, strain)),
        ensures
            sorted_desc(final(self).strain_peaks@),
            final(self).strain_peaks@.to_multiset() == old(self).strain_peaks@.to_multiset(),
            exists|sums: Seq<(u64, u64)>|
                #[trigger] weighed(final(self).strain_peaks@, weigh, sums) && difficulty
                    == sums.last().0,
            old(self).strain_peaks@.len() == 0 ==> difficulty == NO_DIFFICULTY,
            final(self).last_player_position == old(self).last_player_position,
            final(self).last_distance_moved == old(self).last_distance_moved,
            final(self).current_strain == old(self).current_strain,
            final(self).current_section_peak == old(self).current_section_peak,
            final(self).prev_time == old(self).prev_time,
    {
        let mut difficulty = NO_DIFFICULTY;
        let mut weight = FULL_WEIGHT;

        self.sort_strain_peaks();

        let ghost mut sums: Seq<(u64, u64)> = seq![(NO_DIFFICULTY, FULL_WEIGHT)];
        let n = self.strain_peaks.len();
        let mut i: usize = 0;
        while i < n
            invariant
                n == self.strain_peaks@.len(),
                i <= n,
                sums.len() == i + 1,
                sums[0] == (NO_DIFFICULTY, FULL_WEIGHT),
                sums[i as int] == (difficulty, weight),
                forall|k: int|
                    0 <= k < i ==> call_ensures(
                        weigh,
                        (sums[k].0, sums[k].1, self.strain_peaks@[k]),
                        #[trigger] sums[k + 1],
                    ),
                forall|difficulty: u64, weight: u64, strain: u64|
                    call_requires(weigh, (difficulty, weight, strain)),
            decreases n - i,
        {
            let strain = self.strain_peaks[i];
            let next = weigh(difficulty, weight, strain);
            proof {
                sums = sums.push(next);
            }
            difficulty = next.0;
            weight = next.1;
            i += 1;
        }
        proof {
            assert(weighed(self.strain_peaks@, weigh, sums));
        }
        difficulty
    }
}

} // verus!
