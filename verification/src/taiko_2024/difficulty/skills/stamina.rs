use vstd::prelude::*;

use crate::util::float_bits::{gt, lt, max, place, spec_lt, spec_max};
use crate::util::strains_vec::{stored_value, StrainsVec, MAX_RUN};
use crate::util::sync::{Arena, Weak};

verus! {

/// A run of hits of one colour: its hits in order, each by a weak handle on
/// the index that the hit has among the difficulty objects.
pub struct MonoStreak {
    pub hit_objects: Vec<Weak>,
}

/// Whether a weak handle points at a hit with the index `idx`.
pub open spec fn points_at(hit: Weak, indices: Seq<usize>, idx: usize) -> bool {
    0 <= hit.index() < indices.len() && indices[hit.index()] == idx
}

/// Whether `i` is the first place of a run that holds the hit with the
/// index `idx`.
pub open spec fn first_at(members: Seq<Weak>, indices: Seq<usize>, idx: usize, i: int) -> bool {
    &&& 0 <= i < members.len()
    &&& points_at(members[i], indices, idx)
    &&& forall|j: int| 0 <= j < i ==> !points_at(#[trigger] members[j], indices, idx)
}

/// Whether a run holds the hit with the index `idx`.
pub open spec fn holds(members: Seq<Weak>, indices: Seq<usize>, idx: usize) -> bool {
    exists|i: int| 0 <= i < members.len() && points_at(#[trigger] members[i], indices, idx)
}

/// The place of a hit in its run of one colour: the first place of the run
/// that holds the hit, or the first place of all if the hit has no run, if
/// its run is gone, or if the run does not hold it.
pub fn mono_index(
    mono_streak: Option<Weak>,
    streaks: &Arena<MonoStreak>,
    indices: &Arena<usize>,
    idx: usize,
) -> (index: usize)
    ensures
        match mono_streak {
            Some(streak) if 0 <= streak.index() < streaks@.len() => {
                let members = streaks@[streak.index()].hit_objects@;
                &&& holds(members, indices@, idx) ==> first_at(
                    members,
                    indices@,
                    idx,
                    index as int,
                )
                &&& !holds(members, indices@, idx) ==> index == 0
            },
            _ => index == 0,
        },
{
    let streak = match mono_streak {
        Some(streak) => streak,
        None => return 0,
    };
    let mono = match streak.upgrade(streaks) {
        Some(mono) => mono,
        None => return 0,
    };
    let members = &mono.get(streaks).hit_objects;
    let mut i: usize = 0;
    while i < members.len()
        invariant
            i <= members@.len(),
            mono_streak == Some(streak),
            0 <= streak.index() < streaks@.len(),
            members@ == streaks@[streak.index()].hit_objects@,
            forall|j: int| 0 <= j < i ==> !points_at(#[trigger] members@[j], indices@, idx),
        decreases members@.len() - i,
    {
        let found = match members[i].upgrade(indices) {
            Some(hit) => *hit.get(indices) == idx,
            None => false,
        };
        if found {
            assert(points_at(members@[i as int], indices@, idx));
            return i;
        }
        i += 1;
    }
    0
}

/// How far the place in a run of one colour is from the tenth place, which
/// is where the strain of a chart of one colour counts half.
pub fn places_from_tenth(index: usize) -> (places: isize)
    requires
        index <= isize::MAX,
    ensures
        places == 10 - index,
{
    10 - (index as isize)
}

/// The bits of the double `300.0`: a change of colour that is less than this
/// many milliseconds away takes two fingers off a hit.
pub const CLOSE_CHANGE: u64 = 0x4072_C000_0000_0000;

/// Whether a change of colour is close to a hit, given the time between
/// them as the bits of a double, if there is such a change.
pub open spec fn spec_is_close(time_between: Option<u64>) -> bool {
    match time_between {
        Some(time) => spec_lt(time, CLOSE_CHANGE),
        None => false,
    }
}

/// Judges around the stamina skill.
pub struct StaminaEvaluator;

impl StaminaEvaluator {
    /// The number of fingers that are free for a hit: two if the colour
    /// changes within 300 milliseconds before or after it, else four.
    /// `since_prev_change` is the time that has passed since the change of
    /// colour before the hit, `until_next_change` the time until the next
    /// one, each as the bits of a double and only if there is such a change.
    pub fn available_fingers_for(since_prev_change: Option<u64>, until_next_change: Option<u64>)
        -> (fingers: usize)
        ensures
            fingers == if spec_is_close(since_prev_change) || spec_is_close(until_next_change) {
                2usize
            } else {
                4usize
            },
    {
        if let Some(time) = since_prev_change {
            if lt(time, CLOSE_CHANGE) {
                return 2;
            }
        }
        if let Some(time) = until_next_change {
            if lt(time, CLOSE_CHANGE) {
                return 2;
            }
        }
        4
    }

    /// How many hits of one colour to look back for the hit of the same
    /// finger: one less than there are free fingers.
    pub fn key_lookback(since_prev_change: Option<u64>, until_next_change: Option<u64>) -> (back:
        usize)
        ensures
            back == if spec_is_close(since_prev_change) || spec_is_close(until_next_change) {
                1usize
            } else {
                3usize
            },
    {
        Self::available_fingers_for(since_prev_change, until_next_change) - 1
    }
}

/// What is to be done next for an object that a skill takes in.
#[derive(Copy, Clone, Debug, PartialEq, Eq, Structural)]
pub enum Step {
    /// The object lies past the end of the current section. The peak of
    /// that section was saved; a new section is to be started from the
    /// strain that is left at `boundary`, the end of the old one.
    NewSection { boundary: u64 },
    /// The object lies in the current section: its strain is to be
    /// evaluated and recorded.
    Evaluate,
}

/// The stamina skill of the taiko mode: the strain that has built up, the
/// peak of the current section and the peaks of the sections before it.
/// Every quantity is the bits of a double.
#[derive(Clone)]
pub struct Stamina {
    strain_peaks: StrainsVec,
    curr_section_peak: u64,
    curr_section_end: u64,
    single_color: bool,
    curr_strain: u64,
}

impl Stamina {
    /// The peaks of the sections that have ended, oldest first.
    pub closed spec fn peaks(&self) -> Seq<u64> {
        self.strain_peaks@
    }

    /// The highest strain of the current section so far.
    pub closed spec fn curr_section_peak(&self) -> u64 {
        self.curr_section_peak
    }

    /// The time at which the current section ends.
    pub closed spec fn curr_section_end(&self) -> u64 {
        self.curr_section_end
    }

    /// Whether the chart has hits of one colour only.
    pub closed spec fn spec_single_color(&self) -> bool {
        self.single_color
    }

    /// The strain that has built up.
    pub closed spec fn spec_curr_strain(&self) -> u64 {
        self.curr_strain
    }

    /// Whether the peak of one more section can be saved.
    pub open spec fn spec_has_room(&self) -> bool {
        self.peaks().len() < usize::MAX && self.peaks().len() < MAX_RUN
    }

    /// The strain that a new section starts from, given the strain that is
    /// left of the current one at its start.
    pub open spec fn spec_initial_strain(&self, decayed: u64) -> u64 {
        if self.spec_single_color() {
            0
        } else {
            decayed
        }
    }

    /// The list of peaks is in order and holds every peak that was saved.
    pub closed spec fn wf(&self) -> bool {
        &&& self.strain_peaks.wf()
        &&& self.strain_peaks.pushed() == self.strain_peaks@.len()
    }

    pub fn new(single_color: bool) -> (skill: Self)
        ensures
            skill.wf(),
            skill.peaks() == Seq::<u64>::empty(),
            skill.curr_section_peak() == 0,
            skill.curr_section_end() == 0,
            skill.spec_curr_strain() == 0,
            skill.spec_single_color() == single_color,
    {
        Self {
            strain_peaks: StrainsVec::with_capacity(256),
            curr_section_peak: 0,
            curr_section_end: 0,
            single_color,
            curr_strain: 0,
        }
    }

    /// Whether the chart has hits of one colour only. If so, a new section
    /// starts from a strain of zero.
    pub fn single_color(&self) -> (single: bool)
        ensures
            single == self.spec_single_color(),
    {
        self.single_color
    }

    /// The strain that has built up.
    pub fn curr_strain(&self) -> (strain: u64)
        ensures
            strain == self.spec_curr_strain(),
    {
        self.curr_strain
    }

    /// The time at which the current section ends.
    pub fn section_end(&self) -> (end: u64)
        ensures
            end == self.curr_section_end(),
    {
        self.curr_section_end
    }

    /// Sets the end of the first section, which is the time of the first
    /// object rounded up to a full section.
    pub fn set_section_end(&mut self, end: u64)
        ensures
            final(self).curr_section_end() == end,
            final(self).peaks() == old(self).peaks(),
            final(self).curr_section_peak() == old(self).curr_section_peak(),
            final(self).spec_curr_strain() == old(self).spec_curr_strain(),
            final(self).spec_single_color() == old(self).spec_single_color(),
            old(self).wf() ==> final(self).wf(),
    {
        self.curr_section_end = end;
    }

    /// Whether the peak of one more section can be saved.
    pub fn has_room(&self) -> (room: bool)
        requires
            self.wf(),
        ensures
            room == self.spec_has_room(),
    {
        let n = self.strain_peaks.len();
        n < usize::MAX && (n as u64) < MAX_RUN
    }

    /// Saves the peak of the current section behind the peaks of the
    /// sections before it.
    pub fn save_curr_peak(&mut self)
        requires
            old(self).wf(),
            old(self).peaks().len() < usize::MAX,
            old(self).peaks().len() < MAX_RUN,
        ensures
            final(self).wf(),
            final(self).peaks() == old(self).peaks().push(
                stored_value(old(self).curr_section_peak()),
            ),
            final(self).curr_section_peak() == old(self).curr_section_peak(),
            final(self).curr_section_end() == old(self).curr_section_end(),
            final(self).spec_curr_strain() == old(self).spec_curr_strain(),
            final(self).spec_single_color() == old(self).spec_single_color(),
    {
        self.strain_peaks.push(self.curr_section_peak);
    }

    /// The strain that a new section starts from, given the strain that is
    /// left of the current one at its start: on a chart of a single colour
    /// nothing is carried over.
    pub fn initial_strain(&self, decayed: u64) -> (strain: u64)
        ensures
            strain == if self.spec_single_color() {
                0
            } else {
                decayed
            },
    {
        if self.single_color {
            0
        } else {
            decayed
        }
    }

    /// The strain that an object counts with, given the strain that has
    /// built up after it and that strain eased by the object's place in its
    /// streak: on a chart of a single colour the eased one counts.
    pub fn strain_value_at(&self, curr_strain: u64, eased: u64) -> (strain: u64)
        ensures
            strain == if self.spec_single_color() {
                eased
            } else {
                curr_strain
            },
    {
        if self.single_color {
            eased
        } else {
            curr_strain
        }
    }

    /// Starts a new section, which ends at `section_end`, given the strain
    /// that is left of the current one at its start: the section starts from
    /// that strain, and from `0.0` on a chart of a single colour.
    pub fn start_new_section_from(&mut self, decayed: u64, section_end: u64)
        ensures
            final(self).curr_section_peak() == if old(self).spec_single_color() {
                0
            } else {
                decayed
            },
            final(self).curr_section_end() == section_end,
            final(self).peaks() == old(self).peaks(),
            final(self).spec_curr_strain() == old(self).spec_curr_strain(),
            final(self).spec_single_color() == old(self).spec_single_color(),
            old(self).wf() ==> final(self).wf(),
    {
        self.curr_section_peak = self.initial_strain(decayed);
        self.curr_section_end = section_end;
    }

    /// Records the strain that has built up after an object, given that
    /// strain eased by the object's place in its streak: the peak of the
    /// section is the larger of the peak so far and the strain that the
    /// object counts with.
    pub fn record(&mut self, curr_strain: u64, eased: u64)
        ensures
            final(self).spec_curr_strain() == curr_strain,
            final(self).curr_section_peak() == spec_max(
                if old(self).spec_single_color() {
                    eased
                } else {
                    curr_strain
                },
                old(self).curr_section_peak(),
            ),
            final(self).curr_section_end() == old(self).curr_section_end(),
            final(self).peaks() == old(self).peaks(),
            final(self).spec_single_color() == old(self).spec_single_color(),
            old(self).wf() ==> final(self).wf(),
    {
        let counted = self.strain_value_at(curr_strain, eased);
        self.curr_strain = curr_strain;
        self.curr_section_peak = max(counted, self.curr_section_peak);
    }

    /// The peaks of all sections, the current one included.
    pub fn get_curr_strain_peaks(self) -> (peaks: StrainsVec)
        requires
            self.wf(),
            self.peaks().len() < usize::MAX,
            self.peaks().len() < MAX_RUN,
        ensures
            peaks.wf(),
            peaks@ == self.peaks().push(stored_value(self.curr_section_peak())),
            peaks.pushed() == peaks@.len(),
    {
        let mut peaks = self.strain_peaks;
        peaks.push(self.curr_section_peak);
        peaks
    }
}

/// How far the end of a section lies before a time, in places among the
/// doubles: zero where it does not lie before it.
pub open spec fn ahead(end: u64, start_time: u64) -> int {
    if spec_lt(end, start_time) {
        place(start_time) - place(end)
    } else {
        0
    }
}

/// Whether the skill `after` is the skill `before` with its sections rolled
/// over towards an object that starts at `start_time`.
///
/// `ends` are the ends of the sections from the current one of `before` to
/// the current one of `after`: each but the last lies before the object,
/// and `next_end` leads from each to the next. `decayed` is the strain that
/// `decay` leaves of the strain of `before` at each end that was passed, and
/// `sections` are the peaks of the same sections: the first is the peak that
/// `before` has reached, and every later section starts from the strain
/// that is left at its start, or from `0.0` on a chart of a single colour.
/// All sections but the last are saved behind the peaks of `before`, in
/// their order.
pub open spec fn rolled_over<F: Fn(u64) -> u64, G: Fn(u64, u64) -> u64>(
    before: Stamina,
    next_end: &F,
    decay: &G,
    start_time: u64,
    ends: Seq<u64>,
    decayed: Seq<u64>,
    sections: Seq<u64>,
    after: Stamina,
) -> bool {
    &&& ends.len() == decayed.len() + 1
    &&& sections.len() == decayed.len() + 1
    &&& ends[0] == before.curr_section_end()
    &&& sections[0] == before.curr_section_peak()
    &&& forall|i: int|
        0 <= i < decayed.len() ==> {
            &&& spec_lt(#[trigger] ends[i], start_time)
            &&& call_ensures(next_end, (ends[i],), ends[i + 1])
            &&& call_ensures(decay, (before.spec_curr_strain(), ends[i]), decayed[i])
            &&& sections[i + 1] == before.spec_initial_strain(decayed[i])
        }
    &&& after.curr_section_end() == ends.last()
    &&& after.curr_section_peak() == sections.last()
    &&& after.peaks() == before.peaks() + Seq::new(
        decayed.len(),
        |i: int| stored_value(sections[i]),
    )
    &&& after.spec_curr_strain() == before.spec_curr_strain()
    &&& after.spec_single_color() == before.spec_single_color()
}

/// Rolling over saves one peak for each end that lies before the object:
/// first the peak that the skill had reached, then, for each further end,
/// what was left of the strain at the end before it, and `0.0` on a chart of
/// a single colour. The section that the object lies in starts the same way
/// and is not saved yet.
pub proof fn lemma_rolled_over_peaks<F: Fn(u64) -> u64, G: Fn(u64, u64) -> u64>(
    before: Stamina,
    next_end: &F,
    decay: &G,
    start_time: u64,
    ends: Seq<u64>,
    decayed: Seq<u64>,
    sections: Seq<u64>,
    after: Stamina,
)
    requires
        rolled_over(before, next_end, decay, start_time, ends, decayed, sections, after),
    ensures
        after.peaks().len() == before.peaks().len() + decayed.len(),
        after.peaks().take(before.peaks().len() as int) == before.peaks(),
        decayed.len() == 0 ==> after.curr_section_peak() == before.curr_section_peak(),
        decayed.len() > 0 ==> {
            &&& after.peaks()[before.peaks().len() as int] == stored_value(
                before.curr_section_peak(),
            )
            &&& after.curr_section_peak() == before.spec_initial_strain(decayed.last())
        },
        forall|i: int|
            1 <= i < decayed.len() ==> #[trigger] after.peaks()[before.peaks().len() + i]
                == stored_value(before.spec_initial_strain(decayed[i - 1])),
        forall|i: int|
            0 <= i < decayed.len() ==> call_ensures(
                decay,
                (before.spec_curr_strain(), ends[i]),
                #[trigger] decayed[i],
            ),
{
    let saved = Seq::new(decayed.len(), |i: int| stored_value(sections[i]));
    assert(after.peaks().take(before.peaks().len() as int) =~= before.peaks());
    assert forall|i: int| 1 <= i < decayed.len() implies #[trigger] after.peaks()[before.peaks().len()
        + i] == stored_value(before.spec_initial_strain(decayed[i - 1])) by {
        assert(after.peaks()[before.peaks().len() + i] == saved[i]);
        assert(spec_lt(ends[i - 1], start_time));
    }
    if decayed.len() > 0 {
        assert(after.peaks()[before.peaks().len() as int] == saved[0]);
        assert(spec_lt(ends[decayed.len() - 1], start_time));
    }
    assert forall|i: int| 0 <= i < decayed.len() implies call_ensures(
        decay,
        (before.spec_curr_strain(), ends[i]),
        #[trigger] decayed[i],
    ) by {
        assert(spec_lt(ends[i], start_time));
    }
}

/// A skill at work on the objects of a chart.
pub struct Skill {
    pub inner: Stamina,
}

impl Skill {
    pub fn new(inner: Stamina) -> (skill: Self)
        ensures
            skill.inner == inner,
    {
        Self { inner }
    }

    /// Takes in an object that starts at `start_time`. While the object lies
    /// past the end of the current section, the peak of that section is
    /// saved and a new section is asked for; else nothing changes and the
    /// strain of the object is asked for.
    pub fn process(&mut self, start_time: u64) -> (step: Step)
        requires
            old(self).inner.wf(),
            old(self).inner.peaks().len() < usize::MAX,
            old(self).inner.peaks().len() < MAX_RUN,
        ensures
            final(self).inner.wf(),
            final(self).inner.curr_section_peak() == old(self).inner.curr_section_peak(),
            final(self).inner.curr_section_end() == old(self).inner.curr_section_end(),
            final(self).inner.spec_curr_strain() == old(self).inner.spec_curr_strain(),
            final(self).inner.spec_single_color() == old(self).inner.spec_single_color(),
            spec_lt(old(self).inner.curr_section_end(), start_time) ==> {
                &&& step == (Step::NewSection { boundary: old(self).inner.curr_section_end() })
                &&& final(self).inner.peaks() == old(self).inner.peaks().push(
                    stored_value(old(self).inner.curr_section_peak()),
                )
            },
            !spec_lt(old(self).inner.curr_section_end(), start_time) ==> {
                &&& step == Step::Evaluate
                &&& final(self).inner.peaks() == old(self).inner.peaks()
            },
    {
        let boundary = self.inner.section_end();
        if gt(start_time, boundary) {
            self.inner.save_curr_peak();
            Step::NewSection { boundary }
        } else {
            Step::Evaluate
        }
    }

    /// Rolls the sections over towards an object that starts at
    /// `start_time`: while the object lies past the end of the current
    /// section, the peak of that section is saved and a new section is
    /// started. `next_end` takes the end of a section and hands back the end
    /// of the one after it, which has to be later. `decay` takes the strain
    /// that has built up and the end of a section and hands back what is left
    /// of the strain at that end.
    ///
    /// As many sections are saved as ends lie before the object. The skill
    /// says whether the object lies in the section that it has come to; it
    /// does unless no more peaks can be saved.
    pub fn roll_over<F: Fn(u64) -> u64, G: Fn(u64, u64) -> u64>(
        &mut self,
        start_time: u64,
        next_end: &F,
        decay: &G,
    ) -> (arrived: bool)
        requires
            old(self).inner.wf(),
            forall|end: u64| call_requires(next_end, (end,)),
            forall|strain: u64, end: u64| call_requires(decay, (strain, end)),
            forall|end: u64, next: u64|
                spec_lt(end, start_time) && #[trigger] call_ensures(next_end, (end,), next)
                    ==> spec_lt(end, next),
        ensures
            final(self).inner.wf(),
            exists|ends: Seq<u64>, decayed: Seq<u64>, sections: Seq<u64>| #[trigger]
                rolled_over(
                    old(self).inner,
                    next_end,
                    decay,
                    start_time,
                    ends,
                    decayed,
                    sections,
                    final(self).inner,
                ),
            arrived == !spec_lt(final(self).inner.curr_section_end(), start_time),
            !arrived ==> !final(self).inner.spec_has_room(),
    {
        let ghost before = self.inner;
        let ghost mut ends: Seq<u64> = seq![self.inner.curr_section_end()];
        let ghost mut decayed: Seq<u64> = Seq::empty();
        let ghost mut sections: Seq<u64> = seq![self.inner.curr_section_peak()];
        proof {
            assert(self.inner.peaks() =~= before.peaks() + Seq::new(
                0,
                |i: int| stored_value(sections[i]),
            ));
        }

        while gt(start_time, self.inner.section_end())
            invariant
                before == old(self).inner,
                self.inner.wf(),
                rolled_over(
                    before,
                    next_end,
                    decay,
                    start_time,
                    ends,
                    decayed,
                    sections,
                    self.inner,
                ),
                forall|end: u64| call_requires(next_end, (end,)),
                forall|strain: u64, end: u64| call_requires(decay, (strain, end)),
                forall|end: u64, next: u64|
                    spec_lt(end, start_time) && #[trigger] call_ensures(next_end, (end,), next)
                        ==> spec_lt(end, next),
            decreases ahead(self.inner.curr_section_end(), start_time),
        {
            if !self.inner.has_room() {
                return false;
            }
            let ghost peaks = self.inner.peaks();
            let boundary = self.inner.section_end();
            self.inner.save_curr_peak();
            let left = decay(self.inner.curr_strain(), boundary);
            let end = next_end(boundary);
            self.inner.start_new_section_from(left, end);
            proof {
                assert(spec_lt(boundary, end));
                let saved = Seq::new(decayed.len(), |i: int| stored_value(sections[i]));
                let last = sections.last();
                ends = ends.push(end);
                decayed = decayed.push(left);
                sections = sections.push(before.spec_initial_strain(left));
                assert(self.inner.peaks() =~= before.peaks() + Seq::new(
                    decayed.len(),
                    |i: int| stored_value(sections[i]),
                )) by {
                    assert(peaks == before.peaks() + saved);
                    assert(self.inner.peaks() == peaks.push(stored_value(last)));
                }
            }
        }
        true
    }

    pub fn into_inner(self) -> (inner: Stamina)
        ensures
            inner == self.inner,
    {
        self.inner
    }
}

} // verus!
