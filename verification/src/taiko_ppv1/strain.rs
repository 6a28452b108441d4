use vstd::prelude::*;

use crate::util::float_bits::{lt_single, spec_lt_single};

verus! {

/// Whether the last run of one colour had an even or an odd length.
#[derive(Copy, Clone, Debug, PartialEq, Eq, Structural)]
pub enum ColorSwitch {
    Unset,
    Even,
    Odd,
}

/// What the strain of the taiko mode remembers of the colours.
#[derive(Copy, Clone, Debug, PartialEq, Eq, Structural)]
pub struct ColorState {
    /// The length of the current run of one colour.
    pub same_color_count: usize,
    /// The parity of the run before it.
    pub last_color_switch: ColorSwitch,
}

/// The parity of a run of the given length.
pub open spec fn spec_parity(count: usize) -> ColorSwitch {
    if count % 2 == 0 {
        ColorSwitch::Even
    } else {
        ColorSwitch::Odd
    }
}

impl ColorState {
    /// The state before any hit: a run of one, and no run before it.
    pub fn new() -> (state: Self)
        ensures
            state == (Self { same_color_count: 1, last_color_switch: ColorSwitch::Unset }),
    {
        Self { same_color_count: 1, last_color_switch: ColorSwitch::Unset }
    }

    /// Forgets the runs, as after a hit that is no circle or comes late.
    pub fn reset(&mut self)
        ensures
            *final(self) == (Self { same_color_count: 1, last_color_switch: ColorSwitch::Unset }),
    {
        self.last_color_switch = ColorSwitch::Unset;
        self.same_color_count = 1;
    }

    /// The state after a hit.
    pub open spec fn spec_next(self, has_type_change: bool) -> Self {
        if has_type_change {
            Self {
                same_color_count: 1,
                last_color_switch: spec_parity(self.same_color_count),
            }
        } else {
            Self { same_color_count: (self.same_color_count + 1) as usize, ..self }
        }
    }

    /// Whether a hit counts as a change of colour: the colour changes, and
    /// the run that ends has another parity than the run before it.
    pub open spec fn spec_has_color_change(self, has_type_change: bool) -> bool {
        &&& has_type_change
        &&& self.last_color_switch != ColorSwitch::Unset
        &&& self.last_color_switch != spec_parity(self.same_color_count)
    }

    /// Takes in a hit and says whether it counts as a change of colour.
    pub fn has_color_change(&mut self, has_type_change: bool) -> (change: bool)
        requires
            !has_type_change ==> old(self).same_color_count < usize::MAX,
        ensures
            *final(self) == old(self).spec_next(has_type_change),
            change == old(self).spec_has_color_change(has_type_change),
    {
        if !has_type_change {
            self.same_color_count += 1;

            return false;
        }
        let old_color_switch = self.last_color_switch;

        let new_color_switch = if self.same_color_count % 2 == 0 {
            ColorSwitch::Even
        } else {
            ColorSwitch::Odd
        };

        self.last_color_switch = new_color_switch;
        self.same_color_count = 1;

        old_color_switch != ColorSwitch::Unset && old_color_switch != new_color_switch
    }
}

/// A change of colour right after another one never counts twice in a row
/// with the same parity: after a counted change the run before has the
/// parity of the run that ended.
pub proof fn lemma_color_change_sets_parity(state: ColorState, has_type_change: bool)
    requires
        has_type_change,
    ensures
        state.spec_next(has_type_change).same_color_count == 1,
        state.spec_next(has_type_change).last_color_switch == spec_parity(state.same_color_count),
        state.spec_next(true).spec_has_color_change(true) <==> spec_parity(
            state.same_color_count,
        ) == ColorSwitch::Even,
{
}


/// The bits of the single-precision float `1000.0`: hits that are a second
/// or more apart make no pattern.
pub const PATTERN_WINDOW: u32 = 0x447A_0000;

impl ColorState {
    /// Whether a hit makes a pattern with the hit before it: both are
    /// circles, and less than a second lies between them. `delta` is the
    /// time between them as the bits of a single-precision float.
    pub open spec fn spec_makes_pattern(base_is_circle: bool, prev_is_circle: bool, delta: u32)
        -> bool {
        base_is_circle && prev_is_circle && spec_lt_single(delta, PATTERN_WINDOW)
    }

    /// Takes in a hit and says whether it counts as a change of colour. A
    /// hit that makes no pattern with the hit before it counts as none, and
    /// the runs are forgotten.
    pub fn take_in(
        &mut self,
        base_is_circle: bool,
        prev_is_circle: bool,
        delta: u32,
        has_type_change: bool,
    ) -> (change: Option<bool>)
        requires
            !has_type_change ==> old(self).same_color_count < usize::MAX,
        ensures
            Self::spec_makes_pattern(base_is_circle, prev_is_circle, delta) ==> {
                &&& *final(self) == old(self).spec_next(has_type_change)
                &&& change == Some(old(self).spec_has_color_change(has_type_change))
            },
            !Self::spec_makes_pattern(base_is_circle, prev_is_circle, delta) ==> {
                &&& *final(self) == (Self {
                    same_color_count: 1,
                    last_color_switch: ColorSwitch::Unset,
                })
                &&& change is None
            },
    {
        if base_is_circle && prev_is_circle && lt_single(delta, PATTERN_WINDOW) {
            Some(self.has_color_change(has_type_change))
        } else {
            self.reset();
            None
        }
    }
}

} // verus!
