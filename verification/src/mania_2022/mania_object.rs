use vstd::prelude::*;

verus! {

/// What is remembered while the objects of a chart are turned into mania
/// objects.
pub struct ObjectParams {
    max_combo: u32,
}

impl ObjectParams {
    /// The maximum combo of the objects so far.
    pub closed spec fn max_combo(&self) -> u32 {
        self.max_combo
    }

    pub fn new() -> (params: Self)
        ensures
            params.max_combo() == 0,
    {
        Self { max_combo: 0 }
    }

    /// Whether an object with that many ticks can still be counted: the
    /// combo with it fits its type.
    pub fn has_room_for(&self, ticks: u32) -> (room: bool)
        ensures
            room == (self.max_combo() + 1 + ticks <= u32::MAX),
    {
        self.max_combo < u32::MAX && ticks <= u32::MAX - self.max_combo - 1
    }

    /// Counts an object that lasts no time.
    pub fn record_note(&mut self)
        requires
            old(self).max_combo() < u32::MAX,
        ensures
            final(self).max_combo() == old(self).max_combo() + 1,
    {
        self.max_combo += 1;
    }

    /// Counts an object that lasts, with the ticks of its duration: one for
    /// each full hundred milliseconds.
    pub fn record_long_note(&mut self, ticks: u32)
        requires
            old(self).max_combo() + 1 + ticks <= u32::MAX,
        ensures
            final(self).max_combo() == old(self).max_combo() + 1 + ticks,
    {
        self.max_combo += 1;
        self.max_combo += ticks;
    }

    pub fn into_max_combo(self) -> (max_combo: u32)
        ensures
            max_combo == self.max_combo(),
    {
        self.max_combo
    }
}

} // verus!
