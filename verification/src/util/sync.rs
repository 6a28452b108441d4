use vstd::prelude::*;

verus! {

/// The place where shared values live. A value is added once and stays at
/// its index for as long as the arena lives.
pub struct Arena<T> {
    slots: Vec<T>,
}

impl<T> View for Arena<T> {
    type V = Seq<T>;

    closed spec fn view(&self) -> Seq<T> {
        self.slots@
    }
}

impl<T> Arena<T> {
    /// An arena without values.
    pub fn new() -> (arena: Self)
        ensures
            arena@ == Seq::<T>::empty(),
    {
        Self { slots: Vec::new() }
    }

    /// The number of values in the arena.
    pub fn len(&self) -> (len: usize)
        ensures
            len == self@.len(),
    {
        self.slots.len()
    }
}

/// A strong handle on a value in an [`Arena`].
#[derive(Copy, Clone, Debug, PartialEq, Eq, Structural)]
pub struct RefCount {
    index: usize,
}

/// A weak handle on a value in an [`Arena`]: whether the value exists shows
/// only when the handle is upgraded.
#[derive(Copy, Clone, Debug, PartialEq, Eq, Structural)]
pub struct Weak {
    index: usize,
}

impl RefCount {
    /// Where in the arena the value lives.
    pub closed spec fn index(&self) -> int {
        self.index as int
    }

    /// Whether the handle points into the arena.
    pub open spec fn valid_in<T>(&self, arena: &Arena<T>) -> bool {
        0 <= self.index() < arena@.len()
    }

    /// Puts a value into the arena, behind all others, and hands out the
    /// handle on it.
    pub fn new<T>(arena: &mut Arena<T>, inner: T) -> (this: Self)
        ensures
            final(arena)@ == old(arena)@.push(inner),
            this.index() == old(arena)@.len(),
            this.valid_in(final(arena)),
    {
        let index = arena.slots.len();
        arena.slots.push(inner);
        Self { index }
    }

    /// A second handle on the same value.
    pub fn clone(this: &Self) -> (other: Self)
        ensures
            other == *this,
    {
        Self { index: this.index }
    }

    /// A weak handle on the same value.
    pub fn downgrade(&self) -> (weak: Weak)
        ensures
            weak.index() == self.index(),
    {
        Weak { index: self.index }
    }

    /// Reads the value.
    pub fn get<'a, T>(&self, arena: &'a Arena<T>) -> (inner: &'a T)
        requires
            self.valid_in(arena),
        ensures
            *inner == arena@[self.index()],
    {
        &arena.slots[self.index]
    }

    /// Hands out the value for a change in place. Every other value of the
    /// arena stays as it is.
    pub fn get_mut<'a, T>(&self, arena: &'a mut Arena<T>) -> (inner: &'a mut T)
        requires
            self.valid_in(old(arena)),
        ensures
            *inner == old(arena)@[self.index()],
            final(arena)@ == old(arena)@.update(self.index(), *final(inner)),
    {
        &mut arena.slots[self.index]
    }
}

impl Weak {
    /// Where in the arena the value would live.
    pub closed spec fn index(&self) -> int {
        self.index as int
    }

    /// The strong handle on the value, if the arena holds it.
    pub fn upgrade<T>(&self, arena: &Arena<T>) -> (strong: Option<RefCount>)
        ensures
            strong matches Some(handle) ==> handle.index() == self.index() && handle.valid_in(
                arena,
            ),
            strong is Some <==> 0 <= self.index() < arena@.len(),
    {
        if self.index < arena.slots.len() {
            Some(RefCount { index: self.index })
        } else {
            None
        }
    }
}

/// Values that were reachable stay reachable and unchanged when another
/// value is added.
pub proof fn lemma_new_keeps_handles<T>(before: Seq<T>, inner: T, index: int)
    requires
        0 <= index < before.len(),
    ensures
        before.push(inner)[index] == before[index],
        index < before.push(inner).len(),
{
}

} // verus!
