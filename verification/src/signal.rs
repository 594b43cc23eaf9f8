//! The generation-tracked mutable cell.

use crate::generation::bump_spec;
use vstd::prelude::*;

verus! {

/// A mutable cell that owns a value and a generation counter.
///
/// Every operation that grants mutable access to the value bumps the counter,
/// including [`Signal::get_mut`], which bumps it whether or not the caller
/// actually writes through the returned borrow: the cell cannot observe what
/// the caller does with the borrow, so it pessimistically assumes a mutation.
/// The counter starts at the non-zero sentinel `1` and wraps around at
/// `u32::MAX` rather than panicking.
#[derive(Debug)]
pub struct Signal<T> {
    pub inner: T,
    pub generation: u32,
}

impl<T> Signal<T> {
    /// Creates a cell holding `value`, with the generation at its sentinel.
    pub fn new(value: T) -> (s: Self)
        ensures
            s.inner == value,
            s.generation == 1,
    {
        Self { inner: value, generation: 1 }
    }

    /// Records that the value has (possibly) been mutated by bumping the
    /// generation counter, wrapping at the top instead of panicking.
    #[inline(always)]
    pub fn flag_updated(&mut self)
        ensures
            final(self).inner == old(self).inner,
            final(self).generation == bump_spec(old(self).generation),
    {
        self.generation = self.generation.wrapping_add(1);
    }

    /// Replaces the value, bumping the generation counter.
    #[inline]
    pub fn set(&mut self, value: T)
        ensures
            final(self).inner == value,
            final(self).generation == bump_spec(old(self).generation),
    {
        self.flag_updated();

        self.inner = value;
    }

    /// Read-only access to the value; the generation does not change.
    #[inline]
    pub fn get(&self) -> (r: &T)
        ensures
            *r == self.inner,
    {
        &self.inner
    }

    /// Mutable access to the value.  The generation is bumped up front,
    /// whether or not the caller writes through the borrow.
    #[inline]
    pub fn get_mut(&mut self) -> (r: &mut T)
        ensures
            *r == old(self).inner,
            final(self).inner == *final(r),
            final(self).generation == bump_spec(old(self).generation),
    {
        self.flag_updated();

        &mut self.inner
    }

    /// The current generation counter.
    #[inline]
    pub fn generation(&self) -> (g: u32)
        ensures
            g == self.generation,
    {
        self.generation
    }
}

} // verus!
