//! Derivable sources: anything that can report a generation marker and
//! produce a value.
//!
//! Three kinds of source exist: a [`SignalRef`], a direct handle into a
//! [`Signal`]; a [`DerivedSignalRef`], a handle into the output cell of a
//! [`crate::Derived`] view (so a derived view can in turn be derived from);
//! and a pair of sources, whose marker and value are the pairs of its
//! members' markers and values.  A handle borrows its referent, so it is
//! created transiently at each read and never outlives the cell it points to.

use crate::derived::Derived;
use crate::signal::Signal;
use vstd::prelude::*;

verus! {

/// The capability of reporting a current generation marker and producing a
/// current value.  A derived view compares the marker against the baseline it
/// recorded at its last computation to decide whether that computation is
/// stale, and reads the value to redo it.
pub trait SignalDeriveBase: Sized {
    type Generation;

    type Value;

    /// The source's current generation marker.
    spec fn gen_spec(&self) -> Self::Generation;

    /// The source's current value.
    spec fn value_spec(&self) -> Self::Value;

    /// Whether `other` is the source's current generation marker.
    fn compare_generation(&self, other: Self::Generation) -> (r: bool)
        ensures
            r == (other == self.gen_spec()),
    ;

    /// The source's current generation marker.
    fn current_generation(&self) -> (g: Self::Generation)
        ensures
            g == self.gen_spec(),
    ;

    /// The source's current value.
    fn get(&self) -> (v: Self::Value)
        ensures
            v == self.value_spec(),
    ;
}

/// A direct handle into a [`Signal`]: its marker is the signal's own counter
/// and its value is a copy of the signal's contents.
pub struct SignalRef<'a, T> {
    pub inner: &'a Signal<T>,
}

impl<'a, T: Copy> SignalDeriveBase for SignalRef<'a, T> {
    type Generation = u32;

    type Value = T;

    open spec fn gen_spec(&self) -> u32 {
        self.inner.generation
    }

    open spec fn value_spec(&self) -> T {
        self.inner.inner
    }

    fn compare_generation(&self, other: u32) -> (r: bool) {
        self.current_generation() == other
    }

    fn current_generation(&self) -> (g: u32) {
        self.inner.generation()
    }

    fn get(&self) -> (v: T) {
        *self.inner.get()
    }
}

/// A handle into the output cell of a derived view.  Reading through it never
/// recomputes the view: it reports whatever the cell holds, which is as
/// current as the last time the view itself was read.
pub struct DerivedSignalRef<'a, T: Copy> {
    pub inner: &'a Signal<T>,
}

impl<'a, T: Copy> SignalDeriveBase for DerivedSignalRef<'a, T> {
    type Generation = u32;

    type Value = T;

    open spec fn gen_spec(&self) -> u32 {
        self.inner.generation
    }

    open spec fn value_spec(&self) -> T {
        self.inner.inner
    }

    fn compare_generation(&self, other: u32) -> (r: bool) {
        self.current_generation() == other
    }

    fn current_generation(&self) -> (g: u32) {
        self.inner.generation()
    }

    fn get(&self) -> (v: T) {
        *self.inner.get()
    }
}

/// The capability of handing out a derivable-source handle.  Implemented by
/// [`Signal`], by [`crate::Derived`] (through its output cell), and by pairs
/// of references to either, so a computation can depend on two independent
/// sources with joint invalidation.
pub trait AsSignalDeriveBase<'a> {
    type Generation;

    type Value;

    type DeriveBase: SignalDeriveBase<Generation = Self::Generation, Value = Self::Value>;

    /// The current generation marker of the underlying cell.
    spec fn gen_spec(&self) -> Self::Generation;

    /// The current value of the underlying cell.
    spec fn value_spec(&self) -> Self::Value;

    /// Hands out a handle aliasing the receiver.  The handle reports the
    /// receiver's own current marker and value.
    fn as_derive_base(&'a self) -> (b: Self::DeriveBase)
        ensures
            b.gen_spec() == self.gen_spec(),
            b.value_spec() == self.value_spec(),
    ;
}

/// The derive capability: builds a memoized view over the receiver via a
/// pure function of the receiver's value.  The view is seeded eagerly with
/// one evaluation of the function against the current value, and thereafter
/// recomputes lazily, on read, when the receiver's marker has moved on.
pub trait Derive<'a, Output: Copy>: AsSignalDeriveBase<'a> where
    Self::Generation: Copy,
    Self::Value: Copy,
 {
    fn derive<F: Fn(Self::Value) -> Output>(&'a self, function: F) -> (d: Derived<
        Self::Generation,
        Self::Value,
        Output,
        F,
    >)
        requires
            forall|x: Self::Value| #[trigger] call_requires(function, (x,)),
        ensures
            d.wf(),
            d.function == function,
            d.output_gen == self.gen_spec(),
            d.last_input@ == self.value_spec(),
            call_ensures(function, (self.value_spec(),), d.output.inner),
            d.output.generation == 1,
    {
        Derived::new(self.as_derive_base(), function)
    }
}

impl<'a, Output: Copy, T: AsSignalDeriveBase<'a>> Derive<'a, Output> for T where
    T::Generation: Copy,
    T::Value: Copy,
 {

}

impl<'a, T: Copy> AsSignalDeriveBase<'a> for Signal<T> where T: 'a {
    type Generation = u32;

    type Value = T;

    type DeriveBase = SignalRef<'a, T>;

    open spec fn gen_spec(&self) -> u32 {
        self.generation
    }

    open spec fn value_spec(&self) -> T {
        self.inner
    }

    fn as_derive_base(&'a self) -> (b: SignalRef<'a, T>) {
        SignalRef { inner: self }
    }
}

impl<'a, 'x, 'y, A: AsSignalDeriveBase<'a>, B: AsSignalDeriveBase<'a>> AsSignalDeriveBase<
    'a,
> for (&'x A, &'y B) where 'x: 'a, 'y: 'a {
    type Generation = (A::Generation, B::Generation);

    type Value = (A::Value, B::Value);

    type DeriveBase = (A::DeriveBase, B::DeriveBase);

    open spec fn gen_spec(&self) -> (A::Generation, B::Generation) {
        (self.0.gen_spec(), self.1.gen_spec())
    }

    open spec fn value_spec(&self) -> (A::Value, B::Value) {
        (self.0.value_spec(), self.1.value_spec())
    }

    fn as_derive_base(&'a self) -> (b: (A::DeriveBase, B::DeriveBase)) {
        (self.0.as_derive_base(), self.1.as_derive_base())
    }
}

impl<A: SignalDeriveBase, B: SignalDeriveBase> SignalDeriveBase for (A, B) {
    type Generation = (A::Generation, B::Generation);

    type Value = (A::Value, B::Value);

    open spec fn gen_spec(&self) -> (A::Generation, B::Generation) {
        (self.0.gen_spec(), self.1.gen_spec())
    }

    open spec fn value_spec(&self) -> (A::Value, B::Value) {
        (self.0.value_spec(), self.1.value_spec())
    }

    /// Member-wise conjunction: the pair marker matches only when both
    /// members match, so a change to either member alone already makes a
    /// view over the pair stale.
    fn compare_generation(&self, other: (A::Generation, B::Generation)) -> (r: bool) {
        self.0.compare_generation(other.0) && self.1.compare_generation(other.1)
    }

    fn current_generation(&self) -> (g: (A::Generation, B::Generation)) {
        (self.0.current_generation(), self.1.current_generation())
    }

    fn get(&self) -> (v: (A::Value, B::Value)) {
        (self.0.get(), self.1.get())
    }
}

} // verus!
