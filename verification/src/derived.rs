//! The memoized derived view.

use crate::generation::bump_spec;
use crate::signal::Signal;
use crate::source::AsSignalDeriveBase;
use crate::source::DerivedSignalRef;
use crate::source::SignalDeriveBase;
use vstd::prelude::*;

verus! {

/// A memoized computation over a derivable source.
///
/// The view owns the computation function, an output cell holding the
/// last-computed value (itself generation-tracked, so the view can in turn
/// serve as a source), and `output_gen`, the source's generation marker
/// captured at the last computation.  The cached output is valid exactly when
/// `output_gen` equals the source's current marker.
///
/// The view does not store a handle to its source; each staleness check takes
/// the source afresh, so the source stays freely mutable between reads and
/// can never be read after it is gone.  `G` is the source's generation-marker
/// type and `In` its value type.
pub struct Derived<G, In, Out, F> {
    pub output: Signal<Out>,
    pub output_gen: G,
    pub function: F,
    pub last_input: Ghost<In>,
}

impl<G: Copy, In: Copy, Out: Copy, F: Fn(In) -> Out> Derived<G, In, Out, F> {
    /// Well-formedness: the function accepts every input, and the cached
    /// output is a value the function can return on the input seen at the
    /// last computation.
    pub open spec fn wf(self) -> bool {
        &&& forall|x: In| #[trigger] call_requires(self.function, (x,))
        &&& call_ensures(self.function, (self.last_input@,), self.output.inner)
    }

    /// What one read does to the view, given the source's current generation
    /// marker and value.  If the stored baseline already matches the marker,
    /// the view is untouched and the cached output is returned: no
    /// recomputation.  Otherwise the function is invoked once on the current
    /// value; the result is cached (bumping the output cell's own counter)
    /// and the baseline is updated to the current marker.  Either way the
    /// view ends fresh with respect to the marker it was read against.
    pub open spec fn get_transition(pre: Self, post: Self, gen_now: G, val_now: In, out: Out) -> bool {
        &&& post.function == pre.function
        &&& post.output_gen == gen_now
        &&& if pre.output_gen == gen_now {
            &&& post == pre
            &&& out == pre.output.inner
        } else {
            &&& call_ensures(pre.function, (val_now,), out)
            &&& out == post.output.inner
            &&& post.last_input@ == val_now
            &&& post.output.generation == bump_spec(pre.output.generation)
        }
    }

    /// Creates a view over `base`, eagerly computing the first output and
    /// recording the source's current marker as the baseline, so the view is
    /// never observed in an uncomputed state.
    pub(crate) fn new<Base: SignalDeriveBase<Generation = G, Value = In>>(
        base: Base,
        function: F,
    ) -> (d: Self)
        requires
            forall|x: In| #[trigger] call_requires(function, (x,)),
        ensures
            d.wf(),
            d.function == function,
            d.output_gen == base.gen_spec(),
            d.last_input@ == base.value_spec(),
            call_ensures(function, (base.value_spec(),), d.output.inner),
            d.output.generation == 1,
    {
        let input = base.get();
        let output = Signal::new(function(input));
        let output_gen = base.current_generation();

        Derived { output, output_gen, function, last_input: Ghost(input) }
    }

    /// The output cell holding the last-computed value.  Its counter is what
    /// a second-level view observes, so its reading is as current as the last
    /// read of this view, not the last mutation of the source.
    pub fn output_signal(&self) -> (s: &Signal<Out>)
        ensures
            *s == self.output,
    {
        &self.output
    }

    /// Returns the current output, recomputing it first exactly when the
    /// source's marker no longer matches the stored baseline.
    pub fn get<Base: SignalDeriveBase<Generation = G, Value = In>>(&mut self, base: &Base) -> (out:
        Out)
        requires
            old(self).wf(),
        ensures
            final(self).wf(),
            Self::get_transition(*old(self), *final(self), base.gen_spec(), base.value_spec(), out),
    {
        if self.input_changed(base) {
            let input = base.get();
            let value = (self.function)(input);
            self.output.set(value);
            self.output_gen = base.current_generation();
            self.last_input = Ghost(input);
            value
        } else {
            *self.output.get()
        }
    }

    /// The staleness check alone: whether the source's marker differs from
    /// the stored baseline.  Forces no recomputation.
    pub fn input_changed<Base: SignalDeriveBase<Generation = G, Value = In>>(
        &self,
        base: &Base,
    ) -> (r: bool)
        ensures
            r == (self.output_gen != base.gen_spec()),
    {
        !base.compare_generation(self.output_gen)
    }
}

impl<'a, G, In, Out: Copy, F> AsSignalDeriveBase<'a> for Derived<G, In, Out, F> where Out: 'a {
    type Generation = u32;

    type Value = Out;

    type DeriveBase = DerivedSignalRef<'a, Out>;

    open spec fn gen_spec(&self) -> u32 {
        self.output.generation
    }

    open spec fn value_spec(&self) -> Out {
        self.output.inner
    }

    fn as_derive_base(&'a self) -> (b: DerivedSignalRef<'a, Out>) {
        DerivedSignalRef { inner: &self.output }
    }
}

} // verus!
