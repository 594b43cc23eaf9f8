//! The invalidation protocol's guarantees, stated over the read transition.
//!
//! [`Derived::get_transition`] says exactly what one read does to a view,
//! given the source's current generation marker and value.  The proof
//! functions here quantify over that relation and state the guarantees a
//! user of the library relies on: a view constructed over a source yields
//! the function of the initial value; repeated reads never recompute; any
//! run of mutations short of a full counter cycle, wraparound included, is
//! detected; staleness crosses levels only when the intermediate view is
//! actually read; and a pair source is invalidated by either member alone.
//!
//! A computation function is an opaque `Fn` value, so the statements take a
//! mathematical model of it: [`computes`] says the function returns exactly
//! what the model says, on every input.

use crate::derived::Derived;
use crate::generation::advance_spec;
use crate::generation::bump_spec;
use crate::generation::generation_count;
use crate::generation::lemma_advance_distinguishes;
use crate::generation::lemma_bump_changes;
use crate::generation::lemma_bump_is_advance_one;
use vstd::prelude::*;

verus! {

/// The function returns `model(x)` on every input `x` on which it returns at
/// all: `model` is a complete mathematical description of the function.
pub open spec fn computes<In, Out, F: Fn(In) -> Out>(
    function: F,
    model: spec_fn(In) -> Out,
) -> bool {
    forall|x: In, r: Out| #[trigger] call_ensures(function, (x,), r) ==> r == model(x)
}

/// Freshness after construction: a view holds the function of the value its
/// source had at the last computation, so a read before any further source
/// mutation (the marker still equals the baseline) returns exactly
/// `model(init)`, with no recomputation needed.
///
/// The premise `call_ensures(d.function, (init,), d.output.inner)` is what
/// [`Derived::new`] and [`crate::Derive::derive`] ensure about the freshly
/// built view, with `init` the source value at construction time.
pub proof fn law_freshness_after_construction<G: Copy, In: Copy, Out: Copy, F: Fn(In) -> Out>(
    d: Derived<G, In, Out, F>,
    post: Derived<G, In, Out, F>,
    init: In,
    out: Out,
    model: spec_fn(In) -> Out,
)
    requires
        computes(d.function, model),
        call_ensures(d.function, (init,), d.output.inner),
        Derived::get_transition(d, post, d.output_gen, init, out),
    ensures
        out == model(init),
        post == d,
{
}

/// No spurious recompute: two consecutive reads with no intervening source
/// change (same marker, same value) return the same output, and the second
/// read leaves the view exactly as the first left it — whatever work the
/// first read did, the second does none.
pub proof fn law_no_spurious_recompute<G: Copy, In: Copy, Out: Copy, F: Fn(In) -> Out>(
    pre: Derived<G, In, Out, F>,
    mid: Derived<G, In, Out, F>,
    post: Derived<G, In, Out, F>,
    gen_now: G,
    val_now: In,
    out1: Out,
    out2: Out,
)
    requires
        Derived::get_transition(pre, mid, gen_now, val_now, out1),
        Derived::get_transition(mid, post, gen_now, val_now, out2),
    ensures
        post == mid,
        out2 == out1,
{
}

/// Invalidation on mutation: after any run of source mutations since the
/// view's last computation — each bumps the counter once, so `n` mutations
/// put the marker at `advance_spec(baseline, n)` — a read detects the change
/// and returns the function of the source's current value.  This holds for
/// every run shorter than a full counter cycle, including runs that wrap the
/// counter past `u32::MAX`; only a run of exactly `2^32` mutations would be
/// mistaken for no change at all.
pub proof fn law_invalidation_on_mutation<In: Copy, Out: Copy, F: Fn(In) -> Out>(
    pre: Derived<u32, In, Out, F>,
    post: Derived<u32, In, Out, F>,
    n: nat,
    val_now: In,
    out: Out,
    model: spec_fn(In) -> Out,
)
    requires
        computes(pre.function, model),
        1 <= n < generation_count(),
        Derived::get_transition(pre, post, advance_spec(pre.output_gen, n), val_now, out),
    ensures
        out == model(val_now),
        post.output.inner == model(val_now),
        post.output_gen == advance_spec(pre.output_gen, n),
{
    lemma_advance_distinguishes(pre.output_gen, n);
}

/// The single-mutation case of invalidation: one `set`, mutable borrow or
/// `flag_updated` bumps the source's counter exactly once past the view's
/// baseline, and the next read already recomputes from the current value.
/// Longer runs of mutations reduce to [`law_invalidation_on_mutation`]
/// through [`crate::generation::lemma_advance_compose`].
pub proof fn law_invalidation_after_one_mutation<In: Copy, Out: Copy, F: Fn(In) -> Out>(
    pre: Derived<u32, In, Out, F>,
    post: Derived<u32, In, Out, F>,
    val_now: In,
    out: Out,
    model: spec_fn(In) -> Out,
)
    requires
        computes(pre.function, model),
        Derived::get_transition(pre, post, bump_spec(pre.output_gen), val_now, out),
    ensures
        out == model(val_now),
        post.output.inner == model(val_now),
{
    lemma_bump_is_advance_one(pre.output_gen);
    law_invalidation_on_mutation(pre, post, 1, val_now, out, model);
}

/// The lazy half of transitive laziness: mutating the root signal does not
/// touch a first-level view's output cell, so a second-level view that was
/// fresh with respect to that cell stays fresh, and reading it returns the
/// cached output — the function of the first-level output it last saw, not
/// of anything recomputed.
pub proof fn law_transitive_laziness<Mid: Copy, Out: Copy, F2: Fn(Mid) -> Out>(
    d2: Derived<u32, Mid, Out, F2>,
    post2: Derived<u32, Mid, Out, F2>,
    cell_gen: u32,
    cell_val: Mid,
    out: Out,
    model2: spec_fn(Mid) -> Out,
)
    requires
        computes(d2.function, model2),
        call_ensures(d2.function, (d2.last_input@,), d2.output.inner),
        d2.output_gen == cell_gen,
        Derived::get_transition(d2, post2, cell_gen, cell_val, out),
    ensures
        post2 == d2,
        out == d2.output.inner,
        out == model2(d2.last_input@),
{
}

/// The propagation half of transitive laziness: once a stale first-level
/// view is actually read, its output cell's counter moves, so a second-level
/// view whose baseline matched that cell is stale from then on.
pub proof fn law_read_propagates_staleness<In: Copy, Mid: Copy, F1: Fn(In) -> Mid>(
    d1: Derived<u32, In, Mid, F1>,
    post1: Derived<u32, In, Mid, F1>,
    src_gen: u32,
    src_val: In,
    out1: Mid,
    d2_baseline: u32,
)
    requires
        d1.output_gen != src_gen,
        Derived::get_transition(d1, post1, src_gen, src_val, out1),
        d2_baseline == d1.output.generation,
    ensures
        post1.output.generation != d2_baseline,
{
    lemma_bump_changes(d1.output.generation);
}

/// Composite invalidation: for a view over a pair of sources, a change to
/// one member's marker alone already makes the view stale, and the
/// recomputation uses the changed member's current value together with the
/// other member's unchanged one.
pub proof fn law_composite_invalidation<
    GA: Copy,
    GB: Copy,
    VA: Copy,
    VB: Copy,
    Out: Copy,
    F: Fn((VA, VB)) -> Out,
>(
    pre: Derived<(GA, GB), (VA, VB), Out, F>,
    post: Derived<(GA, GB), (VA, VB), Out, F>,
    ga_now: GA,
    va_now: VA,
    out: Out,
    model: spec_fn((VA, VB)) -> Out,
)
    requires
        computes(pre.function, model),
        ga_now != pre.output_gen.0,
        Derived::get_transition(
            pre,
            post,
            (ga_now, pre.output_gen.1),
            (va_now, pre.last_input@.1),
            out,
        ),
    ensures
        out == model((va_now, pre.last_input@.1)),
        post.output.inner == model((va_now, pre.last_input@.1)),
{
}

} // verus!
