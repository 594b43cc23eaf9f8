//! The generation counter: a cheap staleness marker.
//!
//! Every mutation of a [`crate::Signal`] advances its counter by one, wrapping
//! around at `u32::MAX` instead of panicking.  A derived view is stale exactly
//! when the counter it recorded at its last computation differs from the
//! current one, so the one fact the whole invalidation protocol rests on is
//! that the counter never returns to a previous value before a full cycle of
//! `2^32` bumps has elapsed.  The lemmas here state that fact.

use vstd::arithmetic::div_mod::lemma_add_mod_noop_right;
use vstd::arithmetic::div_mod::lemma_mod_sub_multiples_vanish;
use vstd::arithmetic::div_mod::lemma_small_mod;
use vstd::prelude::*;

verus! {

/// The number of distinct generation values.
pub open spec fn generation_count() -> int {
    0x1_0000_0000
}

/// The generation that one bump produces: the successor, wrapping at the top.
pub open spec fn bump_spec(g: u32) -> u32 {
    if g == u32::MAX {
        0u32
    } else {
        (g + 1) as u32
    }
}

/// The generation reached from `g` after `n` bumps.
pub open spec fn advance_spec(g: u32, n: nat) -> u32 {
    ((g + n) % generation_count()) as u32
}

/// A single bump always changes the generation, wraparound included.
pub proof fn lemma_bump_changes(g: u32)
    ensures
        bump_spec(g) != g,
{
}

/// One bump advances the counter by one.
pub proof fn lemma_bump_is_advance_one(g: u32)
    ensures
        bump_spec(g) == advance_spec(g, 1),
{
    let m = generation_count();
    if g == u32::MAX {
        lemma_mod_sub_multiples_vanish(g + 1, m);
        lemma_small_mod(0nat, m as nat);
    } else {
        lemma_small_mod((g + 1) as nat, m as nat);
    }
}

/// Bump counts add up: advancing by `a` and then by `b` is advancing by `a + b`.
pub proof fn lemma_advance_compose(g: u32, a: nat, b: nat)
    ensures
        advance_spec(advance_spec(g, a), b) == advance_spec(g, a + b),
{
    let m = generation_count();
    lemma_add_mod_noop_right(b as int, g + a, m);
}

/// The heart of the invalidation protocol: any number of bumps from one up to
/// a full cycle, wrapping past `u32::MAX` or not, leaves the counter at a
/// value distinct from where it started.  A view whose baseline was recorded
/// before such a run of mutations is therefore classified as stale.
pub proof fn lemma_advance_distinguishes(g: u32, n: nat)
    requires
        1 <= n < generation_count(),
    ensures
        advance_spec(g, n) != g,
{
    let m = generation_count();
    let x = g + n;
    if x < m {
        lemma_small_mod(x as nat, m as nat);
    } else {
        lemma_mod_sub_multiples_vanish(x, m);
        lemma_small_mod((x - m) as nat, m as nat);
    }
}

} // verus!
