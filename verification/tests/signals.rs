use std::cell::Cell;

use signals::AsSignalDeriveBase;
use signals::Derive;
use signals::Signal;
use signals::SignalDeriveBase;

#[test]
fn test_memos() {
    let mut number = Signal::new(1i32);
    let mut double = number.derive(|number| number * 2);

    assert_eq!(*number.get(), 1);
    assert_eq!(double.get(&number.as_derive_base()), 2);

    *number.get_mut() += 1;

    assert_eq!(*number.get(), 2);
    assert_eq!(double.get(&number.as_derive_base()), 4);
}

#[test]
fn signal_generation_tracking() {
    let mut s = Signal::new(7i32);
    assert_eq!(s.generation(), 1);
    assert_eq!(*s.get(), 7);
    // A read-only access does not bump the counter.
    assert_eq!(s.generation(), 1);
    s.set(8);
    assert_eq!(s.generation(), 2);
    assert_eq!(*s.get(), 8);
    // A mutable borrow bumps the counter even when nothing is written.
    let _ = s.get_mut();
    assert_eq!(s.generation(), 3);
    assert_eq!(*s.get(), 8);
    s.flag_updated();
    assert_eq!(s.generation(), 4);
    assert_eq!(*s.get(), 8);
}

#[test]
fn freshness_after_construction() {
    let value = Signal::new(21i32);
    let mut doubled = value.derive(|x| x * 2);
    // The initial computation is eager: the first read already has the
    // function of the initial value, with no mutation in between.
    assert!(!doubled.input_changed(&value.as_derive_base()));
    assert_eq!(doubled.get(&value.as_derive_base()), 42);
}

#[test]
fn no_spurious_recompute() {
    let calls = Cell::new(0u32);
    let mut source = Signal::new(5i32);
    let mut view = source.derive(|x| {
        calls.set(calls.get() + 1);
        x + 1
    });
    // One eager evaluation at construction.
    assert_eq!(calls.get(), 1);
    assert_eq!(view.get(&source.as_derive_base()), 6);
    assert_eq!(view.get(&source.as_derive_base()), 6);
    // Reads without an intervening mutation invoke the function no further.
    assert_eq!(calls.get(), 1);
    source.set(7);
    assert_eq!(view.get(&source.as_derive_base()), 8);
    assert_eq!(calls.get(), 2);
    assert_eq!(view.get(&source.as_derive_base()), 8);
    assert_eq!(calls.get(), 2);
}

#[test]
fn invalidation_on_mutation() {
    let mut source = Signal::new(1i32);
    let mut view = source.derive(|x| x * 10);
    for i in 2i32..50 {
        source.set(i);
        assert_eq!(view.get(&source.as_derive_base()), i * 10);
    }
    *source.get_mut() = 99;
    assert_eq!(view.get(&source.as_derive_base()), 990);
    // A mutable borrow without an actual write still invalidates.
    let _ = source.get_mut();
    assert!(view.input_changed(&source.as_derive_base()));
    assert_eq!(view.get(&source.as_derive_base()), 990);
}

#[test]
fn transitive_laziness() {
    let mut s = Signal::new(1i32);
    let mut d1 = s.derive(|x| x * 2);
    let mut d2 = d1.derive(|y| y + 100);
    assert_eq!(d2.get(&d1.as_derive_base()), 102);
    s.set(5);
    // The first-level view has not been read: the second level still sees
    // the stale first-level output.
    assert!(!d2.input_changed(&d1.as_derive_base()));
    assert_eq!(d2.get(&d1.as_derive_base()), 102);
    // Reading the first level is what propagates the change.
    assert_eq!(d1.get(&s.as_derive_base()), 10);
    assert!(d2.input_changed(&d1.as_derive_base()));
    assert_eq!(d2.get(&d1.as_derive_base()), 110);
}

#[test]
fn composite_invalidation() {
    let mut a = Signal::new(2i32);
    let b = Signal::new(3i32);
    let mut sum = (&a, &b).derive(|(x, y)| x + y);
    assert_eq!(sum.get(&(&a, &b).as_derive_base()), 5);
    // Mutating only one member of the pair marks the view stale, and the
    // recomputation pairs the new member value with the unchanged one.
    a.set(10);
    assert!(sum.input_changed(&(&a, &b).as_derive_base()));
    assert_eq!(sum.get(&(&a, &b).as_derive_base()), 13);
    assert!(!sum.input_changed(&(&a, &b).as_derive_base()));
}

#[test]
fn pair_of_derived_views() {
    let mut s = Signal::new(1i32);
    let mut d1 = s.derive(|x| x + 1);
    let d2 = s.derive(|x| x * 3);
    let mut both = (&d1, &d2).derive(|(a, b)| a + b);
    assert_eq!(both.get(&(&d1, &d2).as_derive_base()), 5);
    s.set(2);
    // Neither member view has been read, so the pair marker is unchanged.
    assert!(!both.input_changed(&(&d1, &d2).as_derive_base()));
    // Reading one member view makes the pair stale; the other member's
    // output cell still holds its old value.
    assert_eq!(d1.get(&s.as_derive_base()), 3);
    assert!(both.input_changed(&(&d1, &d2).as_derive_base()));
    assert_eq!(both.get(&(&d1, &d2).as_derive_base()), 6);
}

#[test]
fn example_scenario() {
    let mut s = Signal::new(1i32);
    let mut d = s.derive(|x| x * 2);
    assert_eq!(*s.get(), 1);
    assert_eq!(d.get(&s.as_derive_base()), 2);
    *s.get_mut() += 1;
    assert_eq!(*s.get(), 2);
    assert_eq!(d.get(&s.as_derive_base()), 4);
}

#[test]
fn generation_wraparound() {
    let mut s = Signal::new(0u64);
    // Force the counter near the top of its range.
    s.generation = u32::MAX - 1;
    let mut d = s.derive(|x| x + 1);
    assert_eq!(d.output_gen, u32::MAX - 1);
    s.set(1);
    assert_eq!(s.generation(), u32::MAX);
    assert!(d.input_changed(&s.as_derive_base()));
    assert_eq!(d.get(&s.as_derive_base()), 2);
    s.set(2);
    // The counter wraps to zero instead of panicking, and the wrapped value
    // still differs from the stored baseline: the view stays stale.
    assert_eq!(s.generation(), 0);
    assert!(d.input_changed(&s.as_derive_base()));
    assert_eq!(d.get(&s.as_derive_base()), 3);
    s.set(3);
    assert_eq!(s.generation(), 1);
    assert_eq!(d.get(&s.as_derive_base()), 4);
    assert!(!d.input_changed(&s.as_derive_base()));
}

#[test]
fn output_cell_tracks_recomputation() {
    let mut s = Signal::new(4i32);
    let mut d = s.derive(|x| x / 2);
    assert_eq!(d.output_signal().generation(), 1);
    assert_eq!(*d.output_signal().get(), 2);
    s.set(6);
    assert_eq!(d.get(&s.as_derive_base()), 3);
    assert_eq!(d.output_signal().generation(), 2);
    // A read that finds the view fresh leaves the output cell untouched.
    assert_eq!(d.get(&s.as_derive_base()), 3);
    assert_eq!(d.output_signal().generation(), 2);
}

#[test]
fn source_handles_report_marker_and_value() {
    let s = Signal::new(9i32);
    let h = s.as_derive_base();
    assert_eq!(h.get(), 9);
    assert_eq!(h.current_generation(), 1);
    assert!(h.compare_generation(1));
    assert!(!h.compare_generation(2));
    let d = s.derive(|x| x - 1);
    let hd = d.as_derive_base();
    assert_eq!(hd.get(), 8);
    assert_eq!(hd.current_generation(), 1);
    let pair = (&s, &d);
    let hp = pair.as_derive_base();
    assert_eq!(hp.get(), (9, 8));
    assert_eq!(hp.current_generation(), (1, 1));
    assert!(hp.compare_generation((1, 1)));
    assert!(!hp.compare_generation((1, 2)));
}
