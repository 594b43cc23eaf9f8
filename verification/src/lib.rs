//! A minimal reactive-value primitive.
//!
//! A [`Signal`] is a mutable cell that advances a generation counter on every
//! mutation (or possible mutation) of its value.  A [`Derived`] view memoizes
//! a computation over one or more such cells and recomputes its cached output
//! lazily, exactly when the generation marker of its input no longer matches
//! the baseline recorded at the last computation.
//!
//! A derived view never stores a borrow of its source.  Instead, every read
//! takes a transient source handle (a [`SignalRef`], a [`DerivedSignalRef`],
//! or a pair of handles), so the borrow checker rules out reads from a source
//! that no longer exists, and the source stays freely mutable between reads.
//! The whole library is single-threaded and synchronous: staleness is
//! resolved inside the calling thread at the moment of read.

pub mod derived;
pub mod generation;
pub mod laws;
pub mod signal;
pub mod source;

pub use derived::Derived;
pub use generation::advance_spec;
pub use generation::bump_spec;
pub use signal::Signal;
pub use source::AsSignalDeriveBase;
pub use source::Derive;
pub use source::DerivedSignalRef;
pub use source::SignalDeriveBase;
pub use source::SignalRef;
