//! A fault-isolating boundary around small native operations.
//!
//! Each invocation produces exactly one outcome: either the success value of
//! its declared type, or a [`fault::FaultReport`] that a host embedding can
//! raise as a runtime exception instead of letting the fault unwind further.

pub mod fault;
pub mod guard;
pub mod ops;
