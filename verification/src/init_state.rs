//! Markers for the operational state of a peripheral.
//!
//! A peripheral handle is parameterized by one of these two types. They hold
//! no data: the state of a handle is known from its type alone.

use vstd::prelude::*;

verus! {

/// A state marker. Implemented by [`Disabled`] and [`Enabled`] only.
pub trait InitState: Sized {
    /// Whether a handle carrying this marker is enabled.
    spec fn enabled() -> bool;

    /// The marker's state, as a run-time value.
    fn is_enabled() -> (b: bool)
        ensures
            b == Self::enabled(),
    ;
}

/// Marks a peripheral whose clock is gated off; its registers must not be
/// accessed.
#[derive(Clone, Copy, Debug)]
pub struct Disabled;

/// Marks a peripheral that has been brought up and is ready for use.
#[derive(Clone, Copy, Debug)]
pub struct Enabled(pub ());

impl InitState for Disabled {
    open spec fn enabled() -> bool {
        false
    }

    fn is_enabled() -> (b: bool) {
        false
    }
}

impl InitState for Enabled {
    open spec fn enabled() -> bool {
        true
    }

    fn is_enabled() -> (b: bool) {
        true
    }
}

} // verus!
