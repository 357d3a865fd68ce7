//! The shape shared by the bar's services: a service publishes its initial
//! state, then updates, or errors.

use vstd::prelude::*;

verus! {

/// A service whose state is driven by events from the system.
pub trait ReadOnlyService: Sized {
    /// Event that updates the service state.
    type UpdateEvent;

    /// Error reported by the service.
    type Error;
}

/// What a service publishes.
#[derive(Debug)]
pub enum ServiceEvent<S: ReadOnlyService> {
    /// The initial state of the service.
    Init(S),
    /// An update to apply to the state.
    Update(S::UpdateEvent),
    /// A failure of the service.
    Error(S::Error),
}

} // verus!
