//! The notifier itself: one sending endpoint, and the operation that pushes
//! one event into it.

use crate::channel::{channel_send, DISCONNECTED_DETAIL};
use crate::failure::{delivery_outcome, fatal_message, DeliveryFailure};
use crossbeam_channel::Sender;
use vstd::prelude::*;

verus! {

/// The fixed label a notifier is rendered as. It says nothing about the
/// channel behind the notifier.
pub const NOTIFIER_LABEL: &'static str = "SimulationControllerNotifier";

/// Reports node events to the simulation controller. It owns the sending
/// endpoint of the controller's channel and never replaces or closes it.
#[verifier::reject_recursive_types(E)]
pub struct SimulationControllerNotifier<E> {
    simulation_controller_tx: Sender<E>,
}

impl<E> SimulationControllerNotifier<E> {
    /// The endpoint that every event of this notifier goes to.
    pub closed spec fn endpoint(&self) -> Sender<E> {
        self.simulation_controller_tx
    }

    /// A notifier over the given endpoint. Any endpoint is accepted, also
    /// one whose receiving side is already gone: that shows at the first
    /// `send_event`.
    #[must_use]
    pub fn new(simulation_controller_tx: Sender<E>) -> (notifier: Self)
        ensures
            notifier.endpoint() == simulation_controller_tx,
    {
        Self { simulation_controller_tx }
    }

    /// Pushes one event into the controller's channel. Each call is one
    /// delivery attempt: equal events sent twice are enqueued twice.
    ///
    /// `Ok` means that the channel took the event. `Err` means that the
    /// receiving side is gone; the failure hands the event back unchanged
    /// together with the fatal message, and the caller is expected to abort
    /// with it. Which of the two happens is up to the channel.
    pub fn send_event(&self, node_event: E) -> (outcome: Result<(), DeliveryFailure<E>>)
        ensures
            outcome matches Err(failure) ==> failure.event == node_event && failure.message@
                == fatal_message(DISCONNECTED_DETAIL@),
    {
        let attempt = channel_send(&self.simulation_controller_tx, node_event);
        delivery_outcome(attempt)
    }

    /// The text this notifier is rendered as: the same for every notifier.
    pub fn label(&self) -> (label: &'static str)
        ensures
            label@ == NOTIFIER_LABEL@,
    {
        NOTIFIER_LABEL
    }
}

} // verus!
