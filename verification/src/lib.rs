//! A notifier that forwards events from a node to its simulation controller
//! over a channel, and reports a closed channel as a fatal delivery failure.

pub mod channel;
pub mod failure;
pub mod notifier;

pub use channel::{Undelivered, DISCONNECTED_DETAIL};
pub use failure::{delivery_outcome, fatal_message, DeliveryFailure, FATAL_PREFIX};
pub use notifier::{SimulationControllerNotifier, NOTIFIER_LABEL};
