//! The fatal delivery failure and the text it is reported with.

use crate::channel::Undelivered;
use vstd::prelude::*;
use vstd::string::StringExecFns;

verus! {

/// The fixed opening of every fatal message; the channel's own description
/// of the error follows it.
pub const FATAL_PREFIX: &'static str = "Cannot send NodeEvent to simulation controller. Error: ";

/// The text a delivery failure is reported with, given the channel's
/// description of the error.
pub open spec fn fatal_message(detail: Seq<char>) -> Seq<char> {
    FATAL_PREFIX@ + detail
}

/// An event could not be delivered because the receiving side of the channel
/// is gone. The caller is expected to treat this as fatal: `message` is what
/// to abort with.
#[derive(Debug)]
pub struct DeliveryFailure<E> {
    /// The event that was not delivered, unchanged.
    pub event: E,
    /// The fatal message; it ends with the channel's description of the error.
    pub message: String,
}

/// What one delivery attempt amounts to, given the channel's answer: an
/// accepted event is a success, a refused one is a fatal failure that keeps
/// the event and names the cause in its message.
pub fn delivery_outcome<E>(attempt: Result<(), Undelivered<E>>) -> (outcome: Result<
    (),
    DeliveryFailure<E>,
>)
    ensures
        attempt is Ok <==> outcome is Ok,
        attempt matches Err(undelivered) ==> outcome matches Err(failure) && failure.event
            == undelivered.event && failure.message@ == fatal_message(undelivered.detail@),
{
    match attempt {
        Ok(()) => Ok(()),
        Err(undelivered) => {
            let message = String::from_str(FATAL_PREFIX).concat(undelivered.detail.as_str());
            Err(DeliveryFailure { event: undelivered.event, message })
        },
    }
}

} // verus!
