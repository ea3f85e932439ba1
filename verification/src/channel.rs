//! The boundary to `crossbeam_channel`: the one place where an event leaves
//! the verified code. Nothing here is proved; each item says what it takes on
//! trust from the channel.

use crossbeam_channel::Sender;
use vstd::prelude::*;

verus! {

/// `crossbeam_channel::Sender`, the sending side of a channel. Its inside is
/// hidden from the verifier: a value of it is only carried and handed on.
#[verifier::external_type_specification]
#[verifier::external_body]
#[verifier::reject_recursive_types(T)]
pub struct ExSender<T>(Sender<T>);

/// How a `SendError` renders under `{:?}`. The error's `Debug` impl formats
/// the text `SendError(..)` through `str`'s own `Debug`, which puts it in
/// double quotes: they are part of the rendering.
pub const DISCONNECTED_DETAIL: &'static str = "\"SendError(..)\"";

/// What a disconnected channel gives back, as plain values: the event that
/// did not go out, and the channel's own description of the error.
#[derive(Debug)]
pub struct Undelivered<E> {
    pub event: E,
    pub detail: String,
}

/// `crossbeam_channel::Sender::send`, with the `SendError` it may return taken
/// apart into plain values: the message it carries (`SendError::into_inner`)
/// and its `Debug` rendering.
///
/// Trusted: when the channel refuses the event, the event handed back is the
/// very one that was passed in, and the description is the fixed text that
/// `SendError` renders as. Nothing is claimed about when the channel accepts:
/// that depends on whether a receiver is still alive. On a bounded channel
/// that is full the call waits until there is room or the last receiver is
/// gone.
#[verifier::external_body]
pub(crate) fn channel_send<E>(endpoint: &Sender<E>, event: E) -> (attempt: Result<
    (),
    Undelivered<E>,
>)
    ensures
        attempt matches Err(undelivered) ==> undelivered.event == event && undelivered.detail@
            == DISCONNECTED_DETAIL@,
{
    match endpoint.send(event) {
        Ok(()) => Ok(()),
        Err(err) => {
            let detail = format!("{err:?}");
            Err(Undelivered { event: err.into_inner(), detail })
        },
    }
}

} // verus!
