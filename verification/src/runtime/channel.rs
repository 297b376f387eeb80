//! The shared channel between the listeners and the controller.

use vstd::prelude::*;
use futures::channel::mpsc::{TryRecvError, UnboundedReceiver, UnboundedSender};
use crate::error::PipelineError;
use crate::runtime::controller::ReconcileEvent;

verus! {

/// The sending half of an unbounded channel of the `futures` crate.
#[verifier::external_type_specification]
#[verifier::external_body]
#[verifier::reject_recursive_types(T)]
pub struct ExUnboundedSender<T>(futures::channel::mpsc::UnboundedSender<T>);

/// The receiving half of an unbounded channel of the `futures` crate.
#[verifier::external_type_specification]
#[verifier::external_body]
#[verifier::reject_recursive_types(T)]
pub struct ExUnboundedReceiver<T>(futures::channel::mpsc::UnboundedReceiver<T>);

/// What a listener forwards: the normalised notification and the index of
/// the watched resource it came from (0 for the primary resource, `i + 1` for
/// the `i`-th owned one).
#[derive(Debug)]
pub struct Message {
    pub source: usize,
    pub item: Result<ReconcileEvent, PipelineError>,
}

/// What one look at the channel finds.
#[derive(Debug)]
pub enum Received {
    /// A forwarded message.
    Message(Message),
    /// Nothing is waiting, and senders may still send.
    Empty,
    /// Nothing is waiting and nothing will come.
    Closed,
}

/// Calls `futures::channel::mpsc::unbounded`. Nothing is claimed of the two
/// halves.
#[verifier::external_body]
pub(crate) fn open_channel() -> (ends: (UnboundedSender<Message>, UnboundedReceiver<Message>)) {
    futures::channel::mpsc::unbounded()
}

/// Calls `UnboundedSender::unbounded_send` and reports whether the message
/// was taken. Whether it is depends on the receiving half, so nothing is
/// claimed of the result.
#[verifier::external_body]
pub(crate) fn send(tx: &UnboundedSender<Message>, msg: Message) -> (sent: bool) {
    tx.unbounded_send(msg).is_ok()
}

/// Calls `UnboundedReceiver::try_recv`. What it finds depends on what the
/// senders have done, so nothing is claimed of the result.
#[verifier::external_body]
pub(crate) fn receive(rx: &mut UnboundedReceiver<Message>) -> (r: Received) {
    match rx.try_recv() {
        Ok(m) => Received::Message(m),
        Err(TryRecvError::Empty) => Received::Empty,
        Err(TryRecvError::Closed) => Received::Closed,
    }
}

} // verus!
