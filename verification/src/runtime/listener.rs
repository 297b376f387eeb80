//! The decisions of the task that listens to one watched resource.

use vstd::prelude::*;
use futures::channel::mpsc::UnboundedSender;
use crate::api::{Meta, WatchEvent};
use crate::error::PipelineError;
use crate::runtime::channel::{send, Message};
use crate::runtime::controller::{normalized, ReconcileEvent};

verus! {

/// The state of one listener: which watched resource it serves, and whether
/// it still takes notifications.
#[derive(Debug)]
pub struct Listener {
    pub source: usize,
    pub active: bool,
}

/// Whether `msg` is what a listener for `source` forwards for `w`.
pub open spec fn forwards<K: Meta>(source: usize, w: WatchEvent<K>, msg: Message) -> bool {
    &&& msg.source == source
    &&& match normalized(w) {
        Ok(id) => msg.item is Ok && msg.item->Ok_0@ == id,
        Err(e) => msg.item == Err::<ReconcileEvent, PipelineError>(PipelineError::Source(e)),
    }
}

/// What sending gives: success where the channel took the message, the
/// channel's closure where it did not.
pub open spec fn send_outcome(sent: bool) -> Result<(), PipelineError> {
    if sent {
        Ok(())
    } else {
        Err(PipelineError::ChannelClosed)
    }
}

impl Listener {
    /// A listener for the watched resource with index `source`.
    pub fn new(source: usize) -> (l: Listener)
        ensures
            l.source == source,
            l.active,
    {
        Listener { source, active: true }
    }

    /// Stops the listener: it takes no further notification.
    pub fn cancel(&mut self)
        ensures
            final(self).source == old(self).source,
            !final(self).active,
    {
        self.active = false;
    }

    /// Takes one notification from the watch source and returns what is to be
    /// forwarded. An active listener forwards every notification, normalised,
    /// and stays active after a change; after an error of the source it has
    /// forwarded the error and is done. A listener that is no longer active
    /// forwards nothing.
    pub fn on_notification<K: Meta>(&mut self, w: WatchEvent<K>) -> (out: Option<Message>)
        ensures
            final(self).source == old(self).source,
            out is Some <==> old(self).active,
            out is Some ==> forwards(old(self).source, w, out->0),
            final(self).active == (old(self).active && normalized(w) is Ok),
    {
        if !self.active {
            return None;
        }
        let item = ReconcileEvent::try_from(w);
        if item.is_err() {
            self.active = false;
        }
        Some(Message { source: self.source, item })
    }

    /// The result of a send, from whether the channel took the message.
    pub fn sent(taken: bool) -> (r: Result<(), PipelineError>)
        ensures
            r == send_outcome(taken),
    {
        if taken {
            Ok(())
        } else {
            Err(PipelineError::ChannelClosed)
        }
    }

    /// Puts a message on the shared channel. The only failure is that the
    /// channel no longer takes messages.
    pub fn forward(tx: &UnboundedSender<Message>, msg: Message) -> (r: Result<(), PipelineError>)
        ensures
            r is Err ==> r == send_outcome(false),
    {
        let taken = send(tx, msg);
        Listener::sent(taken)
    }
}

} // verus!
