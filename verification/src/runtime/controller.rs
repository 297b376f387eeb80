//! Reconcile requests and the controller that schedules them.

use vstd::prelude::*;
use std::collections::VecDeque;
use futures::channel::mpsc::{UnboundedReceiver, UnboundedSender};
use crate::api::{option_view, ErrorResponse, Identity, ListParams, Meta, Resource, WatchEvent};
use crate::error::PipelineError;
use crate::runtime::channel::{open_channel, receive, Message, Received};
use crate::runtime::queue::{
    enqueue, enqueue_all, identities, law_each_arrival_pending_once, ReconcileQueue,
};

verus! {

/// An object to be reconciled: its identity and nothing else.
#[derive(Debug, Clone)]
pub struct ReconcileEvent {
    pub name: String,
    pub namespace: Option<String>,
}

impl View for ReconcileEvent {
    type V = Identity;

    open spec fn view(&self) -> Identity {
        (self.name@, option_view(self.namespace))
    }
}

/// What a notification normalises to: the object's identity for a change, the
/// source's failure for an error.
pub open spec fn normalized<K: Meta>(w: WatchEvent<K>) -> Result<Identity, ErrorResponse> {
    match w {
        WatchEvent::Added(o) => Ok((o.spec_name(), o.spec_namespace())),
        WatchEvent::Modified(o) => Ok((o.spec_name(), o.spec_namespace())),
        WatchEvent::Deleted(o) => Ok((o.spec_name(), o.spec_namespace())),
        WatchEvent::Error(e) => Err(e),
    }
}

impl ReconcileEvent {
    /// The request for an object of any kind.
    pub fn from<K: Meta>(k: K) -> (r: ReconcileEvent)
        ensures
            r@ == (k.spec_name(), k.spec_namespace()),
    {
        ReconcileEvent { name: k.name(), namespace: k.namespace() }
    }

    /// Normalises a notification: a request with the object's identity for
    /// `Added`, `Modified` and `Deleted`, the source's error for `Error`.
    pub fn try_from<K: Meta>(w: WatchEvent<K>) -> (r: Result<ReconcileEvent, PipelineError>)
        ensures
            match normalized(w) {
                Ok(id) => r is Ok && r->Ok_0@ == id,
                Err(e) => r == Err::<ReconcileEvent, PipelineError>(PipelineError::Source(e)),
            },
    {
        match w {
            WatchEvent::Added(o) => Ok(ReconcileEvent::from(o)),
            WatchEvent::Modified(o) => Ok(ReconcileEvent::from(o)),
            WatchEvent::Deleted(o) => Ok(ReconcileEvent::from(o)),
            WatchEvent::Error(e) => Err(PipelineError::Source(e)),
        }
    }

    /// Whether two requests are for the same object.
    pub fn same_identity(&self, other: &ReconcileEvent) -> (b: bool)
        ensures
            b == (self@ == other@),
    {
        if self.name != other.name {
            return false;
        }
        match &self.namespace {
            Some(a) => match &other.namespace {
                Some(b) => *a == *b,
                None => false,
            },
            None => other.namespace.is_none(),
        }
    }
}

/// Where a controller stands in its life.
#[derive(Debug, Clone, Copy, PartialEq, Eq, Structural)]
pub enum ControllerState {
    /// Resources are registered; nothing runs yet.
    Configured,
    /// The listeners are active and the queue is being fed.
    Running,
    /// The listeners are cancelled. There is no way back to `Running`.
    Stopped,
}

/// A failure of the pipeline, kept apart from the requests. `origin` is the
/// index of the watched resource whose source failed (0 for the primary
/// resource, `i + 1` for the `i`-th owned one), and `None` for a failure of
/// the channel itself.
#[derive(Debug)]
pub struct SourceError {
    pub origin: Option<usize>,
    pub error: PipelineError,
}

/// What one look at the channel led to.
#[derive(Debug, Clone, Copy, PartialEq, Eq, Structural)]
pub enum Polled {
    /// A message was taken in.
    Delivered,
    /// Nothing was waiting.
    Idle,
    /// The channel is closed for good.
    Closed,
}

/// The pending identities after the controller has taken in `r`.
pub open spec fn pending_after(pending: Seq<Identity>, r: Received) -> Seq<Identity> {
    match r {
        Received::Message(m) => match m.item {
            Ok(ev) => enqueue(pending, ev@),
            Err(_) => pending,
        },
        _ => pending,
    }
}

/// The recorded failures after the controller has taken in `r`.
pub open spec fn failures_after(
    state: ControllerState,
    failures: Seq<SourceError>,
    r: Received,
) -> Seq<SourceError> {
    match r {
        Received::Message(m) => match m.item {
            Ok(_) => failures,
            Err(e) => failures.push(SourceError { origin: Some(m.source), error: e }),
        },
        Received::Empty => failures,
        Received::Closed => if state is Running {
            failures.push(SourceError { origin: None, error: PipelineError::ChannelClosed })
        } else {
            failures
        },
    }
}

/// The state after the controller has taken in `r`: a running controller
/// stops when the channel closes, and nothing else changes the state.
pub open spec fn state_after(state: ControllerState, r: Received) -> ControllerState {
    if r is Closed && state is Running {
        ControllerState::Stopped
    } else {
        state
    }
}

/// Which listeners are still taken to be active after the controller has
/// taken in `r`: an error ends the listener it came from and no other, and
/// the closing of the channel ends all of a running controller.
pub open spec fn listening_after(
    state: ControllerState,
    listening: Seq<bool>,
    r: Received,
) -> Seq<bool> {
    match r {
        Received::Message(m) => if m.item is Err && m.source < listening.len() {
            listening.update(m.source as int, false)
        } else {
            listening
        },
        Received::Empty => listening,
        Received::Closed => if state is Running {
            Seq::new(listening.len(), |i: int| false)
        } else {
            listening
        },
    }
}

/// What `Controller::poll` reports for `r`.
pub open spec fn polled(r: Received) -> Polled {
    match r {
        Received::Message(_) => Polled::Delivered,
        Received::Empty => Polled::Idle,
        Received::Closed => Polled::Closed,
    }
}

/// A controller for one primary resource and any number of owned ones.
pub struct Controller {
    resource: Resource,
    informers: Vec<(Resource, ListParams)>,
    state: ControllerState,
    queue: ReconcileQueue,
    errors: VecDeque<SourceError>,
    listening: Vec<bool>,
    channel: (UnboundedSender<Message>, UnboundedReceiver<Message>),
}

fn none_listening(n: usize) -> (v: Vec<bool>)
    ensures
        v@ == Seq::new(n as nat, |i: int| false),
{
    let mut v: Vec<bool> = Vec::new();
    while v.len() < n
        invariant
            v@.len() <= n,
            forall|i: int| 0 <= i < v@.len() ==> !v@[i],
        decreases n - v@.len(),
    {
        v.push(false);
    }
    assert(v@ =~= Seq::new(n as nat, |i: int| false));
    v
}

impl Controller {
    /// The primary resource.
    pub closed spec fn primary(&self) -> Resource {
        self.resource
    }

    /// The owned resources with their list parameters, in order of
    /// registration.
    pub closed spec fn owned(&self) -> Seq<(Resource, ListParams)> {
        self.informers@
    }

    /// The state.
    pub closed spec fn spec_state(&self) -> ControllerState {
        self.state
    }

    /// The identities of the pending requests, oldest first.
    pub closed spec fn pending(&self) -> Seq<Identity> {
        self.queue@
    }

    /// The failures that the caller has not yet taken, oldest first.
    pub closed spec fn failures(&self) -> Seq<SourceError> {
        self.errors@
    }

    /// The sending half of the shared channel. It is made with the controller
    /// and stays the same for as long as the controller lives.
    pub closed spec fn sending_half(&self) -> UnboundedSender<Message> {
        self.channel.0
    }

    /// For each watched resource, whether its listener is taken to be active.
    pub closed spec fn listening(&self) -> Seq<bool> {
        self.listening@
    }

    /// The invariant: no identity is pending twice; before the start there is
    /// no listener, and from the start on there is one slot for each watched
    /// resource.
    pub closed spec fn wf(&self) -> bool {
        &&& self.queue.wf()
        &&& self.state is Configured ==> self.listening@.len() == 0
        &&& !(self.state is Configured) ==> self.listening@.len() == self.informers@.len() + 1
    }

    /// What `wf` says of the values that callers see.
    pub proof fn lemma_wf(&self)
        requires
            self.wf(),
        ensures
            self.pending().no_duplicates(),
            self.spec_state() is Configured ==> self.listening().len() == 0,
            !(self.spec_state() is Configured) ==> self.listening().len() == self.owned().len() + 1,
    {
    }

    /// Creates a controller on a primary resource, with nothing owned,
    /// nothing pending and nothing running.
    pub fn new(r: Resource) -> (c: Controller)
        ensures
            c.wf(),
            c.primary() == r,
            c.owned() == Seq::<(Resource, ListParams)>::empty(),
            c.spec_state() is Configured,
            c.pending() == Seq::<Identity>::empty(),
            c.failures() == Seq::<SourceError>::empty(),
    {
        let c = Controller {
            resource: r,
            informers: Vec::new(),
            state: ControllerState::Configured,
            queue: ReconcileQueue::new(),
            errors: VecDeque::new(),
            listening: Vec::new(),
            channel: open_channel(),
        };
        assert(c.owned() =~= Seq::<(Resource, ListParams)>::empty());
        assert(c.failures() =~= Seq::<SourceError>::empty());
        c
    }

    /// Registers an owned resource with its list parameters. Resources are
    /// registered before the start only.
    pub fn owns(self, r: Resource, lp: ListParams) -> (c: Controller)
        requires
            self.wf(),
            self.spec_state() is Configured,
        ensures
            c.wf(),
            c.primary() == self.primary(),
            c.owned() == self.owned().push((r, lp)),
            c.sending_half() == self.sending_half(),
            c.spec_state() is Configured,
            c.pending() == self.pending(),
            c.failures() == self.failures(),
    {
        let mut c = self;
        c.informers.push((r, lp));
        c
    }

    /// Starts the controller: from here on one listener for each watched
    /// resource is taken to be active. Starting twice is a usage error.
    pub fn init(self) -> (c: Controller)
        requires
            self.wf(),
            self.spec_state() is Configured,
        ensures
            c.wf(),
            c.primary() == self.primary(),
            c.owned() == self.owned(),
            c.sending_half() == self.sending_half(),
            c.spec_state() is Running,
            c.pending() == self.pending(),
            c.failures() == self.failures(),
            c.listening() == Seq::new(self.owned().len() + 1, |i: int| true),
    {
        let n: usize = self.informers.len();
        let mut l: Vec<bool> = Vec::new();
        l.push(true);
        while l.len() <= n
            invariant
                1 <= l@.len() <= n + 1,
                forall|i: int| 0 <= i < l@.len() ==> l@[i],
            decreases n + 1 - l@.len(),
        {
            l.push(true);
        }
        assert(l@ =~= Seq::new(self.owned().len() + 1, |i: int| true));
        let mut c = self;
        c.listening = l;
        c.state = ControllerState::Running;
        c
    }

    /// The state.
    pub fn state(&self) -> (s: ControllerState)
        ensures
            s == self.spec_state(),
    {
        self.state
    }

    /// The number of watched resources: the primary one and the owned ones.
    pub fn watched(&self) -> (n: usize)
        requires
            self.owned().len() < usize::MAX,
        ensures
            n == self.owned().len() + 1,
    {
        self.informers.len() + 1
    }

    /// The watched resource with index `source`: the primary resource for 0,
    /// the `i`-th owned one for `i + 1`, nothing beyond.
    pub fn resource_of(&self, source: usize) -> (r: Option<&Resource>)
        ensures
            source == 0 ==> r == Some(&self.primary()),
            0 < source <= self.owned().len() ==> r == Some(&self.owned()[source - 1].0),
            source > self.owned().len() ==> r is None,
    {
        if source == 0 {
            Some(&self.resource)
        } else if source - 1 < self.informers.len() {
            Some(&self.informers[source - 1].0)
        } else {
            None
        }
    }

    /// Whether the listener of the watched resource with index `source` is
    /// taken to be active.
    pub fn is_listening(&self, source: usize) -> (b: bool)
        ensures
            b == (source < self.listening().len() && self.listening()[source as int]),
    {
        source < self.listening.len() && self.listening[source]
    }

    /// The sending half of the shared channel, for the listeners: the one
    /// that the controller was made with, at every call.
    pub fn sender(&self) -> (tx: &UnboundedSender<Message>)
        ensures
            *tx == self.sending_half(),
    {
        &self.channel.0
    }

    /// Takes in what was found on the channel. A request is put on the queue,
    /// debounced; an error is recorded with its origin and ends that
    /// resource's listener only; the closing of the channel stops a running
    /// controller and is recorded once.
    pub fn react(&mut self, r: Received)
        requires
            old(self).wf(),
        ensures
            final(self).wf(),
            final(self).primary() == old(self).primary(),
            final(self).owned() == old(self).owned(),
            final(self).sending_half() == old(self).sending_half(),
            final(self).pending() == pending_after(old(self).pending(), r),
            final(self).failures() == failures_after(old(self).spec_state(), old(self).failures(), r),
            final(self).spec_state() == state_after(old(self).spec_state(), r),
            final(self).listening() == listening_after(
                old(self).spec_state(),
                old(self).listening(),
                r,
            ),
    {
        match r {
            Received::Message(m) => {
                let Message { source, item } = m;
                match item {
                    Ok(ev) => {
                        self.queue.push(ev);
                    },
                    Err(e) => {
                        self.errors.push_back(SourceError { origin: Some(source), error: e });
                        if source < self.listening.len() {
                            self.listening.set(source, false);
                        }
                    },
                }
            },
            Received::Empty => {},
            Received::Closed => {
                if self.state == ControllerState::Running {
                    self.errors.push_back(
                        SourceError { origin: None, error: PipelineError::ChannelClosed },
                    );
                    self.listening = none_listening(self.listening.len());
                    self.state = ControllerState::Stopped;
                }
            },
        }
    }

    /// Looks at the channel once and takes in what is there. Whatever was
    /// found, the controller has reacted to it as `react` says.
    pub fn poll(&mut self) -> (out: Polled)
        requires
            old(self).wf(),
        ensures
            final(self).wf(),
            final(self).primary() == old(self).primary(),
            final(self).owned() == old(self).owned(),
            final(self).sending_half() == old(self).sending_half(),
            exists|r: Received|
                {
                    &&& out == polled(r)
                    &&& final(self).pending() == #[trigger] pending_after(old(self).pending(), r)
                    &&& final(self).failures() == failures_after(
                        old(self).spec_state(),
                        old(self).failures(),
                        r,
                    )
                    &&& final(self).spec_state() == state_after(old(self).spec_state(), r)
                    &&& final(self).listening() == listening_after(
                        old(self).spec_state(),
                        old(self).listening(),
                        r,
                    )
                },
    {
        let r = receive(&mut self.channel.1);
        let out = match &r {
            Received::Message(_) => Polled::Delivered,
            Received::Empty => Polled::Idle,
            Received::Closed => Polled::Closed,
        };
        let ghost found = r;
        self.react(r);
        assert(final(self).pending() == pending_after(old(self).pending(), found));
        out
    }

    /// Stops a running controller: every listener is cancelled. What is
    /// pending and what has failed stays as it is, to be drained afterwards.
    /// A controller that is not running is left as it is.
    pub fn stop(&mut self)
        requires
            old(self).wf(),
        ensures
            final(self).wf(),
            final(self).primary() == old(self).primary(),
            final(self).owned() == old(self).owned(),
            final(self).sending_half() == old(self).sending_half(),
            final(self).pending() == old(self).pending(),
            final(self).failures() == old(self).failures(),
            final(self).spec_state() == if old(self).spec_state() is Running {
                ControllerState::Stopped
            } else {
                old(self).spec_state()
            },
            final(self).listening() == if old(self).spec_state() is Running {
                Seq::new(old(self).listening().len(), |i: int| false)
            } else {
                old(self).listening()
            },
    {
        if self.state == ControllerState::Running {
            self.listening = none_listening(self.listening.len());
            self.state = ControllerState::Stopped;
        }
    }

    /// Takes the listener of the watched resource with index `source` to be
    /// active again, after the caller has set up its watch anew. This is done,
    /// and the result is `true`, where the controller runs, the index is that
    /// of a watched resource and its listener had ended; otherwise nothing
    /// changes.
    pub fn restart_listener(&mut self, source: usize) -> (restarted: bool)
        requires
            old(self).wf(),
        ensures
            final(self).wf(),
            final(self).primary() == old(self).primary(),
            final(self).owned() == old(self).owned(),
            final(self).sending_half() == old(self).sending_half(),
            final(self).spec_state() == old(self).spec_state(),
            final(self).pending() == old(self).pending(),
            final(self).failures() == old(self).failures(),
            restarted == (old(self).spec_state() is Running && source < old(self).listening().len()
                && !old(self).listening()[source as int]),
            final(self).listening() == if restarted {
                old(self).listening().update(source as int, true)
            } else {
                old(self).listening()
            },
    {
        if self.state == ControllerState::Running && source < self.listening.len()
            && !self.listening[source] {
            self.listening.set(source, true);
            true
        } else {
            false
        }
    }

    /// Hands out the request that has been pending longest, in any state.
    pub fn next(&mut self) -> (r: Option<ReconcileEvent>)
        requires
            old(self).wf(),
        ensures
            final(self).wf(),
            final(self).primary() == old(self).primary(),
            final(self).owned() == old(self).owned(),
            final(self).sending_half() == old(self).sending_half(),
            final(self).spec_state() == old(self).spec_state(),
            final(self).failures() == old(self).failures(),
            final(self).listening() == old(self).listening(),
            r is None <==> old(self).pending().len() == 0,
            r is None ==> final(self).pending() == old(self).pending(),
            r is Some ==> r->0@ == old(self).pending()[0],
            r is Some ==> final(self).pending() == old(self).pending().drop_first(),
    {
        self.queue.pop()
    }

    /// Hands out everything that is pending, oldest first, in any state: what
    /// was queued before a stop can still be drained after it.
    pub fn drain(&mut self) -> (out: Vec<ReconcileEvent>)
        requires
            old(self).wf(),
        ensures
            final(self).wf(),
            final(self).primary() == old(self).primary(),
            final(self).owned() == old(self).owned(),
            final(self).sending_half() == old(self).sending_half(),
            final(self).spec_state() == old(self).spec_state(),
            final(self).failures() == old(self).failures(),
            final(self).listening() == old(self).listening(),
            final(self).pending() == Seq::<Identity>::empty(),
            identities(out@) == old(self).pending(),
    {
        self.queue.drain()
    }

    /// Hands out the oldest failure that the caller has not yet taken, in any
    /// state.
    pub fn next_error(&mut self) -> (r: Option<SourceError>)
        requires
            old(self).wf(),
        ensures
            final(self).wf(),
            final(self).primary() == old(self).primary(),
            final(self).owned() == old(self).owned(),
            final(self).sending_half() == old(self).sending_half(),
            final(self).spec_state() == old(self).spec_state(),
            final(self).pending() == old(self).pending(),
            final(self).listening() == old(self).listening(),
            r is None <==> old(self).failures().len() == 0,
            r is None ==> final(self).failures() == old(self).failures(),
            r is Some ==> r->0 == old(self).failures()[0],
            r is Some ==> final(self).failures() == old(self).failures().drop_first(),
    {
        let r = self.errors.pop_front();
        proof {
            if r is Some {
                assert(self.errors@ =~= old(self).errors@.drop_first());
            }
        }
        r
    }
}

/// Fault isolation: an error from one resource's source changes neither the
/// state of the controller nor what is pending, ends no listener but that
/// resource's, and a request that another resource's listener forwards
/// afterwards is taken in as if the error had not been.
pub proof fn law_fault_isolation(
    state: ControllerState,
    pending: Seq<Identity>,
    listening: Seq<bool>,
    failed: Message,
    later: Message,
)
    requires
        failed.item is Err,
        later.item is Ok,
        failed.source != later.source,
    ensures
        state_after(state, Received::Message(failed)) == state,
        pending_after(pending, Received::Message(failed)) == pending,
        pending_after(
            pending_after(pending, Received::Message(failed)),
            Received::Message(later),
        ) == enqueue(pending, later.item->Ok_0@),
        pending_after(
            pending_after(pending, Received::Message(failed)),
            Received::Message(later),
        ).contains(later.item->Ok_0@),
        listening_after(state, listening, Received::Message(failed)).len() == listening.len(),
        forall|i: int|
            0 <= i < listening.len() && i != failed.source ==> listening_after(
                state,
                listening,
                Received::Message(failed),
            )[i] == listening[i],
{
    let id = later.item->Ok_0@;
    if !pending.contains(id) {
        assert(pending.push(id)[pending.len() as int] == id);
    }
}

/// A stopped controller stays stopped, whatever is found on the channel, and
/// nothing found on the channel starts a controller.
pub proof fn law_stopped_is_final(state: ControllerState, r: Received)
    ensures
        state is Stopped ==> state_after(state, r) is Stopped,
        state_after(state, r) is Running ==> state is Running,
        state_after(state, r) is Configured <==> state is Configured,
{
}

/// An error is never dropped: whatever the state, it is the newest recorded
/// failure afterwards, with the index of the resource it came from.
pub proof fn law_errors_surface(state: ControllerState, failures: Seq<SourceError>, failed: Message)
    requires
        failed.item is Err,
    ensures
        failures_after(state, failures, Received::Message(failed)).len() == failures.len() + 1,
        failures_after(state, failures, Received::Message(failed)).last() == (SourceError {
            origin: Some(failed.source),
            error: failed.item->Err_0,
        }),
{
}

/// The identities of the requests among what was found on the channel, in
/// order of arrival.
pub open spec fn requests_of(found: Seq<Received>) -> Seq<Identity>
    decreases found.len(),
{
    if found.len() == 0 {
        Seq::empty()
    } else {
        match found.last() {
            Received::Message(m) => match m.item {
                Ok(ev) => requests_of(found.drop_last()).push(ev@),
                Err(_) => requests_of(found.drop_last()),
            },
            _ => requests_of(found.drop_last()),
        }
    }
}

/// The pending identities after the controller has taken in all of `found`,
/// one after the other, with nothing drained in between.
pub open spec fn pending_after_all(pending: Seq<Identity>, found: Seq<Received>) -> Seq<Identity>
    decreases found.len(),
{
    if found.len() == 0 {
        pending
    } else {
        pending_after(pending_after_all(pending, found.drop_last()), found.last())
    }
}

/// Every change is delivered once: however the messages of the watched
/// resources interleave on the channel, and whatever errors lie between them,
/// what is pending afterwards is the debounced run of the forwarded requests.
/// Each forwarded request is pending, and none is pending twice.
pub proof fn law_every_change_pending_once(pending: Seq<Identity>, found: Seq<Received>)
    requires
        pending.no_duplicates(),
    ensures
        pending_after_all(pending, found) == enqueue_all(pending, requests_of(found)),
        pending_after_all(pending, found).no_duplicates(),
        forall|i: int|
            0 <= i < found.len() && (#[trigger] found[i]) is Message && found[i]->Message_0.item is Ok
                ==> pending_after_all(pending, found).contains(found[i]->Message_0.item->Ok_0@),
    decreases found.len(),
{
    let after = pending_after_all(pending, found);
    if found.len() > 0 {
        let init = found.drop_last();
        law_every_change_pending_once(pending, init);
        let before = pending_after_all(pending, init);
        let last_is_request = found.last() is Message && found.last()->Message_0.item is Ok;
        if last_is_request {
            let id = found.last()->Message_0.item->Ok_0@;
            let reqs = requests_of(found);
            assert(reqs.drop_last() =~= requests_of(init));
            assert(reqs.last() == id);
            crate::runtime::queue::lemma_enqueue_no_duplicates(before, id);
        }
        assert forall|i: int|
            0 <= i < found.len() && (#[trigger] found[i]) is Message && found[i]->Message_0.item is Ok
            implies after.contains(found[i]->Message_0.item->Ok_0@) by {
            if i < found.len() - 1 {
                assert(init[i] == found[i]);
                if last_is_request {
                    crate::runtime::queue::lemma_enqueue_no_duplicates(
                        before,
                        found.last()->Message_0.item->Ok_0@,
                    );
                }
            }
        }
    }
    law_each_arrival_pending_once(pending, requests_of(found));
}

} // verus!
