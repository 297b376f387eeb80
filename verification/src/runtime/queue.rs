//! The debounced queue of pending reconcile requests.

use vstd::prelude::*;
use std::collections::VecDeque;
use crate::api::Identity;
use crate::runtime::controller::ReconcileEvent;

verus! {

/// The pending identities after one more arrives: an identity that is already
/// pending keeps its slot, a new one goes to the back.
pub open spec fn enqueue(pending: Seq<Identity>, id: Identity) -> Seq<Identity> {
    if pending.contains(id) {
        pending
    } else {
        pending.push(id)
    }
}

/// The pending identities after a run of arrivals, none drained in between.
pub open spec fn enqueue_all(pending: Seq<Identity>, arrivals: Seq<Identity>) -> Seq<Identity>
    decreases arrivals.len(),
{
    if arrivals.len() == 0 {
        pending
    } else {
        enqueue(enqueue_all(pending, arrivals.drop_last()), arrivals.last())
    }
}

/// The identities of a sequence of requests, in order.
pub open spec fn identities(events: Seq<ReconcileEvent>) -> Seq<Identity> {
    events.map_values(|e: ReconcileEvent| e@)
}

/// Pending reconcile requests in order of first arrival, at most one for each
/// identity.
pub struct ReconcileQueue {
    pending: VecDeque<ReconcileEvent>,
}

impl View for ReconcileQueue {
    type V = Seq<Identity>;

    closed spec fn view(&self) -> Seq<Identity> {
        identities(self.pending@)
    }
}

impl ReconcileQueue {
    /// No identity is pending twice.
    pub open spec fn wf(&self) -> bool {
        self@.no_duplicates()
    }

    /// An empty queue.
    pub fn new() -> (q: ReconcileQueue)
        ensures
            q@ == Seq::<Identity>::empty(),
            q.wf(),
    {
        let q = ReconcileQueue { pending: VecDeque::new() };
        assert(q@ =~= Seq::<Identity>::empty());
        q
    }

    /// The number of pending requests.
    pub fn len(&self) -> (n: usize)
        ensures
            n == self@.len(),
    {
        self.pending.len()
    }

    /// Whether nothing is pending.
    pub fn is_empty(&self) -> (b: bool)
        ensures
            b == (self@.len() == 0),
    {
        self.pending.len() == 0
    }

    /// Whether a request for the identity of `ev` is pending.
    pub fn contains(&self, ev: &ReconcileEvent) -> (b: bool)
        ensures
            b == self@.contains(ev@),
    {
        let n: usize = self.pending.len();
        let mut i: usize = 0;
        while i < n
            invariant
                n == self.pending@.len(),
                i <= n,
                forall|j: int| 0 <= j < i ==> self@[j] != ev@,
            decreases n - i,
        {
            if self.pending[i].same_identity(ev) {
                assert(self@[i as int] == ev@);
                return true;
            }
            i = i + 1;
        }
        false
    }

    /// Takes in one request. Where its identity is already pending the queue
    /// stays as it is and the result is `false`; otherwise the request goes to
    /// the back and the result is `true`.
    pub fn push(&mut self, ev: ReconcileEvent) -> (fresh: bool)
        requires
            old(self).wf(),
        ensures
            final(self).wf(),
            final(self)@ == enqueue(old(self)@, ev@),
            fresh == !old(self)@.contains(ev@),
    {
        if self.contains(&ev) {
            false
        } else {
            self.pending.push_back(ev);
            assert(self@ =~= old(self)@.push(ev@));
            true
        }
    }

    /// Hands out the request that has been pending longest, if there is one.
    pub fn pop(&mut self) -> (r: Option<ReconcileEvent>)
        requires
            old(self).wf(),
        ensures
            final(self).wf(),
            r is None <==> old(self)@.len() == 0,
            r is None ==> final(self)@ == old(self)@,
            r is Some ==> r->0@ == old(self)@[0] && final(self)@ == old(self)@.drop_first(),
    {
        let r = self.pending.pop_front();
        proof {
            if r is Some {
                assert(self@ =~= old(self)@.drop_first());
            }
        }
        r
    }

    /// Hands out everything that is pending, oldest first, and leaves the
    /// queue empty.
    pub fn drain(&mut self) -> (out: Vec<ReconcileEvent>)
        requires
            old(self).wf(),
        ensures
            final(self).wf(),
            final(self)@ == Seq::<Identity>::empty(),
            identities(out@) == old(self)@,
    {
        let ghost start = self@;
        let mut out: Vec<ReconcileEvent> = Vec::new();
        while self.pending.len() > 0
            invariant
                self.wf(),
                identities(out@) + self@ =~= start,
            decreases self@.len(),
        {
            let ghost taken = identities(out@);
            let ghost left = self@;
            let r = self.pop();
            if let Some(ev) = r {
                out.push(ev);
            }
            proof {
                assert(identities(out@) =~= taken.push(left[0]));
                assert(identities(out@) + self@ =~= taken + left);
            }
        }
        assert(self@ =~= Seq::<Identity>::empty());
        assert(identities(out@) =~= start);
        out
    }
}

/// Taking in a request keeps the queue free of duplicates, keeps what was
/// pending, and adds nothing but the request.
pub proof fn lemma_enqueue_no_duplicates(pending: Seq<Identity>, id: Identity)
    requires
        pending.no_duplicates(),
    ensures
        enqueue(pending, id).no_duplicates(),
        enqueue(pending, id).contains(id),
        forall|x: Identity| pending.contains(x) ==> enqueue(pending, id).contains(x),
        forall|x: Identity| enqueue(pending, id).contains(x) ==> pending.contains(x) || x == id,
{
    let q = enqueue(pending, id);
    if !pending.contains(id) {
        assert(q[pending.len() as int] == id);
        assert forall|x: Identity| pending.contains(x) implies q.contains(x) by {
            let i = choose|i: int| 0 <= i < pending.len() && pending[i] == x;
            assert(q[i] == x);
        }
    }
}

/// Every request that arrives is pending exactly once until it is drained:
/// after any run of arrivals the queue holds no identity twice, holds each
/// identity that arrived and each that was pending before, and holds nothing
/// else.
pub proof fn law_each_arrival_pending_once(pending: Seq<Identity>, arrivals: Seq<Identity>)
    requires
        pending.no_duplicates(),
    ensures
        enqueue_all(pending, arrivals).no_duplicates(),
        forall|i: int| 0 <= i < arrivals.len() ==> enqueue_all(pending, arrivals).contains(#[trigger] arrivals[i]),
        forall|x: Identity| pending.contains(x) ==> enqueue_all(pending, arrivals).contains(x),
        forall|x: Identity| enqueue_all(pending, arrivals).contains(x) ==> pending.contains(x) || arrivals.contains(x),
    decreases arrivals.len(),
{
    if arrivals.len() > 0 {
        let before = enqueue_all(pending, arrivals.drop_last());
        law_each_arrival_pending_once(pending, arrivals.drop_last());
        lemma_enqueue_no_duplicates(before, arrivals.last());
        let after = enqueue_all(pending, arrivals);
        assert forall|i: int| 0 <= i < arrivals.len() implies after.contains(#[trigger] arrivals[i]) by {
            if i < arrivals.len() - 1 {
                assert(arrivals.drop_last()[i] == arrivals[i]);
            }
        }
        assert forall|x: Identity| after.contains(x) implies pending.contains(x) || arrivals.contains(x) by {
            if before.contains(x) && !pending.contains(x) {
                let i = choose|i: int| 0 <= i < arrivals.drop_last().len() && arrivals.drop_last()[i] == x;
                assert(arrivals[i] == x);
            } else if !pending.contains(x) {
                assert(arrivals[arrivals.len() - 1] == x);
            }
        }
    }
}

/// Debounce is idempotent: a request for an identity that is already pending
/// changes nothing, so any number of arrivals for one identity leave exactly
/// one pending request for it, in the slot of the first.
pub proof fn law_debounce_idempotent(pending: Seq<Identity>, id: Identity, times: nat)
    requires
        pending.no_duplicates(),
        times >= 1,
    ensures
        enqueue_all(pending, Seq::new(times, |i: int| id)) == enqueue(pending, id),
        enqueue(pending, id).filter(|x: Identity| x == id).len() == 1,
    decreases times,
{
    let run = Seq::new(times, |i: int| id);
    let once = enqueue(pending, id);
    lemma_enqueue_no_duplicates(pending, id);
    if times == 1 {
        assert(run.drop_last() =~= Seq::<Identity>::empty());
        assert(enqueue_all(pending, run.drop_last()) == pending);
    } else {
        assert(run.drop_last() =~= Seq::new((times - 1) as nat, |i: int| id));
        law_debounce_idempotent(pending, id, (times - 1) as nat);
    }
    lemma_single_occurrence(once, id);
}

/// In a sequence without duplicates an element that occurs, occurs once.
pub proof fn lemma_single_occurrence(s: Seq<Identity>, id: Identity)
    requires
        s.no_duplicates(),
        s.contains(id),
    ensures
        s.filter(|x: Identity| x == id).len() == 1,
    decreases s.len(),
{
    reveal(Seq::filter);
    let f = |x: Identity| x == id;
    if s.len() > 0 {
        let init = s.drop_last();
        if s.last() == id {
            lemma_no_occurrence(init, id);
        } else {
            let i = choose|i: int| 0 <= i < s.len() && s[i] == id;
            assert(init[i] == id);
            lemma_single_occurrence(init, id);
        }
    }
}

/// An element that does not occur is filtered out entirely.
pub proof fn lemma_no_occurrence(s: Seq<Identity>, id: Identity)
    requires
        !s.contains(id),
    ensures
        s.filter(|x: Identity| x == id).len() == 0,
    decreases s.len(),
{
    reveal(Seq::filter);
    if s.len() > 0 {
        let init = s.drop_last();
        assert forall|j: int| 0 <= j < init.len() implies init[j] != id by {
            assert(s[j] == init[j]);
        }
        assert(s[s.len() - 1] != id);
        lemma_no_occurrence(init, id);
    }
}

/// First arrival decides the order: of two distinct identities that arrive
/// one after the other while neither is pending, the first is handed out
/// before the second. On an empty queue the two are handed out first and
/// second.
pub proof fn law_first_arrival_order(pending: Seq<Identity>, a: Identity, b: Identity)
    requires
        a != b,
        !pending.contains(a),
        !pending.contains(b),
    ensures
        enqueue(enqueue(pending, a), b) == pending.push(a).push(b),
        enqueue(enqueue(pending, a), b).index_of(a) < enqueue(enqueue(pending, a), b).index_of(b),
        pending.len() == 0 ==> enqueue(enqueue(pending, a), b) == seq![a, b],
{
    let qa = pending.push(a);
    assert(!qa.contains(b)) by {
        if qa.contains(b) {
            let i = choose|i: int| 0 <= i < qa.len() && qa[i] == b;
            if i < pending.len() {
                assert(pending[i] == b);
            }
        }
    }
    let q = qa.push(b);
    assert(q[pending.len() as int] == a);
    assert(q[pending.len() as int + 1] == b);
    assert(q.index_of(a) < q.index_of(b)) by {
        let ia = q.index_of(a);
        let ib = q.index_of(b);
        assert(q.contains(a));
        assert(q.contains(b));
        if ia < pending.len() {
            assert(pending[ia] == a);
        }
        if ib < pending.len() {
            assert(pending[ib] == b);
        }
        if ia == pending.len() + 1 {
            assert(q[ia] == b);
        }
    }
    if pending.len() == 0 {
        assert(q =~= seq![a, b]);
    }
}

/// A request that is triggered again while pending does not move back: the
/// queue is what it was.
pub proof fn law_retrigger_keeps_slot(pending: Seq<Identity>, id: Identity)
    requires
        pending.contains(id),
    ensures
        enqueue(pending, id) == pending,
{
}

} // verus!
