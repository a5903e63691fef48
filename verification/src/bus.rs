//! The reload bus: a broadcast primitive with one independent cursor per
//! attached session.
//!
//! Publishing enqueues one notification onto the pending queue of every
//! attached session; no session's slow consumption blocks or drops anything
//! for another. A session attaches with an empty queue, may drain whatever
//! is pending before it is ready to act, polls notifications off the front
//! of its own queue in publish order, and detaches on disconnect without
//! touching any other session. Each notification carries the event number
//! it was published as, counted from the creation of the bus.
//!
//! The abstract state of the bus is a [`BusView`]: the number of the next
//! event and one optional pending queue per session slot. Every operation's
//! contract states its exact effect on the view, and the laws at the end of
//! the module are proved over sequences of such operations.

use vstd::prelude::*;

verus! {

/// The abstract state of the bus: the number the next published event will
/// carry, and for each session slot either the pending queue of an attached
/// session or nothing where a session has detached.
pub struct BusView {
    pub next_event: int,
    pub slots: Seq<Option<Seq<int>>>,
}

/// The session `sid` is attached: its slot exists and holds a queue.
pub open spec fn attached(v: BusView, sid: int) -> bool {
    0 <= sid < v.slots.len() && v.slots[sid] is Some
}

/// The pending queue of an attached session.
pub open spec fn queue_of(v: BusView, sid: int) -> Seq<int> {
    v.slots[sid]->0
}

/// One publish: the current event number is appended to the pending queue
/// of every attached session, and the counter moves on.
pub open spec fn publish_t(v: BusView) -> BusView {
    BusView {
        next_event: v.next_event + 1,
        slots: Seq::new(
            v.slots.len(),
            |i: int|
                match v.slots[i] {
                    Some(q) => Some(q.push(v.next_event)),
                    None => None,
                },
        ),
    }
}

/// One attach: a fresh slot with an empty queue, positioned at "now".
pub open spec fn attach_t(v: BusView) -> BusView {
    BusView { next_event: v.next_event, slots: v.slots.push(Some(Seq::empty())) }
}

/// One drain: whatever is pending for the session is discarded.
pub open spec fn drain_t(v: BusView, sid: int) -> BusView {
    BusView { next_event: v.next_event, slots: v.slots.update(sid, Some(Seq::empty())) }
}

/// One poll: the front of the session's queue is taken, if there is one;
/// an empty queue leaves the bus unchanged.
pub open spec fn poll_t(v: BusView, sid: int) -> BusView {
    if attached(v, sid) && queue_of(v, sid).len() > 0 {
        BusView {
            next_event: v.next_event,
            slots: v.slots.update(sid, Some(queue_of(v, sid).drop_first())),
        }
    } else {
        v
    }
}

/// One detach: the session's slot is emptied; every other slot stays as it
/// was.
pub open spec fn detach_t(v: BusView, sid: int) -> BusView {
    BusView { next_event: v.next_event, slots: v.slots.update(sid, None) }
}

/// The process-wide reload bus.
pub struct ReloadBus {
    next_event: u64,
    slots: Vec<Option<Vec<u64>>>,
}

impl View for ReloadBus {
    type V = BusView;

    closed spec fn view(&self) -> BusView {
        BusView {
            next_event: self.next_event as int,
            slots: Seq::new(
                self.slots@.len(),
                |i: int|
                    match self.slots@[i] {
                        Some(q) => Some(q@.map_values(|e: u64| e as int)),
                        None => None,
                    },
            ),
        }
    }
}

impl ReloadBus {
    /// A fresh bus: no event published yet, no session attached.
    pub fn new() -> (b: ReloadBus)
        ensures
            b@.next_event == 0,
            b@.slots == Seq::<Option<Seq<int>>>::empty(),
    {
        let b = ReloadBus { next_event: 0, slots: Vec::new() };
        proof {
            assert(b@.slots =~= Seq::<Option<Seq<int>>>::empty());
        }
        b
    }

    /// Publishes one notification: it reaches the queue of every attached
    /// session, never blocks, and never fails for a slow consumer.
    pub fn publish(&mut self)
        requires
            old(self)@.next_event < 0xffff_ffff_ffff_ffff,
        ensures
            final(self)@ == publish_t(old(self)@),
    {
        let e = self.next_event;
        self.next_event = self.next_event + 1;
        let n = self.slots.len();
        let mut i: usize = 0;
        while i < n
            invariant
                n == self.slots@.len() == old(self).slots@.len(),
                0 <= i <= n,
                self.next_event == old(self).next_event + 1,
                e == old(self).next_event,
                forall|j: int|
                    0 <= j < i ==> (self.slots@[j] is Some) == (old(self).slots@[j] is Some),
                forall|j: int|
                    0 <= j < i && self.slots@[j] is Some ==> self.slots@[j]->0@ == old(
                        self,
                    ).slots@[j]->0@.push(e),
                forall|j: int| i <= j < n ==> self.slots@[j] == old(self).slots@[j],
            decreases n - i,
        {
            let slot = self.slots.remove(i);
            match slot {
                Some(mut q) => {
                    q.push(e);
                    self.slots.insert(i, Some(q));
                },
                None => {
                    self.slots.insert(i, None);
                },
            }
            i = i + 1;
        }
        proof {
            assert(self@.slots =~~= publish_t(old(self)@).slots);
        }
    }

    /// Attaches a new session and hands back its slot number. The new
    /// session's queue is empty: it sees only notifications published from
    /// now on.
    pub fn attach(&mut self) -> (sid: usize)
        ensures
            final(self)@ == attach_t(old(self)@),
            sid as int == old(self)@.slots.len(),
            attached(final(self)@, sid as int),
            queue_of(final(self)@, sid as int) == Seq::<int>::empty(),
    {
        let sid = self.slots.len();
        self.slots.push(Some(Vec::new()));
        proof {
            assert(self@.slots =~~= attach_t(old(self)@).slots);
        }
        sid
    }

    /// Discards every notification pending for the session: after the
    /// drain, only events published later can reach it.
    pub fn drain(&mut self, sid: usize)
        requires
            attached(old(self)@, sid as int),
        ensures
            final(self)@ == drain_t(old(self)@, sid as int),
    {
        self.slots.remove(sid);
        self.slots.insert(sid, Some(Vec::new()));
        proof {
            assert(self@.slots =~~= drain_t(old(self)@, sid as int).slots);
        }
    }

    /// Takes the oldest pending notification of the session, if any: the
    /// session observes events in the order they were published.
    pub fn poll(&mut self, sid: usize) -> (r: Option<u64>)
        requires
            attached(old(self)@, sid as int),
        ensures
            final(self)@ == poll_t(old(self)@, sid as int),
            (r is Some) == (queue_of(old(self)@, sid as int).len() > 0),
            r is Some ==> r->0 as int == queue_of(old(self)@, sid as int)[0],
    {
        let slot = self.slots.remove(sid);
        match slot {
            Some(mut q) => {
                if q.len() > 0 {
                    let e = q.remove(0);
                    self.slots.insert(sid, Some(q));
                    proof {
                        assert(self@.slots =~~= poll_t(old(self)@, sid as int).slots);
                    }
                    Some(e)
                } else {
                    self.slots.insert(sid, Some(q));
                    proof {
                        assert(self@.slots =~~= poll_t(old(self)@, sid as int).slots);
                    }
                    None
                }
            },
            None => unreached(),
        }
    }

    /// Detaches the session: its slot is released and every other session
    /// keeps its attachment and its pending queue.
    pub fn detach(&mut self, sid: usize)
        requires
            attached(old(self)@, sid as int),
        ensures
            final(self)@ == detach_t(old(self)@, sid as int),
    {
        self.slots.remove(sid);
        self.slots.insert(sid, None);
        proof {
            assert(self@.slots =~~= detach_t(old(self)@, sid as int).slots);
        }
    }

    /// Whether another event can still be published: the event counter has
    /// not run out.
    pub fn can_publish(&self) -> (r: bool)
        ensures
            r == (self@.next_event < 0xffff_ffff_ffff_ffff),
    {
        self.next_event < 0xffff_ffff_ffff_ffff
    }

    /// Whether the slot number names an attached session.
    pub fn is_attached(&self, sid: usize) -> (r: bool)
        ensures
            r == attached(self@, sid as int),
    {
        sid < self.slots.len() && self.slots[sid].is_some()
    }
}

/// One operation on the bus, for stating laws over whole histories.
pub enum BusOp {
    Publish,
    Attach,
    Drain { sid: int },
    Poll { sid: int },
    Detach { sid: int },
}

/// The effect of one operation on the abstract bus state. A drain or
/// detach of a session that is not attached changes nothing.
pub open spec fn apply_op(v: BusView, op: BusOp) -> BusView {
    match op {
        BusOp::Publish => publish_t(v),
        BusOp::Attach => attach_t(v),
        BusOp::Drain { sid } => if attached(v, sid) {
            drain_t(v, sid)
        } else {
            v
        },
        BusOp::Poll { sid } => poll_t(v, sid),
        BusOp::Detach { sid } => if attached(v, sid) {
            detach_t(v, sid)
        } else {
            v
        },
    }
}

/// The bus state after a whole sequence of operations.
pub open spec fn apply_ops(v: BusView, ops: Seq<BusOp>) -> BusView
    decreases ops.len(),
{
    if ops.len() == 0 {
        v
    } else {
        apply_ops(apply_op(v, ops[0]), ops.drop_first())
    }
}

/// Whether the operation acts on the given session's own cursor.
pub open spec fn touches(op: BusOp, sid: int) -> bool {
    match op {
        BusOp::Publish => false,
        BusOp::Attach => false,
        BusOp::Drain { sid: s } => s == sid,
        BusOp::Poll { sid: s } => s == sid,
        BusOp::Detach { sid: s } => s == sid,
    }
}

/// The events the publishes in `ops` put onto the bus, in publish order.
pub open spec fn published_events(v: BusView, ops: Seq<BusOp>) -> Seq<int>
    decreases ops.len(),
{
    if ops.len() == 0 {
        Seq::empty()
    } else {
        let rest = published_events(apply_op(v, ops[0]), ops.drop_first());
        if ops[0] is Publish {
            seq![v.next_event] + rest
        } else {
            rest
        }
    }
}

/// Independent fanout, and no notification missed while attached: whatever
/// any number of other sessions do — publish, attach, drain, poll or detach
/// — a session that none of the operations' cursor actions touch stays
/// attached and finds in its queue exactly what it held before plus every
/// event published meanwhile, in publish order. One session's slow
/// consumption never blocks or drops notifications for another.
pub proof fn lemma_independent_fanout(v: BusView, ops: Seq<BusOp>, sid: int)
    requires
        attached(v, sid),
        forall|k: int| 0 <= k < ops.len() ==> !touches(#[trigger] ops[k], sid),
    ensures
        attached(apply_ops(v, ops), sid),
        queue_of(apply_ops(v, ops), sid) == queue_of(v, sid) + published_events(v, ops),
    decreases ops.len(),
{
    if ops.len() == 0 {
        assert(queue_of(v, sid) + published_events(v, ops) =~= queue_of(v, sid));
    } else {
        let op = ops[0];
        let v1 = apply_op(v, op);
        assert(!touches(op, sid));
        assert(attached(v1, sid));
        assert(forall|k: int|
            0 <= k < ops.drop_first().len() ==> !touches(#[trigger] ops.drop_first()[k], sid));
        lemma_independent_fanout(v1, ops.drop_first(), sid);
        if op is Publish {
            assert(queue_of(v1, sid) =~= queue_of(v, sid) + seq![v.next_event]);
            assert(queue_of(v, sid) + published_events(v, ops) =~= (queue_of(v, sid)
                + seq![v.next_event]) + published_events(v1, ops.drop_first()));
        } else {
            assert(queue_of(v1, sid) =~= queue_of(v, sid));
            assert(published_events(v, ops) =~= published_events(v1, ops.drop_first()));
        }
    }
}

/// No missed notification while attached: a session whose drain phase is
/// complete — its queue is empty — observes every event published from
/// then on, in publish order, as long as it neither drains again nor
/// polls nor detaches.
pub proof fn lemma_no_missed_notification(v: BusView, ops: Seq<BusOp>, sid: int)
    requires
        attached(v, sid),
        queue_of(v, sid) == Seq::<int>::empty(),
        forall|k: int| 0 <= k < ops.len() ==> !touches(#[trigger] ops[k], sid),
    ensures
        attached(apply_ops(v, ops), sid),
        queue_of(apply_ops(v, ops), sid) == published_events(v, ops),
    decreases ops.len(),
{
    lemma_independent_fanout(v, ops, sid);
    assert(queue_of(v, sid) + published_events(v, ops) =~= published_events(v, ops));
}

/// Every event in the session's queue is at least `lo`.
pub open spec fn all_at_least(q: Seq<int>, lo: int) -> bool {
    forall|k: int| 0 <= k < q.len() ==> q[k] >= lo
}

/// Event numbers only grow, and a session whose pending events all carry
/// numbers at least `lo` keeps that bound through any operations at all —
/// its own polls and drains included.
pub proof fn lemma_events_stay_at_least(v: BusView, ops: Seq<BusOp>, sid: int, lo: int)
    requires
        lo <= v.next_event,
        attached(v, sid) ==> all_at_least(queue_of(v, sid), lo),
    ensures
        lo <= apply_ops(v, ops).next_event,
        attached(apply_ops(v, ops), sid) ==> all_at_least(queue_of(apply_ops(v, ops), sid), lo),
    decreases ops.len(),
{
    if ops.len() > 0 {
        let op = ops[0];
        let v1 = apply_op(v, op);
        assert(lo <= v1.next_event);
        assert(attached(v1, sid) ==> all_at_least(queue_of(v1, sid), lo)) by {
            if attached(v1, sid) {
                match op {
                    BusOp::Publish => {
                        if attached(v, sid) {
                            assert(queue_of(v1, sid) =~= queue_of(v, sid).push(v.next_event));
                        }
                    },
                    BusOp::Attach => {},
                    BusOp::Drain { sid: s } => {},
                    BusOp::Poll { sid: s } => {
                        if attached(v, sid) && s == sid && queue_of(v, sid).len() > 0 {
                            assert(queue_of(v1, sid) =~= queue_of(v, sid).drop_first());
                            assert(forall|k: int|
                                0 <= k < queue_of(v1, sid).len() ==> queue_of(v1, sid)[k]
                                    == queue_of(v, sid)[k + 1]);
                        }
                    },
                    BusOp::Detach { sid: s } => {},
                }
            }
        }
        lemma_events_stay_at_least(v1, ops.drop_first(), sid, lo);
    }
}

/// Coalesce on connect: an event published strictly before a session
/// completed its drain — its number is below what the counter read when
/// the queue was empty — never shows up in that session's queue again,
/// whatever happens on the bus afterwards.
pub proof fn lemma_coalesce_on_connect(v: BusView, ops: Seq<BusOp>, sid: int, e: int)
    requires
        attached(v, sid),
        queue_of(v, sid) == Seq::<int>::empty(),
        e < v.next_event,
    ensures
        attached(apply_ops(v, ops), sid) ==> !queue_of(apply_ops(v, ops), sid).contains(e),
{
    lemma_events_stay_at_least(v, ops, sid, v.next_event);
    if attached(apply_ops(v, ops), sid) && queue_of(apply_ops(v, ops), sid).contains(e) {
        let k = choose|k: int|
            0 <= k < queue_of(apply_ops(v, ops), sid).len() && queue_of(apply_ops(v, ops), sid)[k]
                == e;
        assert(queue_of(apply_ops(v, ops), sid)[k] >= v.next_event);
    }
}

/// Disconnect cleanup: detaching one session releases exactly its own
/// attachment; every other session stays attached with its pending queue
/// untouched, and the bus itself — its event counter — is unaffected.
pub proof fn lemma_disconnect_cleanup(v: BusView, sid: int, other: int)
    requires
        attached(v, sid),
        attached(v, other),
        other != sid,
    ensures
        !attached(detach_t(v, sid), sid),
        attached(detach_t(v, sid), other),
        queue_of(detach_t(v, sid), other) == queue_of(v, other),
        detach_t(v, sid).next_event == v.next_event,
{
}

} // verus!
