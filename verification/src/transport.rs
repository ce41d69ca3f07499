//! Call/response correlation and per-session event routing.
//!
//! A transport owns a monotonically-increasing call-id counter, the table of
//! outstanding calls, and one event queue per attached session.  The receive
//! loop of the embedding feeds every inbound message through this state
//! machine: a response resolves its call exactly once, an event lands only on
//! the queue of the session it is tagged with, and shutdown resolves every
//! outstanding call with [`CallReply::Closed`].  The resolution log records
//! every delivery, so the exactly-once and no-cross-talk guarantees are
//! stated over it.

use vstd::prelude::*;
use crate::errors::RemoteError;
use crate::wire::ProtocolEvent;

verus! {

/// What a blocked caller is resolved with: the browser's result, the
/// browser's error object, or the news that the connection is gone.
pub enum CallReply {
    /// The result object, as raw JSON text.
    Value { json: String },
    /// The browser answered with an error object.
    Rejected { error: RemoteError },
    /// The transport shut down before a reply arrived.
    Closed,
}

/// Whether some entry of the resolution log is for this call id.
pub open spec fn log_has_id(log: Seq<(u64, CallReply)>, id: u64) -> bool {
    exists|i: int| 0 <= i < log.len() && log[i].0 == id
}

/// The first reply recorded for a call id, if any.
pub open spec fn log_lookup(log: Seq<(u64, CallReply)>, id: u64) -> Option<CallReply>
    decreases log.len(),
{
    if log.len() == 0 {
        None
    } else if log[0].0 == id {
        Some(log[0].1)
    } else {
        log_lookup(log.drop_first(), id)
    }
}

/// A session key as compared: the text of the session id, or the
/// browser-level key.
pub open spec fn key_view(k: Option<String>) -> Option<Seq<char>> {
    match k {
        Some(s) => Some(s@),
        None => None,
    }
}

/// One attached consumer: the session it listens to and the events routed to
/// it, in arrival order.
pub struct SessionSlot {
    pub session_key: Option<String>,
    pub queue: Vec<ProtocolEvent>,
}

/// The correlation and routing state of one connection.
pub struct Transport {
    /// The next call id to hand out; ids already used are all below it.
    pub next_id: u64,
    /// Calls issued and not yet resolved.
    pub pending: Vec<u64>,
    /// Every resolution delivered so far, in delivery order.
    pub resolved: Vec<(u64, CallReply)>,
    /// One event queue per attached session.
    pub slots: Vec<SessionSlot>,
}

impl Transport {
    /// Well-formedness: ids are not reused while outstanding nor resolved
    /// twice, every id ever handed out is below the counter and is either
    /// still outstanding or resolved, session keys are distinct, and a
    /// queue holds only events tagged with its session.
    pub open spec fn wf(self) -> bool {
        &&& forall|i: int, j: int|
            0 <= i < j < self.pending@.len() ==> self.pending@[i] != self.pending@[j]
        &&& forall|i: int| 0 <= i < self.pending@.len() ==> self.pending@[i] < self.next_id
        &&& forall|i: int| 0 <= i < self.resolved@.len() ==> self.resolved@[i].0 < self.next_id
        &&& forall|i: int, j: int|
            0 <= i < j < self.resolved@.len() ==> self.resolved@[i].0 != self.resolved@[j].0
        &&& forall|i: int, j: int|
            0 <= i < self.pending@.len() && 0 <= j < self.resolved@.len() ==> self.pending@[i]
                != self.resolved@[j].0
        &&& forall|x: u64|
            x < self.next_id ==> self.pending@.contains(x) || log_has_id(self.resolved@, x)
        &&& forall|i: int, j: int|
            0 <= i < j < self.slots@.len() ==> key_view(self.slots@[i].session_key) != key_view(
                self.slots@[j].session_key,
            )
        &&& forall|i: int, k: int|
            0 <= i < self.slots@.len() && 0 <= k < self.slots@[i].queue@.len() ==> key_view(
                self.slots@[i].queue@[k].session_id,
            ) == key_view(self.slots@[i].session_key)
    }

    /// Whether a consumer is attached under this key.
    pub open spec fn spec_has_session(self, key: Option<Seq<char>>) -> bool {
        exists|i: int| 0 <= i < self.slots@.len() && key_view(self.slots@[i].session_key) == key
    }

    /// A fresh transport: no calls, no sessions, nothing resolved.
    pub fn new() -> (r: Transport)
        ensures
            r.wf(),
            r.next_id == 0,
            r.pending@.len() == 0,
            r.resolved@.len() == 0,
            r.slots@.len() == 0,
    {
        Transport { next_id: 0, pending: Vec::new(), resolved: Vec::new(), slots: Vec::new() }
    }

    /// Allocate a fresh call id and register the call as outstanding.  The
    /// id was never handed out before, so it is neither pending nor in the
    /// resolution log.
    pub fn issue_call_id(&mut self) -> (id: u64)
        requires
            old(self).wf(),
            old(self).next_id < u64::MAX,
        ensures
            final(self).wf(),
            id == old(self).next_id,
            final(self).next_id == id + 1,
            final(self).pending@ == old(self).pending@.push(id),
            final(self).resolved@ == old(self).resolved@,
            final(self).slots@ == old(self).slots@,
            !old(self).pending@.contains(id),
            !log_has_id(old(self).resolved@, id),
    {
        let id = self.next_id;
        self.next_id = self.next_id + 1;
        let ghost pre = self.pending@;
        self.pending.push(id);
        proof {
            assert forall|x: u64|
                x < self.next_id implies self.pending@.contains(x) || log_has_id(
                self.resolved@,
                x,
            ) by {
                if x == id {
                    assert(self.pending@[pre.len() as int] == x);
                } else if pre.contains(x) {
                    let w = choose|w: int| 0 <= w < pre.len() && pre[w] == x;
                    assert(self.pending@[w] == x);
                }
            }
        }
        id
    }

    /// Resolve the call with this id, recording the delivery.  A response
    /// for an id that is not outstanding — unknown, or already resolved —
    /// changes nothing and reports `false`: fulfilment happens at most once.
    pub fn dispatch_response(&mut self, id: u64, reply: CallReply) -> (was_pending: bool)
        requires
            old(self).wf(),
        ensures
            final(self).wf(),
            was_pending == old(self).pending@.contains(id),
            !was_pending ==> *final(self) == *old(self),
            was_pending ==> {
                &&& final(self).resolved@ == old(self).resolved@.push((id, reply))
                &&& !final(self).pending@.contains(id)
                &&& final(self).pending@.len() == old(self).pending@.len() - 1
                &&& forall|x: u64|
                    x != id ==> (final(self).pending@.contains(x) <==> old(
                        self,
                    ).pending@.contains(x))
                &&& final(self).next_id == old(self).next_id
                &&& final(self).slots@ == old(self).slots@
            },
    {
        let mut k: usize = 0;
        let mut found: bool = false;
        while k < self.pending.len() && !found
            invariant
                k <= self.pending.len(),
                self == old(self),
                found ==> k < self.pending.len() && self.pending@[k as int] == id,
                forall|j: int| 0 <= j < k ==> self.pending@[j] != id,
            decreases self.pending.len() - k, (if found { 0int } else { 1int }),
        {
            if self.pending[k] == id {
                found = true;
            } else {
                k = k + 1;
            }
        }
        if !found {
            assert(!old(self).pending@.contains(id));
            return false;
        }
        let ghost old_pending = self.pending@;
        self.pending.remove(k);
        self.resolved.push((id, reply));
        proof {
            assert(self.pending@ =~= old_pending.subrange(0, k as int) + old_pending.subrange(
                k as int + 1,
                old_pending.len() as int,
            ));
            assert forall|x: u64| self.pending@.contains(x) implies old_pending.contains(x) by {
                let w = choose|w: int| 0 <= w < self.pending@.len() && self.pending@[w] == x;
                if w < k {
                    assert(old_pending[w] == x);
                } else {
                    assert(old_pending[w + 1] == x);
                }
            }
            assert(!self.pending@.contains(id));
            assert forall|x: u64| x != id && old_pending.contains(x) implies
                self.pending@.contains(x) by {
                let w = choose|w: int| 0 <= w < old_pending.len() && old_pending[w] == x;
                if w < k {
                    assert(self.pending@[w] == x);
                } else {
                    assert(w != k);
                    assert(self.pending@[w - 1] == x);
                }
            }
            assert forall|x: u64|
                x < self.next_id implies self.pending@.contains(x) || log_has_id(
                self.resolved@,
                x,
            ) by {
                if x == id {
                    assert(self.resolved@[old(self).resolved@.len() as int].0 == x);
                } else if log_has_id(old(self).resolved@, x) {
                    let w = choose|w: int|
                        0 <= w < old(self).resolved@.len() && old(self).resolved@[w].0 == x;
                    assert(self.resolved@[w].0 == x);
                }
            }
        }
        true
    }

    /// Shut the transport down: every outstanding call is resolved with
    /// [`CallReply::Closed`], exactly once each, and the ids it concerned
    /// are handed back so the embedding can wake the blocked callers.
    pub fn shutdown(&mut self) -> (closed: Vec<u64>)
        requires
            old(self).wf(),
        ensures
            final(self).wf(),
            closed@ == old(self).pending@,
            final(self).pending@.len() == 0,
            final(self).resolved@ == old(self).resolved@ + old(self).pending@.map_values(
                |id: u64| (id, CallReply::Closed),
            ),
            final(self).next_id == old(self).next_id,
            final(self).slots@ == old(self).slots@,
    {
        let ghost mapped = old(self).pending@.map_values(|id: u64| (id, CallReply::Closed));
        let mut closed: Vec<u64> = Vec::new();
        let mut k: usize = 0;
        while k < self.pending.len()
            invariant
                k <= self.pending.len(),
                self.pending@ == old(self).pending@,
                self.next_id == old(self).next_id,
                self.slots@ == old(self).slots@,
                old(self).wf(),
                closed@ == old(self).pending@.subrange(0, k as int),
                self.resolved@ == old(self).resolved@ + mapped.subrange(0, k as int),
                mapped == old(self).pending@.map_values(|id: u64| (id, CallReply::Closed)),
            decreases self.pending.len() - k,
        {
            let id = self.pending[k];
            closed.push(id);
            self.resolved.push((id, CallReply::Closed));
            proof {
                assert(mapped.subrange(0, k as int + 1) =~= mapped.subrange(0, k as int).push(
                    (id, CallReply::Closed),
                ));
                assert(self.resolved@ =~= old(self).resolved@ + mapped.subrange(0, k as int + 1));
            }
            k = k + 1;
        }
        proof {
            assert(closed@ =~= old(self).pending@);
            assert(self.resolved@ =~= old(self).resolved@ + mapped);
        }
        self.pending = Vec::new();
        proof {
            assert forall|x: u64|
                x < self.next_id implies self.pending@.contains(x) || log_has_id(
                self.resolved@,
                x,
            ) by {
                if old(self).pending@.contains(x) {
                    let w = choose|w: int|
                        0 <= w < old(self).pending@.len() && old(self).pending@[w] == x;
                    assert(mapped[w] == (x, CallReply::Closed));
                    assert(self.resolved@[old(self).resolved@.len() + w].0 == x);
                } else if log_has_id(old(self).resolved@, x) {
                    let w = choose|w: int|
                        0 <= w < old(self).resolved@.len() && old(self).resolved@[w].0 == x;
                    assert(self.resolved@[w].0 == x);
                }
            }
        }
        closed
    }

    /// Whether a consumer is already attached under this key.
    pub fn has_session(&self, key: &Option<String>) -> (r: bool)
        ensures
            r == self.spec_has_session(key_view(*key)),
    {
        let mut i: usize = 0;
        while i < self.slots.len()
            invariant
                i <= self.slots.len(),
                forall|j: int| 0 <= j < i ==> key_view(self.slots@[j].session_key) != key_view(
                    *key,
                ),
            decreases self.slots.len() - i,
        {
            if key_matches(&self.slots[i].session_key, key) {
                return true;
            }
            i = i + 1;
        }
        false
    }

    /// Attach a consumer for one session (or, with `None`, for
    /// browser-level events).  It will receive, in arrival order, exactly
    /// the events tagged with that session, for the transport's lifetime.
    /// The handle indexes the queue to drain.
    pub fn listen_to_target_events(&mut self, session_key: Option<String>) -> (h: usize)
        requires
            old(self).wf(),
            !old(self).spec_has_session(key_view(session_key)),
        ensures
            final(self).wf(),
            h == old(self).slots@.len(),
            final(self).slots@.len() == old(self).slots@.len() + 1,
            key_view(final(self).slots@[h as int].session_key) == key_view(session_key),
            final(self).slots@[h as int].queue@.len() == 0,
            forall|j: int| 0 <= j < h ==> final(self).slots@[j] == old(self).slots@[j],
            final(self).pending@ == old(self).pending@,
            final(self).resolved@ == old(self).resolved@,
            final(self).next_id == old(self).next_id,
    {
        let h = self.slots.len();
        self.slots.push(SessionSlot { session_key, queue: Vec::new() });
        h
    }

    /// Route one inbound event to the queue of the session it is tagged
    /// with.  Every other queue is left untouched; an event whose session
    /// has no consumer is dropped and reported unroutable.
    pub fn route_event(&mut self, ev: ProtocolEvent) -> (routed: bool)
        requires
            old(self).wf(),
        ensures
            final(self).wf(),
            routed == old(self).spec_has_session(key_view(ev.session_id)),
            !routed ==> *final(self) == *old(self),
            routed ==> {
                &&& final(self).slots@.len() == old(self).slots@.len()
                &&& exists|i: int|
                    0 <= i < old(self).slots@.len() && key_view(old(self).slots@[i].session_key)
                        == key_view(ev.session_id) && final(self).slots@[i].queue@ == old(
                        self,
                    ).slots@[i].queue@.push(ev) && (forall|j: int|
                        0 <= j < old(self).slots@.len() && j != i ==> final(self).slots@[j] == old(
                            self,
                        ).slots@[j])
                &&& final(self).pending@ == old(self).pending@
                &&& final(self).resolved@ == old(self).resolved@
                &&& final(self).next_id == old(self).next_id
            },
    {
        let mut i: usize = 0;
        while i < self.slots.len()
            invariant
                i <= self.slots.len(),
                self == old(self),
                old(self).wf(),
                forall|j: int| 0 <= j < i ==> key_view(self.slots@[j].session_key) != key_view(
                    ev.session_id,
                ),
            decreases self.slots.len() - i,
        {
            if key_matches(&self.slots[i].session_key, &ev.session_id) {
                let ghost pre = self.slots@;
                let slot = &mut self.slots[i];
                slot.queue.push(ev);
                proof {
                    assert(self.slots@.len() == pre.len());
                    assert(forall|j: int|
                        0 <= j < pre.len() && j != i ==> self.slots@[j] == pre[j]);
                    assert(self.slots@[i as int].session_key == pre[i as int].session_key);
                    assert(self.slots@[i as int].queue@ == pre[i as int].queue@.push(ev));
                }
                return true;
            }
            i = i + 1;
        }
        false
    }

    /// Drain the queue of one attached consumer: the events so far, in
    /// arrival order; the queue is left empty and no other slot changes.
    pub fn take_session_events(&mut self, h: usize) -> (evs: Vec<ProtocolEvent>)
        requires
            old(self).wf(),
            h < old(self).slots@.len(),
        ensures
            final(self).wf(),
            evs@ == old(self).slots@[h as int].queue@,
            final(self).slots@.len() == old(self).slots@.len(),
            final(self).slots@[h as int].session_key == old(self).slots@[h as int].session_key,
            final(self).slots@[h as int].queue@.len() == 0,
            forall|j: int|
                0 <= j < old(self).slots@.len() && j != h ==> final(self).slots@[j] == old(
                    self,
                ).slots@[j],
            final(self).pending@ == old(self).pending@,
            final(self).resolved@ == old(self).resolved@,
            final(self).next_id == old(self).next_id,
    {
        let slot = &mut self.slots[h];
        let mut taken: Vec<ProtocolEvent> = Vec::new();
        core::mem::swap(&mut taken, &mut slot.queue);
        taken
    }
}

/// Compare two session keys as text.
fn key_matches(a: &Option<String>, b: &Option<String>) -> (r: bool)
    ensures
        r == (key_view(*a) == key_view(*b)),
{
    match (a, b) {
        (None, None) => true,
        (Some(x), Some(y)) => x.eq(y),
        _ => false,
    }
}

/// Every call issued before shutdown resolves, and only once: once the
/// transport has shut down — no call outstanding — each id it ever handed
/// out has an entry in the resolution log, which records one reply per id.
/// Combined with [`Transport::dispatch_response`] and
/// [`Transport::shutdown`], whose contracts admit only the browser's reply
/// or [`CallReply::Closed`] into the log, a caller is resolved exactly once
/// with its result, the browser's error, or the closed-transport failure.
pub proof fn lemma_every_call_resolves(t: Transport, id: u64)
    requires
        t.wf(),
        t.pending@.len() == 0,
        id < t.next_id,
    ensures
        log_has_id(t.resolved@, id),
{
    assert(!t.pending@.contains(id));
}

/// A call is resolved at most once: a well-formed resolution log has no two
/// entries for one id.
pub proof fn lemma_resolved_at_most_once(t: Transport, i: int, j: int)
    requires
        t.wf(),
        0 <= i < t.resolved@.len(),
        0 <= j < t.resolved@.len(),
        t.resolved@[i].0 == t.resolved@[j].0,
    ensures
        i == j,
{
}

proof fn lemma_lookup_skips_foreign_prefix(log: Seq<(u64, CallReply)>, rest: Seq<(u64, CallReply)>, id: u64)
    requires
        !log_has_id(log, id),
    ensures
        log_lookup(log + rest, id) == log_lookup(rest, id),
    decreases log.len(),
{
    if log.len() == 0 {
        assert(log + rest =~= rest);
    } else {
        assert((log + rest)[0] == log[0]);
        assert(log[0].0 != id);
        assert((log + rest).drop_first() =~= log.drop_first() + rest);
        assert(!log_has_id(log.drop_first(), id)) by {
            if log_has_id(log.drop_first(), id) {
                let w = choose|w: int|
                    0 <= w < log.drop_first().len() && log.drop_first()[w].0 == id;
                assert(log[w + 1].0 == id);
            }
        }
        lemma_lookup_skips_foreign_prefix(log.drop_first(), rest, id);
    }
}

proof fn lemma_lookup_own_entry(pairs: Seq<(u64, CallReply)>, k: int)
    requires
        forall|i: int, j: int| 0 <= i < j < pairs.len() ==> pairs[i].0 != pairs[j].0,
        0 <= k < pairs.len(),
    ensures
        log_lookup(pairs, pairs[k].0) == Some(pairs[k].1),
    decreases pairs.len(),
{
    if k == 0 {
    } else {
        assert(pairs[0].0 != pairs[k].0);
        assert(pairs.drop_first()[k - 1] == pairs[k]);
        lemma_lookup_own_entry(pairs.drop_first(), k - 1);
    }
}

/// No id cross-talk: deliver the responses of any number of distinct
/// outstanding calls in any order — reversed included — and each call is
/// still resolved with its own reply.  `log` is the resolution log before
/// the deliveries and `pairs` the deliveries in the order they arrive; since
/// each delivery of an outstanding call appends its pair to the log
/// (see [`Transport::dispatch_response`]), the log afterwards is
/// `log + pairs`, and each delivered id looks up its own reply there.
pub proof fn lemma_no_id_crosstalk(
    log: Seq<(u64, CallReply)>,
    pairs: Seq<(u64, CallReply)>,
    k: int,
)
    requires
        forall|i: int, j: int| 0 <= i < j < pairs.len() ==> pairs[i].0 != pairs[j].0,
        forall|i: int, j: int|
            0 <= i < log.len() && 0 <= j < pairs.len() ==> log[i].0 != pairs[j].0,
        0 <= k < pairs.len(),
    ensures
        log_lookup(log + pairs, pairs[k].0) == Some(pairs[k].1),
{
    assert(!log_has_id(log, pairs[k].0));
    lemma_lookup_skips_foreign_prefix(log, pairs, pairs[k].0);
    lemma_lookup_own_entry(pairs, k);
}

/// No cross-session delivery: every event sitting on a consumer's queue is
/// tagged with exactly that consumer's session, so an event tagged for
/// session A is never observed by session B's consumer.
pub proof fn lemma_no_cross_session_delivery(t: Transport, i: int, k: int)
    requires
        t.wf(),
        0 <= i < t.slots@.len(),
        0 <= k < t.slots@[i].queue@.len(),
    ensures
        key_view(t.slots@[i].queue@[k].session_id) == key_view(t.slots@[i].session_key),
        forall|j: int|
            0 <= j < t.slots@.len() && j != i ==> key_view(t.slots@[i].queue@[k].session_id)
                != key_view(t.slots@[j].session_key),
{
}

} // verus!
