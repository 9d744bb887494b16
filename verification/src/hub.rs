//! The broadcast hub: a bounded multi-subscriber channel. A published
//! envelope is appended to the buffer of every live subscriber; a full
//! buffer drops its oldest undelivered envelope rather than stalling the
//! publisher. A new subscriber starts with an empty buffer, so it only
//! observes envelopes published after it subscribed. Publishing reports
//! failure only when the hub has been torn down, never based on
//! subscriber health.

use vstd::prelude::*;
use crate::envelope::WebSocketMessage;

verus! {

/// The value of one subscriber: its handle and its undelivered
/// envelopes, oldest first.
pub ghost struct SubscriberView {
    pub id: u64,
    pub pending: Seq<WebSocketMessage>,
}

/// The value of the hub.
pub ghost struct HubView {
    pub closed: bool,
    pub capacity: nat,
    pub subs: Seq<SubscriberView>,
}

/// What a published envelope does to one subscriber buffer: append it,
/// dropping the oldest entry first if the buffer is at capacity.
pub open spec fn spec_push_drop(
    q: Seq<WebSocketMessage>,
    e: WebSocketMessage,
    capacity: nat,
) -> Seq<WebSocketMessage> {
    if q.len() < capacity {
        q.push(e)
    } else {
        q.skip(1).push(e)
    }
}

/// What a publish does to the hub: every subscriber buffer takes the
/// envelope.
pub open spec fn spec_publish(h: HubView, e: WebSocketMessage) -> HubView {
    HubView {
        closed: h.closed,
        capacity: h.capacity,
        subs: h.subs.map_values(
            |s: SubscriberView| SubscriberView {
                id: s.id,
                pending: spec_push_drop(s.pending, e, h.capacity),
            },
        ),
    }
}

/// Publishing a sequence of envelopes, oldest first.
pub open spec fn spec_publish_all(h: HubView, es: Seq<WebSocketMessage>) -> HubView
    decreases es.len(),
{
    if es.len() == 0 {
        h
    } else {
        spec_publish_all(spec_publish(h, es.first()), es.drop_first())
    }
}

/// A well-formed hub value: a positive capacity, no subscriber handle
/// used twice, and no buffer beyond capacity.
pub open spec fn spec_hub_wf(h: HubView) -> bool {
    &&& h.capacity >= 1
    &&& forall|p: int, q: int| 0 <= p < q < h.subs.len() ==> h.subs[p].id != h.subs[q].id
    &&& forall|i: int| 0 <= i < h.subs.len() ==> (#[trigger] h.subs[i].pending).len()
        <= h.capacity
}

/// Whether the hub has a subscriber with the given handle.
pub open spec fn spec_has_sub(h: HubView, id: u64) -> bool {
    exists|i: int| 0 <= i < h.subs.len() && h.subs[i].id == id
}

/// The position of the subscriber with the given handle.
pub open spec fn spec_sub_at(h: HubView, id: u64) -> int {
    choose|i: int| 0 <= i < h.subs.len() && h.subs[i].id == id
}

/// The undelivered envelopes of the subscriber with the given handle.
pub open spec fn spec_sub_pending(h: HubView, id: u64) -> Seq<WebSocketMessage> {
    h.subs[spec_sub_at(h, id)].pending
}

/// The hub after the given subscriber handle is dropped; unknown
/// handles change nothing.
pub open spec fn spec_unsubscribed(h: HubView, id: u64) -> HubView {
    if spec_has_sub(h, id) {
        HubView { closed: h.closed, capacity: h.capacity, subs: h.subs.remove(spec_sub_at(h, id)) }
    } else {
        h
    }
}

/// In a well-formed hub, a position that holds `id` is the position the
/// model reads.
pub proof fn lemma_sub_at_unique(h: HubView, id: u64, i: int)
    requires
        spec_hub_wf(h),
        0 <= i < h.subs.len(),
        h.subs[i].id == id,
    ensures
        spec_sub_at(h, id) == i,
{
    let j = spec_sub_at(h, id);
    assert(0 <= j < h.subs.len() && h.subs[j].id == id);
    if i < j {
        assert(h.subs[i].id != h.subs[j].id);
    } else if j < i {
        assert(h.subs[j].id != h.subs[i].id);
    }
}

/// One subscriber buffer.
struct SubscriberBuf {
    id: u64,
    pending: Vec<WebSocketMessage>,
}

impl SubscriberBuf {
    spec fn spec_view(&self) -> SubscriberView {
        SubscriberView { id: self.id, pending: self.pending@ }
    }
}

/// The broadcast hub.
pub struct BroadcastHub {
    closed: bool,
    capacity: usize,
    next_id: u64,
    subs: Vec<SubscriberBuf>,
}

/// The error a publish reports when the hub has been torn down.
#[derive(Debug, Clone, Copy, PartialEq, Eq, Structural)]
pub enum BroadcastError {
    Closed,
}

impl View for BroadcastHub {
    type V = HubView;

    closed spec fn view(&self) -> HubView {
        HubView {
            closed: self.closed,
            capacity: self.capacity as nat,
            subs: self.subs@.map_values(|s: SubscriberBuf| s.spec_view()),
        }
    }
}

impl BroadcastHub {
    /// The number of subscriber handles handed out so far.
    pub closed spec fn ids_used(self) -> int {
        self.next_id as int
    }

    /// Whether another subscriber handle can be handed out.
    pub open spec fn can_subscribe(self) -> bool {
        self.ids_used() < 0xffff_ffff_ffff_ffffu64 as int
    }

    /// The hub's internal well-formedness.
    pub closed spec fn inv(self) -> bool {
        &&& spec_hub_wf(self@)
        &&& forall|i: int| 0 <= i < self.subs@.len() ==> (#[trigger] self.subs@[i].id)
            < self.next_id
    }

    /// A fresh hub with the given per-subscriber buffer capacity.
    pub fn new(capacity: usize) -> (r: BroadcastHub)
        requires
            capacity >= 1,
        ensures
            r.inv(),
            r.ids_used() == 0,
            !r@.closed,
            r@.capacity == capacity as nat,
            r@.subs == Seq::<SubscriberView>::empty(),
    {
        let r = BroadcastHub { closed: false, capacity, next_id: 0, subs: Vec::new() };
        proof {
            assert(r@.subs =~= Seq::<SubscriberView>::empty());
        }
        r
    }

    /// The number of live subscribers.
    pub fn subscriber_count(&self) -> (r: usize)
        ensures
            r == self@.subs.len(),
    {
        self.subs.len()
    }

    /// A fresh subscriber handle. The new subscriber's buffer starts
    /// empty: it observes only envelopes published after this call.
    pub fn subscribe(&mut self) -> (id: u64)
        requires
            old(self).inv(),
            old(self).can_subscribe(),
        ensures
            final(self).inv(),
            final(self).ids_used() == old(self).ids_used() + 1,
            final(self)@.closed == old(self)@.closed,
            final(self)@.capacity == old(self)@.capacity,
            final(self)@.subs == old(self)@.subs.push(
                (SubscriberView { id, pending: Seq::<WebSocketMessage>::empty() }),
            ),
            !spec_has_sub(old(self)@, id),
    {
        let id = self.next_id;
        self.next_id = id + 1;
        self.subs.push(SubscriberBuf { id, pending: Vec::new() });
        proof {
            assert(self@.subs =~= old(self)@.subs.push(
                SubscriberView { id, pending: Seq::<WebSocketMessage>::empty() },
            ));
        }
        id
    }

    /// Drop the subscriber with the given handle; unknown handles are a
    /// silent no-op.
    pub fn unsubscribe(&mut self, id: u64)
        requires
            old(self).inv(),
        ensures
            final(self).inv(),
            final(self).ids_used() == old(self).ids_used(),
            final(self)@ == spec_unsubscribed(old(self)@, id),
    {
        let ghost h0 = self@;
        let mut i: usize = 0;
        while i < self.subs.len()
            invariant
                *self == *old(self),
                old(self).inv(),
                h0 == self@,
                i <= self.subs@.len(),
                forall|k: int| 0 <= k < i ==> self.subs@[k].id != id,
            decreases self.subs@.len() - i,
        {
            if self.subs[i].id == id {
                proof {
                    assert(self@.subs[i as int].id == id);
                    lemma_sub_at_unique(h0, id, i as int);
                }
                let ghost pre = self.subs@;
                self.subs.remove(i);
                proof {
                    assert forall|k: int| 0 <= k < self@.subs.len() implies self@.subs[k]
                        == h0.subs.remove(i as int)[k] by {
                        if k < i as int {
                            assert(self.subs@[k] == pre[k]);
                        } else {
                            assert(self.subs@[k] == pre[k + 1]);
                        }
                    }
                    assert(self@.subs =~= h0.subs.remove(i as int));
                    assert(self@ == spec_unsubscribed(h0, id));
                }
                return ;
            }
            i += 1;
        }
        proof {
            assert(!spec_has_sub(h0, id));
            assert(self@ == spec_unsubscribed(h0, id));
        }
    }

    /// Publish an envelope: append it to every live subscriber's buffer,
    /// dropping the oldest entry of a full buffer. Never blocks and
    /// fails only if the hub has been torn down; with zero subscribers
    /// it succeeds as a no-op. The number of subscribers reached is
    /// returned.
    pub fn publish(&mut self, message: &WebSocketMessage) -> (r: Result<usize, BroadcastError>)
        requires
            old(self).inv(),
        ensures
            final(self).inv(),
            final(self).ids_used() == old(self).ids_used(),
            old(self)@.closed ==> r == Result::<usize, BroadcastError>::Err(
                BroadcastError::Closed,
            ) && final(self)@ == old(self)@,
            !old(self)@.closed ==> r == Result::<usize, BroadcastError>::Ok(
                old(self)@.subs.len() as usize,
            ) && final(self)@ == spec_publish(old(self)@, *message),
    {
        if self.closed {
            return Err(BroadcastError::Closed);
        }
        let ghost h0 = self@;
        let count = self.subs.len();
        let mut i: usize = 0;
        while i < self.subs.len()
            invariant
                !self.closed,
                self.closed == h0.closed,
                self.capacity as nat == h0.capacity,
                self.capacity >= 1,
                self.next_id == old(self).next_id,
                self.subs@.len() == h0.subs.len(),
                i <= self.subs@.len(),
                forall|k: int|
                    i <= k < self.subs@.len() ==> #[trigger] self.subs@[k].spec_view()
                        == h0.subs[k],
                forall|k: int|
                    0 <= k < i ==> #[trigger] self.subs@[k].spec_view() == (SubscriberView {
                        id: h0.subs[k].id,
                        pending: spec_push_drop(h0.subs[k].pending, *message, h0.capacity),
                    }),
                forall|p: int, q: int| 0 <= p < q < h0.subs.len() ==> h0.subs[p].id
                    != h0.subs[q].id,
                forall|k: int| 0 <= k < h0.subs.len() ==> (#[trigger] h0.subs[k].pending).len()
                    <= h0.capacity,
                forall|k: int| 0 <= k < self.subs@.len() ==> (#[trigger] self.subs@[k].id)
                    < self.next_id,
            decreases self.subs@.len() - i,
        {
            proof {
                assert(self.subs@[i as int].spec_view() == h0.subs[i as int]);
            }
            let ghost pre = self.subs@;
            let mut sb = self.subs.remove(i);
            let ghost q0 = sb.pending@;
            proof {
                assert(sb == pre[i as int]);
                assert(q0 == h0.subs[i as int].pending);
            }
            if sb.pending.len() >= self.capacity {
                sb.pending.remove(0);
                proof {
                    assert(sb.pending@ =~= q0.skip(1));
                }
            }
            sb.pending.push(message.duplicate());
            self.subs.insert(i, sb);
            proof {
                assert(self.subs@ =~= pre.update(i as int, self.subs@[i as int]));
                assert(self.subs@[i as int].spec_view() == SubscriberView {
                    id: h0.subs[i as int].id,
                    pending: spec_push_drop(h0.subs[i as int].pending, *message, h0.capacity),
                });
            }
            i += 1;
        }
        proof {
            assert(self@.subs =~= spec_publish(h0, *message).subs);
            assert(self@ == spec_publish(h0, *message));
        }
        Ok(count)
    }

    /// Tear the hub down: every later publish fails.
    pub fn close(&mut self)
        requires
            old(self).inv(),
        ensures
            final(self).inv(),
            final(self).ids_used() == old(self).ids_used(),
            final(self)@ == (HubView { closed: true, ..old(self)@ }),
    {
        self.closed = true;
        proof {
            assert(self@.subs == old(self)@.subs);
        }
    }

    /// Take the oldest undelivered envelope of the given subscriber, if
    /// there is one; unknown handles yield nothing.
    pub fn recv(&mut self, id: u64) -> (r: Option<WebSocketMessage>)
        requires
            old(self).inv(),
        ensures
            final(self).inv(),
            final(self).ids_used() == old(self).ids_used(),
            !spec_has_sub(old(self)@, id) ==> r is None && final(self)@ == old(self)@,
            spec_has_sub(old(self)@, id) && spec_sub_pending(old(self)@, id).len() == 0 ==> r
                is None && final(self)@ == old(self)@,
            spec_has_sub(old(self)@, id) && spec_sub_pending(old(self)@, id).len() > 0 ==> r
                == Some(spec_sub_pending(old(self)@, id).first()) && final(self)@ == (HubView {
                subs: old(self)@.subs.update(
                    spec_sub_at(old(self)@, id),
                    (SubscriberView {
                        id,
                        pending: spec_sub_pending(old(self)@, id).drop_first(),
                    }),
                ),
                ..old(self)@
            }),
    {
        let ghost h0 = self@;
        let mut i: usize = 0;
        while i < self.subs.len()
            invariant
                *self == *old(self),
                old(self).inv(),
                h0 == self@,
                i <= self.subs@.len(),
                forall|k: int| 0 <= k < i ==> self.subs@[k].id != id,
            decreases self.subs@.len() - i,
        {
            if self.subs[i].id == id {
                proof {
                    assert(self@.subs[i as int].id == id);
                    lemma_sub_at_unique(h0, id, i as int);
                }
                if self.subs[i].pending.len() == 0 {
                    proof {
                        assert(spec_sub_pending(h0, id).len() == 0);
                    }
                    return None;
                }
                proof {
                    assert(self.subs@[i as int].spec_view() == h0.subs[i as int]);
                }
                let ghost pre = self.subs@;
                let mut sb = self.subs.remove(i);
                let first = sb.pending.remove(0);
                self.subs.insert(i, sb);
                proof {
                    assert(self.subs@[i as int].pending@ =~= h0.subs[i as int]
                        .pending
                        .drop_first());
                    assert(self@.subs =~= h0.subs.update(
                        i as int,
                        SubscriberView {
                            id,
                            pending: h0.subs[i as int].pending.drop_first(),
                        },
                    ));
                }
                return Some(first);
            }
            i += 1;
        }
        proof {
            assert(!spec_has_sub(h0, id));
        }
        None
    }
}

/// Publishing envelopes in order appends them, in that order, to the
/// buffer of every subscriber that never overflows during the run: the
/// subscriber's buffer afterwards is exactly what it held before
/// followed by every published envelope, oldest first.
pub proof fn lemma_fanout_in_order(h: HubView, es: Seq<WebSocketMessage>, i: int)
    requires
        spec_hub_wf(h),
        0 <= i < h.subs.len(),
        h.subs[i].pending.len() + es.len() <= h.capacity,
    ensures
        spec_hub_wf(spec_publish_all(h, es)),
        spec_publish_all(h, es).subs.len() == h.subs.len(),
        spec_publish_all(h, es).subs[i].id == h.subs[i].id,
        spec_publish_all(h, es).subs[i].pending == h.subs[i].pending + es,
    decreases es.len(),
{
    lemma_publish_all_wf(h, es);
    if es.len() == 0 {
        assert(h.subs[i].pending + es =~= h.subs[i].pending);
    } else {
        let h1 = spec_publish(h, es.first());
        assert(h1.subs[i].pending =~= h.subs[i].pending.push(es.first()));
        lemma_fanout_in_order(h1, es.drop_first(), i);
        assert(h1.subs[i].pending + es.drop_first() =~= h.subs[i].pending + es);
    }
}

/// A subscriber that starts with an empty buffer and never overflows
/// during a run of publishes ends up with exactly the published
/// envelopes, in publish order: that is the order its receiver hands
/// them out.
pub proof fn lemma_delivery_order(h: HubView, es: Seq<WebSocketMessage>, i: int)
    requires
        spec_hub_wf(h),
        0 <= i < h.subs.len(),
        h.subs[i].pending == Seq::<WebSocketMessage>::empty(),
        es.len() <= h.capacity,
    ensures
        spec_publish_all(h, es).subs[i].pending == es,
{
    lemma_fanout_in_order(h, es, i);
    assert(h.subs[i].pending + es =~= es);
}

/// One publish keeps the hub well formed.
proof fn lemma_publish_wf(h: HubView, e: WebSocketMessage)
    requires
        spec_hub_wf(h),
    ensures
        spec_hub_wf(spec_publish(h, e)),
        spec_publish(h, e).subs.len() == h.subs.len(),
{
}

/// Any run of publishes keeps the hub well formed and the subscriber
/// list's length and handles unchanged.
pub proof fn lemma_publish_all_wf(h: HubView, es: Seq<WebSocketMessage>)
    requires
        spec_hub_wf(h),
    ensures
        spec_hub_wf(spec_publish_all(h, es)),
        spec_publish_all(h, es).subs.len() == h.subs.len(),
        forall|i: int| 0 <= i < h.subs.len() ==> #[trigger] spec_publish_all(h, es).subs[i].id
            == h.subs[i].id,
    decreases es.len(),
{
    if es.len() > 0 {
        lemma_publish_wf(h, es.first());
        lemma_publish_all_wf(spec_publish(h, es.first()), es.drop_first());
    }
}

/// Any run of publishes keeps the number of subscribers unchanged.
proof fn lemma_publish_all_len(h: HubView, es: Seq<WebSocketMessage>)
    ensures
        spec_publish_all(h, es).subs.len() == h.subs.len(),
    decreases es.len(),
{
    if es.len() > 0 {
        lemma_publish_all_len(spec_publish(h, es.first()), es.drop_first());
    }
}

/// Every envelope a subscriber buffer holds after a run of publishes
/// was already held before the run or is one of the published
/// envelopes.
proof fn lemma_publish_all_origin(h: HubView, es: Seq<WebSocketMessage>, i: int, k: int)
    requires
        h.capacity >= 1,
        0 <= i < h.subs.len(),
        0 <= k < spec_publish_all(h, es).subs[i].pending.len(),
    ensures
        h.subs[i].pending.contains(spec_publish_all(h, es).subs[i].pending[k]) || es.contains(
            spec_publish_all(h, es).subs[i].pending[k],
        ),
    decreases es.len(),
{
    lemma_publish_all_len(h, es);
    let x = spec_publish_all(h, es).subs[i].pending[k];
    if es.len() == 0 {
        assert(h.subs[i].pending[k] == x);
        assert(h.subs[i].pending.contains(x));
    } else {
        let e0 = es.first();
        let h1 = spec_publish(h, e0);
        let q = h.subs[i].pending;
        assert(h1.subs[i].pending == spec_push_drop(q, e0, h.capacity));
        lemma_publish_all_origin(h1, es.drop_first(), i, k);
        if h1.subs[i].pending.contains(x) {
            let j = choose|j: int|
                0 <= j < h1.subs[i].pending.len() && h1.subs[i].pending[j] == x;
            if q.len() < h.capacity {
                if j < q.len() {
                    assert(q[j] == x);
                    assert(q.contains(x));
                } else {
                    assert(x == e0);
                    assert(es.contains(x));
                }
            } else {
                if j < h1.subs[i].pending.len() - 1 {
                    assert(q.skip(1).len() == q.len() - 1);
                    assert(h1.subs[i].pending[j] == q.skip(1)[j]);
                    assert(q.skip(1)[j] == q[1 + j]);
                    assert(q[1 + j] == x);
                    assert(q.contains(x));
                } else {
                    assert(x == e0);
                    assert(es.contains(x));
                }
            }
        } else {
            let j = choose|j: int| 0 <= j < es.drop_first().len() && es.drop_first()[j] == x;
            assert(es[j + 1] == x);
            assert(es.contains(x));
        }
    }
}

/// A subscriber created after an envelope was published never observes
/// it: a subscriber whose buffer is empty when a run of publishes
/// starts can only hold envelopes of that run, so an envelope that is
/// not republished during the run never reaches it.
pub proof fn lemma_no_replay(h: HubView, es: Seq<WebSocketMessage>, i: int, m: WebSocketMessage)
    requires
        spec_hub_wf(h),
        0 <= i < h.subs.len(),
        h.subs[i].pending == Seq::<WebSocketMessage>::empty(),
        !es.contains(m),
    ensures
        !spec_publish_all(h, es).subs[i].pending.contains(m),
{
    lemma_publish_all_wf(h, es);
    if spec_publish_all(h, es).subs[i].pending.contains(m) {
        let k = choose|k: int|
            0 <= k < spec_publish_all(h, es).subs[i].pending.len() && spec_publish_all(
                h,
                es,
            ).subs[i].pending[k] == m;
        lemma_publish_all_origin(h, es, i, k);
    }
}

} // verus!
