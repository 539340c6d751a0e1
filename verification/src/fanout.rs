//! The change-notification fan-out: one producer (the reconciliation
//! engine) and any number of subscribers, each with a bounded buffer.
//! On overflow the oldest buffered notification of that subscriber alone is
//! dropped: a slow client loses history, never other clients, and never
//! blocks the producer.

use vstd::prelude::*;
use crate::reconcile::{ChangeNotification, NotificationModel};
use crate::util::copy_bytes;

verus! {

/// One attached subscriber: an identity, a buffer bound, and the buffered
/// notifications, oldest first.
#[derive(Debug)]
pub struct Subscriber {
    /// Identity handed out by `subscribe`.
    pub id: u64,
    /// The most notifications this subscriber's buffer may hold.
    pub capacity: usize,
    /// Buffered notifications, oldest first.
    pub buffer: Vec<ChangeNotification>,
}

/// Mathematical model of one subscriber.
pub struct SubscriberModel {
    pub id: u64,
    pub capacity: nat,
    pub buffer: Seq<NotificationModel>,
}

impl View for Subscriber {
    type V = SubscriberModel;

    open spec fn view(&self) -> SubscriberModel {
        SubscriberModel {
            id: self.id,
            capacity: self.capacity as nat,
            buffer: self.buffer@.map_values(|n: ChangeNotification| n@),
        }
    }
}

/// The notification fan-out.
#[derive(Debug)]
pub struct NotificationFanOut {
    /// The currently attached subscribers.
    pub subscribers: Vec<Subscriber>,
    /// Identity the next subscriber will get.
    pub next_id: u64,
}

/// Mathematical model of the fan-out.
pub struct FanOutModel {
    pub subscribers: Seq<SubscriberModel>,
    pub next_id: u64,
}

impl View for NotificationFanOut {
    type V = FanOutModel;

    open spec fn view(&self) -> FanOutModel {
        FanOutModel {
            subscribers: self.subscribers@.map_values(|s: Subscriber| s@),
            next_id: self.next_id,
        }
    }
}

/// Well-formedness: every buffer bound is positive and respected, and
/// subscriber identities are distinct and below the next identity.
pub open spec fn fanout_wf(m: FanOutModel) -> bool {
    &&& forall|i: int|
        0 <= i < m.subscribers.len() ==> {
            &&& (#[trigger] m.subscribers[i]).capacity > 0
            &&& m.subscribers[i].buffer.len() <= m.subscribers[i].capacity
            &&& m.subscribers[i].id < m.next_id
        }
    &&& forall|i: int, j: int|
        0 <= i < j < m.subscribers.len() ==> (#[trigger] m.subscribers[i]).id != (
        #[trigger] m.subscribers[j]).id
}

/// What publishing does to one subscriber's buffer: append the notification;
/// if the buffer is full, the oldest buffered notification of this
/// subscriber alone is dropped first.
pub open spec fn push_bounded(buf: Seq<NotificationModel>, capacity: nat, n: NotificationModel) -> Seq<
    NotificationModel,
> {
    if buf.len() < capacity {
        buf.push(n)
    } else {
        buf.drop_first().push(n)
    }
}

/// The index of the subscriber with the given identity, or -1 if none.
pub open spec fn index_of_id(subs: Seq<SubscriberModel>, id: u64) -> int
    decreases subs,
{
    if subs.len() == 0 {
        -1
    } else if subs[0].id == id {
        0
    } else {
        let r = index_of_id(subs.drop_first(), id);
        if r == -1 {
            -1
        } else {
            r + 1
        }
    }
}

/// `index_of_id` finds the first subscriber with the identity, and -1 means
/// the identity is not attached.
pub proof fn lemma_index_of_id(subs: Seq<SubscriberModel>, id: u64)
    ensures
        index_of_id(subs, id) == -1 ==> forall|i: int|
            0 <= i < subs.len() ==> (#[trigger] subs[i]).id != id,
        index_of_id(subs, id) != -1 ==> {
            &&& 0 <= index_of_id(subs, id) < subs.len()
            &&& subs[index_of_id(subs, id)].id == id
            &&& forall|i: int| 0 <= i < index_of_id(subs, id) ==> (#[trigger] subs[i]).id != id
        },
    decreases subs,
{
    if subs.len() > 0 {
        lemma_index_of_id(subs.drop_first(), id);
        if subs[0].id != id {
            assert forall|i: int| 1 <= i < subs.len() implies subs.drop_first()[i - 1] == (
            #[trigger] subs[i]) by {}
        }
    }
}

impl NotificationFanOut {
    /// A fan-out with nobody attached.
    pub fn new() -> (r: Self)
        ensures
            r@.subscribers == Seq::<SubscriberModel>::empty(),
            r@.next_id == 0,
            fanout_wf(r@),
    {
        let r = NotificationFanOut { subscribers: Vec::new(), next_id: 0 };
        proof {
            assert(r@.subscribers =~= Seq::<SubscriberModel>::empty());
        }
        r
    }

    /// Attaches a subscriber with an empty buffer of the given bound and
    /// returns its identity.
    pub fn subscribe(&mut self, capacity: usize) -> (id: u64)
        requires
            fanout_wf(old(self)@),
            capacity > 0,
            old(self)@.next_id < u64::MAX,
        ensures
            id == old(self)@.next_id,
            final(self)@.next_id == old(self)@.next_id + 1,
            final(self)@.subscribers == old(self)@.subscribers.push(
                SubscriberModel {
                    id,
                    capacity: capacity as nat,
                    buffer: Seq::<NotificationModel>::empty(),
                },
            ),
            fanout_wf(final(self)@),
    {
        let id = self.next_id;
        let sub = Subscriber { id, capacity, buffer: Vec::new() };
        let ghost subm = sub@;
        proof {
            assert(subm.buffer =~= Seq::<NotificationModel>::empty());
        }
        self.subscribers.push(sub);
        self.next_id = self.next_id + 1;
        proof {
            assert(self@.subscribers =~= old(self)@.subscribers.push(subm));
        }
        id
    }

    /// Detaches the subscriber with the given identity; detaching an unknown
    /// identity does nothing. No other subscriber's buffer is touched.
    pub fn unsubscribe(&mut self, id: u64)
        requires
            fanout_wf(old(self)@),
        ensures
            final(self)@.next_id == old(self)@.next_id,
            index_of_id(old(self)@.subscribers, id) == -1 ==> final(self)@ == old(self)@,
            index_of_id(old(self)@.subscribers, id) != -1 ==> final(self)@.subscribers == old(
                self,
            )@.subscribers.remove(index_of_id(old(self)@.subscribers, id)),
            fanout_wf(final(self)@),
    {
        proof {
            lemma_index_of_id(old(self)@.subscribers, id);
        }
        let ghost j = index_of_id(old(self)@.subscribers, id);
        let mut i: usize = 0;
        while i < self.subscribers.len()
            invariant
                *self == *old(self),
                fanout_wf(old(self)@),
                i <= self.subscribers.len(),
                j == index_of_id(old(self)@.subscribers, id),
                forall|k: int| 0 <= k < i ==> (#[trigger] old(self)@.subscribers[k]).id != id,
            decreases self.subscribers.len() - i,
        {
            if self.subscribers[i].id == id {
                proof {
                    lemma_index_of_id(old(self)@.subscribers, id);
                    assert(old(self)@.subscribers[i as int] == self.subscribers@[i as int]@);
                    assert(old(self)@.subscribers[i as int].id == id);
                    if j > i as int {
                        assert(old(self)@.subscribers[i as int].id != id);
                    }
                    assert(j == i as int);
                }
                self.subscribers.remove(i);
                proof {
                    assert(self@.subscribers =~= old(self)@.subscribers.remove(j));
                }
                return ;
            }
            i = i + 1;
        }
        proof {
            lemma_index_of_id(old(self)@.subscribers, id);
            if j != -1 {
                assert(old(self)@.subscribers[j].id == id);
                assert(false);
            }
        }
    }

    /// Publishes one notification to every attached subscriber, in
    /// production order: it lands at the tail of every buffer, and on
    /// overflow the oldest buffered notification of that subscriber alone is
    /// dropped.
    pub fn publish(&mut self, n: &ChangeNotification)
        requires
            fanout_wf(old(self)@),
        ensures
            final(self)@.next_id == old(self)@.next_id,
            final(self)@.subscribers.len() == old(self)@.subscribers.len(),
            forall|i: int|
                0 <= i < old(self)@.subscribers.len() ==> {
                    &&& (#[trigger] final(self)@.subscribers[i]).id == old(
                        self,
                    )@.subscribers[i].id
                    &&& final(self)@.subscribers[i].capacity == old(self)@.subscribers[i].capacity
                    &&& final(self)@.subscribers[i].buffer == push_bounded(
                        old(self)@.subscribers[i].buffer,
                        old(self)@.subscribers[i].capacity,
                        n@,
                    )
                },
            fanout_wf(final(self)@),
    {
        let len = self.subscribers.len();
        let mut i: usize = 0;
        while i < len
            invariant
                fanout_wf(old(self)@),
                len == old(self)@.subscribers.len(),
                self@.subscribers.len() == len,
                self@.next_id == old(self)@.next_id,
                forall|k: int|
                    i <= k < len ==> (#[trigger] self@.subscribers[k]) == old(
                        self,
                    )@.subscribers[k],
                forall|k: int|
                    0 <= k < i ==> {
                        &&& (#[trigger] self@.subscribers[k]).id == old(self)@.subscribers[k].id
                        &&& self@.subscribers[k].capacity == old(self)@.subscribers[k].capacity
                        &&& self@.subscribers[k].buffer == push_bounded(
                            old(self)@.subscribers[k].buffer,
                            old(self)@.subscribers[k].capacity,
                            n@,
                        )
                    },
            decreases len - i,
        {
            let ghost before = self@.subscribers;
            let mut sub = self.subscribers.remove(i);
            let ghost prev = sub@;
            proof {
                assert(prev == before[i as int]);
                assert(before[i as int] == old(self)@.subscribers[i as int]);
                assert(prev.capacity > 0);
                assert(prev.buffer.len() <= prev.capacity);
            }
            if sub.buffer.len() >= sub.capacity {
                sub.buffer.remove(0);
                proof {
                    assert(sub@.buffer =~= prev.buffer.drop_first());
                }
            }
            let fresh = ChangeNotification {
                sequence_number: n.sequence_number,
                summary: copy_bytes(&n.summary),
            };
            proof {
                assert(fresh@ == n@);
            }
            sub.buffer.push(fresh);
            let ghost newm = sub@;
            proof {
                assert(newm.buffer =~= push_bounded(prev.buffer, prev.capacity, n@));
            }
            self.subscribers.insert(i, sub);
            proof {
                assert(self@.subscribers =~= before.update(i as int, newm));
            }
            i = i + 1;
        }
    }

    /// Hands out the oldest buffered notification of the given subscriber,
    /// removing it from that buffer alone; `None` when the buffer is empty
    /// or the identity is not attached.
    pub fn pop_next(&mut self, id: u64) -> (r: Option<ChangeNotification>)
        requires
            fanout_wf(old(self)@),
        ensures
            final(self)@.next_id == old(self)@.next_id,
            fanout_wf(final(self)@),
            ({
                let j = index_of_id(old(self)@.subscribers, id);
                if j == -1 {
                    final(self)@ == old(self)@ && r is None
                } else if old(self)@.subscribers[j].buffer.len() == 0 {
                    final(self)@ == old(self)@ && r is None
                } else {
                    &&& (r matches Some(x) && x@ == old(self)@.subscribers[j].buffer[0])
                    &&& final(self)@.subscribers == old(self)@.subscribers.update(
                        j,
                        SubscriberModel {
                            buffer: old(self)@.subscribers[j].buffer.drop_first(),
                            ..old(self)@.subscribers[j]
                        },
                    )
                }
            }),
    {
        proof {
            lemma_index_of_id(old(self)@.subscribers, id);
        }
        let ghost j = index_of_id(old(self)@.subscribers, id);
        let mut i: usize = 0;
        while i < self.subscribers.len()
            invariant
                *self == *old(self),
                fanout_wf(old(self)@),
                i <= self.subscribers.len(),
                j == index_of_id(old(self)@.subscribers, id),
                forall|k: int| 0 <= k < i ==> (#[trigger] old(self)@.subscribers[k]).id != id,
            decreases self.subscribers.len() - i,
        {
            if self.subscribers[i].id == id {
                proof {
                    lemma_index_of_id(old(self)@.subscribers, id);
                    assert(old(self)@.subscribers[i as int] == self.subscribers@[i as int]@);
                    assert(old(self)@.subscribers[i as int].id == id);
                    if j > i as int {
                        assert(old(self)@.subscribers[i as int].id != id);
                    }
                    assert(j == i as int);
                }
                let mut sub = self.subscribers.remove(i);
                let ghost prev = sub@;
                proof {
                    assert(prev == old(self)@.subscribers[i as int]);
                }
                if sub.buffer.len() == 0 {
                    self.subscribers.insert(i, sub);
                    proof {
                        assert(self@.subscribers =~= old(self)@.subscribers);
                        assert(self@ == old(self)@);
                    }
                    return None;
                }
                let front = sub.buffer.remove(0);
                proof {
                    assert(front@ == prev.buffer[0]);
                    assert(sub@.buffer =~= prev.buffer.drop_first());
                }
                let ghost newm = sub@;
                self.subscribers.insert(i, sub);
                proof {
                    assert(newm == (SubscriberModel { buffer: prev.buffer.drop_first(), ..prev }));
                    assert(self@.subscribers =~= old(self)@.subscribers.update(j, newm));
                }
                return Some(front);
            }
            i = i + 1;
        }
        proof {
            lemma_index_of_id(old(self)@.subscribers, id);
            if j != -1 {
                assert(old(self)@.subscribers[j].id == id);
                assert(false);
            }
        }
        None
    }
}

/// A buffer whose notifications carry strictly increasing sequence numbers,
/// oldest first.
pub open spec fn buffer_in_order(buf: Seq<NotificationModel>) -> bool {
    forall|i: int, j: int|
        0 <= i < j < buf.len() ==> (#[trigger] buf[i]).sequence_number < (
        #[trigger] buf[j]).sequence_number
}

/// Delivery-order law: when notifications are published in increasing
/// sequence order, every subscriber's buffer stays in production order, with
/// or without overflow.
pub proof fn lemma_publish_keeps_order(
    buf: Seq<NotificationModel>,
    capacity: nat,
    n: NotificationModel,
)
    requires
        capacity > 0,
        buffer_in_order(buf),
        forall|i: int| 0 <= i < buf.len() ==> (#[trigger] buf[i]).sequence_number
            < n.sequence_number,
    ensures
        buffer_in_order(push_bounded(buf, capacity, n)),
{
    let out = push_bounded(buf, capacity, n);
    assert forall|i: int, j: int| 0 <= i < j < out.len() implies (
    #[trigger] out[i]).sequence_number < (#[trigger] out[j]).sequence_number by {
        if buf.len() < capacity {
            if j < buf.len() {
                assert(out[i] == buf[i] && out[j] == buf[j]);
            } else {
                assert(out[i] == buf[i] && out[j] == n);
            }
        } else {
            if j < out.len() - 1 {
                assert(out[i] == buf[i + 1] && out[j] == buf[j + 1]);
            } else if i < out.len() - 1 {
                assert(out[i] == buf[i + 1] && out[j] == n);
            }
        }
    }
}

} // verus!
