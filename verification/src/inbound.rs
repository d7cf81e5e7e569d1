//! Fan-in side of a room: a bounded first-in-first-out queue from the
//! subscribers back to the producer.
//!
//! Subscribers enqueue; only the producer bridge dequeues.  A full queue
//! never drops and never fails: the offered message is handed back so the
//! caller suspends and retries, which is how backpressure reaches a chatty
//! subscriber without touching the producer or the other subscribers.

use crate::ascii::copy_bytes;
use vstd::prelude::*;

verus! {

/// What one enqueue attempt did.
#[derive(Debug)]
pub enum EnqueueOutcome {
    /// The message sits at the back of the queue.
    Accepted,
    /// The queue is at capacity: nothing was dropped, nothing failed, and
    /// the untouched message comes back so the caller can suspend and offer
    /// it again once the producer has drained a slot.
    Full(Vec<u8>),
}

/// One enqueue transition: the queue takes the message exactly when it is
/// below capacity, and is left unchanged otherwise.
pub open spec fn spec_enqueue(q: Seq<Seq<u8>>, capacity: nat, m: Seq<u8>) -> (bool, Seq<Seq<u8>>) {
    if q.len() < capacity {
        (true, q.push(m))
    } else {
        (false, q)
    }
}

/// One dequeue transition: the oldest message leaves the queue, if any.
pub open spec fn spec_dequeue(q: Seq<Seq<u8>>) -> (Option<Seq<u8>>, Seq<Seq<u8>>) {
    if q.len() == 0 {
        (None::<Seq<u8>>, q)
    } else {
        (Some(q[0]), q.drop_first())
    }
}

/// The bounded fan-in queue owned by one room.
pub struct Inbound {
    pub queue: Vec<Vec<u8>>,
    pub capacity: usize,
}

impl Inbound {
    /// A room's fan-in queue starts empty.
    pub fn new(capacity: usize) -> (r: Inbound)
        requires
            capacity > 0,
        ensures
            r.queue@ == Seq::<Vec<u8>>::empty(),
            r.capacity == capacity,
    {
        Inbound { queue: Vec::new(), capacity }
    }

    pub open spec fn view_queue(&self) -> Seq<Seq<u8>> {
        self.queue@.map_values(|v: Vec<u8>| v@)
    }

    /// One enqueue attempt, following `spec_enqueue` exactly.
    pub fn try_enqueue(&mut self, msg: Vec<u8>) -> (r: EnqueueOutcome)
        ensures
            final(self).capacity == old(self).capacity,
            ({
                let (accepted, q2) = spec_enqueue(old(self).view_queue(), old(self).capacity as nat, msg@);
                &&& final(self).view_queue() == q2
                &&& match r {
                    EnqueueOutcome::Accepted => accepted,
                    EnqueueOutcome::Full(back) => !accepted && back@ == msg@,
                }
            }),
    {
        if self.queue.len() < self.capacity {
            let ghost q0 = self.view_queue();
            self.queue.push(msg);
            proof {
                assert(self.view_queue() =~= q0.push(self.queue@.last()@));
            }
            EnqueueOutcome::Accepted
        } else {
            EnqueueOutcome::Full(msg)
        }
    }

    /// One dequeue by the producer bridge, following `spec_dequeue` exactly.
    pub fn dequeue(&mut self) -> (r: Option<Vec<u8>>)
        ensures
            final(self).capacity == old(self).capacity,
            ({
                let (out, q2) = spec_dequeue(old(self).view_queue());
                &&& final(self).view_queue() == q2
                &&& match r {
                    Some(m) => out == Some(m@),
                    None => out is None,
                }
            }),
    {
        if self.queue.len() == 0 {
            None
        } else {
            let ghost q0 = self.view_queue();
            let m = copy_bytes(&self.queue[0]);
            self.queue.remove(0);
            proof {
                assert(self.view_queue() =~= q0.drop_first());
            }
            Some(m)
        }
    }

    /// How many messages wait for the producer.
    pub fn len(&self) -> (r: usize)
        ensures
            r == self.view_queue().len(),
    {
        self.queue.len()
    }
}

/// Backpressure: with the queue at capacity and the producer not draining,
/// an enqueue neither fails nor drops — the queue is left whole and the
/// message comes back to its sender.  Draining a single message then makes
/// room for exactly one waiting sender: the first retry is accepted and a
/// second enqueue is held back again.
pub proof fn lemma_backpressure(q: Seq<Seq<u8>>, capacity: nat, m1: Seq<u8>, m2: Seq<u8>)
    requires
        q.len() == capacity,
        capacity > 0,
    ensures
        ({
            let (accepted0, q0) = spec_enqueue(q, capacity, m1);
            &&& !accepted0
            &&& q0 == q
        }),
        ({
            let (drained, qd) = spec_dequeue(q);
            let (accepted1, q1) = spec_enqueue(qd, capacity, m1);
            let (accepted2, q2) = spec_enqueue(q1, capacity, m2);
            &&& drained == Some(q[0])
            &&& accepted1
            &&& q1 == qd.push(m1)
            &&& !accepted2
            &&& q2 == q1
        }),
{
}

/// Fan-in ordering: the queue delivers to the producer in
/// first-enqueued-first-drained order — after an accepted enqueue, every
/// message already waiting leaves before the new one, and the new one is
/// dequeued exactly in its turn.
pub proof fn lemma_fifo_order(q: Seq<Seq<u8>>, capacity: nat, m: Seq<u8>, i: int)
    requires
        q.len() < capacity,
        0 <= i <= q.len(),
    ensures
        ({
            let (accepted, q2) = spec_enqueue(q, capacity, m);
            &&& accepted
            &&& q2.len() == q.len() + 1
            &&& (i < q.len() ==> q2[i] == q[i])
            &&& (i == q.len() ==> q2[i] == m)
        }),
{
}

} // verus!
