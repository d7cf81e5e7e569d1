//! Fan-out side of a room: a bounded broadcast buffer with lag-drop.
//!
//! The producer appends messages; each subscriber owns an independent cursor.
//! A subscriber that stays within `capacity` messages of the head receives
//! every message in publication order.  A subscriber that falls further
//! behind is not waited for: its cursor is advanced to the oldest retained
//! message and the skipped messages are lost for that subscriber only.

use crate::ascii::copy_bytes;
use vstd::prelude::*;

verus! {

/// What one receive attempt yields for a given cursor.
#[derive(Debug)]
pub enum RecvOutcome {
    /// The next message, in publication order.
    Msg(Vec<u8>),
    /// The cursor fell more than `capacity` behind: it was advanced to the
    /// oldest retained message and everything before that is skipped.
    Lagged,
    /// Nothing published past the cursor yet; the channel is still open, so
    /// a caller would suspend and retry.
    Pending,
    /// Nothing published past the cursor and the producer is gone.
    Closed,
}

/// Spec-level mirror of `RecvOutcome`, over mathematical values.
pub enum SpecRecvOutcome {
    Msg(Seq<u8>),
    Lagged,
    Pending,
    Closed,
}

/// One receive transition: given the full publication log, the buffer
/// capacity, whether the producer side is closed, and a cursor position,
/// yield the outcome and the new cursor position.
pub open spec fn spec_recv(
    log: Seq<Seq<u8>>,
    capacity: nat,
    closed: bool,
    pos: nat,
) -> (SpecRecvOutcome, nat) {
    if pos >= log.len() {
        if closed {
            (SpecRecvOutcome::Closed, pos)
        } else {
            (SpecRecvOutcome::Pending, pos)
        }
    } else if log.len() - pos > capacity {
        (SpecRecvOutcome::Lagged, (log.len() - capacity) as nat)
    } else {
        (SpecRecvOutcome::Msg(log[pos as int]), pos + 1)
    }
}

/// The messages a cursor at `pos` receives over `k` consecutive receive
/// attempts that yield `Msg`; in-order delivery is stated over this
/// sequence.
pub open spec fn spec_recv_seq(
    log: Seq<Seq<u8>>,
    capacity: nat,
    closed: bool,
    pos: nat,
    k: nat,
) -> Seq<Seq<u8>>
    decreases k,
{
    if k == 0 {
        Seq::empty()
    } else {
        let (out, pos2) = spec_recv(log, capacity, closed, pos);
        match out {
            SpecRecvOutcome::Msg(m) => seq![m] + spec_recv_seq(log, capacity, closed, pos2, (k - 1) as nat),
            _ => Seq::empty(),
        }
    }
}

/// The fan-out buffer owned by one room.  `log` records every message ever
/// published to the room, oldest first; only the last `capacity` entries are
/// considered retained for delivery.  `closed` is set exactly once, when the
/// producer connection ends.
pub struct Fanout {
    pub log: Vec<Vec<u8>>,
    pub capacity: usize,
    pub closed: bool,
}

/// One subscriber's private read position into a room's fan-out log.
pub struct Cursor {
    pub pos: usize,
}

impl Fanout {
    /// A room's fan-out buffer starts empty and open.
    pub fn new(capacity: usize) -> (r: Fanout)
        requires
            capacity > 0,
        ensures
            r.log@ == Seq::<Vec<u8>>::empty(),
            r.capacity == capacity,
            !r.closed,
    {
        Fanout { log: Vec::new(), capacity, closed: false }
    }

    /// Publish one message: appended to the log unconditionally, whatever
    /// any subscriber's cursor looks like — the producer never blocks on a
    /// slow subscriber.
    pub fn publish(&mut self, msg: Vec<u8>)
        ensures
            final(self).log@ == old(self).log@.push(msg),
            final(self).capacity == old(self).capacity,
            final(self).closed == old(self).closed,
    {
        self.log.push(msg);
    }

    /// Mark the producer side gone; subscribers at the tail observe
    /// `Closed` from then on.
    pub fn close(&mut self)
        ensures
            final(self).log@ == old(self).log@,
            final(self).capacity == old(self).capacity,
            final(self).closed,
    {
        self.closed = true;
    }

    /// A new subscription starts at "now": no history is replayed through
    /// the fan-out channel itself.
    pub fn subscribe(&self) -> (r: Cursor)
        ensures
            r.pos == self.log@.len(),
    {
        Cursor { pos: self.log.len() }
    }

    /// One receive attempt for `cursor`, following `spec_recv` exactly.
    pub fn recv(&self, cursor: &mut Cursor) -> (r: RecvOutcome)
        ensures
            ({
                let (out, pos2) = spec_recv(self.log@.map_values(|v: Vec<u8>| v@), self.capacity as nat,
                    self.closed, old(cursor).pos as nat);
                &&& final(cursor).pos == pos2
                &&& match r {
                    RecvOutcome::Msg(m) => out == SpecRecvOutcome::Msg(m@),
                    RecvOutcome::Lagged => out == SpecRecvOutcome::Lagged,
                    RecvOutcome::Pending => out == SpecRecvOutcome::Pending,
                    RecvOutcome::Closed => out == SpecRecvOutcome::Closed,
                }
            }),
    {
        proof {
            assert(self.log@.map_values(|v: Vec<u8>| v@).len() == self.log@.len());
        }
        if cursor.pos >= self.log.len() {
            if self.closed {
                RecvOutcome::Closed
            } else {
                RecvOutcome::Pending
            }
        } else if self.log.len() - cursor.pos > self.capacity {
            cursor.pos = self.log.len() - self.capacity;
            RecvOutcome::Lagged
        } else {
            let m = copy_bytes(&self.log[cursor.pos]);
            proof {
                assert(self.log@.map_values(|v: Vec<u8>| v@)[old(cursor).pos as int] == self.log@[old(cursor).pos as int]@);
            }
            cursor.pos = cursor.pos + 1;
            RecvOutcome::Msg(m)
        }
    }
}

/// Fan-out correctness: a subscriber whose cursor never falls further behind
/// than the buffer capacity receives exactly the published messages, in
/// publication order.  Here the subscriber at `pos` drains the `k` messages
/// from `pos` up to the head and gets `log[pos .. pos + k]` verbatim.
pub proof fn lemma_fanout_in_order(log: Seq<Seq<u8>>, capacity: nat, closed: bool, pos: nat, k: nat)
    requires
        pos + k <= log.len(),
        log.len() - pos <= capacity,
    ensures
        spec_recv_seq(log, capacity, closed, pos, k) == log.subrange(pos as int, (pos + k) as int),
    decreases k,
{
    if k == 0 {
        assert(spec_recv_seq(log, capacity, closed, pos, k) =~= log.subrange(pos as int, (pos + k) as int));
    } else {
        let (out, pos2) = spec_recv(log, capacity, closed, pos);
        assert(out == SpecRecvOutcome::Msg(log[pos as int]));
        assert(pos2 == pos + 1);
        lemma_fanout_in_order(log, capacity, closed, pos2, (k - 1) as nat);
        assert(spec_recv_seq(log, capacity, closed, pos, k) =~= log.subrange(pos as int, (pos + k) as int));
    }
}

/// Fan-out correctness, live side: a subscriber that has kept up — its
/// cursor stands at the head — receives exactly the message the producer
/// publishes next, and its cursor follows the head.
pub proof fn lemma_live_follow(log: Seq<Seq<u8>>, capacity: nat, closed: bool, m: Seq<u8>)
    requires
        capacity > 0,
    ensures
        spec_recv(log.push(m), capacity, closed, log.len()).0 == SpecRecvOutcome::Msg(m),
        spec_recv(log.push(m), capacity, closed, log.len()).1 == log.len() + 1,
{
}

/// Room isolation, fan-out side: a receive attempt only ever yields a
/// message that was published to that same room's log.  A message published
/// in another room is never observed here.
pub proof fn lemma_room_isolation(log: Seq<Seq<u8>>, capacity: nat, closed: bool, pos: nat, m: Seq<u8>)
    requires
        spec_recv(log, capacity, closed, pos).0 == SpecRecvOutcome::Msg(m),
    ensures
        log.contains(m),
{
    assert(log[pos as int] == m);
}

/// Lossy fan-out under load: a subscriber that fell more than `capacity`
/// messages behind neither blocks nor crashes the room — the attempt returns
/// at once, reports the lag, skips the evicted messages (a real gap), and
/// resumes at the oldest retained message.
pub proof fn lemma_lossy_fanout(log: Seq<Seq<u8>>, capacity: nat, closed: bool, pos: nat)
    requires
        log.len() - pos > capacity,
    ensures
        spec_recv(log, capacity, closed, pos).0 == SpecRecvOutcome::Lagged,
        spec_recv(log, capacity, closed, pos).1 == log.len() - capacity,
        spec_recv(log, capacity, closed, pos).1 > pos,
{
}

/// Teardown propagation, fan-out side: once the room is closed and a
/// subscriber has consumed everything published, the very next receive
/// attempt reports `Closed` — it does not report `Pending`, so no subscriber
/// hangs waiting on a dead producer.
pub proof fn lemma_closed_no_hang(log: Seq<Seq<u8>>, capacity: nat, pos: nat)
    requires
        pos >= log.len(),
    ensures
        spec_recv(log, capacity, true, pos).0 == SpecRecvOutcome::Closed,
        spec_recv(log, capacity, true, pos).1 == pos,
{
}

} // verus!
