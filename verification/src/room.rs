//! One producer's relay session: the fan-out buffer, the fan-in queue, the
//! two cached handshake packets, and the policies built on them — Hello
//! replay for late joiners and Identify interception for repeated
//! negotiation requests.

use crate::ascii::{bytes_to_text, copy_bytes, trim_ascii_start, trim_ws_start};
use crate::fanout::{Cursor, Fanout};
use crate::inbound::Inbound;
use crate::scan::{json_packets, parse_text_op, scan_json_chunk, text_op, OP_HELLO, OP_IDENTIFIED,
    OP_IDENTIFY};
use vstd::prelude::*;
use vstd::string::StrSliceExecFns;
use vstd::utf8::{decode_utf8, encode_utf8, valid_utf8};

verus! {

/// Default bound of both the fan-out buffer and the fan-in queue, in
/// messages.
pub const DEFAULT_CAPACITY: usize = 100;

/// One live relay session, created when a producer connects and destroyed
/// when that connection ends.
pub struct Room {
    pub fanout: Fanout,
    pub inbound: Inbound,
    /// Source bytes of the most recent Hello packet scanned from the
    /// producer, if any.
    pub cached_hello: Option<Vec<u8>>,
    /// Source bytes of the most recent Identified packet scanned from the
    /// producer, if any.
    pub cached_identified: Option<Vec<u8>>,
}

/// A cached packet as its byte sequence.
pub open spec fn opt_bytes(o: Option<Vec<u8>>) -> Option<Seq<u8>> {
    match o {
        Some(v) => Some(v@),
        None => None,
    }
}

/// How one scanned packet changes the two caches: a Hello replaces the
/// cached Hello, an Identified replaces the cached Identified (each trimmed
/// of leading inter-value whitespace), and every other packet changes
/// nothing.  Last write wins.
pub open spec fn spec_apply_packet(
    hello: Option<Seq<u8>>,
    identified: Option<Seq<u8>>,
    p: (Option<u64>, Seq<u8>),
) -> (Option<Seq<u8>>, Option<Seq<u8>>) {
    if p.0 == Some(OP_HELLO) {
        (Some(trim_ws_start(p.1)), identified)
    } else if p.0 == Some(OP_IDENTIFIED) {
        (hello, Some(trim_ws_start(p.1)))
    } else {
        (hello, identified)
    }
}

/// The caches after a whole chunk's packets, applied in order of appearance.
pub open spec fn spec_apply_packets(
    hello: Option<Seq<u8>>,
    identified: Option<Seq<u8>>,
    pkts: Seq<(Option<u64>, Seq<u8>)>,
) -> (Option<Seq<u8>>, Option<Seq<u8>>)
    decreases pkts.len(),
{
    if pkts.len() == 0 {
        (hello, identified)
    } else {
        let prev = spec_apply_packets(hello, identified, pkts.drop_last());
        spec_apply_packet(prev.0, prev.1, pkts.last())
    }
}

/// What the subscriber bridge does with one text frame from its client.
#[derive(Debug)]
pub enum SubscriberAction {
    /// Answer the client from the cache and forward nothing: the
    /// interception path for a repeated Identify.
    ReplyCached(Vec<u8>),
    /// Enqueue these bytes toward the producer.
    Forward(Vec<u8>),
}

/// Spec-level mirror of `SubscriberAction`.
pub enum SpecSubscriberAction {
    ReplyCached(Seq<u8>),
    Forward(Seq<u8>),
}

/// The interception policy: an Identify while an Identified sits in the
/// cache is answered from the cache and withheld from the producer; any
/// other text — another opcode, no opcode, no JSON, or the room's very first
/// Identify — goes to the producer as its exact bytes.
pub open spec fn spec_client_text_action(
    cached_identified: Option<Seq<u8>>,
    text: Seq<char>,
) -> SpecSubscriberAction {
    if text_op(text) == Some(OP_IDENTIFY) && cached_identified is Some {
        SpecSubscriberAction::ReplyCached(cached_identified.unwrap())
    } else {
        SpecSubscriberAction::Forward(encode_utf8(text))
    }
}

/// What a fan-out chunk becomes on the subscriber's wire.
#[derive(Debug)]
pub enum Frame {
    Text(String),
    Binary(Vec<u8>),
}

impl Room {
    /// A fresh room: empty buffers, open channel, nothing cached.
    pub fn with_capacities(fanout_capacity: usize, inbound_capacity: usize) -> (r: Room)
        requires
            fanout_capacity > 0,
            inbound_capacity > 0,
        ensures
            r.fanout.log@ == Seq::<Vec<u8>>::empty(),
            r.fanout.capacity == fanout_capacity,
            !r.fanout.closed,
            r.inbound.queue@ == Seq::<Vec<u8>>::empty(),
            r.inbound.capacity == inbound_capacity,
            r.cached_hello is None,
            r.cached_identified is None,
    {
        Room {
            fanout: Fanout::new(fanout_capacity),
            inbound: Inbound::new(inbound_capacity),
            cached_hello: None,
            cached_identified: None,
        }
    }

    /// A fresh room with the default bounds.
    pub fn new() -> (r: Room)
        ensures
            r.fanout.log@ == Seq::<Vec<u8>>::empty(),
            r.fanout.capacity == DEFAULT_CAPACITY,
            !r.fanout.closed,
            r.inbound.queue@ == Seq::<Vec<u8>>::empty(),
            r.inbound.capacity == DEFAULT_CAPACITY,
            r.cached_hello is None,
            r.cached_identified is None,
    {
        Room::with_capacities(DEFAULT_CAPACITY, DEFAULT_CAPACITY)
    }

    /// Store one scanned packet into the caches, following
    /// `spec_apply_packet` exactly; everything else about the room is left
    /// alone.
    pub fn update_cache(&mut self, op: Option<u64>, raw: Vec<u8>)
        ensures
            (opt_bytes(final(self).cached_hello), opt_bytes(final(self).cached_identified))
                == spec_apply_packet(opt_bytes(old(self).cached_hello),
                    opt_bytes(old(self).cached_identified), (op, raw@)),
            final(self).fanout == old(self).fanout,
            final(self).inbound == old(self).inbound,
    {
        if let Some(o) = op {
            if o == OP_HELLO {
                self.cached_hello = Some(trim_ascii_start(&raw));
            } else if o == OP_IDENTIFIED {
                self.cached_identified = Some(trim_ascii_start(&raw));
            }
        }
    }

    /// One producer read: scan the chunk, cache every Hello and Identified
    /// found (in order, last write wins), then publish the raw chunk to the
    /// fan-out buffer unconditionally — malformed or unclassified bytes are
    /// relayed all the same.
    pub fn process_producer_chunk(&mut self, chunk: Vec<u8>)
        ensures
            (opt_bytes(final(self).cached_hello), opt_bytes(final(self).cached_identified))
                == spec_apply_packets(opt_bytes(old(self).cached_hello),
                    opt_bytes(old(self).cached_identified), json_packets(chunk@)),
            final(self).fanout.log@ == old(self).fanout.log@.push(chunk),
            final(self).fanout.capacity == old(self).fanout.capacity,
            final(self).fanout.closed == old(self).fanout.closed,
            final(self).inbound == old(self).inbound,
    {
        let ghost pkts = json_packets(chunk@);
        let ghost h0 = opt_bytes(self.cached_hello);
        let ghost i0 = opt_bytes(self.cached_identified);
        let packets = scan_json_chunk(&chunk);
        let mut i: usize = 0;
        while i < packets.len()
            invariant
                packets@.len() == pkts.len(),
                forall|j: int|
                    0 <= j < pkts.len() ==> packets@[j].0 == pkts[j].0 && packets@[j].1@
                        == pkts[j].1,
                i <= pkts.len(),
                (opt_bytes(self.cached_hello), opt_bytes(self.cached_identified))
                    == spec_apply_packets(h0, i0, pkts.take(i as int)),
                self.fanout == old(self).fanout,
                self.inbound == old(self).inbound,
            decreases pkts.len() - i,
        {
            let p = &packets[i];
            let raw = copy_bytes(&p.1);
            self.update_cache(p.0, raw);
            proof {
                assert(pkts.take(i + 1 as int).drop_last() =~= pkts.take(i as int));
                assert(pkts.take(i + 1 as int).last() == pkts[i as int]);
            }
            i = i + 1;
        }
        proof {
            assert(pkts.take(pkts.len() as int) =~= pkts);
        }
        self.fanout.publish(chunk);
    }

    /// What a joining subscriber is handed, before anything else: the cached
    /// Hello (byte for byte) where one exists, and a fan-out cursor that
    /// starts at "now" — so the replayed Hello precedes every fan-out
    /// message this subscriber will see, and no other history is replayed.
    pub fn join(&self) -> (r: (Option<Vec<u8>>, Cursor))
        ensures
            opt_bytes(r.0) == opt_bytes(self.cached_hello),
            r.1.pos == self.fanout.log@.len(),
    {
        let replay = match &self.cached_hello {
            Some(h) => Some(copy_bytes(h)),
            None => None,
        };
        (replay, self.fanout.subscribe())
    }

    /// Decide one client text frame, following `spec_client_text_action`
    /// exactly: answer a repeated Identify from the cache, forward anything
    /// else — the first Identify included — as its exact bytes.
    pub fn client_text_action(&self, text: String) -> (r: SubscriberAction)
        ensures
            ({
                let a = spec_client_text_action(opt_bytes(self.cached_identified), text@);
                match r {
                    SubscriberAction::ReplyCached(m) => a == SpecSubscriberAction::ReplyCached(m@),
                    SubscriberAction::Forward(b) => a == SpecSubscriberAction::Forward(b@),
                }
            }),
    {
        let op = parse_text_op(text.as_str());
        let intercept = match op {
            Some(o) => o == OP_IDENTIFY,
            None => false,
        };
        if intercept {
            if let Some(c) = &self.cached_identified {
                return SubscriberAction::ReplyCached(copy_bytes(c));
            }
        }
        SubscriberAction::Forward(text.as_str().as_bytes_vec())
    }

    /// A client binary frame is forwarded unconditionally: interception
    /// applies to text frames only.
    pub fn client_binary_bytes(&self, data: Vec<u8>) -> (r: Vec<u8>)
        ensures
            r@ == data@,
    {
        data
    }
}

/// How a fan-out chunk goes to the subscriber's wire: as a text frame
/// holding the decoded characters when the bytes are valid UTF-8, and as a
/// binary frame holding the bytes themselves otherwise.
pub fn frame_for(msg: Vec<u8>) -> (r: Frame)
    ensures
        valid_utf8(msg@) ==> (r matches Frame::Text(s) && s@ == decode_utf8(msg@)),
        !valid_utf8(msg@) ==> (r matches Frame::Binary(b) && b@ == msg@),
{
    match bytes_to_text(&msg) {
        Some(s) => Frame::Text(s),
        None => Frame::Binary(msg),
    }
}

/// Hello replay, cache side: when a chunk's packets hold a Hello and `k` is
/// the last of them, the room leaves the chunk with exactly that packet's
/// bytes cached, whatever was cached before.  Together with `Room::join`,
/// a subscriber joining later is handed those bytes first.
pub proof fn lemma_hello_cached(
    hello: Option<Seq<u8>>,
    identified: Option<Seq<u8>>,
    pkts: Seq<(Option<u64>, Seq<u8>)>,
    k: int,
)
    requires
        0 <= k < pkts.len(),
        pkts[k].0 == Some(OP_HELLO),
        forall|j: int| k < j < pkts.len() ==> pkts[j].0 != Some(OP_HELLO),
    ensures
        spec_apply_packets(hello, identified, pkts).0 == Some(trim_ws_start(pkts[k].1)),
    decreases pkts.len(),
{
    if k == pkts.len() - 1 {
    } else {
        lemma_hello_cached(hello, identified, pkts.drop_last(), k);
    }
}

/// Identified caching: when a chunk's packets hold an Identified and `k` is
/// the last of them, the room leaves the chunk with exactly that packet's
/// bytes cached as the Identified answer.  This is the packet that primes
/// the interception policy.
pub proof fn lemma_identified_cached(
    hello: Option<Seq<u8>>,
    identified: Option<Seq<u8>>,
    pkts: Seq<(Option<u64>, Seq<u8>)>,
    k: int,
)
    requires
        0 <= k < pkts.len(),
        pkts[k].0 == Some(OP_IDENTIFIED),
        forall|j: int| k < j < pkts.len() ==> pkts[j].0 != Some(OP_IDENTIFIED),
    ensures
        spec_apply_packets(hello, identified, pkts).1 == Some(trim_ws_start(pkts[k].1)),
    decreases pkts.len(),
{
    if k == pkts.len() - 1 {
    } else {
        lemma_identified_cached(hello, identified, pkts.drop_last(), k);
    }
}

/// Identify dedup: once an Identified sits in the cache, every client text
/// carrying the Identify opcode — whatever else it holds — is answered from
/// the cache and never forwarded, so the producer sees no second Identify
/// from this room.
pub proof fn lemma_identify_dedup(cached: Seq<u8>)
    ensures
        forall|text: Seq<char>|
            text_op(text) == Some(OP_IDENTIFY) ==> #[trigger] spec_client_text_action(
                Some(cached), text) == SpecSubscriberAction::ReplyCached(cached),
{
}

/// How many of the given client texts carry the Identify opcode and would
/// still be forwarded to the producer under the interception policy.
pub open spec fn forwarded_identify_count(
    cached_identified: Option<Seq<u8>>,
    texts: Seq<Seq<char>>,
) -> nat
    decreases texts.len(),
{
    if texts.len() == 0 {
        0
    } else {
        let here: nat = if text_op(texts[0]) == Some(OP_IDENTIFY) && spec_client_text_action(
            cached_identified,
            texts[0],
        ) is Forward {
            1
        } else {
            0
        };
        here + forwarded_identify_count(cached_identified, texts.drop_first())
    }
}

/// Identify dedup over a whole session: while an Identified sits in the
/// cache — and the cache is only ever replaced, never cleared — not one
/// Identify out of any number of client texts, from however many
/// subscribers, reaches the producer.
pub proof fn lemma_identify_dedup_trace(cached: Seq<u8>, texts: Seq<Seq<char>>)
    ensures
        forwarded_identify_count(Some(cached), texts) == 0,
    decreases texts.len(),
{
    if texts.len() == 0 {
    } else {
        lemma_identify_dedup_trace(cached, texts.drop_first());
    }
}

/// First-Identify passthrough: with nothing cached yet, a client text
/// carrying the Identify opcode goes to the producer as its exact bytes.
pub proof fn lemma_first_identify_passthrough(text: Seq<char>)
    requires
        text_op(text) == Some(OP_IDENTIFY),
    ensures
        spec_client_text_action(None, text) == SpecSubscriberAction::Forward(encode_utf8(text)),
{
}

} // verus!
