//! Packet scanner: opportunistic classification of the JSON objects inside a
//! raw byte chunk.
//!
//! A producer read may carry zero, one, or several concatenated JSON texts.
//! The scanner lists them in order with their numeric `op` member, where one
//! exists; malformed trailing bytes are no error — they are simply not
//! classified, and the raw chunk is relayed either way.  Three opcodes mean
//! something to the relay: Hello, Identify, and Identified.

use vstd::prelude::*;

verus! {

/// Producer-emitted handshake announcement, cached and replayed to late
/// joiners.
pub const OP_HELLO: u64 = 0;

/// Subscriber-to-producer negotiation request, subject to interception.
pub const OP_IDENTIFY: u64 = 1;

/// Producer's answer to Identify, cached and used to answer repeated
/// Identify requests from cache.
pub const OP_IDENTIFIED: u64 = 2;

/// The JSON values a byte chunk holds, in order of appearance: for each, its
/// numeric `op` member (where the value is an object carrying one) and its
/// source bytes.  Named, not spelled out: the shape of the split is
/// serde_json's.
pub uninterp spec fn json_packets(data: Seq<u8>) -> Seq<(Option<u64>, Seq<u8>)>;

/// The unsigned `op` member of a text that parses as one JSON value, if
/// both exist.  Named, not spelled out: what parses is serde_json's.
pub uninterp spec fn text_op(s: Seq<char>) -> Option<u64>;

/// Relies on `serde_json::Deserializer::from_slice` and its value stream
/// over `serde_json::Value`, with `Value::get` and `Value::as_u64`: the
/// chunk's JSON values in order of appearance, each with its source slice
/// (leading inter-value whitespace included) and its unsigned `op` member if
/// it is an object carrying one.  The split stops at the first malformed
/// fragment and depends on the bytes alone.
#[verifier::external_body]
pub fn scan_json_chunk(data: &Vec<u8>) -> (r: Vec<(Option<u64>, Vec<u8>)>)
    ensures
        r@.len() == json_packets(data@).len(),
        forall|i: int|
            0 <= i < r@.len() ==> r@[i].0 == json_packets(data@)[i].0 && r@[i].1@ == json_packets(
                data@,
            )[i].1,
{
    let mut out = Vec::new();
    let mut stream = serde_json::Deserializer::from_slice(data).into_iter::<serde_json::Value>();
    let mut start = 0usize;
    while let Some(item) = stream.next() {
        let end = stream.byte_offset();
        if let Ok(value) = item {
            let op = value.get("op").and_then(serde_json::Value::as_u64);
            out.push((op, data[start..end].to_vec()));
        }
        start = end;
    }
    out
}

/// Relies on `serde_json::from_str` over `serde_json::Value`, with
/// `Value::get` and `Value::as_u64`: the unsigned `op` member of a text
/// frame that parses as a JSON object carrying one, and `None` for any other
/// text.  The answer depends on the characters alone.
#[verifier::external_body]
pub fn parse_text_op(text: &str) -> (r: Option<u64>)
    ensures
        r == text_op(text@),
{
    match serde_json::from_str::<serde_json::Value>(text) {
        Ok(v) => v.get("op").and_then(serde_json::Value::as_u64),
        Err(_) => None,
    }
}

} // verus!
