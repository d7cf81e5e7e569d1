//! Byte-level helpers shared by the scanner and the room: owned copies of
//! byte messages, whitespace trimming for cached packets, and the bridge
//! between byte chunks and UTF-8 text frames.

use vstd::prelude::*;
use vstd::utf8::{decode_utf8, valid_utf8};

verus! {

/// An owned copy of a byte message, element for element.
pub fn copy_bytes(v: &Vec<u8>) -> (r: Vec<u8>)
    ensures
        r@ == v@,
{
    let mut out: Vec<u8> = Vec::new();
    let mut i: usize = 0;
    while i < v.len()
        invariant
            i <= v@.len(),
            out@ == v@.subrange(0, i as int),
        decreases v@.len() - i,
    {
        out.push(v[i]);
        proof {
            assert(out@ =~= v@.subrange(0, i + 1 as int));
        }
        i = i + 1;
    }
    proof {
        assert(out@ =~= v@);
    }
    out
}

/// The four whitespace bytes JSON allows between values.
pub open spec fn is_json_ws(b: u8) -> bool {
    b == 0x20 || b == 0x09 || b == 0x0a || b == 0x0d
}

/// A byte sequence with its longest prefix of JSON whitespace removed.
pub open spec fn trim_ws_start(s: Seq<u8>) -> Seq<u8>
    decreases s.len(),
{
    if s.len() > 0 && is_json_ws(s[0]) {
        trim_ws_start(s.drop_first())
    } else {
        s
    }
}

/// Dropping a whitespace prefix all at once is the same as dropping it one
/// byte at a time.
pub proof fn lemma_trim_ws_prefix(s: Seq<u8>, i: int)
    requires
        0 <= i <= s.len(),
        forall|j: int| 0 <= j < i ==> is_json_ws(s[j]),
        i == s.len() || !is_json_ws(s[i]),
    ensures
        trim_ws_start(s) == s.subrange(i, s.len() as int),
    decreases i,
{
    if i == 0 {
        assert(trim_ws_start(s) =~= s.subrange(0, s.len() as int));
    } else {
        let t = s.drop_first();
        assert(forall|j: int| 0 <= j < i - 1 ==> t[j] == s[j + 1] && is_json_ws(t[j]));
        lemma_trim_ws_prefix(t, i - 1);
        assert(t.subrange(i - 1, t.len() as int) =~= s.subrange(i, s.len() as int));
    }
}

/// The given bytes with their leading JSON whitespace removed: what the room
/// caches for a scanned packet, so that a replayed packet starts at its first
/// structural byte.
pub fn trim_ascii_start(v: &Vec<u8>) -> (r: Vec<u8>)
    ensures
        r@ == trim_ws_start(v@),
{
    let mut i: usize = 0;
    while i < v.len() && (v[i] == 0x20 || v[i] == 0x09 || v[i] == 0x0a || v[i] == 0x0d)
        invariant
            i <= v@.len(),
            forall|j: int| 0 <= j < i ==> is_json_ws(v@[j]),
        decreases v@.len() - i,
    {
        i = i + 1;
    }
    let mut out: Vec<u8> = Vec::new();
    let mut k: usize = i;
    while k < v.len()
        invariant
            i <= k <= v@.len(),
            out@ == v@.subrange(i as int, k as int),
        decreases v@.len() - k,
    {
        out.push(v[k]);
        proof {
            assert(out@ =~= v@.subrange(i as int, k + 1 as int));
        }
        k = k + 1;
    }
    proof {
        lemma_trim_ws_prefix(v@, i as int);
    }
    out
}

/// Relies on `std::str::from_utf8`: it succeeds exactly on valid UTF-8 and
/// yields the decoded characters; the owned copy keeps the characters.
#[verifier::external_body]
pub fn bytes_to_text(v: &Vec<u8>) -> (r: Option<String>)
    ensures
        r is Some <==> valid_utf8(v@),
        r matches Some(s) ==> s@ == decode_utf8(v@),
{
    match std::str::from_utf8(v) {
        Ok(s) => Some(s.to_owned()),
        Err(_) => None,
    }
}

} // verus!
