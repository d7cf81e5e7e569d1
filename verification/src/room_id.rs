//! Room identifier generation: a fixed-length, upper-cased alphanumeric
//! code, drawn fresh for every producer connection.  No uniqueness check is
//! made against the registry: a colliding identifier silently takes over the
//! earlier room's registry entry, a known gap kept as designed.

use crate::ascii::bytes_to_text;
use rand::Rng;
use vstd::prelude::*;
use vstd::string::StringExecFns;
use vstd::utf8::{decode_utf8, valid_utf8};

verus! {

/// Length of every room identifier, in characters.
pub const ROOM_ID_LEN: usize = 6;

/// An ASCII letter or digit: the alphabet the raw sample is drawn from.
pub open spec fn is_alnum_byte(b: u8) -> bool {
    (0x41 <= b && b <= 0x5a) || (0x61 <= b && b <= 0x7a) || (0x30 <= b && b <= 0x39)
}

/// The upper-casing of one ASCII byte: lower-case letters move up, all other
/// bytes stay.
pub open spec fn spec_upper(b: u8) -> u8 {
    if 0x61 <= b && b <= 0x7a {
        (b - 0x20) as u8
    } else {
        b
    }
}

/// An upper-case letter or digit: the room identifier alphabet.
pub open spec fn is_room_id_char(c: char) -> bool {
    ('A' <= c && c <= 'Z') || ('0' <= c && c <= '9')
}

/// Relies on `rand::rng` sampling `rand::distr::Alphanumeric`: every sampled
/// byte is an ASCII letter or digit.  The draw is random, so only the count
/// and the alphabet hold of every outcome; nothing relates two calls.
#[verifier::external_body]
fn sample_alnum_bytes(n: usize) -> (r: Vec<u8>)
    ensures
        r@.len() == n,
        forall|i: int| 0 <= i < r@.len() ==> is_alnum_byte(r@[i]),
{
    rand::rng().sample_iter(&rand::distr::Alphanumeric).take(n).collect()
}

/// The given bytes upper-cased byte for byte.
pub fn upper_ascii(v: &Vec<u8>) -> (r: Vec<u8>)
    ensures
        r@.len() == v@.len(),
        forall|i: int| 0 <= i < v@.len() ==> r@[i] == spec_upper(v@[i]),
{
    let mut out: Vec<u8> = Vec::new();
    let mut i: usize = 0;
    while i < v.len()
        invariant
            i <= v@.len(),
            out@.len() == i,
            forall|j: int| 0 <= j < i ==> out@[j] == spec_upper(v@[j]),
        decreases v@.len() - i,
    {
        let b = v[i];
        if 0x61 <= b && b <= 0x7a {
            out.push(b - 0x20);
        } else {
            out.push(b);
        }
        i = i + 1;
    }
    out
}

/// ASCII bytes are valid UTF-8 and decode one byte to one character, each
/// character carrying its byte's code.
pub proof fn lemma_ascii_utf8(bytes: Seq<u8>)
    requires
        forall|i: int| 0 <= i < bytes.len() ==> bytes[i] < 0x80,
    ensures
        valid_utf8(bytes),
        decode_utf8(bytes).len() == bytes.len(),
        forall|i: int| 0 <= i < bytes.len() ==> decode_utf8(bytes)[i] == bytes[i] as char,
    decreases bytes.len(),
{
    if bytes.len() == 0 {
    } else {
        let b = bytes[0];
        assert(vstd::utf8::is_leading_byte_width_1(b));
        assert(vstd::utf8::codepoint_width_1(b) == b as u32) by (bit_vector)
            requires
                b < 0x80,
        ;
        let rest = vstd::utf8::pop_first_scalar(bytes);
        assert(rest =~= bytes.drop_first());
        lemma_ascii_utf8(rest);
        assert((b as u32) as char == b as char);
        assert forall|i: int| 0 <= i < bytes.len() implies decode_utf8(bytes)[i] == bytes[i] as char by {
            if i > 0 {
                assert(decode_utf8(bytes)[i] == decode_utf8(rest)[i - 1]);
                assert(rest[i - 1] == bytes[i]);
            }
        }
    }
}

/// A fresh room identifier: a fixed-length code over the upper-case
/// alphanumeric alphabet.  Nothing more is promised — in particular not
/// uniqueness, neither over time nor against rooms currently registered.
pub fn generate_room_id() -> (r: String)
    ensures
        r@.len() == ROOM_ID_LEN,
        forall|i: int| 0 <= i < r@.len() ==> is_room_id_char(r@[i]),
{
    let raw = sample_alnum_bytes(ROOM_ID_LEN);
    let up = upper_ascii(&raw);
    proof {
        assert(forall|i: int| 0 <= i < up@.len() ==> up@[i] < 0x80);
        lemma_ascii_utf8(up@);
        assert forall|i: int| 0 <= i < up@.len() implies is_room_id_char(decode_utf8(up@)[i]) by {
            let b = up@[i];
            assert(b == spec_upper(raw@[i]) && is_alnum_byte(raw@[i]));
            assert(decode_utf8(up@)[i] == b as char);
            assert((0x41 <= b && b <= 0x5a) || (0x30 <= b && b <= 0x39));
            assert(b as char as u32 == b as u32);
        }
    }
    match bytes_to_text(&up) {
        Some(s) => s,
        None => vstd::pervasive::unreached(),
    }
}

/// The one message the producer is sent right after connecting: a JSON
/// object announcing the room identifier it was assigned.
pub open spec fn spec_welcome(id: Seq<char>) -> Seq<char> {
    "{\"internal\":\"welcome\",\"room\":\""@ + id + "\"}"@
}

/// The producer-announcement message for a freshly assigned identifier,
/// character for character as `spec_welcome` lays it out.
pub fn welcome_message(id: &String) -> (r: String)
    ensures
        r@ == spec_welcome(id@),
{
    let s = String::from_str("{\"internal\":\"welcome\",\"room\":\"");
    let s = s.concat(id.as_str());
    let s = s.concat("\"}");
    proof {
        assert(s@ =~= spec_welcome(id@));
    }
    s
}

} // verus!
