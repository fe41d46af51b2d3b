//! Length-prefixed framing over a byte stream.
//!
//! The ring-queue transport carries messages over a circular byte queue
//! with blocking reads and writes.  On that stream a message is an
//! eight-byte little-endian length followed by exactly that many payload
//! bytes.  This module builds and takes apart those frames; the queue
//! itself, and the blocking on it, stay with the unverified adapter.

use vstd::bytes::{
    lemma_auto_spec_u64_to_from_le_bytes, spec_u64_from_le_bytes, spec_u64_to_le_bytes,
    u64_from_le_bytes, u64_to_le_bytes,
};
use vstd::prelude::*;

verus! {

/// The stream bytes of one frame: the payload length as eight little-endian
/// bytes, then the payload.
pub open spec fn spec_stream_frame(payload: Seq<u8>) -> Seq<u8> {
    spec_u64_to_le_bytes(payload.len() as u64) + payload
}

/// Build the stream frame for a payload.
pub fn encode_stream_frame(payload: &[u8]) -> (r: Vec<u8>)
    ensures
        r@ == spec_stream_frame(payload@),
        r@.len() == payload@.len() + 8,
{
    let mut out = u64_to_le_bytes(payload.len() as u64);
    proof {
        lemma_auto_spec_u64_to_from_le_bytes();
    }
    out.extend_from_slice(payload);
    out
}

/// Take the payload length out of the eight prefix bytes read from the
/// stream.
pub fn decode_stream_len(prefix: &[u8]) -> (n: u64)
    requires
        prefix@.len() == 8,
    ensures
        n == spec_u64_from_le_bytes(prefix@),
{
    u64_from_le_bytes(prefix)
}

/// Stream-framing round trip: the first eight bytes of a frame decode to
/// the payload length, and the rest of the frame is the payload itself.
pub proof fn lemma_stream_frame_round_trip(payload: Seq<u8>)
    requires
        payload.len() <= u64::MAX,
    ensures
        spec_u64_from_le_bytes(spec_stream_frame(payload).subrange(0, 8)) == payload.len(),
        spec_stream_frame(payload).skip(8) == payload,
{
    lemma_auto_spec_u64_to_from_le_bytes();
    let f = spec_stream_frame(payload);
    assert(f.subrange(0, 8) =~= spec_u64_to_le_bytes(payload.len() as u64));
    assert(f.skip(8) =~= payload);
}

} // verus!
