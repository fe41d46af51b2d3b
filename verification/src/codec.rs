//! Length-prefixed message framing over a shared region.
//!
//! A region is a fixed-size span of bytes shared between two processes.  Its
//! first two bytes are reserved for the write signal; an eight-byte
//! little-endian length header follows; the payload starts right after the
//! header.  A payload may be at most `size - 10` bytes long — writing checks
//! this before touching the region, and reading refuses a length header that
//! does not fit, since such a header indicates protocol desync or corruption.

use crate::errors::IpcError;
use vstd::bytes::{
    lemma_auto_spec_u64_to_from_le_bytes, spec_u64_from_le_bytes, spec_u64_to_le_bytes,
    u64_from_le_bytes, u64_to_le_bytes,
};
use vstd::prelude::*;

verus! {

/// Bytes reserved at the start of a region for the write signal.
pub const SIGNAL_BYTES: usize = 2;

/// Bytes of the little-endian length header, right after the signal bytes.
pub const LENGTH_BYTES: usize = 8;

/// Offset of the first payload byte: signal bytes plus length header.
pub const HEADER_BYTES: usize = 10;

/// The region bytes after a frame for `payload` was written: the signal
/// bytes are untouched, the length header holds the payload length, the
/// payload sits right after it, and the tail keeps its old contents.
pub open spec fn spec_write_frame(region: Seq<u8>, payload: Seq<u8>) -> Seq<u8> {
    region.subrange(0, SIGNAL_BYTES as int) + spec_u64_to_le_bytes(payload.len() as u64) + payload
        + region.skip(HEADER_BYTES + payload.len())
}

/// The length header stored in a region.
pub open spec fn spec_frame_len(region: Seq<u8>) -> u64 {
    spec_u64_from_le_bytes(region.subrange(SIGNAL_BYTES as int, HEADER_BYTES as int))
}

/// The payload framed in a region, if its length header fits the region.
pub open spec fn spec_frame_payload(region: Seq<u8>) -> Option<Seq<u8>> {
    if spec_frame_len(region) + HEADER_BYTES <= region.len() {
        Some(region.subrange(HEADER_BYTES as int, HEADER_BYTES + spec_frame_len(region)))
    } else {
        None
    }
}

/// A fixed-size region of bytes with the layout above.
///
/// This is the process-local image of a shared span: the unverified adapter
/// copies it to and from the actual mapping, while every byte of layout
/// logic stays here.
#[derive(Debug, Clone, PartialEq, Eq)]
pub struct Region {
    /// The region's bytes; the length never changes after construction.
    pub bytes: Vec<u8>,
}

impl Region {
    /// A region is well formed when it can hold the signal bytes and the
    /// length header.
    pub open spec fn wf(self) -> bool {
        self.bytes@.len() >= HEADER_BYTES
    }

    /// The region size in bytes.
    pub open spec fn spec_size(self) -> nat {
        self.bytes@.len()
    }

    /// The largest payload the region can frame.
    pub open spec fn spec_max_payload(self) -> int {
        self.bytes@.len() - HEADER_BYTES
    }

    /// Create a zeroed region of `size_bytes` bytes.  A size below the
    /// header overhead is refused.
    pub fn new(size_bytes: usize) -> (r: Result<Region, IpcError>)
        ensures
            size_bytes >= HEADER_BYTES ==> (r matches Ok(region) && region.wf()
                && region.bytes@ =~= Seq::new(size_bytes as nat, |i: int| 0u8)),
            size_bytes < HEADER_BYTES ==> r == Err::<Region, IpcError>(IpcError::RegionTooSmall),
    {
        if size_bytes < HEADER_BYTES {
            return Err(IpcError::RegionTooSmall);
        }
        let mut bytes: Vec<u8> = Vec::new();
        for i in 0..size_bytes
            invariant
                bytes@.len() == i,
                forall|j: int| 0 <= j < i ==> bytes@[j] == 0u8,
        {
            bytes.push(0u8);
        }
        Ok(Region { bytes })
    }

    /// The region size in bytes.
    pub fn size_bytes(&self) -> (n: usize)
        ensures
            n == self.spec_size(),
    {
        self.bytes.len()
    }

    /// The largest payload this region can frame: its size minus the two
    /// signal bytes and the eight-byte length header.
    pub fn max_msg_size(&self) -> (n: usize)
        requires
            self.wf(),
        ensures
            n == self.spec_max_payload(),
    {
        self.bytes.len() - HEADER_BYTES
    }

    /// Frame `payload` into the region: store its length in the header and
    /// its bytes right after.  A payload over [`Self::max_msg_size`] is
    /// refused before a single byte of the region is touched.
    #[verifier::loop_isolation(false)]
    pub fn write_frame(&mut self, payload: &[u8]) -> (r: Result<usize, IpcError>)
        requires
            old(self).wf(),
        ensures
            final(self).wf(),
            final(self).spec_size() == old(self).spec_size(),
            payload@.len() <= old(self).spec_max_payload() ==> r == Ok::<usize, IpcError>(
                payload.len(),
            ) && final(self).bytes@ == spec_write_frame(old(self).bytes@, payload@),
            payload@.len() > old(self).spec_max_payload() ==> r == Err::<usize, IpcError>(
                IpcError::CapacityExceeded,
            ) && final(self).bytes@ == old(self).bytes@,
    {
        let n = self.bytes.len();
        let max = n - HEADER_BYTES;
        if payload.len() > max {
            return Err(IpcError::CapacityExceeded);
        }
        let len_bytes = u64_to_le_bytes(payload.len() as u64);
        let ghost pre = self.bytes@;
        for k in 0..LENGTH_BYTES
            invariant
                self.bytes@.len() == n,
                forall|j: int|
                    0 <= j < n && !(SIGNAL_BYTES <= j < SIGNAL_BYTES + k) ==> self.bytes@[j]
                        == pre[j],
                forall|j: int|
                    SIGNAL_BYTES <= j < SIGNAL_BYTES + k ==> self.bytes@[j] == len_bytes@[j
                        - SIGNAL_BYTES],
        {
            self.bytes.set(SIGNAL_BYTES + k, len_bytes[k]);
        }
        let ghost mid = self.bytes@;
        for k in 0..payload.len()
            invariant
                self.bytes@.len() == n,
                forall|j: int|
                    0 <= j < n && !(HEADER_BYTES <= j < HEADER_BYTES + k) ==> self.bytes@[j]
                        == mid[j],
                forall|j: int|
                    HEADER_BYTES <= j < HEADER_BYTES + k ==> self.bytes@[j] == payload@[j
                        - HEADER_BYTES],
        {
            self.bytes.set(HEADER_BYTES + k, payload[k]);
        }
        proof {
            lemma_auto_spec_u64_to_from_le_bytes();
            let w = spec_write_frame(pre, payload@);
            assert(w.len() == n);
            assert forall|j: int| 0 <= j < n implies self.bytes@[j] == w[j] by {
                if j < SIGNAL_BYTES {
                    assert(self.bytes@[j] == mid[j]);
                    assert(mid[j] == pre[j]);
                } else if j < HEADER_BYTES {
                    assert(self.bytes@[j] == mid[j]);
                    assert(mid[j] == len_bytes@[j - SIGNAL_BYTES]);
                } else if j < HEADER_BYTES + payload@.len() {
                    assert(self.bytes@[j] == payload@[j - HEADER_BYTES]);
                } else {
                    assert(self.bytes@[j] == mid[j]);
                    assert(mid[j] == pre[j]);
                }
            }
            assert(self.bytes@ =~= w);
        }
        Ok(payload.len())
    }

    /// Read the framed payload out of the region.  A length header that does
    /// not fit the region is refused as corruption.
    #[verifier::loop_isolation(false)]
    pub fn read_frame(&self) -> (r: Result<Vec<u8>, IpcError>)
        requires
            self.wf(),
        ensures
            match spec_frame_payload(self.bytes@) {
                Some(p) => r matches Ok(v) && v@ == p,
                None => r == Err::<Vec<u8>, IpcError>(IpcError::InvalidLengthHeader),
            },
    {
        let mut header: Vec<u8> = Vec::new();
        for k in 0..LENGTH_BYTES
            invariant
                header@.len() == k,
                forall|j: int| 0 <= j < k ==> header@[j] == self.bytes@[SIGNAL_BYTES + j],
        {
            header.push(self.bytes[SIGNAL_BYTES + k]);
        }
        proof {
            assert(header@ =~= self.bytes@.subrange(SIGNAL_BYTES as int, HEADER_BYTES as int));
        }
        let len = u64_from_le_bytes(header.as_slice());
        let n = self.bytes.len();
        let max = n - HEADER_BYTES;
        if len > max as u64 {
            return Err(IpcError::InvalidLengthHeader);
        }
        let len = len as usize;
        let mut payload: Vec<u8> = Vec::new();
        for k in 0..len
            invariant
                payload@.len() == k,
                forall|j: int| 0 <= j < k ==> payload@[j] == self.bytes@[HEADER_BYTES + j],
        {
            payload.push(self.bytes[HEADER_BYTES + k]);
        }
        proof {
            assert(payload@ =~= self.bytes@.subrange(
                HEADER_BYTES as int,
                HEADER_BYTES + spec_frame_len(self.bytes@),
            ));
        }
        Ok(payload)
    }
}

/// Framing round-trip: for every payload that fits a region — any size from
/// zero up to the region's maximum message size — reading a frame after
/// writing it yields the payload back unchanged.
pub proof fn lemma_frame_round_trip(region: Seq<u8>, payload: Seq<u8>)
    requires
        region.len() >= HEADER_BYTES,
        payload.len() <= region.len() - HEADER_BYTES,
        region.len() <= u64::MAX,
    ensures
        spec_frame_payload(spec_write_frame(region, payload)) == Some(payload),
{
    lemma_auto_spec_u64_to_from_le_bytes();
    let w = spec_write_frame(region, payload);
    assert(w.subrange(SIGNAL_BYTES as int, HEADER_BYTES as int) =~= spec_u64_to_le_bytes(
        payload.len() as u64,
    ));
    assert(spec_frame_len(w) == payload.len());
    assert(w.len() == region.len());
    assert(w.subrange(HEADER_BYTES as int, HEADER_BYTES + payload.len()) =~= payload);
}

} // verus!
