//! The write signal and its ordering discipline.
//!
//! Each shared region carries a binary signal in its first bytes.  Exactly
//! one process writes a region and sets the signal; the other blocks until
//! the signal is set and then reads.  The writer's order is strict: clear
//! the signal, write the whole frame, set the signal.  This module holds the
//! process-local image of one region together with its signal state, the
//! verified writer and reader operations over it, and a transition system
//! whose invariant shows why the discipline is sound: a reader whose wait
//! returned can only be looking at a completely written frame.

use crate::codec::{spec_frame_payload, spec_write_frame, Region, HEADER_BYTES};
use crate::errors::IpcError;
use vstd::prelude::*;

verus! {

/// The two states of a region's write signal.
#[derive(Debug, Clone, Copy, PartialEq, Eq, Structural)]
pub enum SignalState {
    /// No frame is pending.
    Clear,
    /// A frame has been written and not yet consumed.
    Signaled,
}

/// Where the writer of a region stands in its strict ordering.
#[derive(Debug, Clone, Copy, PartialEq, Eq, Structural)]
pub enum WriterPhase {
    /// Not composing a frame.
    Idle,
    /// The signal was cleared; the frame may be composed.
    Cleared,
    /// The frame is fully written; the signal may be set.
    Written,
}

/// One direction of a raw-signal channel: a region together with the state
/// of the signal embedded in it and the writer's phase.
#[derive(Debug, Clone, PartialEq, Eq)]
pub struct SignalChannel {
    /// The signal state as both processes observe it.
    pub signal: SignalState,
    /// The writer's position in the clear-write-set order.
    pub writer: WriterPhase,
    /// The framed byte region.
    pub region: Region,
}

impl SignalChannel {
    /// Well-formedness: the region can hold the header.
    pub open spec fn wf(self) -> bool {
        self.region.wf()
    }

    /// The protocol invariant: once the signal is set — and already once the
    /// frame write is complete — the region holds a whole frame.
    pub open spec fn inv(self) -> bool {
        &&& (self.signal == SignalState::Signaled ==> spec_frame_payload(self.region.bytes@)
            is Some)
        &&& (self.writer == WriterPhase::Written ==> spec_frame_payload(self.region.bytes@)
            is Some)
    }

    /// Create a channel over a fresh zeroed region, with the signal clear.
    pub fn create(size_bytes: usize) -> (r: Result<SignalChannel, IpcError>)
        ensures
            size_bytes >= HEADER_BYTES ==> (r matches Ok(c) && c.wf() && c.inv() && c.signal
                == SignalState::Clear && c.writer == WriterPhase::Idle && c.region.spec_size()
                == size_bytes),
            size_bytes < HEADER_BYTES ==> r == Err::<SignalChannel, IpcError>(
                IpcError::RegionTooSmall,
            ),
    {
        let region = Region::new(size_bytes)?;
        let c = SignalChannel { signal: SignalState::Clear, writer: WriterPhase::Idle, region };
        proof {
            assert(c.inv());
        }
        Ok(c)
    }

    /// Reset the signal to clear, leaving the region bytes alone.  The
    /// writer must do this before composing a frame; a child also does it
    /// right after attaching, so that the freshly initialized signal is not
    /// mistaken for a pending message.
    pub fn clear_signal(&mut self)
        ensures
            final(self).signal == SignalState::Clear,
            final(self).writer == WriterPhase::Cleared,
            final(self).region == old(self).region,
            final(self).inv(),
    {
        self.signal = SignalState::Clear;
        self.writer = WriterPhase::Cleared;
    }

    /// Write one frame and signal it, in the strict order: clear the
    /// signal, frame the payload, set the signal.  An oversized payload is
    /// refused before the region is touched, with the signal left clear.
    pub fn send_frame(&mut self, payload: &[u8]) -> (r: Result<usize, IpcError>)
        requires
            old(self).wf(),
        ensures
            final(self).wf(),
            final(self).region.spec_size() == old(self).region.spec_size(),
            payload@.len() <= old(self).region.spec_max_payload() ==> {
                &&& r == Ok::<usize, IpcError>(payload.len())
                &&& final(self).signal == SignalState::Signaled
                &&& final(self).writer == WriterPhase::Idle
                &&& final(self).region.bytes@ == spec_write_frame(
                    old(self).region.bytes@,
                    payload@,
                )
                &&& spec_frame_payload(final(self).region.bytes@) == Some(payload@)
                &&& final(self).inv()
            },
            payload@.len() > old(self).region.spec_max_payload() ==> {
                &&& r == Err::<usize, IpcError>(IpcError::CapacityExceeded)
                &&& final(self).signal == SignalState::Clear
                &&& final(self).region.bytes@ == old(self).region.bytes@
            },
    {
        let ghost pre_bytes = self.region.bytes@;
        let size = self.region.size_bytes();
        self.clear_signal();
        let written = match self.region.write_frame(payload) {
            Ok(written) => written,
            Err(e) => {
                return Err(e);
            },
        };
        proof {
            crate::codec::lemma_frame_round_trip(pre_bytes, payload@);
        }
        self.signal = SignalState::Signaled;
        self.writer = WriterPhase::Idle;
        Ok(written)
    }

    /// Read the pending frame.  The caller may only do this after its wait
    /// on the signal returned, which is what the `Signaled` precondition
    /// stands for; under the protocol invariant the frame is then complete
    /// and the read cannot fail.
    pub fn take_frame(&self) -> (r: Vec<u8>)
        requires
            self.wf(),
            self.inv(),
            self.signal == SignalState::Signaled,
        ensures
            Some(r@) == spec_frame_payload(self.region.bytes@),
    {
        match self.region.read_frame() {
            Ok(payload) => payload,
            Err(_) => {
                proof {
                    assert(false);
                }
                Vec::new()
            },
        }
    }
}

/// The steps either process may take on one shared region, as a transition
/// relation over [`SignalChannel`] states.
pub open spec fn step_writer_clear(pre: SignalChannel, post: SignalChannel) -> bool {
    &&& post.signal == SignalState::Clear
    &&& post.writer == WriterPhase::Cleared
    &&& post.region == pre.region
}

/// The writer composes the frame.  It may only do so after clearing the
/// signal, and before setting it.
pub open spec fn step_writer_write(pre: SignalChannel, post: SignalChannel, payload: Seq<u8>) -> bool {
    &&& pre.writer == WriterPhase::Cleared
    &&& pre.signal == SignalState::Clear
    &&& pre.region.wf()
    &&& payload.len() <= pre.region.spec_max_payload()
    &&& pre.region.spec_size() <= u64::MAX
    &&& post.region.bytes@ == spec_write_frame(pre.region.bytes@, payload)
    &&& post.signal == SignalState::Clear
    &&& post.writer == WriterPhase::Written
}

/// The writer sets the signal, only once the frame write is complete.
pub open spec fn step_writer_set(pre: SignalChannel, post: SignalChannel) -> bool {
    &&& pre.writer == WriterPhase::Written
    &&& post.signal == SignalState::Signaled
    &&& post.writer == WriterPhase::Idle
    &&& post.region == pre.region
}

/// The reader's wait returns.  It changes nothing; it is enabled only when
/// the signal is set.
pub open spec fn step_reader_wait(pre: SignalChannel, post: SignalChannel) -> bool {
    &&& pre.signal == SignalState::Signaled
    &&& post == pre
}

/// Any step of the protocol.
pub open spec fn protocol_step(pre: SignalChannel, post: SignalChannel) -> bool {
    ||| step_writer_clear(pre, post)
    ||| (exists|payload: Seq<u8>| step_writer_write(pre, post, payload))
    ||| step_writer_set(pre, post)
    ||| step_reader_wait(pre, post)
}

/// A freshly created channel satisfies the protocol invariant.
pub proof fn lemma_init_inv(c: SignalChannel)
    requires
        c.signal == SignalState::Clear,
        c.writer == WriterPhase::Idle,
    ensures
        c.inv(),
{
}

/// Every protocol step preserves the invariant: in particular, the signal
/// can only become set once the region holds a complete frame.
pub proof fn lemma_step_preserves_inv(pre: SignalChannel, post: SignalChannel)
    requires
        pre.inv(),
        protocol_step(pre, post),
    ensures
        post.inv(),
{
    if exists|payload: Seq<u8>| step_writer_write(pre, post, payload) {
        let payload = choose|payload: Seq<u8>| step_writer_write(pre, post, payload);
        crate::codec::lemma_frame_round_trip(pre.region.bytes@, payload);
    }
}

/// Signal ordering: in any state reachable under the protocol, a reader
/// whose wait returned — which requires the signal to be set — observes a
/// completely written frame, never a half-written one.
pub proof fn lemma_wait_observes_complete_frame(pre: SignalChannel, post: SignalChannel)
    requires
        pre.inv(),
        step_reader_wait(pre, post),
    ensures
        spec_frame_payload(post.region.bytes@) is Some,
{
}

/// What [`SignalChannel::send_frame`] does is exactly the writer's three
/// protocol steps in their strict order: clear the signal, write the
/// frame, set the signal.
pub proof fn lemma_send_frame_is_protocol_steps(
    pre: SignalChannel,
    post: SignalChannel,
    payload: Seq<u8>,
)
    requires
        pre.wf(),
        pre.region.spec_size() <= u64::MAX,
        payload.len() <= pre.region.spec_max_payload(),
        post.signal == SignalState::Signaled,
        post.writer == WriterPhase::Idle,
        post.region.bytes@ == spec_write_frame(pre.region.bytes@, payload),
    ensures
        ({
            let cleared = SignalChannel {
                signal: SignalState::Clear,
                writer: WriterPhase::Cleared,
                ..pre
            };
            let written = SignalChannel {
                writer: WriterPhase::Written,
                region: post.region,
                ..cleared
            };
            &&& step_writer_clear(pre, cleared)
            &&& step_writer_write(cleared, written, payload)
            &&& step_writer_set(written, post)
        }),
{
}

} // verus!
