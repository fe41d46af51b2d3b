//! Construction and validation of the ping-pong exchange.
//!
//! A ping names its sender and its intended receiver; the receiver answers
//! with a pong that swaps the two.  Each side validates provenance: the
//! child refuses a ping addressed to someone else, and the parent refuses a
//! pong whose sender is not the pinged child or whose receiver is not the
//! parent itself.  A mismatch indicates protocol corruption and is fatal.

use crate::errors::IpcError;
use crate::messages::{str_eq, PingMessage, PongMessage};
use vstd::prelude::*;

verus! {

/// A pong answers a ping delivered to `child_id` when the child signs it
/// and addresses it back to the ping's sender.
pub open spec fn spec_is_pong_for(pong: PongMessage, child_id: Seq<char>, ping: PingMessage) -> bool {
    pong.sender_id@ == child_id && pong.receiver_id@ == ping.sender_id@
}

/// A pong passes validation by a process with identity `self_id` that
/// pinged `expected_sender`.
pub open spec fn spec_pong_accepted(
    pong: PongMessage,
    expected_sender: Seq<char>,
    self_id: Seq<char>,
) -> bool {
    pong.sender_id@ == expected_sender && pong.receiver_id@ == self_id
}

/// A ping passes validation by a process with identity `self_id` that
/// expects pings from `expected_sender`.
pub open spec fn spec_ping_accepted(
    ping: PingMessage,
    expected_sender: Seq<char>,
    self_id: Seq<char>,
) -> bool {
    ping.sender_id@ == expected_sender && ping.receiver_id@ == self_id
}

/// The child's answer to a ping: a pong signed by the child and addressed
/// to the ping's sender.  A ping addressed to someone else is refused.
pub fn pong_for_ping(child_id: &str, ping: &PingMessage, now_ms: u128) -> (r: Result<
    PongMessage,
    IpcError,
>)
    ensures
        ping.receiver_id@ == child_id@ ==> (r matches Ok(pong) && spec_is_pong_for(
            pong,
            child_id@,
            *ping,
        ) && pong.sent_at_ms == now_ms),
        ping.receiver_id@ != child_id@ ==> r == Err::<PongMessage, IpcError>(
            IpcError::ReceiverMismatch,
        ),
{
    if !str_eq(ping.receiver_id.as_str(), child_id) {
        return Err(IpcError::ReceiverMismatch);
    }
    Ok(PongMessage::new(child_id.to_owned(), ping.sender_id.clone(), now_ms))
}

/// The parent's validation of a pong: the sender must be the pinged child
/// and the receiver must be the parent itself.  The sender is checked
/// first.
pub fn check_pong(pong: &PongMessage, expected_sender: &str, self_id: &str) -> (r: Result<
    (),
    IpcError,
>)
    ensures
        r matches Ok(u) <==> spec_pong_accepted(*pong, expected_sender@, self_id@),
        pong.sender_id@ != expected_sender@ ==> r == Err::<(), IpcError>(IpcError::SenderMismatch),
        pong.sender_id@ == expected_sender@ && pong.receiver_id@ != self_id@ ==> r == Err::<
            (),
            IpcError,
        >(IpcError::ReceiverMismatch),
{
    if !str_eq(pong.sender_id.as_str(), expected_sender) {
        return Err(IpcError::SenderMismatch);
    }
    if !str_eq(pong.receiver_id.as_str(), self_id) {
        return Err(IpcError::ReceiverMismatch);
    }
    Ok(())
}

/// The child's validation of a ping: the sender must be the recorded
/// parent and the receiver must be the child itself.  The sender is
/// checked first.
pub fn check_ping(ping: &PingMessage, expected_sender: &str, self_id: &str) -> (r: Result<
    (),
    IpcError,
>)
    ensures
        r matches Ok(u) <==> spec_ping_accepted(*ping, expected_sender@, self_id@),
        ping.sender_id@ != expected_sender@ ==> r == Err::<(), IpcError>(IpcError::SenderMismatch),
        ping.sender_id@ == expected_sender@ && ping.receiver_id@ != self_id@ ==> r == Err::<
            (),
            IpcError,
        >(IpcError::ReceiverMismatch),
{
    if !str_eq(ping.sender_id.as_str(), expected_sender) {
        return Err(IpcError::SenderMismatch);
    }
    if !str_eq(ping.receiver_id.as_str(), self_id) {
        return Err(IpcError::ReceiverMismatch);
    }
    Ok(())
}

/// Round-trip invariant: whenever a ping delivered to a child is answered
/// by that child, the pong's sender is the child the ping was addressed to
/// and the pong's receiver is the ping's sender — so the answer passes the
/// validation of the process that sent the ping.
pub proof fn lemma_roundtrip_invariant(ping: PingMessage, pong: PongMessage, child_id: Seq<char>)
    requires
        ping.receiver_id@ == child_id,
        spec_is_pong_for(pong, child_id, ping),
    ensures
        pong.sender_id@ == ping.receiver_id@,
        pong.receiver_id@ == ping.sender_id@,
        spec_pong_accepted(pong, child_id, ping.sender_id@),
{
}

} // verus!
