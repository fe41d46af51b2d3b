//! The error taxonomy of the protocol core.
//!
//! Setup failures and protocol violations are both fatal in this system; the
//! variants below give each rejection a distinct, matchable cause.

use vstd::prelude::*;

verus! {

/// Why a protocol-core operation refused its input.
#[derive(Debug, Clone, Copy, PartialEq, Eq, Structural)]
pub enum IpcError {
    /// A payload is longer than the region's maximum message size.
    CapacityExceeded,
    /// A length header does not fit inside the region it was read from.
    InvalidLengthHeader,
    /// The region is too small to hold the signal and length header.
    RegionTooSmall,
    /// A raw-string message does not have the `sender|receiver|kind` shape.
    MalformedMessage,
    /// A message names a receiver other than the local process.
    ReceiverMismatch,
    /// A message names a sender other than the expected peer.
    SenderMismatch,
    /// A handshake message names a parent other than the local one.
    ParentMismatch,
    /// A handshake message names a child other than the local one.
    ChildMismatch,
    /// A handshake init carries no region for writing to the parent.
    MissingParentRegion,
    /// The child has not recorded a parent identity yet.
    NoParentRecorded,
    /// A message-complexity selector value is not recognised.
    InvalidComplexity,
    /// No child is recorded under the given name.
    UnknownChild,
    /// A counter or size computation would leave the machine range.
    Overflow,
}

} // verus!
