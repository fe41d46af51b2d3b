//! Message types exchanged between parent and child, and the selector that
//! chooses how ping/pong payloads are encoded.
//!
//! The messages themselves are plain data; which bytes they become on the
//! wire is the concern of [`crate::rawstring`] (for the delimited string
//! form) and of the unverified adapters (for the structured form).

use crate::errors::IpcError;
use vstd::prelude::*;

verus! {

/// String equality, stated over the views.
pub fn str_eq(a: &str, b: &str) -> (r: bool)
    ensures
        r == (a@ == b@),
{
    let sa: String = a.to_owned();
    let sb: String = b.to_owned();
    sa == sb
}

/// The environment key that selects the message complexity.
pub open spec fn spec_env_key() -> Seq<char> {
    "RPC_MESSAGE_COMPLEXITY"@
}

/// Complexity of the RPC messages that will be sent.
///
/// Chosen once per process; the parent and the child must agree on it.
#[derive(Debug, Clone, Copy, PartialEq, Eq, Structural)]
pub enum RpcMessageComplexity {
    /// Delimited raw strings (`sender|receiver|ping` and `sender|receiver|pong`).
    RawString,
    /// Structured serialization, the default.
    Json,
}

impl Default for RpcMessageComplexity {
    /// The default complexity is the structured form.
    fn default() -> (r: Self)
        ensures
            r == RpcMessageComplexity::Json,
    {
        RpcMessageComplexity::Json
    }
}

/// What a selector string denotes: an unknown value falls back to the default.
pub open spec fn spec_complexity_of(s: Seq<char>) -> RpcMessageComplexity {
    if s == "json"@ {
        RpcMessageComplexity::Json
    } else if s == "raw-string"@ {
        RpcMessageComplexity::RawString
    } else {
        RpcMessageComplexity::Json
    }
}

/// The complexity selected by a list of environment entries: the first entry
/// keyed by [`spec_env_key`] decides; with none, the default holds.
pub open spec fn spec_env_complexity(vs: Seq<(String, String)>) -> RpcMessageComplexity
    decreases vs.len(),
{
    if vs.len() == 0 {
        RpcMessageComplexity::Json
    } else if vs[0].0@ == spec_env_key() {
        spec_complexity_of(vs[0].1@)
    } else {
        spec_env_complexity(vs.skip(1))
    }
}

proof fn lemma_env_complexity_skip(vs: Seq<(String, String)>, i: int)
    requires
        0 <= i <= vs.len(),
        forall|j: int| 0 <= j < i ==> #[trigger] vs[j].0@ != spec_env_key(),
    ensures
        spec_env_complexity(vs.skip(i)) == spec_env_complexity(vs),
    decreases i,
{
    if i == 0 {
        assert(vs.skip(0) =~= vs);
    } else {
        lemma_env_complexity_skip(vs, i - 1);
        assert(vs.skip(i - 1).skip(1) =~= vs.skip(i));
        assert(vs.skip(i - 1)[0] == vs[i - 1]);
        assert(vs[i - 1].0@ != spec_env_key());
        assert(vs.skip(i - 1).len() > 0);
        assert(spec_env_complexity(vs.skip(i - 1)) == spec_env_complexity(
            vs.skip(i - 1).skip(1),
        ));
    }
}

impl RpcMessageComplexity {
    /// Parse a selector string; an unknown value is refused.
    pub fn from_str(s: &str) -> (r: Result<Self, IpcError>)
        ensures
            s@ == "json"@ ==> r == Ok::<Self, IpcError>(RpcMessageComplexity::Json),
            s@ == "raw-string"@ ==> r == Ok::<Self, IpcError>(RpcMessageComplexity::RawString),
            s@ != "json"@ && s@ != "raw-string"@ ==> r == Err::<Self, IpcError>(
                IpcError::InvalidComplexity,
            ),
    {
        proof {
            reveal_strlit("json");
            reveal_strlit("raw-string");
            assert("json"@.len() != "raw-string"@.len());
        }
        if str_eq(s, "json") {
            Ok(RpcMessageComplexity::Json)
        } else if str_eq(s, "raw-string") {
            Ok(RpcMessageComplexity::RawString)
        } else {
            Err(IpcError::InvalidComplexity)
        }
    }

    /// Select the complexity from environment entries, falling back to the
    /// default both when the key is absent and when its value is unknown.
    pub fn from_env_or_default(values: &Vec<(String, String)>) -> (r: Self)
        ensures
            r == spec_env_complexity(values@),
    {
        let n = values.len();
        for i in 0..n
            invariant
                n == values@.len(),
                forall|j: int| 0 <= j < i ==> #[trigger] values@[j].0@ != spec_env_key(),
        {
            if str_eq(values[i].0.as_str(), "RPC_MESSAGE_COMPLEXITY") {
                let r = match Self::from_str(values[i].1.as_str()) {
                    Ok(c) => c,
                    Err(_) => RpcMessageComplexity::Json,
                };
                proof {
                    lemma_env_complexity_skip(values@, i as int);
                    assert(values@.skip(i as int)[0] == values@[i as int]);
                }
                return r;
            }
        }
        proof {
            lemma_env_complexity_skip(values@, n as int);
        }
        RpcMessageComplexity::Json
    }
}

/// Message sent in a ping.
#[derive(Debug, Clone, PartialEq, Eq)]
pub struct PingMessage {
    /// Sender of the ping message.
    pub sender_id: String,
    /// Intended receiver.
    pub receiver_id: String,
    /// When the message was sent, in milliseconds since the epoch.
    pub sent_at_ms: u128,
}

impl PingMessage {
    /// Create a new [`PingMessage`].
    pub fn new(sender_id: String, receiver_id: String, sent_at_ms: u128) -> (p: Self)
        ensures
            p.sender_id == sender_id,
            p.receiver_id == receiver_id,
            p.sent_at_ms == sent_at_ms,
    {
        PingMessage { sender_id, receiver_id, sent_at_ms }
    }

    /// The sender (ID) of the message.
    pub fn sender_id(&self) -> (r: &str)
        ensures
            r@ == self.sender_id@,
    {
        self.sender_id.as_str()
    }

    /// The intended receiver (ID) of the message.
    pub fn receiver_id(&self) -> (r: &str)
        ensures
            r@ == self.receiver_id@,
    {
        self.receiver_id.as_str()
    }

    /// When the message was sent.
    pub fn sent_at_ms(&self) -> (r: u128)
        ensures
            r == self.sent_at_ms,
    {
        self.sent_at_ms
    }
}

/// Message sent in a pong.
#[derive(Debug, Clone, PartialEq, Eq)]
pub struct PongMessage {
    /// Sender of the pong message.
    pub sender_id: String,
    /// Intended receiver.
    pub receiver_id: String,
    /// When the message was sent, in milliseconds since the epoch.
    pub sent_at_ms: u128,
}

impl PongMessage {
    /// Create a new [`PongMessage`].
    pub fn new(sender_id: String, receiver_id: String, sent_at_ms: u128) -> (p: Self)
        ensures
            p.sender_id == sender_id,
            p.receiver_id == receiver_id,
            p.sent_at_ms == sent_at_ms,
    {
        PongMessage { sender_id, receiver_id, sent_at_ms }
    }

    /// The sender (ID) of the message.
    pub fn sender_id(&self) -> (r: &str)
        ensures
            r@ == self.sender_id@,
    {
        self.sender_id.as_str()
    }

    /// The intended receiver (ID) of the message.
    pub fn receiver_id(&self) -> (r: &str)
        ensures
            r@ == self.receiver_id@,
    {
        self.receiver_id.as_str()
    }

    /// When the message was sent.
    pub fn sent_at_ms(&self) -> (r: u128)
        ensures
            r == self.sent_at_ms,
    {
        self.sent_at_ms
    }
}

/// Payload used to initialize a channel-backed child process.
#[derive(Debug, Clone, PartialEq, Eq)]
pub struct IpcChannelChildInit {
    /// ID of the parent process.
    pub parent_id: String,
    /// Name of the one-shot server the child should connect to.
    pub ipc_server_name: String,
}

impl IpcChannelChildInit {
    /// Create a new [`IpcChannelChildInit`].
    pub fn new(parent_id: String, ipc_server_name: String) -> (m: Self)
        ensures
            m.parent_id == parent_id,
            m.ipc_server_name == ipc_server_name,
    {
        IpcChannelChildInit { parent_id, ipc_server_name }
    }

    /// The parent process ID (not the platform PID).
    pub fn parent_id(&self) -> (r: &str)
        ensures
            r@ == self.parent_id@,
    {
        self.parent_id.as_str()
    }

    /// The name of the IPC server that should be used.
    pub fn ipc_server_name(&self) -> (r: &str)
        ensures
            r@ == self.ipc_server_name@,
    {
        self.ipc_server_name.as_str()
    }
}

/// Payload sent in response to an [`IpcChannelChildInit`], establishing
/// bidirectional communication with the parent.
#[derive(Debug, Clone, PartialEq, Eq)]
pub struct IpcChannelChildInitResponse {
    /// ID of the parent process.
    pub parent_id: String,
    /// ID of the child process sending the response.
    pub child_id: String,
    /// Server name the parent should connect to for sending.
    pub ipc_server_name: String,
}

impl IpcChannelChildInitResponse {
    /// Create a new [`IpcChannelChildInitResponse`].
    pub fn new(child_id: String, parent_id: String, ipc_server_name: String) -> (m: Self)
        ensures
            m.parent_id == parent_id,
            m.child_id == child_id,
            m.ipc_server_name == ipc_server_name,
    {
        IpcChannelChildInitResponse { parent_id, child_id, ipc_server_name }
    }

    /// The parent process ID (not the platform PID).
    pub fn parent_id(&self) -> (r: &str)
        ensures
            r@ == self.parent_id@,
    {
        self.parent_id.as_str()
    }

    /// The child process ID (not the platform PID).
    pub fn child_id(&self) -> (r: &str)
        ensures
            r@ == self.child_id@,
    {
        self.child_id.as_str()
    }

    /// The IPC server name to use.
    pub fn ipc_server_name(&self) -> (r: &str)
        ensures
            r@ == self.ipc_server_name@,
    {
        self.ipc_server_name.as_str()
    }
}

/// Message that closes the channel setup: sent last, from the parent, on the
/// channel the child created.
#[derive(Debug, Clone, PartialEq, Eq)]
pub struct IpcChannelInitComplete {
    /// ID of the parent.
    pub parent_id: String,
    /// ID of the child.
    pub child_id: String,
}

impl IpcChannelInitComplete {
    /// Create a new [`IpcChannelInitComplete`].
    pub fn new(parent_id: String, child_id: String) -> (m: Self)
        ensures
            m.parent_id == parent_id,
            m.child_id == child_id,
    {
        IpcChannelInitComplete { parent_id, child_id }
    }

    /// The parent process ID (not the platform PID).
    pub fn parent_id(&self) -> (r: &str)
        ensures
            r@ == self.parent_id@,
    {
        self.parent_id.as_str()
    }

    /// The child process ID (not the platform PID).
    pub fn child_id(&self) -> (r: &str)
        ensures
            r@ == self.child_id@,
    {
        self.child_id.as_str()
    }
}

/// A shared-memory region in its transferable form: the OS identifier of
/// the mapping and its size.  The receiver reconstructs usable access from
/// these two values alone.
#[derive(Debug, Clone, PartialEq, Eq)]
pub struct SerializedShmemHandle {
    /// OS-specific identifier of the shared memory region; portable only
    /// within the same OS instance.
    pub os_id: String,
    /// Size of the region in bytes.
    pub size_bytes: usize,
}

impl SerializedShmemHandle {
    /// Create a new [`SerializedShmemHandle`].
    pub fn new(os_id: String, size_bytes: usize) -> (h: Self)
        ensures
            h.os_id == os_id,
            h.size_bytes == size_bytes,
    {
        SerializedShmemHandle { os_id, size_bytes }
    }
}

/// What the parent sends a raw-signal child over standard input: the region
/// the child must write to.
#[derive(Debug, Clone, PartialEq, Eq)]
pub struct RawSyncInit {
    /// The region the receiver of this message writes to.
    pub write_handle: SerializedShmemHandle,
}

impl RawSyncInit {
    /// Create a new [`RawSyncInit`].
    pub fn new(write_handle: SerializedShmemHandle) -> (m: Self)
        ensures
            m.write_handle == write_handle,
    {
        RawSyncInit { write_handle }
    }
}

/// What a raw-signal child returns over the just-attached region: its own
/// identity, and the reciprocal region the parent must write to.
#[derive(Debug, Clone, PartialEq, Eq)]
pub struct RawSyncInitResponse {
    /// The region the receiver of this message writes to.
    pub write_handle: SerializedShmemHandle,
    /// ID of the child that was initialized.
    pub child_id: String,
}

impl RawSyncInitResponse {
    /// Create a new [`RawSyncInitResponse`].
    pub fn new(write_handle: SerializedShmemHandle, child_id: String) -> (m: Self)
        ensures
            m.write_handle == write_handle,
            m.child_id == child_id,
    {
        RawSyncInitResponse { write_handle, child_id }
    }
}

/// A file-backed shared region: path, byte offset and byte length.
#[derive(Debug, Clone, PartialEq, Eq)]
pub struct SharedRegionInfo {
    /// Path of the backing file that both processes map.
    pub file_path: String,
    /// Offset of the region from the start of the file.
    pub offset: u64,
    /// Length of the region in bytes.
    pub len: usize,
}

impl SharedRegionInfo {
    /// Create a new [`SharedRegionInfo`].
    pub fn new(file_path: String, offset: u64, len: usize) -> (m: Self)
        ensures
            m.file_path == file_path,
            m.offset == offset,
            m.len == len,
    {
        SharedRegionInfo { file_path, offset, len }
    }
}

/// What the parent sends a ring-queue child over standard input: its own
/// identity and where each side's half of the mapped file lies.
#[derive(Debug, Clone, PartialEq, Eq)]
pub struct SharedMemQueueInit {
    /// ID of the parent.
    pub parent_id: String,
    /// The region the parent writes to, if the parent chose to share it.
    pub parent_region: Option<SharedRegionInfo>,
    /// The region the child writes to.
    pub child_region: SharedRegionInfo,
}

impl SharedMemQueueInit {
    /// Create a new [`SharedMemQueueInit`].
    pub fn new(
        parent_id: String,
        parent_region: Option<SharedRegionInfo>,
        child_region: SharedRegionInfo,
    ) -> (m: Self)
        ensures
            m.parent_id == parent_id,
            m.parent_region == parent_region,
            m.child_region == child_region,
    {
        SharedMemQueueInit { parent_id, parent_region, child_region }
    }
}

/// What a ring-queue child returns over the just-attached queue: the parent
/// identity it accepted and its own.
#[derive(Debug, Clone, PartialEq, Eq)]
pub struct SharedMemQueueInitResponse {
    /// ID of the parent.
    pub parent_id: String,
    /// ID of the child.
    pub child_id: String,
}

impl SharedMemQueueInitResponse {
    /// Create a new [`SharedMemQueueInitResponse`].
    pub fn new(parent_id: String, child_id: String) -> (m: Self)
        ensures
            m.parent_id == parent_id,
            m.child_id == child_id,
    {
        SharedMemQueueInitResponse { parent_id, child_id }
    }
}

} // verus!
