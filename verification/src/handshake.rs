//! The handshake that bootstraps a channel, and the per-process state it
//! leaves behind.
//!
//! A parent creates its half of the transport, spawns the child, hands it
//! an init message out of band, and waits in band for the child's
//! response; the child attaches, creates the reciprocal half, and answers
//! with its own identity.  The decisions of that exchange — what each
//! message must carry, which responses are refused, what gets recorded —
//! are verified here; the spawning, the byte transport and the blocking
//! waits stay with the unverified adapter, which drives these states step
//! by step.

use crate::errors::IpcError;
use crate::ids::{fresh_process_id, spec_is_process_id};
use crate::messages::{
    str_eq, IpcChannelInitComplete, PingMessage, PongMessage, RpcMessageComplexity,
    SharedMemQueueInit, SharedRegionInfo,
};
use crate::pingpong::{check_pong, pong_for_ping, spec_is_pong_for, spec_pong_accepted};
use vstd::prelude::*;

verus! {

/// One entry of the parent's registry: a human-chosen name bound to the
/// identity the child reported for itself.
#[derive(Debug, Clone, PartialEq, Eq)]
pub struct ChildRecord {
    /// The name the parent chose when spawning.
    pub name: String,
    /// The identity the child reported during handshake.
    pub child_id: String,
}

/// The identity recorded under `name`, with the latest record winning —
/// the registry behaves as a map from names to child identities.
pub open spec fn spec_lookup(records: Seq<ChildRecord>, name: Seq<char>) -> Option<Seq<char>>
    decreases records.len(),
{
    if records.len() == 0 {
        None
    } else if records.last().name@ == name {
        Some(records.last().child_id@)
    } else {
        spec_lookup(records.drop_last(), name)
    }
}

/// The parent-side state: its identity, the chosen payload complexity, and
/// the registry of children established by handshakes.
#[derive(Debug, Clone, PartialEq, Eq)]
pub struct ParentState {
    /// This process's identity.
    pub id: String,
    /// How ping/pong payloads are encoded.
    pub complexity: RpcMessageComplexity,
    /// One record per successful handshake.
    pub children: Vec<ChildRecord>,
}

impl ParentState {
    /// A parent with the given identity and no children yet.
    pub fn with_id(id: String, complexity: RpcMessageComplexity) -> (p: Self)
        ensures
            p.id == id,
            p.complexity == complexity,
            p.children@.len() == 0,
    {
        ParentState { id, complexity, children: Vec::new() }
    }

    /// A parent with a fresh identity and no children yet.
    pub fn new(complexity: RpcMessageComplexity) -> (p: Self)
        ensures
            spec_is_process_id(p.id@),
            p.complexity == complexity,
            p.children@.len() == 0,
    {
        ParentState::with_id(fresh_process_id(), complexity)
    }

    /// This process's identity.
    pub fn id(&self) -> (r: String)
        ensures
            r == self.id,
    {
        self.id.clone()
    }

    /// Record a child under `name`.  Afterwards `name` resolves to
    /// `child_id`; every other name resolves as before.
    pub fn record_child(&mut self, name: String, child_id: String)
        ensures
            final(self).id == old(self).id,
            final(self).complexity == old(self).complexity,
            spec_lookup(final(self).children@, name@) == Some(child_id@),
            forall|n: Seq<char>|
                n != name@ ==> #[trigger] spec_lookup(final(self).children@, n) == spec_lookup(
                    old(self).children@,
                    n,
                ),
    {
        let ghost pre = self.children@;
        self.children.push(ChildRecord { name, child_id });
        proof {
            assert(self.children@.drop_last() =~= pre);
        }
    }

    /// The identity recorded under `name`, if any.
    pub fn lookup_child(&self, name: &str) -> (r: Option<String>)
        ensures
            match spec_lookup(self.children@, name@) {
                Some(cid) => r matches Some(c) && c@ == cid,
                None => r is None,
            },
    {
        let mut i = self.children.len();
        proof {
            assert(self.children@.take(i as int) =~= self.children@);
        }
        while i > 0
            invariant
                i <= self.children@.len(),
                spec_lookup(self.children@, name@) == spec_lookup(
                    self.children@.take(i as int),
                    name@,
                ),
            decreases i,
        {
            i = i - 1;
            proof {
                assert(self.children@.take(i + 1).last() == self.children@[i as int]);
                assert(self.children@.take(i + 1).drop_last() =~= self.children@.take(i as int));
            }
            if str_eq(self.children[i].name.as_str(), name) {
                return Some(self.children[i].child_id.clone());
            }
        }
        None
    }

    /// Build the ping for the child recorded under `name`: sent by this
    /// parent, addressed to that child, stamped with `now_ms`.  An unknown
    /// name is refused.
    pub fn prepare_ping(&self, name: &str, now_ms: u128) -> (r: Result<PingMessage, IpcError>)
        ensures
            match spec_lookup(self.children@, name@) {
                Some(cid) => r matches Ok(p) && p.sender_id@ == self.id@ && p.receiver_id@ == cid
                    && p.sent_at_ms == now_ms,
                None => r == Err::<PingMessage, IpcError>(IpcError::UnknownChild),
            },
    {
        match self.lookup_child(name) {
            Some(child_id) => Ok(PingMessage::new(self.id.clone(), child_id, now_ms)),
            None => Err(IpcError::UnknownChild),
        }
    }

    /// Validate a pong received for the child recorded under `name`: its
    /// sender must be that child, its receiver this parent.
    pub fn accept_pong(&self, name: &str, pong: &PongMessage) -> (r: Result<(), IpcError>)
        ensures
            match spec_lookup(self.children@, name@) {
                Some(cid) => {
                    &&& (r matches Ok(u) <==> spec_pong_accepted(*pong, cid, self.id@))
                    &&& (pong.sender_id@ != cid ==> r == Err::<(), IpcError>(
                        IpcError::SenderMismatch,
                    ))
                    &&& (pong.sender_id@ == cid && pong.receiver_id@ != self.id@ ==> r == Err::<
                        (),
                        IpcError,
                    >(IpcError::ReceiverMismatch))
                },
                None => r == Err::<(), IpcError>(IpcError::UnknownChild),
            },
    {
        match self.lookup_child(name) {
            Some(child_id) => check_pong(pong, child_id.as_str(), self.id.as_str()),
            None => Err(IpcError::UnknownChild),
        }
    }
}

/// The child-side state: its identity, the chosen payload complexity, and
/// the parent identity it accepted during handshake.
#[derive(Debug, Clone, PartialEq, Eq)]
pub struct ChildState {
    /// This process's identity.
    pub id: String,
    /// How ping/pong payloads are encoded.
    pub complexity: RpcMessageComplexity,
    /// The parent identity from the accepted init, once one arrived.
    pub parent_id: Option<String>,
}

impl ChildState {
    /// The recorded parent identity, as a character sequence.
    pub open spec fn spec_recorded_parent(self) -> Option<Seq<char>> {
        match self.parent_id {
            Some(p) => Some(p@),
            None => None,
        }
    }

    /// A child with the given identity and no parent recorded.
    pub fn with_id(id: String, complexity: RpcMessageComplexity) -> (c: Self)
        ensures
            c.id == id,
            c.complexity == complexity,
            c.parent_id is None,
    {
        ChildState { id, complexity, parent_id: None }
    }

    /// A child with a fresh identity and no parent recorded.
    pub fn new(complexity: RpcMessageComplexity) -> (c: Self)
        ensures
            spec_is_process_id(c.id@),
            c.complexity == complexity,
            c.parent_id is None,
    {
        ChildState::with_id(fresh_process_id(), complexity)
    }

    /// This process's identity.
    pub fn id(&self) -> (r: String)
        ensures
            r == self.id,
    {
        self.id.clone()
    }

    /// Accept an init message: record the parent identity it carries.
    pub fn accept_init(&mut self, parent_id: &str)
        ensures
            final(self).id == old(self).id,
            final(self).complexity == old(self).complexity,
            final(self).spec_recorded_parent() == Some(parent_id@),
    {
        self.parent_id = Some(parent_id.to_owned());
    }

    /// The identities the init response must carry: the recorded parent
    /// identity and this child's own.  A child that has accepted no init
    /// yet has nothing to respond to.
    pub fn init_response(&self) -> (r: Result<(String, String), IpcError>)
        ensures
            match self.spec_recorded_parent() {
                Some(pid) => r matches Ok(ids) && ids.0@ == pid && ids.1@ == self.id@,
                None => r == Err::<(String, String), IpcError>(IpcError::NoParentRecorded),
            },
    {
        match &self.parent_id {
            Some(p) => Ok((p.clone(), self.id.clone())),
            None => Err(IpcError::NoParentRecorded),
        }
    }

    /// Validate the init-complete message that closes the channel-backed
    /// handshake: it must name the recorded parent and this child.
    pub fn accept_init_complete(&self, msg: &IpcChannelInitComplete) -> (r: Result<(), IpcError>)
        ensures
            match self.spec_recorded_parent() {
                Some(pid) => {
                    &&& (r matches Ok(u) <==> (msg.parent_id@ == pid && msg.child_id@
                        == self.id@))
                    &&& (msg.parent_id@ != pid ==> r == Err::<(), IpcError>(
                        IpcError::ParentMismatch,
                    ))
                    &&& (msg.parent_id@ == pid && msg.child_id@ != self.id@ ==> r == Err::<
                        (),
                        IpcError,
                    >(IpcError::ChildMismatch))
                },
                None => r == Err::<(), IpcError>(IpcError::NoParentRecorded),
            },
    {
        match &self.parent_id {
            Some(p) => {
                if !str_eq(msg.parent_id.as_str(), p.as_str()) {
                    Err(IpcError::ParentMismatch)
                } else if !str_eq(msg.child_id.as_str(), self.id.as_str()) {
                    Err(IpcError::ChildMismatch)
                } else {
                    Ok(())
                }
            },
            None => Err(IpcError::NoParentRecorded),
        }
    }

    /// Answer a ping addressed to this child with a pong; a ping addressed
    /// to someone else is refused.
    pub fn answer_ping(&self, ping: &PingMessage, now_ms: u128) -> (r: Result<
        PongMessage,
        IpcError,
    >)
        ensures
            ping.receiver_id@ == self.id@ ==> (r matches Ok(pong) && spec_is_pong_for(
                pong,
                self.id@,
                *ping,
            ) && pong.sent_at_ms == now_ms),
            ping.receiver_id@ != self.id@ ==> r == Err::<PongMessage, IpcError>(
                IpcError::ReceiverMismatch,
            ),
    {
        pong_for_ping(self.id.as_str(), ping, now_ms)
    }
}

/// The phases of the handshake, in the order the parent drives them.
#[derive(Debug, Clone, Copy, PartialEq, Eq, Structural)]
pub enum HandshakePhase {
    /// The child process exists; nothing is set up yet.
    Spawned,
    /// The region the child will write to has been created.
    ChildRegionCreated,
    /// The init message went out over the child's standard input.
    InitSent,
    /// The parent is blocked on the child's in-band response.
    AwaitingChildResponse,
    /// The response was accepted; only pings and pongs flow from here.
    ChannelEstablished,
}

/// The parent's walk through the handshake phases for one child.  The
/// unverified adapter performs each outside action and then advances the
/// driver, which enforces the order and validates the child's response.
#[derive(Debug, Clone, PartialEq, Eq)]
pub struct HandshakeDriver {
    /// Where the handshake stands.
    pub phase: HandshakePhase,
    /// The child identity, once the response was accepted.
    pub child_id: Option<String>,
}

impl HandshakeDriver {
    /// A handshake that has just spawned its child.
    pub fn new() -> (d: Self)
        ensures
            d.phase == HandshakePhase::Spawned,
            d.child_id is None,
    {
        HandshakeDriver { phase: HandshakePhase::Spawned, child_id: None }
    }

    /// The region the child writes to exists now.
    pub fn on_child_region_created(&mut self)
        requires
            old(self).phase == HandshakePhase::Spawned,
        ensures
            final(self).phase == HandshakePhase::ChildRegionCreated,
            final(self).child_id == old(self).child_id,
    {
        self.phase = HandshakePhase::ChildRegionCreated;
    }

    /// The init message went out over the child's standard input.
    pub fn on_init_sent(&mut self)
        requires
            old(self).phase == HandshakePhase::ChildRegionCreated,
        ensures
            final(self).phase == HandshakePhase::InitSent,
            final(self).child_id == old(self).child_id,
    {
        self.phase = HandshakePhase::InitSent;
    }

    /// The parent now blocks for the child's in-band response.
    pub fn on_awaiting_response(&mut self)
        requires
            old(self).phase == HandshakePhase::InitSent,
        ensures
            final(self).phase == HandshakePhase::AwaitingChildResponse,
            final(self).child_id == old(self).child_id,
    {
        self.phase = HandshakePhase::AwaitingChildResponse;
    }

    /// The child's response arrived.  A response naming a parent other
    /// than `self_id` is refused and the handshake does not advance; else
    /// the channel is established with the child identity it carried.
    pub fn on_child_response(&mut self, self_id: &str, resp_parent_id: &str, resp_child_id: &str)
        -> (r: Result<(), IpcError>)
        requires
            old(self).phase == HandshakePhase::AwaitingChildResponse,
        ensures
            resp_parent_id@ == self_id@ ==> {
                &&& r == Ok::<(), IpcError>(())
                &&& final(self).phase == HandshakePhase::ChannelEstablished
                &&& (final(self).child_id matches Some(c) && c@ == resp_child_id@)
            },
            resp_parent_id@ != self_id@ ==> r == Err::<(), IpcError>(IpcError::ParentMismatch)
                && *final(self) == *old(self),
    {
        if !str_eq(resp_parent_id, self_id) {
            return Err(IpcError::ParentMismatch);
        }
        self.phase = HandshakePhase::ChannelEstablished;
        self.child_id = Some(resp_child_id.to_owned());
        Ok(())
    }
}

/// Split a file-backed span into the two half regions of a channel: the
/// parent writes the first half, the child the second.  The child half's
/// offset is refused when it would leave the machine range.
pub fn plan_region_split(file_path: String, total_len: usize, offset: u64) -> (r: Result<
    (SharedRegionInfo, SharedRegionInfo),
    IpcError,
>)
    ensures
        offset + (total_len as int) / 2 <= u64::MAX ==> (r matches Ok(pair) && {
            &&& pair.0.file_path@ == file_path@
            &&& pair.0.offset == offset
            &&& pair.0.len == total_len as int / 2
            &&& pair.1.file_path@ == file_path@
            &&& pair.1.offset == offset + total_len as int / 2
            &&& pair.1.len == total_len as int / 2
        }),
        offset + (total_len as int) / 2 > u64::MAX ==> r == Err::<
            (SharedRegionInfo, SharedRegionInfo),
            IpcError,
        >(IpcError::Overflow),
{
    let half = total_len / 2;
    if half as u64 > u64::MAX - offset {
        return Err(IpcError::Overflow);
    }
    let parent_region = SharedRegionInfo::new(file_path.clone(), offset, half);
    let child_region = SharedRegionInfo::new(file_path, offset + half as u64, half);
    Ok((parent_region, child_region))
}

/// The region a ring-queue child must write to in order to reach its
/// parent: the parent half named by the init.  An init without one cannot
/// be served.
pub fn queue_region_for_parent(init: &SharedMemQueueInit) -> (r: Result<SharedRegionInfo, IpcError>)
    ensures
        match init.parent_region {
            Some(region) => r matches Ok(g) && g == region,
            None => r == Err::<SharedRegionInfo, IpcError>(IpcError::MissingParentRegion),
        },
{
    match &init.parent_region {
        Some(region) => Ok(
            SharedRegionInfo::new(region.file_path.clone(), region.offset, region.len),
        ),
        None => Err(IpcError::MissingParentRegion),
    }
}

/// The child accepted the parent's init: it kept its own identity and
/// recorded the parent identity the init carried.
pub open spec fn spec_child_accepted_init(
    child_before: ChildState,
    child_after: ChildState,
    init_parent_id: Seq<char>,
) -> bool {
    &&& child_after.id@ == child_before.id@
    &&& child_after.complexity == child_before.complexity
    &&& child_after.spec_recorded_parent() == Some(init_parent_id)
}

/// The child's init response carries its recorded parent identity and its
/// own identity.
pub open spec fn spec_child_response_of(
    c: ChildState,
    resp_parent_id: Seq<char>,
    resp_child_id: Seq<char>,
) -> bool {
    &&& c.spec_recorded_parent() == Some(resp_parent_id)
    &&& resp_child_id == c.id@
}

/// The parent accepted a response naming itself and recorded the child
/// identity it carried under `name`.
pub open spec fn spec_parent_recorded(
    parent_before: ParentState,
    parent_after: ParentState,
    name: Seq<char>,
    resp_parent_id: Seq<char>,
    resp_child_id: Seq<char>,
) -> bool {
    &&& resp_parent_id == parent_before.id@
    &&& parent_after.id@ == parent_before.id@
    &&& spec_lookup(parent_after.children@, name) == Some(resp_child_id)
}

/// Handshake identity agreement: after any valid spawn sequence — the
/// child accepts the parent's init, responds with its recorded parent
/// identity and its own, and the parent accepts that response and records
/// it — the parent's registry maps the chosen name to the child's own
/// identity, and the child's recorded parent identity is the parent's.
pub proof fn lemma_handshake_identity_agreement(
    parent_before: ParentState,
    parent_after: ParentState,
    child_before: ChildState,
    child_after: ChildState,
    name: Seq<char>,
    resp_parent_id: Seq<char>,
    resp_child_id: Seq<char>,
)
    requires
        spec_child_accepted_init(child_before, child_after, parent_before.id@),
        spec_child_response_of(child_after, resp_parent_id, resp_child_id),
        spec_parent_recorded(parent_before, parent_after, name, resp_parent_id, resp_child_id),
    ensures
        spec_lookup(parent_after.children@, name) == Some(child_after.id@),
        child_after.spec_recorded_parent() == Some(parent_after.id@),
{
}

} // verus!
