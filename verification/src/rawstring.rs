//! The delimited raw-string message grammar.
//!
//! In the raw-string complexity, a ping is the text `sender|receiver|ping`
//! and a pong is `sender|receiver|pong`.  Both ids must be non-empty and
//! free of the `|` delimiter; a text with any other shape is refused.  The
//! grammar is specified by a parsing function over character sequences, the
//! executable parser and formatter are proved against it, and a round-trip
//! law ties the two together.

use crate::errors::IpcError;
use crate::messages::str_eq;
use vstd::prelude::*;
use vstd::string::*;

verus! {

/// An id may stand in a delimited message when it is non-empty and does not
/// contain the delimiter.
pub open spec fn spec_is_raw_id(s: Seq<char>) -> bool {
    s.len() > 0 && forall|i: int| 0 <= i < s.len() ==> s[i] != '|'
}

/// A sequence without the delimiter anywhere.
pub open spec fn spec_bar_free(s: Seq<char>) -> bool {
    forall|i: int| 0 <= i < s.len() ==> s[i] != '|'
}

/// The wire text of a delimited message.
pub open spec fn spec_raw_wire(sender: Seq<char>, receiver: Seq<char>, kind: Seq<char>) -> Seq<
    char,
> {
    sender + seq!['|'] + receiver + seq!['|'] + kind
}

/// Index of the first delimiter in `s`, or `s.len()` if there is none.
pub open spec fn spec_first_bar(s: Seq<char>) -> int
    decreases s.len(),
{
    if s.len() == 0 {
        0
    } else if s[0] == '|' {
        0
    } else {
        1 + spec_first_bar(s.skip(1))
    }
}

/// What [`spec_first_bar`] finds: the least delimiter position.
pub proof fn lemma_first_bar(s: Seq<char>)
    ensures
        0 <= spec_first_bar(s) <= s.len(),
        spec_first_bar(s) < s.len() ==> s[spec_first_bar(s)] == '|',
        forall|j: int| 0 <= j < spec_first_bar(s) ==> s[j] != '|',
    decreases s.len(),
{
    if s.len() != 0 && s[0] != '|' {
        lemma_first_bar(s.skip(1));
        assert forall|j: int| 0 <= j < spec_first_bar(s) implies s[j] != '|' by {
            if j > 0 {
                assert(s.skip(1)[j - 1] != '|');
            }
        }
    }
}

/// [`spec_first_bar`] is determined by the least delimiter position.
pub proof fn lemma_first_bar_at(s: Seq<char>, i: int)
    requires
        0 <= i < s.len(),
        s[i] == '|',
        forall|j: int| 0 <= j < i ==> s[j] != '|',
    ensures
        spec_first_bar(s) == i,
    decreases i,
{
    if i > 0 {
        assert forall|j: int| 0 <= j < i - 1 implies s.skip(1)[j] != '|' by {
            assert(s[j + 1] != '|');
        }
        assert(s.skip(1)[i - 1] == '|');
        lemma_first_bar_at(s.skip(1), i - 1);
    }
}

/// A delimiter-free sequence has no first delimiter.
pub proof fn lemma_first_bar_none(s: Seq<char>)
    requires
        spec_bar_free(s),
    ensures
        spec_first_bar(s) == s.len(),
    decreases s.len(),
{
    if s.len() != 0 {
        assert forall|j: int| 0 <= j < s.skip(1).len() implies s.skip(1)[j] != '|' by {
            assert(s[j + 1] != '|');
        }
        lemma_first_bar_none(s.skip(1));
    }
}

/// Parse a delimited message of the given kind: exactly three parts split
/// on `|`, the first two non-empty, the third equal to `kind`.
pub open spec fn spec_parse_raw(s: Seq<char>, kind: Seq<char>) -> Option<(Seq<char>, Seq<char>)> {
    let i = spec_first_bar(s);
    if i == s.len() {
        None
    } else {
        let rest = s.skip(i + 1);
        let j = spec_first_bar(rest);
        if j == rest.len() {
            None
        } else {
            let tail = rest.skip(j + 1);
            if spec_first_bar(tail) != tail.len() {
                None
            } else if i == 0 || j == 0 {
                None
            } else if tail != kind {
                None
            } else {
                Some((s.take(i), rest.take(j)))
            }
        }
    }
}

/// Round trip of the delimited grammar: formatting a message from two valid
/// ids and a delimiter-free kind, then parsing it back with the same kind,
/// recovers the ids exactly.
pub proof fn lemma_raw_wire_round_trip(sender: Seq<char>, receiver: Seq<char>, kind: Seq<char>)
    requires
        spec_is_raw_id(sender),
        spec_is_raw_id(receiver),
        spec_bar_free(kind),
    ensures
        spec_parse_raw(spec_raw_wire(sender, receiver, kind), kind) == Some((sender, receiver)),
{
    let w = spec_raw_wire(sender, receiver, kind);
    assert(w.len() == sender.len() + 1 + receiver.len() + 1 + kind.len());
    assert(w[sender.len() as int] == '|');
    assert forall|j: int| 0 <= j < sender.len() implies w[j] != '|' by {
        assert(w[j] == sender[j]);
    }
    lemma_first_bar_at(w, sender.len() as int);
    let rest = w.skip(sender.len() as int + 1);
    assert(rest =~= receiver + seq!['|'] + kind);
    assert(rest[receiver.len() as int] == '|');
    assert forall|j: int| 0 <= j < receiver.len() implies rest[j] != '|' by {
        assert(rest[j] == receiver[j]);
    }
    lemma_first_bar_at(rest, receiver.len() as int);
    let tail = rest.skip(receiver.len() as int + 1);
    assert(tail =~= kind);
    lemma_first_bar_none(tail);
    assert(w.take(sender.len() as int) =~= sender);
    assert(rest.take(receiver.len() as int) =~= receiver);
}

/// Index of the first delimiter at or after `from`, or `n` if there is none.
fn find_bar_from(s: &str, from: usize, n: usize) -> (r: usize)
    requires
        n == s@.len(),
        from <= n,
    ensures
        from <= r <= n,
        r < n ==> s@[r as int] == '|',
        forall|j: int| from <= j < r ==> s@[j] != '|',
{
    let mut i = from;
    while i < n
        invariant
            from <= i <= n,
            n == s@.len(),
            forall|j: int| from <= j < i ==> s@[j] != '|',
        decreases n - i,
    {
        if s.get_char(i) == '|' {
            return i;
        }
        i = i + 1;
    }
    n
}

/// Split a delimited message into its three parts and check them against
/// `kind`, exactly as [`spec_parse_raw`] describes.
fn parse_raw(s: &str, kind: &str) -> (r: Result<(String, String), IpcError>)
    requires
        spec_bar_free(kind@),
    ensures
        match spec_parse_raw(s@, kind@) {
            Some(parts) => r matches Ok(p) && p.0@ == parts.0 && p.1@ == parts.1,
            None => r == Err::<(String, String), IpcError>(IpcError::MalformedMessage),
        },
{
    let n = s.unicode_len();
    let i = find_bar_from(s, 0, n);
    proof {
        if i == n {
            lemma_first_bar_none(s@);
        } else {
            lemma_first_bar_at(s@, i as int);
        }
    }
    if i == n {
        return Err(IpcError::MalformedMessage);
    }
    let i2 = find_bar_from(s, i + 1, n);
    let ghost rest = s@.skip(i + 1);
    proof {
        if i2 == n {
            assert forall|j: int| 0 <= j < rest.len() implies rest[j] != '|' by {
                assert(rest[j] == s@[j + i + 1]);
            }
            lemma_first_bar_none(rest);
        } else {
            assert(rest[i2 - i - 1] == s@[i2 as int]);
            assert forall|j: int| 0 <= j < i2 - i - 1 implies rest[j] != '|' by {
                assert(rest[j] == s@[j + i + 1]);
            }
            lemma_first_bar_at(rest, i2 - i - 1);
        }
    }
    if i2 == n {
        return Err(IpcError::MalformedMessage);
    }
    let i3 = find_bar_from(s, i2 + 1, n);
    let ghost tail = rest.skip(i2 - i);
    proof {
        assert(tail =~= s@.skip(i2 + 1));
        if i3 == n {
            assert forall|j: int| 0 <= j < tail.len() implies tail[j] != '|' by {
                assert(tail[j] == s@[j + i2 + 1]);
            }
            lemma_first_bar_none(tail);
        } else {
            assert(tail[i3 - i2 - 1] == s@[i3 as int]);
            lemma_first_bar(tail);
        }
    }
    if i3 < n {
        return Err(IpcError::MalformedMessage);
    }
    if i == 0 || i2 == i + 1 {
        return Err(IpcError::MalformedMessage);
    }
    let kind_part = s.substring_char(i2 + 1, n);
    proof {
        assert(kind_part@ =~= tail);
    }
    if !str_eq(kind_part, kind) {
        return Err(IpcError::MalformedMessage);
    }
    let sender = s.substring_char(0, i).to_owned();
    let receiver = s.substring_char(i + 1, i2).to_owned();
    proof {
        assert(sender@ =~= s@.take(i as int));
        assert(receiver@ =~= rest.take(i2 - i - 1));
    }
    Ok((sender, receiver))
}

/// Format a delimited message from its three parts.
pub fn format_raw_message(sender: &str, receiver: &str, kind: &str) -> (r: String)
    ensures
        r@ == spec_raw_wire(sender@, receiver@, kind@),
{
    proof {
        reveal_strlit("|");
        assert("|"@ =~= seq!['|']);
    }
    let mut out: String = sender.to_owned();
    out.append("|");
    out.append(receiver);
    out.append("|");
    out.append(kind);
    proof {
        assert(out@ =~= spec_raw_wire(sender@, receiver@, kind@));
    }
    out
}

/// The ping text a parent sends to a child in the raw-string complexity.
pub fn raw_ping_wire(sender_id: &str, receiver_id: &str) -> (r: String)
    ensures
        r@ == spec_raw_wire(sender_id@, receiver_id@, "ping"@),
{
    format_raw_message(sender_id, receiver_id, "ping")
}

/// The child's whole raw-string turn: parse an incoming ping text, refuse
/// it unless it is addressed to this child, and answer with the pong text
/// signed by this child and addressed to the ping's sender.
pub fn raw_pong_reply(child_id: &str, ping_text: &str) -> (r: Result<String, IpcError>)
    ensures
        match spec_parse_raw(ping_text@, "ping"@) {
            Some(parts) => {
                &&& (parts.1 == child_id@ ==> (r matches Ok(w) && w@ == spec_raw_wire(
                    child_id@,
                    parts.0,
                    "pong"@,
                )))
                &&& (parts.1 != child_id@ ==> r == Err::<String, IpcError>(
                    IpcError::ReceiverMismatch,
                ))
            },
            None => r == Err::<String, IpcError>(IpcError::MalformedMessage),
        },
{
    let ping = RawStringPingMessage::from_str(ping_text)?;
    if !str_eq(ping.receiver_id.as_str(), child_id) {
        return Err(IpcError::ReceiverMismatch);
    }
    Ok(format_raw_message(child_id, ping.sender_id.as_str(), "pong"))
}

/// The parent's validation of a raw-string pong text: it must parse, be
/// addressed to this parent, and be signed by the pinged child.  The
/// receiver is checked first.
pub fn check_raw_pong(pong_text: &str, expected_sender: &str, self_id: &str) -> (r: Result<
    (),
    IpcError,
>)
    ensures
        match spec_parse_raw(pong_text@, "pong"@) {
            Some(parts) => {
                &&& (r matches Ok(u) <==> (parts.1 == self_id@ && parts.0 == expected_sender@))
                &&& (parts.1 != self_id@ ==> r == Err::<(), IpcError>(IpcError::ReceiverMismatch))
                &&& (parts.1 == self_id@ && parts.0 != expected_sender@ ==> r == Err::<
                    (),
                    IpcError,
                >(IpcError::SenderMismatch))
            },
            None => r == Err::<(), IpcError>(IpcError::MalformedMessage),
        },
{
    let pong = RawStringPongMessage::from_str(pong_text)?;
    if !str_eq(pong.receiver_id.as_str(), self_id) {
        return Err(IpcError::ReceiverMismatch);
    }
    if !str_eq(pong.sender_id.as_str(), expected_sender) {
        return Err(IpcError::SenderMismatch);
    }
    Ok(())
}

/// A ping in the delimited raw-string form.
#[derive(Debug, Clone, PartialEq, Eq)]
pub struct RawStringPingMessage {
    /// Sender of the ping.
    pub sender_id: String,
    /// Intended receiver.
    pub receiver_id: String,
}

impl RawStringPingMessage {
    /// Parse the text `sender|receiver|ping`.
    pub fn from_str(s: &str) -> (r: Result<Self, IpcError>)
        ensures
            match spec_parse_raw(s@, "ping"@) {
                Some(parts) => r matches Ok(m) && m.sender_id@ == parts.0 && m.receiver_id@
                    == parts.1,
                None => r == Err::<Self, IpcError>(IpcError::MalformedMessage),
            },
    {
        proof {
            reveal_strlit("ping");
            assert(spec_bar_free("ping"@));
        }
        let (sender_id, receiver_id) = parse_raw(s, "ping")?;
        Ok(RawStringPingMessage { sender_id, receiver_id })
    }

    /// The sender (ID) of the message.
    pub fn sender_id(&self) -> (r: &str)
        ensures
            r@ == self.sender_id@,
    {
        self.sender_id.as_str()
    }

    /// The intended receiver (ID) of the message.
    pub fn receiver_id(&self) -> (r: &str)
        ensures
            r@ == self.receiver_id@,
    {
        self.receiver_id.as_str()
    }

    /// The wire text of this ping.
    pub fn to_wire(&self) -> (r: String)
        ensures
            r@ == spec_raw_wire(self.sender_id@, self.receiver_id@, "ping"@),
    {
        format_raw_message(self.sender_id.as_str(), self.receiver_id.as_str(), "ping")
    }
}

/// A pong in the delimited raw-string form.
#[derive(Debug, Clone, PartialEq, Eq)]
pub struct RawStringPongMessage {
    /// Sender of the pong.
    pub sender_id: String,
    /// Intended receiver.
    pub receiver_id: String,
}

impl RawStringPongMessage {
    /// Parse the text `sender|receiver|pong`.
    pub fn from_str(s: &str) -> (r: Result<Self, IpcError>)
        ensures
            match spec_parse_raw(s@, "pong"@) {
                Some(parts) => r matches Ok(m) && m.sender_id@ == parts.0 && m.receiver_id@
                    == parts.1,
                None => r == Err::<Self, IpcError>(IpcError::MalformedMessage),
            },
    {
        proof {
            reveal_strlit("pong");
            assert(spec_bar_free("pong"@));
        }
        let (sender_id, receiver_id) = parse_raw(s, "pong")?;
        Ok(RawStringPongMessage { sender_id, receiver_id })
    }

    /// The sender (ID) of the message.
    pub fn sender_id(&self) -> (r: &str)
        ensures
            r@ == self.sender_id@,
    {
        self.sender_id.as_str()
    }

    /// The intended receiver (ID) of the message.
    pub fn receiver_id(&self) -> (r: &str)
        ensures
            r@ == self.receiver_id@,
    {
        self.receiver_id.as_str()
    }

    /// The wire text of this pong.
    pub fn to_wire(&self) -> (r: String)
        ensures
            r@ == spec_raw_wire(self.sender_id@, self.receiver_id@, "pong"@),
    {
        format_raw_message(self.sender_id.as_str(), self.receiver_id.as_str(), "pong")
    }
}

} // verus!
