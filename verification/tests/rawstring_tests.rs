use ipc_benchmark::errors::IpcError;
use ipc_benchmark::rawstring::{
    check_raw_pong, format_raw_message, raw_ping_wire, raw_pong_reply, RawStringPingMessage,
    RawStringPongMessage,
};

#[test]
fn parse_valid_ping() {
    let msg = RawStringPingMessage::from_str("alice|bob|ping").unwrap();
    assert_eq!(msg.sender_id(), "alice");
    assert_eq!(msg.receiver_id(), "bob");
}

#[test]
fn parse_valid_pong() {
    let msg = RawStringPongMessage::from_str("bob|alice|pong").unwrap();
    assert_eq!(msg.sender_id(), "bob");
    assert_eq!(msg.receiver_id(), "alice");
}

#[test]
fn format_then_parse_recovers_the_ids() {
    let wire = format_raw_message("alice", "bob", "ping");
    assert_eq!(wire, "alice|bob|ping");
    let msg = RawStringPingMessage::from_str(&wire).unwrap();
    assert_eq!(msg.sender_id(), "alice");
    assert_eq!(msg.receiver_id(), "bob");
}

#[test]
fn to_wire_round_trip() {
    let pong = RawStringPongMessage {
        sender_id: "child-uuid".to_string(),
        receiver_id: "parent-uuid".to_string(),
    };
    let parsed = RawStringPongMessage::from_str(&pong.to_wire()).unwrap();
    assert_eq!(parsed.sender_id(), "child-uuid");
    assert_eq!(parsed.receiver_id(), "parent-uuid");
}

#[test]
fn text_without_delimiters_is_malformed() {
    assert_eq!(
        RawStringPingMessage::from_str("ping").unwrap_err(),
        IpcError::MalformedMessage
    );
}

#[test]
fn text_with_two_parts_is_malformed() {
    assert_eq!(
        RawStringPingMessage::from_str("alice|ping").unwrap_err(),
        IpcError::MalformedMessage
    );
}

#[test]
fn text_with_four_parts_is_malformed() {
    assert_eq!(
        RawStringPingMessage::from_str("a|b|c|ping").unwrap_err(),
        IpcError::MalformedMessage
    );
}

#[test]
fn empty_sender_is_malformed() {
    assert_eq!(
        RawStringPingMessage::from_str("|bob|ping").unwrap_err(),
        IpcError::MalformedMessage
    );
}

#[test]
fn empty_receiver_is_malformed() {
    assert_eq!(
        RawStringPingMessage::from_str("alice||ping").unwrap_err(),
        IpcError::MalformedMessage
    );
}

#[test]
fn wrong_kind_is_malformed() {
    assert_eq!(
        RawStringPingMessage::from_str("alice|bob|pong").unwrap_err(),
        IpcError::MalformedMessage
    );
    assert_eq!(
        RawStringPongMessage::from_str("alice|bob|ping").unwrap_err(),
        IpcError::MalformedMessage
    );
}

#[test]
fn raw_ping_wire_has_the_wire_shape() {
    assert_eq!(raw_ping_wire("p-1", "c-1"), "p-1|c-1|ping");
}

#[test]
fn raw_pong_reply_swaps_sender_and_receiver() {
    let reply = raw_pong_reply("c-1", "p-1|c-1|ping").unwrap();
    assert_eq!(reply, "c-1|p-1|pong");
}

#[test]
fn raw_pong_reply_refuses_a_ping_for_someone_else() {
    assert_eq!(
        raw_pong_reply("c-1", "p-1|c-2|ping").unwrap_err(),
        IpcError::ReceiverMismatch
    );
}

#[test]
fn raw_pong_reply_refuses_malformed_text() {
    assert_eq!(
        raw_pong_reply("c-1", "nonsense").unwrap_err(),
        IpcError::MalformedMessage
    );
}

#[test]
fn check_raw_pong_accepts_the_matching_answer() {
    assert!(check_raw_pong("c-1|p-1|pong", "c-1", "p-1").is_ok());
}

#[test]
fn check_raw_pong_refuses_wrong_receiver() {
    assert_eq!(
        check_raw_pong("c-1|p-2|pong", "c-1", "p-1").unwrap_err(),
        IpcError::ReceiverMismatch
    );
}

#[test]
fn check_raw_pong_refuses_wrong_sender() {
    assert_eq!(
        check_raw_pong("c-2|p-1|pong", "c-1", "p-1").unwrap_err(),
        IpcError::SenderMismatch
    );
}
