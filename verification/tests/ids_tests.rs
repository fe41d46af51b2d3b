use ipc_benchmark::ids::fresh_process_id;
use ipc_benchmark::rawstring::RawStringPingMessage;

#[test]
fn a_process_id_is_canonical_uuid_text() {
    let id = fresh_process_id();
    assert_eq!(id.chars().count(), 36);
    assert!(id
        .chars()
        .all(|c| c == '-' || c.is_ascii_digit() || ('a'..='f').contains(&c)));
}

#[test]
fn two_process_ids_differ() {
    assert_ne!(fresh_process_id(), fresh_process_id());
}

#[test]
fn process_ids_survive_the_raw_wire() {
    let parent = fresh_process_id();
    let child = fresh_process_id();
    let wire = ipc_benchmark::rawstring::raw_ping_wire(&parent, &child);
    let parsed = RawStringPingMessage::from_str(&wire).unwrap();
    assert_eq!(parsed.sender_id(), parent);
    assert_eq!(parsed.receiver_id(), child);
}
