use ipc_benchmark::errors::IpcError;
use ipc_benchmark::messages::{PingMessage, PongMessage};
use ipc_benchmark::pingpong::{check_ping, check_pong, pong_for_ping};

fn ping_to(receiver: &str) -> PingMessage {
    PingMessage::new("parent-id".to_string(), receiver.to_string(), 1111)
}

#[test]
fn pong_answers_with_swapped_ids() {
    let ping = ping_to("child-id");
    let pong = pong_for_ping("child-id", &ping, 2222).unwrap();
    assert_eq!(pong.sender_id(), "child-id");
    assert_eq!(pong.receiver_id(), "parent-id");
    assert_eq!(pong.sent_at_ms(), 2222);
}

#[test]
fn pong_for_a_misaddressed_ping_is_refused() {
    let ping = ping_to("someone-else");
    assert_eq!(
        pong_for_ping("child-id", &ping, 2222).unwrap_err(),
        IpcError::ReceiverMismatch
    );
}

#[test]
fn a_correct_answer_passes_the_parent_validation() {
    let ping = ping_to("child-id");
    let pong = pong_for_ping("child-id", &ping, 2222).unwrap();
    assert!(check_pong(&pong, "child-id", "parent-id").is_ok());
}

#[test]
fn pong_from_the_wrong_sender_is_refused() {
    let pong = PongMessage::new("impostor".to_string(), "parent-id".to_string(), 3);
    assert_eq!(
        check_pong(&pong, "child-id", "parent-id").unwrap_err(),
        IpcError::SenderMismatch
    );
}

#[test]
fn pong_with_wrong_receiver_fails_the_round_trip() {
    let pong = PongMessage::new("child-id".to_string(), "not-the-parent".to_string(), 3);
    assert_eq!(
        check_pong(&pong, "child-id", "parent-id").unwrap_err(),
        IpcError::ReceiverMismatch
    );
}

#[test]
fn ping_validation_checks_sender_then_receiver() {
    let good = PingMessage::new("parent-id".to_string(), "child-id".to_string(), 0);
    assert!(check_ping(&good, "parent-id", "child-id").is_ok());

    let wrong_sender = PingMessage::new("stranger".to_string(), "child-id".to_string(), 0);
    assert_eq!(
        check_ping(&wrong_sender, "parent-id", "child-id").unwrap_err(),
        IpcError::SenderMismatch
    );

    let wrong_receiver = PingMessage::new("parent-id".to_string(), "other".to_string(), 0);
    assert_eq!(
        check_ping(&wrong_receiver, "parent-id", "child-id").unwrap_err(),
        IpcError::ReceiverMismatch
    );
}
