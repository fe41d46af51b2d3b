use ipc_benchmark::errors::IpcError;
use ipc_benchmark::messages::{
    IpcChannelChildInit, IpcChannelChildInitResponse, IpcChannelInitComplete, PingMessage,
    PongMessage, RpcMessageComplexity, SerializedShmemHandle, SharedMemQueueInit,
    SharedMemQueueInitResponse, SharedRegionInfo,
};

#[test]
fn complexity_parses_known_values() {
    assert_eq!(
        RpcMessageComplexity::from_str("json").unwrap(),
        RpcMessageComplexity::Json
    );
    assert_eq!(
        RpcMessageComplexity::from_str("raw-string").unwrap(),
        RpcMessageComplexity::RawString
    );
}

#[test]
fn complexity_refuses_unknown_values() {
    assert_eq!(
        RpcMessageComplexity::from_str("yaml").unwrap_err(),
        IpcError::InvalidComplexity
    );
    assert_eq!(
        RpcMessageComplexity::from_str("").unwrap_err(),
        IpcError::InvalidComplexity
    );
}

#[test]
fn complexity_default_is_json() {
    assert_eq!(RpcMessageComplexity::default(), RpcMessageComplexity::Json);
}

#[test]
fn env_selection_takes_the_first_matching_key() {
    let vars = vec![
        ("PATH".to_string(), "/usr/bin".to_string()),
        ("RPC_MESSAGE_COMPLEXITY".to_string(), "raw-string".to_string()),
        ("RPC_MESSAGE_COMPLEXITY".to_string(), "json".to_string()),
    ];
    assert_eq!(
        RpcMessageComplexity::from_env_or_default(&vars),
        RpcMessageComplexity::RawString
    );
}

#[test]
fn env_selection_defaults_without_the_key() {
    let vars = vec![("HOME".to_string(), "/root".to_string())];
    assert_eq!(
        RpcMessageComplexity::from_env_or_default(&vars),
        RpcMessageComplexity::Json
    );
    assert_eq!(
        RpcMessageComplexity::from_env_or_default(&Vec::new()),
        RpcMessageComplexity::Json
    );
}

#[test]
fn env_selection_defaults_on_an_unknown_value() {
    let vars = vec![("RPC_MESSAGE_COMPLEXITY".to_string(), "xml".to_string())];
    assert_eq!(
        RpcMessageComplexity::from_env_or_default(&vars),
        RpcMessageComplexity::Json
    );
}

#[test]
fn ping_message_carries_its_fields() {
    let ping = PingMessage::new("sender".to_string(), "receiver".to_string(), 123456789);
    assert_eq!(ping.sender_id(), "sender");
    assert_eq!(ping.receiver_id(), "receiver");
    assert_eq!(ping.sent_at_ms(), 123456789);
}

#[test]
fn pong_message_carries_its_fields() {
    let pong = PongMessage::new("sender".to_string(), "receiver".to_string(), 42);
    assert_eq!(pong.sender_id(), "sender");
    assert_eq!(pong.receiver_id(), "receiver");
    assert_eq!(pong.sent_at_ms(), 42);
}

#[test]
fn channel_init_messages_carry_their_fields() {
    let init = IpcChannelChildInit::new("parent".to_string(), "server-0".to_string());
    assert_eq!(init.parent_id(), "parent");
    assert_eq!(init.ipc_server_name(), "server-0");

    let resp =
        IpcChannelChildInitResponse::new("child".to_string(), "parent".to_string(), "server-1".to_string());
    assert_eq!(resp.child_id(), "child");
    assert_eq!(resp.parent_id(), "parent");
    assert_eq!(resp.ipc_server_name(), "server-1");

    let complete = IpcChannelInitComplete::new("parent".to_string(), "child".to_string());
    assert_eq!(complete.parent_id(), "parent");
    assert_eq!(complete.child_id(), "child");
}

#[test]
fn shmem_handshake_messages_carry_their_fields() {
    let handle = SerializedShmemHandle::new("os-id-7".to_string(), 131072);
    assert_eq!(handle.os_id, "os-id-7");
    assert_eq!(handle.size_bytes, 131072);

    let region = SharedRegionInfo::new("/tmp/region".to_string(), 64, 4096);
    let init = SharedMemQueueInit::new("parent".to_string(), Some(region.clone()), region.clone());
    assert_eq!(init.parent_id, "parent");
    assert_eq!(init.parent_region.as_ref().unwrap().offset, 64);
    assert_eq!(init.child_region.len, 4096);

    let resp = SharedMemQueueInitResponse::new("parent".to_string(), "child".to_string());
    assert_eq!(resp.parent_id, "parent");
    assert_eq!(resp.child_id, "child");
}
