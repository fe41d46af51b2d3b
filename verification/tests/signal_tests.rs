use ipc_benchmark::errors::IpcError;
use ipc_benchmark::signal::{SignalChannel, SignalState, WriterPhase};

#[test]
fn create_starts_clear() {
    let chan = SignalChannel::create(32).unwrap();
    assert_eq!(chan.signal, SignalState::Clear);
    assert_eq!(chan.writer, WriterPhase::Idle);
    assert_eq!(chan.region.bytes.len(), 32);
}

#[test]
fn create_below_header_size_is_refused() {
    assert_eq!(SignalChannel::create(4).unwrap_err(), IpcError::RegionTooSmall);
}

#[test]
fn send_frame_signals_and_take_frame_reads_it() {
    let mut chan = SignalChannel::create(64).unwrap();
    let written = chan.send_frame(b"ready").unwrap();
    assert_eq!(written, 5);
    assert_eq!(chan.signal, SignalState::Signaled);
    assert_eq!(chan.take_frame(), b"ready".to_vec());
}

#[test]
fn oversized_send_keeps_signal_clear_and_region_intact() {
    let mut chan = SignalChannel::create(20).unwrap();
    let snapshot = chan.region.bytes.clone();
    let oversized = vec![9u8; 11];
    assert_eq!(chan.send_frame(&oversized).unwrap_err(), IpcError::CapacityExceeded);
    assert_eq!(chan.signal, SignalState::Clear);
    assert_eq!(chan.region.bytes, snapshot);
}

#[test]
fn clear_signal_resets_without_touching_region() {
    let mut chan = SignalChannel::create(32).unwrap();
    chan.send_frame(b"abc").unwrap();
    let snapshot = chan.region.bytes.clone();
    chan.clear_signal();
    assert_eq!(chan.signal, SignalState::Clear);
    assert_eq!(chan.region.bytes, snapshot);
}

#[test]
fn second_send_replaces_the_pending_frame() {
    let mut chan = SignalChannel::create(64).unwrap();
    chan.send_frame(b"first").unwrap();
    chan.send_frame(b"second").unwrap();
    assert_eq!(chan.signal, SignalState::Signaled);
    assert_eq!(chan.take_frame(), b"second".to_vec());
}
