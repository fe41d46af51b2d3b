use ipc_benchmark::errors::IpcError;
use ipc_benchmark::handshake::{ChildState, ParentState};
use ipc_benchmark::harness::{
    duration_or_default, secs_to_millis, should_stop, BenchState, DEFAULT_TEST_DURATION_SECONDS,
};
use ipc_benchmark::messages::RpcMessageComplexity;

#[test]
fn duration_falls_back_to_the_default() {
    assert_eq!(duration_or_default(Some(3)), 3);
    assert_eq!(duration_or_default(None), DEFAULT_TEST_DURATION_SECONDS);
    assert_eq!(DEFAULT_TEST_DURATION_SECONDS, 10);
}

#[test]
fn seconds_convert_to_milliseconds() {
    assert_eq!(secs_to_millis(0), 0);
    assert_eq!(secs_to_millis(1), 1000);
    assert_eq!(secs_to_millis(u64::MAX), u64::MAX as u128 * 1000);
}

#[test]
fn the_stop_rule_is_strictly_after_the_duration() {
    assert!(!should_stop(999, 1000));
    assert!(!should_stop(1000, 1000));
    assert!(should_stop(1001, 1000));
}

#[test]
fn counting_round_trips() {
    let mut bench = BenchState::new();
    assert_eq!(bench.roundtrips, 0);
    bench.record_roundtrip().unwrap();
    bench.record_roundtrip().unwrap();
    assert_eq!(bench.roundtrips, 2);
    let report = bench.report(10);
    assert_eq!(report.roundtrips, 2);
    assert_eq!(report.test_duration_seconds, 10);
}

#[test]
fn the_counter_refuses_to_wrap() {
    let mut bench = BenchState { roundtrips: u64::MAX };
    assert_eq!(bench.record_roundtrip().unwrap_err(), IpcError::Overflow);
    assert_eq!(bench.roundtrips, u64::MAX);
}

#[test]
fn one_second_run_against_an_echoing_child() {
    // A mock child that immediately echoes every ping as a correct pong,
    // over a channel with a 4096-byte capacity, driven by a simulated
    // clock for a one-second test duration.
    let mut parent = ParentState::with_id("parent-0".to_string(), RpcMessageComplexity::Json);
    let child = ChildState::with_id("child-0".to_string(), RpcMessageComplexity::Json);
    parent.record_child("child-1".to_string(), child.id());

    let mut region = ipc_benchmark::codec::Region::new(4096 + 10).unwrap();
    let duration_seconds: u64 = 1;
    let duration_ms = secs_to_millis(duration_seconds);
    let mut bench = BenchState::new();
    let mut now_ms: u128 = 0;
    loop {
        // One round trip: ping out, echo back, validate.
        let ping = parent.prepare_ping("child-1", now_ms).unwrap();
        let ping_bytes = format!("{}>{}", ping.sender_id(), ping.receiver_id()).into_bytes();
        region.write_frame(&ping_bytes).unwrap();
        assert_eq!(region.read_frame().unwrap(), ping_bytes);
        let pong = child.answer_ping(&ping, now_ms).unwrap();
        parent.accept_pong("child-1", &pong).unwrap();
        bench.record_roundtrip().unwrap();
        // The simulated clock: four round trips per second.
        now_ms += 250;
        if should_stop(now_ms, duration_ms) {
            break;
        }
    }
    let report = bench.report(duration_seconds);
    assert!(report.roundtrips >= 1);
    assert_eq!(report.roundtrips, 5);
    let rate = report.roundtrips as f64 / report.test_duration_seconds as f64;
    assert!((rate - report.roundtrips as f64 / 1.0).abs() < 1e-9);
}
