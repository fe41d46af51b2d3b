use ipc_benchmark::codec::{Region, HEADER_BYTES, LENGTH_BYTES, SIGNAL_BYTES};
use ipc_benchmark::errors::IpcError;

#[test]
fn header_layout_constants() {
    assert_eq!(SIGNAL_BYTES, 2);
    assert_eq!(LENGTH_BYTES, 8);
    assert_eq!(HEADER_BYTES, 10);
}

#[test]
fn new_region_is_zeroed() {
    let region = Region::new(16).unwrap();
    assert_eq!(region.bytes.len(), 16);
    assert!(region.bytes.iter().all(|b| *b == 0));
}

#[test]
fn region_below_header_size_is_refused() {
    assert_eq!(Region::new(9).unwrap_err(), IpcError::RegionTooSmall);
    assert_eq!(Region::new(0).unwrap_err(), IpcError::RegionTooSmall);
}

#[test]
fn max_msg_size_is_size_minus_overhead() {
    let region = Region::new(4106).unwrap();
    assert_eq!(region.max_msg_size(), 4096);
}

#[test]
fn frame_round_trip() {
    let mut region = Region::new(64).unwrap();
    let payload = b"hello over shared memory";
    let written = region.write_frame(payload).unwrap();
    assert_eq!(written, payload.len());
    assert_eq!(region.read_frame().unwrap(), payload.to_vec());
}

#[test]
fn empty_payload_round_trip() {
    let mut region = Region::new(10).unwrap();
    let written = region.write_frame(&[]).unwrap();
    assert_eq!(written, 0);
    assert_eq!(region.read_frame().unwrap(), Vec::<u8>::new());
}

#[test]
fn length_header_is_little_endian_at_offset_two() {
    let mut region = Region::new(32).unwrap();
    region.write_frame(&[7u8; 5]).unwrap();
    assert_eq!(&region.bytes[2..10], &[5, 0, 0, 0, 0, 0, 0, 0]);
    assert_eq!(&region.bytes[10..15], &[7, 7, 7, 7, 7]);
}

#[test]
fn signal_bytes_untouched_by_write() {
    let mut region = Region::new(32).unwrap();
    region.bytes[0] = 0xAA;
    region.bytes[1] = 0xBB;
    region.write_frame(b"xy").unwrap();
    assert_eq!(region.bytes[0], 0xAA);
    assert_eq!(region.bytes[1], 0xBB);
}

#[test]
fn payload_of_exactly_max_capacity_succeeds() {
    let mut region = Region::new(4096 + 10).unwrap();
    let payload = vec![0x5Au8; 4096];
    let written = region.write_frame(&payload).unwrap();
    assert_eq!(written, 4096);
    assert_eq!(region.read_frame().unwrap(), payload);
}

#[test]
fn payload_one_byte_over_max_capacity_is_a_capacity_error() {
    let mut region = Region::new(4096 + 10).unwrap();
    let payload = vec![0x5Au8; 4097];
    assert_eq!(region.write_frame(&payload).unwrap_err(), IpcError::CapacityExceeded);
}

#[test]
fn failed_write_leaves_region_unchanged() {
    let mut region = Region::new(26).unwrap();
    let first = b"sixteen-byte-msg";
    region.write_frame(first).unwrap();
    let snapshot = region.bytes.clone();
    let oversized = vec![1u8; 17];
    assert_eq!(region.write_frame(&oversized).unwrap_err(), IpcError::CapacityExceeded);
    assert_eq!(region.bytes, snapshot);
    assert_eq!(region.read_frame().unwrap(), first.to_vec());
}

#[test]
fn oversized_length_header_is_refused_on_read() {
    let mut region = Region::new(16).unwrap();
    for k in 2..10 {
        region.bytes[k] = 0xFF;
    }
    assert_eq!(region.read_frame().unwrap_err(), IpcError::InvalidLengthHeader);
}
