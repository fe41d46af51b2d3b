use ipc_benchmark::stream::{decode_stream_len, encode_stream_frame};

#[test]
fn stream_frame_prefixes_the_length() {
    let frame = encode_stream_frame(b"abc");
    assert_eq!(frame.len(), 11);
    assert_eq!(&frame[0..8], &[3, 0, 0, 0, 0, 0, 0, 0]);
    assert_eq!(&frame[8..], b"abc");
}

#[test]
fn stream_frame_of_the_empty_payload() {
    let frame = encode_stream_frame(&[]);
    assert_eq!(frame, vec![0u8; 8]);
}

#[test]
fn stream_round_trip() {
    let payload = vec![7u8; 300];
    let frame = encode_stream_frame(&payload);
    let len = decode_stream_len(&frame[0..8]);
    assert_eq!(len, 300);
    assert_eq!(&frame[8..8 + len as usize], payload.as_slice());
}
