use microvm_node::frame::{
    encode_frame, frame_length, read_frame, read_packet_length, CommErrors, FrameError, FrameRead,
    MAX_PACKET_SIZE,
};

#[test]
fn frame_has_big_endian_length_prefix() {
    let f = encode_frame(&[7, 8, 9]);
    assert_eq!(f, vec![0, 0, 0, 3, 7, 8, 9]);
    let big = vec![1u8; 300];
    let f = encode_frame(&big);
    assert_eq!(&f[..4], &[0, 0, 1, 44]);
    assert_eq!(f.len(), 304);
}

#[test]
fn frame_round_trip() {
    let payload = vec![5u8, 4, 3, 2, 1];
    let mut bytes = encode_frame(&payload);
    bytes.extend_from_slice(&[0xAA, 0xBB]);
    match read_frame(&bytes) {
        FrameRead::Complete { payload: p, consumed } => {
            assert_eq!(p, payload);
            assert_eq!(consumed, 9);
        }
        other => panic!("unexpected {:?}", other),
    }
}

#[test]
fn zero_length_frame_is_refused() {
    assert_eq!(frame_length(&[0, 0, 0, 0]), Err(FrameError::Empty));
    assert!(matches!(read_frame(&[0, 0, 0, 0, 1]), FrameRead::Invalid(FrameError::Empty)));
}

#[test]
fn oversized_frame_is_refused() {
    let n = (MAX_PACKET_SIZE as u32 + 1).to_be_bytes();
    assert_eq!(frame_length(&n), Err(FrameError::TooLarge));
    let max = (MAX_PACKET_SIZE as u32).to_be_bytes();
    assert_eq!(frame_length(&max), Ok(MAX_PACKET_SIZE));
    assert_eq!(frame_length(&[0xff, 0xff, 0xff, 0xff]), Err(FrameError::TooLarge));
    assert_eq!(read_packet_length(&n), Err(CommErrors::HostDeserializationError));
    assert_eq!(read_packet_length(&[0, 0, 0, 2]), Ok(2));
}

#[test]
fn partial_frames_wait_for_more() {
    assert!(matches!(read_frame(&[0, 0]), FrameRead::Incomplete));
    assert!(matches!(read_frame(&[0, 0, 0, 3, 1, 2]), FrameRead::Incomplete));
}
