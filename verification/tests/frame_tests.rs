use lp_json::frame::{
    check_declared, declared_length, decode_frame, encode_frame, length_prefix, FrameError,
    MAX_PREFIXED_LEN, PREFIX_LEN,
};

#[test]
fn prefix_is_four_bytes_big_endian() {
    assert_eq!(PREFIX_LEN, 4);
    assert_eq!(length_prefix(0), Ok(vec![0, 0, 0, 0]));
    assert_eq!(length_prefix(8), Ok(vec![0, 0, 0, 8]));
    assert_eq!(length_prefix(0x0102_0304), Ok(vec![1, 2, 3, 4]));
    assert_eq!(length_prefix(1_048_576), Ok(vec![0x00, 0x10, 0x00, 0x00]));
    assert_eq!(length_prefix(0xFFFF_FFFF), Ok(vec![0xFF, 0xFF, 0xFF, 0xFF]));
}

#[test]
fn prefix_cannot_announce_more_than_four_bytes_hold() {
    assert_eq!(MAX_PREFIXED_LEN, 4_294_967_295);
    if usize::BITS > 32 {
        let too_long = usize::MAX / 2;
        assert_eq!(length_prefix(too_long), Err(FrameError::Unrepresentable));
        assert_eq!(length_prefix(usize::MAX), Err(FrameError::Unrepresentable));
    }
}

#[test]
fn declared_length_reads_the_first_four_bytes() {
    assert_eq!(declared_length(&vec![1, 2, 3, 4]), Ok(0x0102_0304));
    assert_eq!(declared_length(&vec![0, 0, 1, 0, 9, 9, 9]), Ok(256));
    assert_eq!(declared_length(&vec![0, 0, 0, 0]), Ok(0));
    assert_eq!(declared_length(&vec![0xFF, 0xFF, 0xFF, 0xFF]), Ok(0xFFFF_FFFF));
}

#[test]
fn declared_length_needs_a_whole_prefix() {
    assert_eq!(declared_length(&Vec::new()), Err(FrameError::Truncated));
    assert_eq!(declared_length(&vec![0, 0, 1]), Err(FrameError::Truncated));
}

#[test]
fn declared_length_inverts_length_prefix() {
    for len in [0usize, 1, 255, 256, 65_535, 65_536, 1_048_576, 16_777_216, 0xFFFF_FFFF] {
        let prefix = length_prefix(len).unwrap();
        assert_eq!(prefix.len(), 4);
        assert_eq!(declared_length(&prefix), Ok(len));
    }
}

#[test]
fn check_declared_compares_with_the_limit() {
    assert_eq!(check_declared(10, 10), Ok(10));
    assert_eq!(check_declared(0, 0), Ok(0));
    assert_eq!(check_declared(11, 10), Err(FrameError::TooLarge));
    assert_eq!(check_declared(1, 0), Err(FrameError::TooLarge));
}

#[test]
fn encode_frame_is_prefix_then_payload() {
    assert_eq!(encode_frame(&Vec::new()), Ok(vec![0, 0, 0, 0]));
    assert_eq!(encode_frame(&vec![0xAB]), Ok(vec![0, 0, 0, 1, 0xAB]));
    let payload: Vec<u8> = (0..300u32).map(|i| (i % 256) as u8).collect();
    let wire = encode_frame(&payload).unwrap();
    assert_eq!(wire.len(), 304);
    assert_eq!(&wire[..4], &[0, 0, 1, 44]);
    assert_eq!(&wire[4..], &payload[..]);
}

#[test]
fn decode_frame_inverts_encode_frame() {
    let payload: Vec<u8> = b"{\"k\":[1,2,3]}".to_vec();
    let mut stream = encode_frame(&payload).unwrap();
    assert_eq!(decode_frame(&stream, 1024), Ok((payload.clone(), 4 + payload.len())));
    stream.extend_from_slice(&[0, 0, 0, 1, b'7']);
    assert_eq!(decode_frame(&stream, 1024), Ok((payload.clone(), 4 + payload.len())));
    let rest = stream[4 + payload.len()..].to_vec();
    assert_eq!(decode_frame(&rest, 1024), Ok((vec![b'7'], 5)));
}

#[test]
fn decode_frame_of_nothing_is_the_empty_frame() {
    assert_eq!(decode_frame(&Vec::new(), 1024), Ok((Vec::new(), 0)));
    assert_eq!(decode_frame(&Vec::new(), 0), Ok((Vec::new(), 0)));
    assert_eq!(decode_frame(&vec![0, 0, 0, 0], 0), Ok((Vec::new(), 4)));
}

#[test]
fn decode_frame_reports_a_cut_prefix() {
    assert_eq!(decode_frame(&vec![0], 1024), Err(FrameError::Truncated));
    assert_eq!(decode_frame(&vec![0, 0], 1024), Err(FrameError::Truncated));
    assert_eq!(decode_frame(&vec![0, 0, 0], 1024), Err(FrameError::Truncated));
}

#[test]
fn decode_frame_reports_a_cut_payload() {
    assert_eq!(decode_frame(&vec![0, 0, 0, 3, 1, 2], 1024), Err(FrameError::Truncated));
    assert_eq!(decode_frame(&vec![0, 0, 0, 1], 1024), Err(FrameError::Truncated));
}

#[test]
fn decode_frame_applies_the_limit_to_the_prefix() {
    assert_eq!(decode_frame(&vec![0, 0, 0, 3, 1, 2, 3], 2), Err(FrameError::TooLarge));
    assert_eq!(decode_frame(&vec![0, 0, 0, 3], 2), Err(FrameError::TooLarge));
    assert_eq!(decode_frame(&vec![0, 0, 0, 3, 1, 2, 3], 3), Ok((vec![1, 2, 3], 7)));
    assert_eq!(decode_frame(&vec![0xFF, 0xFF, 0xFF, 0xFF], usize::MAX - 1).is_err(), true);
}
