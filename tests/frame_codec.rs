use gatekeeper::frame::{
    announced_len, decode_frame, encode_frame, AuthQueryType, FrameError, MAX_PAYLOAD,
};

#[test]
fn round_trip_each_command() {
    let payload: Vec<u8> = vec![0xa2, 0x65, 0x65, 0x6d, 0x61, 0x69, 0x6c, 0xff, 0x00];
    for q in [
        AuthQueryType::SignUp,
        AuthQueryType::Login,
        AuthQueryType::Logout,
        AuthQueryType::Validate,
    ] {
        let bytes = encode_frame(q, &payload).unwrap();
        let frame = decode_frame(&bytes).unwrap();
        assert_eq!(frame.command, q);
        assert_eq!(frame.payload, payload);
    }
}

#[test]
fn encoded_layout() {
    let bytes = encode_frame(AuthQueryType::Validate, &vec![7, 8]).unwrap();
    assert_eq!(bytes, vec![0, 0, 0, 3, 4, 7, 8]);
    let bytes = encode_frame(AuthQueryType::SignUp, &vec![]).unwrap();
    assert_eq!(bytes, vec![0, 0, 0, 1, 1]);
}

#[test]
fn length_field_is_big_endian() {
    let payload: Vec<u8> = vec![0x55; 0x1ff];
    let bytes = encode_frame(AuthQueryType::Login, &payload).unwrap();
    assert_eq!(&bytes[..5], &[0, 0, 0x02, 0x00, 2]);
    assert_eq!(decode_frame(&bytes).unwrap().payload, payload);
}

#[test]
fn trailing_bytes_are_ignored() {
    let mut bytes = encode_frame(AuthQueryType::Logout, &vec![1, 2, 3]).unwrap();
    bytes.extend_from_slice(&[9, 9, 9]);
    let frame = decode_frame(&bytes).unwrap();
    assert_eq!(frame.command, AuthQueryType::Logout);
    assert_eq!(frame.payload, vec![1, 2, 3]);
}

#[test]
fn unknown_command_is_refused() {
    for cmd in [0u8, 5, 0x7f, 0xff] {
        let bytes: Vec<u8> = vec![0, 0, 0, 2, cmd, 0x11];
        assert!(matches!(decode_frame(&bytes), Err(FrameError::UnknownCommand)));
    }
    assert!(matches!(
        encode_frame(AuthQueryType::Unknown, &vec![1]),
        Err(FrameError::UnknownCommand)
    ));
}

#[test]
fn empty_read_is_refused() {
    assert!(matches!(decode_frame(&vec![]), Err(FrameError::Empty)));
    assert!(matches!(decode_frame(&vec![0, 0, 0, 0]), Err(FrameError::Empty)));
}

#[test]
fn short_read_is_refused() {
    assert!(matches!(decode_frame(&vec![0, 0]), Err(FrameError::Truncated)));
    assert!(matches!(decode_frame(&vec![0, 0, 0, 4, 2, 1]), Err(FrameError::Truncated)));
}

#[test]
fn command_bytes() {
    assert_eq!(AuthQueryType::from_byte(1), AuthQueryType::SignUp);
    assert_eq!(AuthQueryType::from_byte(2), AuthQueryType::Login);
    assert_eq!(AuthQueryType::from_byte(3), AuthQueryType::Logout);
    assert_eq!(AuthQueryType::from_byte(4), AuthQueryType::Validate);
    assert_eq!(AuthQueryType::from_byte(9), AuthQueryType::Unknown);
    assert_eq!(AuthQueryType::Validate.code(), Some(4));
    assert_eq!(AuthQueryType::Unknown.code(), None);
    assert_eq!(MAX_PAYLOAD, 0xFFFF_FFFE);
}

#[test]
fn announced_length() {
    assert_eq!(announced_len(&vec![0, 0, 1]), None);
    assert_eq!(announced_len(&vec![0, 0, 1, 2]), Some(258));
    assert_eq!(announced_len(&vec![0xff, 0, 0, 0, 9]), Some(0xff00_0000));
}
