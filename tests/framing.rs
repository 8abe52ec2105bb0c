use casper_node::framing::{decode_header, encode_header, FrameError, MAXIMUM_NET_MESSAGE_SIZE};

#[test]
fn header_is_big_endian_length() {
    assert_eq!(encode_header(0x0102_0304), [1, 2, 3, 4]);
    assert_eq!(encode_header(0), [0, 0, 0, 0]);
}

#[test]
fn header_round_trip() {
    for len in [0u32, 1, 255, 256, 65_535, 1 << 20, MAXIMUM_NET_MESSAGE_SIZE] {
        assert_eq!(decode_header(encode_header(len), MAXIMUM_NET_MESSAGE_SIZE), Ok(len));
    }
}

#[test]
fn oversized_frame_refused() {
    assert_eq!(MAXIMUM_NET_MESSAGE_SIZE, 22 * 1024 * 1024);
    let h = encode_header(MAXIMUM_NET_MESSAGE_SIZE + 1);
    assert_eq!(
        decode_header(h, MAXIMUM_NET_MESSAGE_SIZE),
        Err(FrameError::TooLarge { length: MAXIMUM_NET_MESSAGE_SIZE + 1, maximum: MAXIMUM_NET_MESSAGE_SIZE })
    );
    assert_eq!(decode_header([0xff, 0xff, 0xff, 0xff], 10), Err(FrameError::TooLarge { length: u32::MAX, maximum: 10 }));
}
