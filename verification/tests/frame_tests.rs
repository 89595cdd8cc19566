use lib8080_msg::frame::{
    frame_bytes, native_frame_bytes, native_payload_len, payload_len, split_frame,
    u32_from_be_bytes, u32_to_be_bytes, HEADER_LEN,
};

#[test]
fn frame_of_get_port_packet() {
    // the JSON text of `Packet::GetPort` is `"GetPort"`, nine bytes
    let json = b"\"GetPort\"";
    let framed = frame_bytes(json);
    let mut expected = vec![0u8, 0, 0, 9];
    expected.extend_from_slice(json);
    assert_eq!(framed, expected);
}

#[test]
fn frame_header_is_big_endian() {
    let payload = vec![0xabu8; 0x0102];
    let framed = frame_bytes(&payload);
    assert_eq!(&framed[..4], &[0, 0, 1, 2]);
    assert_eq!(framed.len(), 4 + 0x0102);
    assert_eq!(&framed[4..], &payload[..]);
}

#[test]
fn frame_of_empty_payload() {
    assert_eq!(frame_bytes(&[]), vec![0u8, 0, 0, 0]);
}

#[test]
fn be_bytes_of_numbers() {
    assert_eq!(u32_to_be_bytes(0x0102_0304), [1, 2, 3, 4]);
    assert_eq!(u32_to_be_bytes(u32::MAX), [255, 255, 255, 255]);
    assert_eq!(u32_from_be_bytes([1, 2, 3, 4]), 0x0102_0304);
    assert_eq!(u32_from_be_bytes([0, 0, 0, 9]), 9);
    for x in [0u32, 1, 255, 256, 65535, 65536, 0xdead_beef, u32::MAX] {
        assert_eq!(u32_to_be_bytes(x), x.to_be_bytes());
        assert_eq!(u32_from_be_bytes(x.to_be_bytes()), x);
    }
}

#[test]
fn payload_len_reads_header() {
    assert_eq!(payload_len([0, 0, 0x10, 0x01]), 0x1001);
    assert_eq!(HEADER_LEN, 4);
}

#[test]
fn split_frame_roundtrip_with_rest() {
    let payload = b"{\"Join\":\"bob\"}".to_vec();
    let mut stream = frame_bytes(&payload);
    stream.extend_from_slice(&[9, 9, 9]);
    let (got, used) = split_frame(&stream).expect("a whole frame is there");
    assert_eq!(got, payload);
    assert_eq!(used, 4 + payload.len());
    assert_eq!(&stream[used..], &[9, 9, 9]);
}

#[test]
fn split_frame_incomplete() {
    assert!(split_frame(&[0, 0]).is_none());
    assert!(split_frame(&[0, 0, 0, 3, 1, 2]).is_none());
    assert_eq!(split_frame(&[0, 0, 0, 0]), Some((vec![], 4)));
}

#[test]
fn native_frame_matches_machine_order() {
    let payload = vec![5u8; 300];
    let framed = native_frame_bytes(&payload);
    assert_eq!(&framed[..4], &(300u32).to_ne_bytes());
    assert_eq!(&framed[4..], &payload[..]);
    let header = [framed[0], framed[1], framed[2], framed[3]];
    assert_eq!(native_payload_len(header), 300);
    assert_eq!(native_payload_len(0x0a0b_0c0du32.to_ne_bytes()), 0x0a0b_0c0d);
}
