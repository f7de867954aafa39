use telemetry_publisher::codec::decode_connack;
use telemetry_publisher::codec::encode_connect;
use telemetry_publisher::codec::encode_publish;
use telemetry_publisher::codec::EncodeError;
use telemetry_publisher::codec::ProtocolError;

#[test]
fn connect_frame_full_layout() {
    let f = encode_connect(b"esp32-sensor").unwrap();
    let mut expected: Vec<u8> = vec![
        0x10, 24, 0x00, 0x04, b'M', b'Q', b'T', b'T', 0x04, 0x02, 0x00, 60, 0x00, 12,
    ];
    expected.extend_from_slice(b"esp32-sensor");
    assert_eq!(f.bytes, expected);
}

#[test]
fn connect_header_bytes_for_any_short_id() {
    for len in [0usize, 1, 23, 115] {
        let id = vec![b'a'; len];
        let f = encode_connect(&id).unwrap();
        assert_eq!(f.bytes[0], 0x10);
        assert_eq!(f.bytes[1] as usize, 10 + 2 + len);
        assert_eq!(f.bytes.len(), 2 + 10 + 2 + len);
    }
}

#[test]
fn connect_rejects_identifier_over_capacity() {
    for len in [116usize, 127, 200] {
        let id = vec![b'a'; len];
        let r = encode_connect(&id);
        assert!(matches!(r, Err(EncodeError::PayloadTooLarge)));
    }
}

#[test]
fn connack_accepted_and_refused() {
    assert!(decode_connack([0x20, 0x02, 0x00, 0x00]).is_ok());

    let r = decode_connack([0x20, 0x02, 0x00, 0x05]);
    assert_eq!(
        r.unwrap_err(),
        ProtocolError::Refused { raw: [0x20, 0x02, 0x00, 0x05] }
    );
}

#[test]
fn connack_wrong_type_refused_regardless_of_code() {
    for b0 in [0x00u8, 0x10, 0x21, 0x30, 0xff] {
        let r = decode_connack([b0, 0x02, 0x00, 0x00]);
        assert_eq!(r.unwrap_err(), ProtocolError::Refused { raw: [b0, 0x02, 0x00, 0x00] });
    }
}

#[test]
fn publish_frame_round_trip() {
    let topic = b"sensors/temp";
    let payload = b"23.5";
    let f = encode_publish(topic, payload).unwrap();
    let rem = 2 + topic.len() + payload.len();
    assert_eq!(f.bytes[0], 0x30);
    assert_eq!(f.bytes[1] as usize, rem);
    let tlen = ((f.bytes[2] as usize) << 8) | f.bytes[3] as usize;
    assert_eq!(tlen, topic.len());
    assert_eq!(&f.bytes[4..4 + topic.len()], topic);
    assert_eq!(&f.bytes[4 + topic.len()..], payload);
    assert_eq!(f.bytes.len(), 2 + rem);
}

#[test]
fn publish_at_exact_capacity() {
    let payload = vec![0x55u8; 125];
    let f = encode_publish(b"", &payload).unwrap();
    assert_eq!(f.bytes[1], 127);
    assert_eq!(f.bytes.len(), 129);
}

#[test]
fn publish_rejects_over_capacity() {
    let payload = vec![0x55u8; 126];
    assert!(matches!(encode_publish(b"", &payload), Err(EncodeError::PayloadTooLarge)));

    let topic = vec![b't'; 60];
    let payload = vec![0u8; 66];
    assert!(matches!(encode_publish(&topic, &payload), Err(EncodeError::PayloadTooLarge)));
}

#[test]
fn publish_identical_arguments_identical_frames() {
    let a = encode_publish(b"sensors/temp", b"21.0").unwrap();
    let b = encode_publish(b"sensors/temp", b"21.0").unwrap();
    assert_eq!(a.bytes, b.bytes);
}
