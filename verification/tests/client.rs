use telemetry_publisher::client::HandshakeError;
use telemetry_publisher::client::ProtocolClient;
use telemetry_publisher::client::PublishError;
use telemetry_publisher::codec::EncodeError;

#[test]
fn fresh_client_not_connected() {
    let c = ProtocolClient::new();
    assert!(!c.is_connected());
}

#[test]
fn accepted_ack_connects() {
    let mut c = ProtocolClient::new();
    let r = c.complete_handshake(Some([0x20, 0x02, 0x00, 0x00]));
    assert!(r.is_ok());
    assert!(c.is_connected());
}

#[test]
fn refused_ack_stays_disconnected() {
    let mut c = ProtocolClient::new();
    let r = c.complete_handshake(Some([0x20, 0x02, 0x00, 0x05]));
    assert_eq!(
        r.unwrap_err(),
        HandshakeError::Refused { raw: [0x20, 0x02, 0x00, 0x05] }
    );
    assert!(!c.is_connected());
}

#[test]
fn transport_failure_stays_disconnected() {
    let mut c = ProtocolClient::new();
    let r = c.complete_handshake(None);
    assert_eq!(r.unwrap_err(), HandshakeError::Transport);
    assert!(!c.is_connected());
}

#[test]
fn prepare_connect_builds_the_connect_frame() {
    let c = ProtocolClient::new();
    let f = c.prepare_connect(b"dev").unwrap();
    assert_eq!(f.bytes[0], 0x10);
    assert_eq!(f.bytes[1], 15);
}

#[test]
fn prepare_connect_surfaces_encode_failure() {
    let c = ProtocolClient::new();
    let id = vec![b'a'; 120];
    let r = c.prepare_connect(&id);
    assert_eq!(
        r.unwrap_err(),
        HandshakeError::Encode { err: EncodeError::PayloadTooLarge }
    );
}

#[test]
fn prepare_publish_builds_the_publish_frame() {
    let c = ProtocolClient::new();
    let f = c.prepare_publish(b"t", b"1.0").unwrap();
    assert_eq!(f.bytes[0], 0x30);
    assert_eq!(f.bytes[1], 6);
}

#[test]
fn prepare_publish_surfaces_encode_failure() {
    let c = ProtocolClient::new();
    let payload = vec![0u8; 130];
    let r = c.prepare_publish(b"t", &payload);
    assert_eq!(
        r.unwrap_err(),
        PublishError::Encode { err: EncodeError::PayloadTooLarge }
    );
}

#[test]
fn disconnect_clears_the_flag() {
    let mut c = ProtocolClient::new();
    c.complete_handshake(Some([0x20, 0x02, 0x00, 0x00])).unwrap();
    assert!(c.is_connected());
    c.record_disconnect();
    assert!(!c.is_connected());
}
