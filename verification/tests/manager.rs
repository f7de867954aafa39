use telemetry_publisher::manager::ConnectionManager;
use telemetry_publisher::manager::ConnectionState;
use telemetry_publisher::manager::Event;
use telemetry_publisher::manager::ADDRESS_POLL_DELAY_MS;
use telemetry_publisher::manager::LINK_RETRY_DELAY_MS;
use telemetry_publisher::manager::PUBLISH_PERIOD_MS;
use telemetry_publisher::manager::TRANSPORT_RETRY_DELAY_MS;

#[test]
fn bring_up_with_failures_at_each_layer() {
    let mut m = ConnectionManager::new();
    assert_eq!(m.state(), ConnectionState::LinkDown);

    // Link-connect failure: retry in place, with one delay.
    let s = m.handle(Event::LinkConnectFailed);
    assert_eq!(m.state(), ConnectionState::LinkDown);
    assert_eq!(s.delay_ms, LINK_RETRY_DELAY_MS);
    assert!(!s.close_session);

    // Link-connect success: no delay.
    let s = m.handle(Event::LinkConnected);
    assert_eq!(m.state(), ConnectionState::LinkUp);
    assert_eq!(s.delay_ms, 0);

    // Address assigned: on to the transport layer.
    let s = m.handle(Event::AddressAssigned);
    assert_eq!(m.state(), ConnectionState::TransportConnecting);
    assert_eq!(s.delay_ms, 0);

    // Transport-connect failure: retry in place, with one delay.
    let s = m.handle(Event::TransportConnectFailed);
    assert_eq!(m.state(), ConnectionState::TransportConnecting);
    assert_eq!(s.delay_ms, TRANSPORT_RETRY_DELAY_MS);

    // Transport-connect success.
    let s = m.handle(Event::TransportConnected);
    assert_eq!(m.state(), ConnectionState::HandshakePending);
    assert_eq!(s.delay_ms, 0);

    // Handshake refusal: back to the transport layer, not the link layer.
    let s = m.handle(Event::HandshakeFailed);
    assert_eq!(m.state(), ConnectionState::TransportConnecting);
    assert_eq!(s.delay_ms, TRANSPORT_RETRY_DELAY_MS);
    assert!(s.close_session);
}

#[test]
fn address_poll_waits_in_place() {
    let mut m = ConnectionManager::new();
    m.handle(Event::LinkConnected);
    let s = m.handle(Event::AddressPending);
    assert_eq!(m.state(), ConnectionState::LinkUp);
    assert_eq!(s.delay_ms, ADDRESS_POLL_DELAY_MS);
}

#[test]
fn publish_failure_reconnects_without_touching_link() {
    let mut m = ConnectionManager::new();
    m.handle(Event::LinkConnected);
    m.handle(Event::AddressAssigned);
    m.handle(Event::TransportConnected);
    m.handle(Event::HandshakeCompleted);
    assert_eq!(m.state(), ConnectionState::Ready);

    // Three consecutive successful publishes.
    for _ in 0..3 {
        let s = m.handle(Event::PublishSucceeded);
        assert_eq!(m.state(), ConnectionState::Publishing);
        assert_eq!(s.delay_ms, PUBLISH_PERIOD_MS);
        assert!(!s.close_session);
    }

    // One write failure: close the session, back to the transport layer.
    let s = m.handle(Event::PublishFailed);
    assert!(s.close_session);
    assert_eq!(m.state(), ConnectionState::TransportConnecting);

    // A fresh connect and handshake return to publishing without
    // re-entering the link-layer states.
    let s = m.handle(Event::TransportConnected);
    assert_eq!(m.state(), ConnectionState::HandshakePending);
    assert_ne!(s.next, ConnectionState::LinkDown);
    assert_ne!(s.next, ConnectionState::LinkUp);
    let s = m.handle(Event::HandshakeCompleted);
    assert_eq!(m.state(), ConnectionState::Ready);
    assert_ne!(s.next, ConnectionState::LinkDown);
    assert_ne!(s.next, ConnectionState::LinkUp);
    m.handle(Event::PublishSucceeded);
    assert_eq!(m.state(), ConnectionState::Publishing);
}

#[test]
fn foreign_event_leaves_state_alone() {
    let mut m = ConnectionManager::new();
    let s = m.handle(Event::PublishFailed);
    assert_eq!(m.state(), ConnectionState::LinkDown);
    assert!(!s.close_session);
    assert_eq!(s.delay_ms, 0);
}
