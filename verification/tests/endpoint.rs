use telemetry_publisher::endpoint::parse_ipv4;
use telemetry_publisher::endpoint::resolve_endpoint;

#[test]
fn parses_dotted_quad() {
    assert_eq!(parse_ipv4(b"192.168.1.100"), Some([192, 168, 1, 100]));
    assert_eq!(parse_ipv4(b"0.0.0.0"), Some([0, 0, 0, 0]));
    assert_eq!(parse_ipv4(b"255.255.255.255"), Some([255, 255, 255, 255]));
}

#[test]
fn rejects_malformed_addresses() {
    assert_eq!(parse_ipv4(b""), None);
    assert_eq!(parse_ipv4(b"broker.local"), None);
    assert_eq!(parse_ipv4(b"1.2.3"), None);
    assert_eq!(parse_ipv4(b"1.2.3.4.5"), None);
    assert_eq!(parse_ipv4(b"1..2.3"), None);
    assert_eq!(parse_ipv4(b"256.1.1.1"), None);
    assert_eq!(parse_ipv4(b"1.2.3.1000"), None);
    assert_eq!(parse_ipv4(b"1.2.3.4 "), None);
}

#[test]
fn resolve_keeps_valid_address_and_port() {
    let ep = resolve_endpoint(b"10.0.0.7", 1883);
    assert_eq!(ep.addr, [10, 0, 0, 7]);
    assert_eq!(ep.port, 1883);
}

#[test]
fn resolve_falls_back_to_loopback() {
    let ep = resolve_endpoint(b"broker.example", 1883);
    assert_eq!(ep.addr, [127, 0, 0, 1]);
    assert_eq!(ep.port, 1883);
}
