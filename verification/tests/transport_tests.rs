use zetalan::addr::Ipv4Address;
use zetalan::transport::{default_group, Transport, TransportError, DEFAULT_PORT};

fn ip(o0: u8, o1: u8, o2: u8, o3: u8) -> Ipv4Address {
    Ipv4Address { o0, o1, o2, o3 }
}

#[test]
fn bind_rejects_unicast() {
    let r = Transport::bind(ip(192, 168, 1, 10), DEFAULT_PORT);
    assert_eq!(r, Err(TransportError::InvalidAddress));
}

#[test]
fn bind_rejects_loopback_and_broadcast() {
    assert_eq!(Transport::bind(ip(127, 0, 0, 1), 9000), Err(TransportError::InvalidAddress));
    assert_eq!(
        Transport::bind(ip(255, 255, 255, 255), 9000),
        Err(TransportError::InvalidAddress)
    );
}

#[test]
fn bind_rejects_block_edges() {
    assert_eq!(Transport::bind(ip(223, 255, 255, 255), 9000), Err(TransportError::InvalidAddress));
    assert_eq!(Transport::bind(ip(240, 0, 0, 0), 9000), Err(TransportError::InvalidAddress));
}

#[test]
fn bind_accepts_multicast_block() {
    let lo = Transport::bind(ip(224, 0, 0, 0), 9000).unwrap();
    assert_eq!(lo.group, ip(224, 0, 0, 0));
    assert_eq!(lo.port, 9000);
    let hi = Transport::bind(ip(239, 255, 255, 255), 9000).unwrap();
    assert_eq!(hi.group, ip(239, 255, 255, 255));
}

#[test]
fn bind_accepts_default_group() {
    let t = Transport::bind(default_group(), DEFAULT_PORT).unwrap();
    assert_eq!(t.group, ip(239, 255, 42, 98));
    assert_eq!(t.port, 50692);
}

#[test]
fn multicast_check_on_addresses() {
    assert!(ip(239, 255, 42, 98).is_multicast());
    assert!(!ip(10, 0, 0, 1).is_multicast());
}
