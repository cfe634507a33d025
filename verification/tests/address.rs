use bind9_rest::address::{DnsAddress, SockAddr};

fn parsed(url: &str) -> Option<(String, u16, bool)> {
    DnsAddress::parse_endpoint(url).ok().map(|e| (e.host, e.port, e.tcp))
}

#[test]
fn parse_endpoint_reads_scheme_host_and_port() {
    assert_eq!(parsed("udp://127.0.0.1:53"), Some(("127.0.0.1".to_string(), 53, false)));
    assert_eq!(parsed("tcp://127.0.0.1:53"), Some(("127.0.0.1".to_string(), 53, true)));
    assert_eq!(parsed("ns1.example.com:5353"), Some(("ns1.example.com".to_string(), 5353, false)));
    assert_eq!(parsed("tcp://[::1]:53"), Some(("::1".to_string(), 53, true)));
    assert_eq!(parsed("[fe80::1]:8053"), Some(("fe80::1".to_string(), 8053, false)));
}

#[test]
fn parse_endpoint_refuses_malformed_addresses() {
    assert_eq!(parsed("127.0.0.1"), None);
    assert_eq!(parsed("udp://127.0.0.1"), None);
    assert_eq!(parsed("tcp://host:port"), None);
    assert_eq!(parsed("host:70000"), None);
    assert_eq!(parsed("[::1]53"), None);
    assert_eq!(parsed("[::1"), None);
    // An unknown scheme is part of the host, which then fails to resolve.
    assert_eq!(parsed("http://host:53"), Some(("http://host".to_string(), 53, false)));
    assert_eq!(parsed(""), None);
}

#[test]
fn parse_endpoint_splits_at_the_last_colon() {
    // Without brackets the port follows the last colon.
    assert_eq!(parsed("::1:53"), Some(("::1".to_string(), 53, false)));
    assert_eq!(parsed("host:"), None);
    assert_eq!(parsed(":53"), Some(("".to_string(), 53, false)));
}

#[test]
fn from_resolved_picks_the_transport() {
    let a = SockAddr::V4 { ipv4: 0x7f00_0001, port: 53 };
    assert_eq!(DnsAddress::from_resolved(true, Some(a)), Ok(DnsAddress::Tcp(a)));
    assert_eq!(DnsAddress::from_resolved(false, Some(a)), Ok(DnsAddress::Udp(a)));
    assert_eq!(DnsAddress::from_resolved(true, None), Err(()));
    assert_eq!(DnsAddress::Tcp(a).socket_addr(), a);
    assert_eq!(DnsAddress::Udp(a).socket_addr(), a);
}

#[test]
fn written_addresses_read_back() {
    for (host, port, tcp) in [("127.0.0.1", 53u16, false), ("ns.example", 0, true), ("::1", 65535, true), ("", 7, false)] {
        let scheme = if tcp { "tcp://" } else { "udp://" };
        assert_eq!(parsed(&format!("{scheme}{host}:{port}")), Some((host.to_string(), port, tcp)));
        assert_eq!(parsed(&format!("{scheme}[{host}]:{port}")), Some((host.to_string(), port, tcp)));
    }
    // Brackets inside a bracketed host: the last `]` closes it.
    assert_eq!(parsed("tcp://[a]b]:53"), Some(("a]b".to_string(), 53, true)));
}
