use bind9_rest::text::{parse_u16, rfind, rsplit_once, strip_prefix, strip_trailing_dot};

#[test]
fn strip_trailing_dot_removes_one_dot() {
    assert_eq!(strip_trailing_dot("host.example.com."), "host.example.com");
    assert_eq!(strip_trailing_dot("host.example.com"), "host.example.com");
    assert_eq!(strip_trailing_dot("a.."), "a.");
    assert_eq!(strip_trailing_dot("."), "");
    assert_eq!(strip_trailing_dot(""), "");
}

#[test]
fn parse_u16_accepts_decimal_ports() {
    assert_eq!(parse_u16("53"), Some(53));
    assert_eq!(parse_u16("0"), Some(0));
    assert_eq!(parse_u16("00053"), Some(53));
    assert_eq!(parse_u16("+53"), Some(53));
    assert_eq!(parse_u16("65535"), Some(65535));
}

#[test]
fn parse_u16_refuses_what_std_refuses() {
    for s in ["", "+", "-1", "-0", "65536", "99999999999", "5 3", " 53", "53 ", "0x35", "5_3", "++5"] {
        assert_eq!(parse_u16(s), None, "{s:?}");
        assert_eq!(s.parse::<u16>().ok(), None, "{s:?}");
    }
    for s in ["1", "+1", "65535", "007", "8053"] {
        assert_eq!(parse_u16(s), s.parse::<u16>().ok(), "{s:?}");
    }
}

#[test]
fn strip_prefix_and_rsplit_match_std() {
    for (s, p) in [("udp://a:1", "udp://"), ("tcp://", "tcp://"), ("ud", "udp://"), ("", ""), ("é://x", "é://")] {
        assert_eq!(strip_prefix(s, p), s.strip_prefix(p));
    }
    for s in ["a:b:c", "abc", ":", "", "::1:53", "é:ü"] {
        assert_eq!(rsplit_once(s, ':'), s.rsplit_once(':'));
    }
    assert_eq!(rfind("a:b:c", ':'), Some(3));
    assert_eq!(rfind("abc", ':'), None);
    assert_eq!(rfind("é:x", ':'), Some(1));
}

#[test]
fn every_port_written_in_decimal_reads_back() {
    for n in 0..=u16::MAX {
        assert_eq!(parse_u16(&n.to_string()), Some(n));
    }
}
