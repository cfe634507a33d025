//! Where the DNS server listens: the transport and the socket address, and
//! the parser for the address strings of the configuration
//! (`udp://host:port`, `tcp://host:port`, `host:port`, `[v6-host]:port`).
use vstd::prelude::*;
use crate::text::{
    decimal_text, lemma_decimal_text, lemma_parse_u16_of_decimal_text, lemma_rfind_at, parse_u16, rsplit_once, spec_parse_u16, spec_rsplit_once, spec_strip_prefix, strip_prefix,
};

verus! {

/// A socket address held as plain numbers (the address in network order as
/// one integer, the port, and for IPv6 the flow label and scope).
#[derive(Clone, Copy, Debug, PartialEq, Eq, Structural)]
pub enum SockAddr {
    V4 { ipv4: u32, port: u16 },
    V6 { ipv6: u128, port: u16, flowinfo: u32, scope_id: u32 },
}

/// The DNS server to talk to, and whether to use TCP or UDP.
#[derive(Clone, Copy, Debug, PartialEq, Eq, Structural)]
pub enum DnsAddress {
    Tcp(SockAddr),
    Udp(SockAddr),
}

/// What an address string says before its host is resolved: the host, the
/// port, and whether TCP was asked for.
#[derive(Debug)]
pub struct DnsEndpoint {
    pub host: String,
    pub port: u16,
    pub tcp: bool,
}

/// The scheme prefix: `udp://` and `tcp://` are removed; without either,
/// the whole string is the host part and UDP is used.
pub open spec fn spec_split_scheme(url: Seq<char>) -> (Seq<char>, bool) {
    match spec_strip_prefix(url, "udp://"@) {
        Some(rest) => (rest, false),
        None => match spec_strip_prefix(url, "tcp://"@) {
            Some(rest) => (rest, true),
            None => (url, false),
        },
    }
}

/// Host and port of `[host]:port` (a bracketed host, its closing bracket
/// found as the last `]`) or of `host:port` (split at the last `:`).
pub open spec fn spec_split_host_port(s: Seq<char>) -> Option<(Seq<char>, u16)> {
    if s.len() > 0 && s[0] == '[' {
        match spec_rsplit_once(s.drop_first(), ']') {
            None => None,
            Some((host, rest)) => if rest.len() > 0 && rest[0] == ':' {
                match spec_parse_u16(rest.drop_first()) {
                    Some(port) => Some((host, port)),
                    None => None,
                }
            } else {
                None
            },
        }
    } else {
        match spec_rsplit_once(s, ':') {
            None => None,
            Some((host, port)) => match spec_parse_u16(port) {
                Some(p) => Some((host, p)),
                None => None,
            },
        }
    }
}

/// What an address string denotes: host, port and whether TCP is used.
pub open spec fn spec_parse_endpoint(url: Seq<char>) -> Option<(Seq<char>, u16, bool)> {
    let (rest, tcp) = spec_split_scheme(url);
    match spec_split_host_port(rest) {
        Some((host, port)) => Some((host, port, tcp)),
        None => None,
    }
}

impl DnsEndpoint {
    pub open spec fn view_tuple(&self) -> (Seq<char>, u16, bool) {
        (self.host@, self.port, self.tcp)
    }
}

fn split_host_port(s: &str) -> (res: Option<(&str, u16)>)
    ensures
        match spec_split_host_port(s@) {
            Some((h, p)) => res matches Some((host, port)) && host@ == h && port == p,
            None => res is None,
        },
{
    let n: usize = s.unicode_len();
    if n > 0 && s.get_char(0) == '[' {
        let inner = s.substring_char(1, n);
        assert(inner@ =~= s@.drop_first());
        match rsplit_once(inner, ']') {
            None => None,
            Some((host, rest)) => {
                let m: usize = rest.unicode_len();
                if m > 0 && rest.get_char(0) == ':' {
                    let digits = rest.substring_char(1, m);
                    assert(digits@ =~= rest@.drop_first());
                    match parse_u16(digits) {
                        Some(port) => Some((host, port)),
                        None => None,
                    }
                } else {
                    None
                }
            },
        }
    } else {
        match rsplit_once(s, ':') {
            None => None,
            Some((host, port)) => match parse_u16(port) {
                Some(p) => Some((host, p)),
                None => None,
            },
        }
    }
}

impl DnsAddress {
    /// Reads an address string: an optional `udp://` or `tcp://` scheme, then
    /// `host:port` or `[host]:port`. The host is not resolved here.
    pub fn parse_endpoint(url: &str) -> (res: Result<DnsEndpoint, ()>)
        ensures
            res matches Ok(e) ==> e.tcp == (spec_strip_prefix(url@, "tcp://"@) is Some),
            match spec_parse_endpoint(url@) {
                Some(v) => res matches Ok(e) && e.view_tuple() == v,
                None => res is Err,
            },
    {
        let (rest, tcp) = match strip_prefix(url, "udp://") {
            Some(rest) => (rest, false),
            None => match strip_prefix(url, "tcp://") {
                Some(rest) => (rest, true),
                None => (url, false),
            },
        };
        assert(spec_split_scheme(url@) == (rest@, tcp));
        proof {
            lemma_transport_is_tcp_exactly_with_the_tcp_scheme(url@);
        }
        match split_host_port(rest) {
            Some((host, port)) => Ok(DnsEndpoint { host: host.to_owned(), port, tcp }),
            None => Err(()),
        }
    }

    /// The address for an endpoint whose host resolved to `first` (the first
    /// of the socket addresses that resolution gave, if any).
    pub fn from_resolved(tcp: bool, first: Option<SockAddr>) -> (res: Result<DnsAddress, ()>)
        ensures
            match first {
                None => res is Err,
                Some(a) => res == Ok::<DnsAddress, ()>(
                    if tcp {
                        DnsAddress::Tcp(a)
                    } else {
                        DnsAddress::Udp(a)
                    },
                ),
            },
    {
        match first {
            None => Err(()),
            Some(a) => if tcp {
                Ok(DnsAddress::Tcp(a))
            } else {
                Ok(DnsAddress::Udp(a))
            },
        }
    }

    /// The socket address, whatever the transport.
    pub fn socket_addr(&self) -> (a: SockAddr)
        ensures
            a == match *self {
                DnsAddress::Tcp(x) => x,
                DnsAddress::Udp(x) => x,
            },
    {
        match *self {
            DnsAddress::Tcp(x) => x,
            DnsAddress::Udp(x) => x,
        }
    }
}

/// The scheme prefix of an address string for the transport.
pub open spec fn scheme_prefix(tcp: bool) -> Seq<char> {
    if tcp {
        "tcp://"@
    } else {
        "udp://"@
    }
}

proof fn lemma_split_scheme_of_prefix(rest: Seq<char>, tcp: bool)
    ensures
        spec_split_scheme(scheme_prefix(tcp) + rest) == (rest, tcp),
{
    reveal_strlit("udp://");
    reveal_strlit("tcp://");
    let u = scheme_prefix(tcp) + rest;
    assert(u.take(6) =~= scheme_prefix(tcp));
    assert(u.skip(6) =~= rest);
    if tcp {
        assert(u.take(6)[0] != ("udp://"@)[0]);
    }
}

/// An address written as scheme, host, `:` and the port in decimal reads
/// back as that host, port and transport, whatever colons the host holds,
/// provided the host does not begin with `[`.
pub proof fn lemma_endpoint_reads_back(host: Seq<char>, port: u16, tcp: bool)
    requires
        host.len() == 0 || host[0] != '[',
    ensures
        spec_parse_endpoint(scheme_prefix(tcp) + host + seq![':'] + decimal_text(port as nat))
            == Some((host, port, tcp)),
{
    let d = decimal_text(port as nat);
    let rest = host + seq![':'] + d;
    assert(scheme_prefix(tcp) + host + seq![':'] + d =~= scheme_prefix(tcp) + rest);
    lemma_split_scheme_of_prefix(rest, tcp);
    lemma_decimal_text(port as nat);
    lemma_parse_u16_of_decimal_text(port);
    assert forall|j: int| host.len() < j < rest.len() implies rest[j] != ':' by {
        assert(rest[j] == d[j - host.len() - 1]);
        if d[j - host.len() - 1] == ':' {
            assert(d.contains(':'));
        }
    }
    lemma_rfind_at(rest, ':', host.len() as int);
    assert(rest.take(host.len() as int) =~= host);
    assert(rest.skip(host.len() + 1int) =~= d);
    if host.len() == 0 {
        assert(rest[0] == ':');
    } else {
        assert(rest[0] == host[0]);
    }
}

/// An address written as scheme, `[`, host, `]:` and the port in decimal
/// reads back as that host, port and transport, whatever the host holds.
pub proof fn lemma_bracketed_endpoint_reads_back(host: Seq<char>, port: u16, tcp: bool)
    ensures
        spec_parse_endpoint(
            scheme_prefix(tcp) + seq!['['] + host + seq![']', ':'] + decimal_text(port as nat),
        ) == Some((host, port, tcp)),
{
    let d = decimal_text(port as nat);
    let inner = host + seq![']', ':'] + d;
    let rest = seq!['['] + inner;
    assert(scheme_prefix(tcp) + seq!['['] + host + seq![']', ':'] + d =~= scheme_prefix(tcp)
        + rest);
    lemma_split_scheme_of_prefix(rest, tcp);
    lemma_decimal_text(port as nat);
    lemma_parse_u16_of_decimal_text(port);
    assert(rest.drop_first() =~= inner);
    assert forall|j: int| host.len() < j < inner.len() implies inner[j] != ']' by {
        if j > host.len() + 1 {
            assert(inner[j] == d[j - host.len() - 2]);
            assert(crate::text::is_decimal_digit(d[j - host.len() - 2]));
        }
    }
    lemma_rfind_at(inner, ']', host.len() as int);
    assert(inner.take(host.len() as int) =~= host);
    let after = inner.skip(host.len() + 1int);
    assert(after =~= seq![':'] + d);
    assert(after.drop_first() =~= d);
}

/// TCP is used exactly when the address string begins with `tcp://`; an
/// address with `udp://` or with no scheme at all uses UDP, and without a
/// scheme the whole string is the host part.
pub proof fn lemma_transport_is_tcp_exactly_with_the_tcp_scheme(url: Seq<char>)
    ensures
        spec_split_scheme(url).1 == (spec_strip_prefix(url, "tcp://"@) is Some),
        spec_strip_prefix(url, "udp://"@) is None && spec_strip_prefix(url, "tcp://"@) is None
            ==> spec_split_scheme(url) == (url, false),
        spec_parse_endpoint(url) matches Some(v) ==> v.2 == (spec_strip_prefix(url, "tcp://"@)
            is Some),
{
    reveal_strlit("udp://");
    reveal_strlit("tcp://");
    if spec_strip_prefix(url, "udp://"@) is Some {
        assert(url.take(6)[0] == 'u');
        assert(("tcp://"@)[0] == 't');
        assert(url.take(6) != "tcp://"@);
    }
}

/// Appending `:` and decimal digits to a text does not make it begin with
/// a scheme prefix it did not begin with.
proof fn lemma_scheme_not_gained(host: Seq<char>, d: Seq<char>, p: Seq<char>)
    requires
        p.len() == 6,
        p[3] == ':',
        p[4] == '/',
        p[5] == '/',
        forall|i: int| 0 <= i < 3 ==> p[i] != ':',
        d.len() > 0,
        crate::text::all_decimal_digits(d),
        spec_strip_prefix(host, p) is None,
    ensures
        spec_strip_prefix(host + seq![':'] + d, p) is None,
{
    let url = host + seq![':'] + d;
    if p.len() <= url.len() && url.take(6) == p {
        if host.len() >= 6 {
            assert(host.take(6) =~= url.take(6));
            assert(spec_strip_prefix(host, p) is Some);
        } else {
            let k = host.len() as int;
            assert(url[k] == ':');
            assert(url.take(6)[k] == p[k]);
            if host.len() == 3 {
                assert(url[4] == d[0]);
                assert(url.take(6)[4] == p[4]);
                assert(crate::text::is_decimal_digit(d[0]));
            }
        }
    }
}

/// An address without a scheme, written as host, `:` and the port in
/// decimal, reads back as that host and port over UDP (the host not
/// beginning with `[`, `udp://` or `tcp://`).
pub proof fn lemma_endpoint_without_scheme_reads_back_as_udp(host: Seq<char>, port: u16)
    requires
        host.len() == 0 || host[0] != '[',
        spec_strip_prefix(host, "udp://"@) is None,
        spec_strip_prefix(host, "tcp://"@) is None,
    ensures
        spec_parse_endpoint(host + seq![':'] + decimal_text(port as nat)) == Some(
            (host, port, false),
        ),
{
    let d = decimal_text(port as nat);
    let url = host + seq![':'] + d;
    reveal_strlit("udp://");
    reveal_strlit("tcp://");
    lemma_decimal_text(port as nat);
    lemma_parse_u16_of_decimal_text(port);
    assert("udp://"@ =~= seq!['u', 'd', 'p', ':', '/', '/']);
    assert("tcp://"@ =~= seq!['t', 'c', 'p', ':', '/', '/']);
    lemma_scheme_not_gained(host, d, "udp://"@);
    lemma_scheme_not_gained(host, d, "tcp://"@);
    lemma_transport_is_tcp_exactly_with_the_tcp_scheme(url);
    assert forall|j: int| host.len() < j < url.len() implies url[j] != ':' by {
        assert(url[j] == d[j - host.len() - 1]);
        if d[j - host.len() - 1] == ':' {
            assert(d.contains(':'));
        }
    }
    lemma_rfind_at(url, ':', host.len() as int);
    assert(url.take(host.len() as int) =~= host);
    assert(url.skip(host.len() + 1int) =~= d);
    if host.len() == 0 {
        assert(url[0] == ':');
    } else {
        assert(url[0] == host[0]);
    }
}

} // verus!
