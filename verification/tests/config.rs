use bind9_rest::config::{Config, DnsConfig};

#[test]
fn listen_address_binds_every_interface() {
    let c = Config {
        postgres_connection_url: "postgres://localhost/dns".into(),
        port: "8080".into(),
        dns: DnsConfig { addr: "udp://127.0.0.1:53".into(), key_name: "k.".into(), key: "sécret".into() },
        reconciler_interval_secs: 60,
    };
    assert_eq!(c.listen_address(), "0.0.0.0:8080");
    assert_eq!(c.dns.key_bytes(), "sécret".as_bytes().to_vec());
}
