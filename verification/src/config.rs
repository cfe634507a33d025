//! The service's configuration, as read from `config.json`.
use vstd::prelude::*;

verus! {

/// Where the service listens, where its database is, and how often the
/// reconciler runs.
#[derive(Debug, Clone)]
pub struct Config {
    pub postgres_connection_url: String,
    pub port: String,
    pub dns: DnsConfig,
    pub reconciler_interval_secs: u64,
}

/// The DNS server's address and the TSIG key (its name and its secret).
#[derive(Debug, Clone)]
pub struct DnsConfig {
    pub addr: String,
    pub key_name: String,
    pub key: String,
}

impl Config {
    /// The address the HTTP server binds: every interface, at the port.
    pub fn listen_address(&self) -> (a: String)
        ensures
            a@ == "0.0.0.0:"@ + self.port@,
    {
        String::from_str("0.0.0.0:").concat(self.port.as_str())
    }
}

impl DnsConfig {
    /// The secret of the TSIG key: the UTF-8 bytes of `key`.
    pub fn key_bytes(&self) -> (b: Vec<u8>)
        ensures
            b@ == vstd::utf8::encode_utf8(self.key@),
    {
        vstd::slice::slice_to_vec(self.key.as_str().as_bytes())
    }
}

} // verus!
