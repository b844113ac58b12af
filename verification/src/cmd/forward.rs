//! Settings of the transparent (intercepting) proxy.

use vstd::prelude::*;

verus! {

/// How many certificates the certificate authority keeps in memory.
pub const CERTIFICATE_CACHE_SIZE: u64 = 1_000;

/// What the transparent proxy is started with.
#[derive(Debug, Clone)]
pub struct Args {
    /// Path of the certificate authority's private key.
    pub ca_key: String,
    /// Path of the certificate authority's certificate.
    pub ca_cert: String,
    /// Port to listen on.
    pub port: u16,
}

impl Args {
    /// Address the proxy listens on: the port of the settings, on every
    /// interface of the machine.
    pub fn listen_address(&self) -> (address: ([u8; 4], u16))
        ensures
            address.0@ == seq![0u8, 0u8, 0u8, 0u8],
            address.1 == self.port,
    {
        ([0u8, 0u8, 0u8, 0u8], self.port)
    }
}

impl Default for Args {
    /// The settings used where none are given: key in `ca.key`, certificate
    /// in `ca.cert`, port 3000.
    fn default() -> (args: Self)
        ensures
            args.ca_key@ == "ca.key"@,
            args.ca_cert@ == "ca.cert"@,
            args.port == 3000,
    {
        Args { ca_key: "ca.key".to_owned(), ca_cert: "ca.cert".to_owned(), port: 3000 }
    }
}

} // verus!
