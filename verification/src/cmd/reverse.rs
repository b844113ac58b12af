//! Settings of the explicit (reverse) proxy.

use vstd::prelude::*;

verus! {

/// What the explicit proxy is started with.
#[derive(Debug, Clone)]
pub struct Args {
    /// Port to listen on.
    pub port: u16,
}

impl Args {
    /// Address the proxy listens on: the port of the settings, on the
    /// loopback interface only.
    pub fn listen_address(&self) -> (address: ([u8; 4], u16))
        ensures
            address.0@ == seq![127u8, 0u8, 0u8, 1u8],
            address.1 == self.port,
    {
        ([127u8, 0u8, 0u8, 1u8], self.port)
    }
}

impl Default for Args {
    /// The settings used where none are given: port 4000.
    fn default() -> (args: Self)
        ensures
            args.port == 4000,
    {
        Args { port: 4000 }
    }
}

} // verus!
