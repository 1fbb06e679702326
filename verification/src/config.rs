//! Address configuration shared by the client and the server.

use vstd::prelude::*;

verus! {

/// Address that is used when none is given.
pub const DEFAULT_IP: &'static str = "0.0.0.0";

/// Port that is used when none is given.
pub const DEFAULT_PORT: u16 = 3000;

/// Where the server listens, or where the client connects to.
#[derive(Debug)]
pub struct CodeOpenConfig {
    pub ip: String,
    pub port: u16,
}

impl CodeOpenConfig {
    /// Replaces the address and leaves the port as it is.
    pub fn set_ip(&mut self, ip: String)
        ensures
            final(self).ip == ip,
            final(self).port == old(self).port,
    {
        self.ip = ip;
    }

    /// Replaces the port and leaves the address as it is.
    pub fn set_port(&mut self, port: u16)
        ensures
            final(self).port == port,
            final(self).ip == old(self).ip,
    {
        self.port = port;
    }
}

impl Default for CodeOpenConfig {
    fn default() -> (config: Self)
        ensures
            config.ip@ == DEFAULT_IP@,
            config.port == DEFAULT_PORT,
    {
        CodeOpenConfig { ip: DEFAULT_IP.to_owned(), port: DEFAULT_PORT }
    }
}

} // verus!
