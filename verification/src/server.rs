//! The server: where it listens, and what a connection is.

use vstd::prelude::*;
use vstd::string::StringExecFns;

verus! {

/// What a connection is, by the handshake that opened it.
#[derive(Debug, Clone, Copy, PartialEq, Eq, Structural)]
pub enum ClientType {
    /// A bot.
    Bot,
    /// The supervisor.
    Controller,
}

/// The arbiter's server.
#[derive(Debug, Clone, PartialEq, Eq)]
pub struct RustServer {
    /// Address and port at which the server listens.
    pub ip_addr: String,
}

impl RustServer {
    /// A server that listens at `ip_addr`.
    pub fn new(ip_addr: &str) -> (server: RustServer)
        ensures
            server.ip_addr@ == ip_addr@,
    {
        RustServer { ip_addr: String::from_str(ip_addr) }
    }
}

} // verus!
