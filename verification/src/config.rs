//! What the server is started with: a port and a limit on the connections
//! handled at once.

use vstd::prelude::*;
use crate::error::BindError;
use crate::text::{ascii_bytes, decimal, lemma_ascii_bytes_decode, lemma_decimal_is_ascii,
    push_decimal, string_from_utf8};

verus! {

/// The port the server listens on where none is given.
pub const DEFAULT_PORT: u32 = 8080;

/// The number of connections handled at once where none is given.
pub const DEFAULT_LIMIT_CONNECTIONS: usize = 250;

/// The highest port there is.
pub const MAX_PORT: u32 = 65535;

/// The host part of the address the server binds: the loopback interface,
/// with the colon that parts it from the port.
pub open spec fn loopback_prefix() -> Seq<char> {
    seq!['1', '2', '7', '.', '0', '.', '0', '.', '1', ':']
}

/// The address the server binds for `port`: the loopback interface, a
/// colon, and the port in decimal.
pub open spec fn bind_address_text(port: nat) -> Seq<char> {
    loopback_prefix() + decimal(port)
}

/// The server's configuration.
#[derive(Clone, Copy, Debug, PartialEq, Eq, Structural)]
pub struct ServerConfig {
    /// The port to listen on.
    pub port: u32,
    /// The number of connections that may be handled at once.
    pub limit_connections: usize,
}

impl Default for ServerConfig {
    fn default() -> (config: ServerConfig)
        ensures
            config.port == DEFAULT_PORT,
            config.limit_connections == DEFAULT_LIMIT_CONNECTIONS,
    {
        ServerConfig { port: DEFAULT_PORT, limit_connections: DEFAULT_LIMIT_CONNECTIONS }
    }
}

impl ServerConfig {
    /// The configuration for `port` and `limit_connections`.
    pub fn new(port: u32, limit_connections: usize) -> (config: ServerConfig)
        ensures
            config.port == port,
            config.limit_connections == limit_connections,
    {
        ServerConfig { port, limit_connections }
    }

    /// A port is one that a listener can be bound to if it is at most 65535.
    pub open spec fn port_is_valid(&self) -> bool {
        self.port <= MAX_PORT
    }

    /// Whether the port is one that a listener can be bound to.
    pub fn has_valid_port(&self) -> (valid: bool)
        ensures
            valid == self.port_is_valid(),
    {
        self.port <= MAX_PORT
    }

    /// The address to bind the listener to, as text: `127.0.0.1`, a colon
    /// and the port. A port beyond 65535 gives `InvalidAddress`.
    pub fn bind_address(&self) -> (address: Result<String, BindError>)
        ensures
            address is Ok <==> self.port_is_valid(),
            address matches Ok(text) ==> text@ == bind_address_text(self.port as nat),
            address matches Err(error) ==> error == BindError::InvalidAddress,
    {
        if self.port > MAX_PORT {
            return Err(BindError::InvalidAddress);
        }
        let mut bytes: Vec<u8> = Vec::new();
        bytes.push(49);
        bytes.push(50);
        bytes.push(55);
        bytes.push(46);
        bytes.push(48);
        bytes.push(46);
        bytes.push(48);
        bytes.push(46);
        bytes.push(49);
        bytes.push(58);
        assert(bytes@ =~= ascii_bytes(loopback_prefix()));
        push_decimal(&mut bytes, self.port);
        proof {
            let text = bind_address_text(self.port as nat);
            lemma_decimal_is_ascii(self.port as nat);
            assert(bytes@ =~= ascii_bytes(text));
            lemma_ascii_bytes_decode(text);
        }
        match string_from_utf8(bytes) {
            Some(text) => Ok(text),
            None => Err(BindError::InvalidAddress),
        }
    }
}

} // verus!
