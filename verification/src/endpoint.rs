//! The endpoint configuration: where outbound messages are sent.

use crate::decimal::{decimal, decimal_string};
use vstd::prelude::*;

verus! {

/// The address that a fresh configuration points to.
pub open spec fn default_address() -> Seq<char> {
    seq!['1', '2', '7', '.', '0', '.', '0', '.', '1']
}

/// The port that a fresh configuration points to.
pub const DEFAULT_PORT: u16 = 9009;

/// The destination address and port of outbound messages. Both may be changed
/// at any time; a destination is always formed from one configuration value as
/// a whole.
#[derive(Clone, Debug)]
pub struct EndpointConfig {
    address: String,
    port: u16,
}

/// The mathematical content of an [`EndpointConfig`].
pub struct EndpointModel {
    pub address: Seq<char>,
    pub port: u16,
}

impl EndpointModel {
    /// The destination string of this configuration: the address, a colon and
    /// the port in decimal notation.
    pub open spec fn destination(self) -> Seq<char> {
        self.address + seq![':'] + decimal(self.port as nat)
    }
}

impl View for EndpointConfig {
    type V = EndpointModel;

    closed spec fn view(&self) -> EndpointModel {
        EndpointModel { address: self.address@, port: self.port }
    }
}

impl Default for EndpointConfig {
    /// The configuration of a fresh instance: `127.0.0.1`, port 9009.
    fn default() -> (config: EndpointConfig)
        ensures
            config@.address == default_address(),
            config@.port == DEFAULT_PORT,
    {
        proof {
            reveal_strlit("127.0.0.1");
        }
        let address = String::from_str("127.0.0.1");
        assert(address@ =~= default_address());
        EndpointConfig { address, port: DEFAULT_PORT }
    }
}

impl EndpointConfig {
    /// A configuration that points to `address` and `port`.
    pub fn new(address: String, port: u16) -> (config: EndpointConfig)
        ensures
            config@.address == address@,
            config@.port == port,
    {
        EndpointConfig { address, port }
    }

    /// The destination address.
    pub fn address(&self) -> (address: &String)
        ensures
            address@ == self@.address,
    {
        &self.address
    }

    /// The destination port.
    pub fn port(&self) -> (port: u16)
        ensures
            port == self@.port,
    {
        self.port
    }

    /// Replaces the destination address and leaves the port as it is.
    pub fn set_address(&mut self, address: String)
        ensures
            final(self)@.address == address@,
            final(self)@.port == old(self)@.port,
    {
        self.address = address;
    }

    /// Replaces the destination port and leaves the address as it is.
    pub fn set_port(&mut self, port: u16)
        ensures
            final(self)@.address == old(self)@.address,
            final(self)@.port == port,
    {
        self.port = port;
    }

    /// The destination string `address:port` of this configuration.
    pub fn destination(&self) -> (destination: String)
        ensures
            destination@ == self@.destination(),
    {
        proof {
            reveal_strlit(":");
        }
        let mut destination = self.address.clone();
        destination.append(":");
        let port = decimal_string(self.port as u64);
        destination.append(port.as_str());
        assert(destination@ =~= self@.destination());
        destination
    }
}

} // verus!
