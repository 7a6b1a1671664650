//! Sessions: the routing intent of one logical connection, produced by an
//! inbound handshake parser and owned by the dispatcher for the connection's
//! lifetime.
use vstd::prelude::*;

verus! {

use crate::addr::Destination;

/// The network kind a session relays.
#[derive(Clone, Copy, Debug, PartialEq, Eq, Structural)]
pub enum Network {
    Tcp,
    Udp,
}

/// One logical connection: network kind, destination, an optional routing
/// mark, and an optional bound interface.
#[derive(Debug, Clone)]
pub struct Session {
    pub network: Network,
    pub destination: Destination,
    pub so_mark: Option<u32>,
    pub iface: Option<String>,
}

impl Session {
    /// The TCP session an inbound handshake dispatches: the parsed
    /// destination and the listener's routing mark, no bound interface.
    pub fn tcp(destination: Destination, so_mark: Option<u32>) -> (r: Session)
        ensures
            r.network == Network::Tcp,
            r.destination == destination,
            r.so_mark == so_mark,
            r.iface is None,
    {
        Session { network: Network::Tcp, destination, so_mark, iface: None }
    }
}

} // verus!
