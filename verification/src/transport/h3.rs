//! HTTP/3 transport options. In this core the transport is a passthrough:
//! the stream is handed back unchanged, and the options only carry what an
//! embedding runtime needs to dial.
use vstd::prelude::*;

verus! {

/// Options of the HTTP/3 transport. None are interpreted by this core.
#[derive(Clone, Default)]
pub struct Options {}

/// An HTTP/3 transport client for one server endpoint.
pub struct Client {
    pub server: String,
    pub port: u16,
    pub opts: Options,
}

impl Client {
    /// A client for the given server and port.
    pub fn new(server: String, port: u16, opts: Options) -> (r: Client)
        ensures
            r.server@ == server@,
            r.port == port,
    {
        Client { server, port, opts }
    }

    /// The client an outbound configuration selects: the handler's server and
    /// port, with default options.
    pub fn from_options(common: &crate::config::CommonConfigOptions) -> (r: Client)
        ensures
            r.server@ == common.server@,
            r.port == common.port,
    {
        Client { server: common.server.clone(), port: common.port, opts: Options {  } }
    }
}

} // verus!
