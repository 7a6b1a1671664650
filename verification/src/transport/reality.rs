//! REALITY transport options. REALITY is a TLS-handshake camouflage; this
//! core models it as a thin wrapper that delegates to the TLS layer with a
//! custom server name and protocol list, so the client only carries options.
use vstd::prelude::*;

verus! {

/// Options handed to the TLS layer: certificate checking, server name, and
/// application protocols.
#[derive(Clone, Default)]
pub struct Options {
    pub skip_cert_verify: bool,
    pub sni: Option<String>,
    pub alpn: Option<Vec<String>>,
}

/// A REALITY transport client.
pub struct Client {
    pub opts: Options,
}

impl Client {
    /// A client with the given TLS options.
    pub fn new(opts: Options) -> (r: Client)
        ensures
            r.opts == opts,
    {
        Client { opts }
    }
}

} // verus!
