//! mKCP transport. In this core the stream passes through unchanged; the
//! client exists so configurations naming it remain operational.
use vstd::prelude::*;

verus! {

/// An mKCP transport client; a passthrough in this core.
pub struct Client;

impl Client {
    /// The passthrough client.
    pub fn new() -> Client {
        Client
    }
}

} // verus!
