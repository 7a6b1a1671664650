//! Obfuscation transports.
//!
//! A transport turns one byte stream into another: it injects a handshake in
//! front of the first write, consumes the matching handshake from the first
//! reads, and then becomes a transparent byte pipe. Transports compose by
//! wrapping: the innermost transport is applied first when dialing outward
//! and peeled in the same order on read.
//!
//! Each transport here is a pair of state machines over plain bytes — a write
//! side that produces the bytes to hand to the stream below, and a read side
//! that consumes the bytes arriving from it — so the handshake logic is
//! independent of any I/O runtime.
use vstd::prelude::*;

pub mod h3;
pub mod header;
pub mod http1;
pub mod httpupgrade;
pub mod mkcp;
pub mod reality;
pub mod request;
pub mod xhttp;

verus! {

/// The closed set of transports a configuration can select. A chain of these
/// is built once, at configuration time, and shared read-only by every
/// connection of the handler that owns it.
pub enum Transport {
    /// HTTP/1.1 request disguise.
    Http(http1::Client),
    /// HTTP Upgrade handshake, raw stream afterwards.
    HttpUpgrade(httpupgrade::Client),
    /// XHTTP-style request disguise.
    Xhttp(xhttp::Client),
    /// HTTP/3 camouflage; a passthrough in this core.
    H3(h3::Client),
    /// mKCP; a passthrough in this core.
    Kcp(mkcp::Client),
    /// REALITY, a TLS camouflage handled by the TLS layer outside this core.
    Reality(reality::Client),
}

} // verus!
