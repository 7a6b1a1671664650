//! Verified core of a multi-protocol proxy data plane.
//!
//! The crate covers the stream transformation pipeline: the address codec
//! shared by every proxy protocol, the obfuscation transports that disguise a
//! byte stream as HTTP traffic, the VLESS stream codec, and the inbound
//! handshake parsers for Trojan, VLESS and VMess. All state machines are
//! written over plain byte buffers so that the protocol logic is independent
//! of any particular I/O runtime; an embedding runtime feeds bytes in and
//! carries bytes out.
pub mod addr;
pub mod bytestr;
pub mod config;
pub mod error;
pub mod http_outbound;
pub mod listener;
pub mod session;
pub mod transport;
pub mod trojan;
pub mod vless;
pub mod vmess;
