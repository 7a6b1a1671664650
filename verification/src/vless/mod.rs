//! VLESS protocol support: the outbound stream codec, the inbound handshake
//! parser, and the outbound handler configuration.
use vstd::prelude::*;

pub mod inbound;
pub mod stream;

verus! {

use vstd::string::StringSliceAdditionalSpecFns;
use crate::transport::Transport;

/// The 16 UUID bytes denoted by a textual UUID, when the text is one of the
/// formats the UUID grammar admits; a function of the characters alone.
pub uninterp spec fn uuid_bytes_of(s: Seq<char>) -> Option<Seq<u8>>;

/// Relies on uuid::Uuid::parse_str and uuid::Uuid::as_bytes: parsing accepts
/// exactly the textual UUID formats and yields the 16 bytes of the UUID.
#[verifier::external_body]
pub fn parse_uuid(s: &str) -> (r: Option<Vec<u8>>)
    ensures
        r is Some <==> uuid_bytes_of(s@) is Some,
        r matches Some(b) ==> Some(b@) == uuid_bytes_of(s@) && b@.len() == 16,
{
    uuid::Uuid::parse_str(s).ok().map(|u| u.as_bytes().to_vec())
}

/// Configuration of one VLESS outbound handler, fixed at configuration time
/// and shared by all of its connections.
pub struct HandlerOptions {
    pub name: String,
    pub common_opts: HandlerCommonOptions,
    pub server: String,
    pub port: u16,
    pub uuid: String,
    pub udp: bool,
    pub transport: Option<Transport>,
    pub tls: Option<Transport>,
}

/// Options every outbound handler shares.
#[derive(Default)]
pub struct HandlerCommonOptions {
    pub connector: Option<String>,
}

} // verus!
