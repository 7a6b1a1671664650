//! Outbound configuration values: what a configuration file declares for one
//! outbound handler and for each transport it may select. This core treats
//! configuration as already validated and typed; parsing and defaulting of
//! raw configuration text belong to an outer layer.
use vstd::prelude::*;

verus! {

/// Options every outbound handler's configuration shares.
#[derive(Debug, Clone, Default)]
pub struct CommonConfigOptions {
    pub name: String,
    pub server: String,
    pub port: u16,
    pub connect_via: Option<String>,
}

/// HTTP-flavoured transport options (HTTP/1.1 disguise, Upgrade, XHTTP).
#[derive(Debug, Clone, Default)]
pub struct HttpOpt {
    pub path: Option<String>,
    pub method: Option<String>,
    pub headers: Option<Vec<(String, String)>>,
}

/// WebSocket transport options; the transport itself is outside this core.
#[derive(Debug, Clone, Default)]
pub struct WsOpt {
    pub path: Option<String>,
    pub headers: Option<Vec<(String, String)>>,
    pub max_early_data: Option<u32>,
    pub early_data_header_name: Option<String>,
}

/// HTTP/2 transport options; the transport itself is outside this core.
#[derive(Debug, Clone, Default)]
pub struct H2Opt {
    pub host: Option<Vec<String>>,
    pub path: Option<String>,
}

/// gRPC transport options; the transport itself is outside this core.
#[derive(Debug, Clone, Default)]
pub struct GrpcOpt {
    pub grpc_service_name: Option<String>,
}

/// Configuration of one VLESS outbound, as declared in a configuration file.
#[derive(Debug, Default)]
pub struct OutboundVlessCustom {
    pub common_opts: CommonConfigOptions,
    pub uuid: String,
    pub alpn: Option<Vec<String>>,
    pub server_name: Option<String>,
    pub tls: Option<bool>,
    pub skip_cert_verify: Option<bool>,
    pub udp: Option<bool>,
    pub network: Option<String>,
    pub ws_opts: Option<WsOpt>,
    pub h2_opts: Option<H2Opt>,
    pub grpc_opts: Option<GrpcOpt>,
}

} // verus!
