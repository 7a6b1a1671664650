//! Inbound listener configuration: the per-protocol options a configuration
//! file declares for each listener, and the options all of them share.
use vstd::prelude::*;

verus! {

/// The address a listener binds: every local address, or one address.
#[derive(Debug, Clone, Hash, PartialEq, Eq)]
pub enum BindAddress {
    Any,
    V4([u8; 4]),
    V6([u8; 16]),
}

/// Options every inbound listener shares: its name, bind address, whether
/// connections from other hosts are allowed, the port, and an optional
/// routing mark.
#[derive(Debug, Clone, Hash, PartialEq, Eq)]
pub struct CommonInboundOpts {
    pub name: String,
    pub listen: BindAddress,
    pub allow_lan: bool,
    pub port: u16,
    pub fw_mark: Option<u32>,
}

/// Configuration of one inbound listener, by protocol.
#[derive(Debug, Clone, Hash, PartialEq, Eq)]
pub enum InboundOpts {
    Http { common_opts: CommonInboundOpts },
    Trojan { common_opts: CommonInboundOpts, password: String },
    Socks { common_opts: CommonInboundOpts, udp: bool },
    Mixed { common_opts: CommonInboundOpts, udp: bool },
    TProxy { common_opts: CommonInboundOpts, udp: bool },
    Redir { common_opts: CommonInboundOpts },
    Tunnel { common_opts: CommonInboundOpts, network: Vec<String>, target: String },
    Shadowsocks { common_opts: CommonInboundOpts, udp: bool, cipher: String, password: String },
    Vmess { common_opts: CommonInboundOpts, uuid: String },
    Vless { common_opts: CommonInboundOpts, uuid: String },
}

impl InboundOpts {
    /// The shared options of any variant.
    pub open spec fn spec_common_opts(&self) -> CommonInboundOpts {
        match self {
            InboundOpts::Http { common_opts } => *common_opts,
            InboundOpts::Trojan { common_opts, .. } => *common_opts,
            InboundOpts::Socks { common_opts, .. } => *common_opts,
            InboundOpts::Mixed { common_opts, .. } => *common_opts,
            InboundOpts::TProxy { common_opts, .. } => *common_opts,
            InboundOpts::Redir { common_opts } => *common_opts,
            InboundOpts::Tunnel { common_opts, .. } => *common_opts,
            InboundOpts::Shadowsocks { common_opts, .. } => *common_opts,
            InboundOpts::Vmess { common_opts, .. } => *common_opts,
            InboundOpts::Vless { common_opts, .. } => *common_opts,
        }
    }

    /// The listener itself with its shared options replaced by `c`.
    pub open spec fn spec_with_common_opts(&self, c: CommonInboundOpts) -> InboundOpts {
        match self {
            InboundOpts::Http { .. } => InboundOpts::Http { common_opts: c },
            InboundOpts::Trojan { password, .. } => InboundOpts::Trojan {
                common_opts: c,
                password: *password,
            },
            InboundOpts::Socks { udp, .. } => InboundOpts::Socks { common_opts: c, udp: *udp },
            InboundOpts::Mixed { udp, .. } => InboundOpts::Mixed { common_opts: c, udp: *udp },
            InboundOpts::TProxy { udp, .. } => InboundOpts::TProxy { common_opts: c, udp: *udp },
            InboundOpts::Redir { .. } => InboundOpts::Redir { common_opts: c },
            InboundOpts::Tunnel { network, target, .. } => InboundOpts::Tunnel {
                common_opts: c,
                network: *network,
                target: *target,
            },
            InboundOpts::Shadowsocks { udp, cipher, password, .. } => InboundOpts::Shadowsocks {
                common_opts: c,
                udp: *udp,
                cipher: *cipher,
                password: *password,
            },
            InboundOpts::Vmess { uuid, .. } => InboundOpts::Vmess { common_opts: c, uuid: *uuid },
            InboundOpts::Vless { uuid, .. } => InboundOpts::Vless { common_opts: c, uuid: *uuid },
        }
    }

    /// The shared options of this listener.
    pub fn common_opts(&self) -> (r: &CommonInboundOpts)
        ensures
            *r == self.spec_common_opts(),
    {
        match self {
            InboundOpts::Http { common_opts } => common_opts,
            InboundOpts::Trojan { common_opts, .. } => common_opts,
            InboundOpts::Socks { common_opts, .. } => common_opts,
            InboundOpts::Mixed { common_opts, .. } => common_opts,
            InboundOpts::TProxy { common_opts, .. } => common_opts,
            InboundOpts::Redir { common_opts } => common_opts,
            InboundOpts::Tunnel { common_opts, .. } => common_opts,
            InboundOpts::Shadowsocks { common_opts, .. } => common_opts,
            InboundOpts::Vmess { common_opts, .. } => common_opts,
            InboundOpts::Vless { common_opts, .. } => common_opts,
        }
    }

    /// The shared options of this listener, for updating in place.
    pub fn common_opts_mut(&mut self) -> (r: &mut CommonInboundOpts)
        ensures
            *r == old(self).spec_common_opts(),
            *final(self) == old(self).spec_with_common_opts(*final(r)),
    {
        match self {
            InboundOpts::Http { common_opts } => common_opts,
            InboundOpts::Trojan { common_opts, .. } => common_opts,
            InboundOpts::Socks { common_opts, .. } => common_opts,
            InboundOpts::Mixed { common_opts, .. } => common_opts,
            InboundOpts::TProxy { common_opts, .. } => common_opts,
            InboundOpts::Redir { common_opts } => common_opts,
            InboundOpts::Tunnel { common_opts, .. } => common_opts,
            InboundOpts::Shadowsocks { common_opts, .. } => common_opts,
            InboundOpts::Vmess { common_opts, .. } => common_opts,
            InboundOpts::Vless { common_opts, .. } => common_opts,
        }
    }
}

} // verus!
