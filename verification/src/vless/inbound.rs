//! VLESS inbound handshake.
//!
//! A request is `version[1]=0  uuid[16]  optlen[1]  opts[optlen]  cmd[1]
//! port[2,BE]  atyp[1]  addr`, with the VLESS address-type numbering
//! (`0x01` IPv4, `0x02` domain, `0x03` IPv6). The UUID is accepted opaque;
//! option bytes are discarded; both commands are accepted. The parser
//! consumes exactly the handshake bytes, and the listener answers with the
//! fixed two-byte reply `[version=0][addon-length=0]` before relaying.
use vstd::prelude::*;

verus! {

use crate::addr::{lemma_parse_vless_addr_consumed, spec_parse_vless_addr, parse_vless_addr,
    vless_encoding, DestAddr, Destination, Parsed};
use crate::bytestr::take_front;
use crate::error::ProxyError;
use crate::vless::stream::spec_vless_header;

/// The mathematical value of a parsed VLESS request.
#[verifier::ext_equal]
pub struct VlessReq {
    pub uuid: Seq<u8>,
    pub cmd: u8,
    pub dest: DestAddr,
}

/// A parsed VLESS inbound request: the client's UUID, the command byte, and
/// the requested destination.
pub struct VlessRequest {
    pub uuid: Vec<u8>,
    pub cmd: u8,
    pub dest: Destination,
}

impl View for VlessRequest {
    type V = VlessReq;

    open spec fn view(&self) -> VlessReq {
        VlessReq { uuid: self.uuid@, cmd: self.cmd, dest: self.dest@ }
    }
}

/// What parsing a VLESS request from `input` yields: the request and the
/// number of handshake bytes consumed.
pub open spec fn spec_vless_inbound_parse(input: Seq<u8>) -> Parsed<VlessReq> {
    if input.len() < 1 {
        Parsed::Incomplete
    } else if input[0] != 0 {
        Parsed::Reject(ProxyError::ProtocolViolation)
    } else if input.len() < 18 {
        Parsed::Incomplete
    } else {
        let optlen = input[17] as int;
        if input.len() < 19 + optlen {
            Parsed::Incomplete
        } else {
            let cmd = input[18 + optlen];
            match spec_parse_vless_addr(input.skip(19 + optlen)) {
                Parsed::Incomplete => Parsed::Incomplete,
                Parsed::Reject(e) => Parsed::Reject(e),
                Parsed::Complete(d, n) => Parsed::Complete(
                    VlessReq { uuid: input.subrange(1, 17), cmd, dest: d },
                    (19 + optlen + n) as usize,
                ),
            }
        }
    }
}

/// Incremental parser for the VLESS inbound handshake. Bytes read from the
/// raw connection are fed in as they arrive, in any chunking; the outcome
/// depends only on their concatenation.
pub struct VlessInboundParser {
    buf: Vec<u8>,
}

impl VlessInboundParser {
    /// All bytes fed so far.
    pub closed spec fn fed(&self) -> Seq<u8> {
        self.buf@
    }

    /// A parser that has seen nothing.
    pub fn new() -> (r: VlessInboundParser)
        ensures
            r.fed() == Seq::<u8>::empty(),
    {
        let r = VlessInboundParser { buf: Vec::new() };
        proof {
            assert(r.fed() =~= Seq::<u8>::empty());
        }
        r
    }

    /// Feeds the bytes of one underlying read.
    pub fn feed(&mut self, chunk: &[u8])
        ensures
            final(self).fed() == old(self).fed() + chunk@,
    {
        crate::bytestr::push_bytes(&mut self.buf, chunk);
    }

    /// Parses the bytes fed so far. The result is a function of the
    /// concatenation of the fed bytes alone.
    pub fn poll(&self) -> (r: Parsed<VlessRequest>)
        ensures
            r@ == spec_vless_inbound_parse(self.fed()),
            r matches Parsed::Complete(q, n) ==> q.dest.wf() && n <= self.fed().len(),
    {
        if self.buf.len() < 1 {
            return Parsed::Incomplete;
        }
        if self.buf[0] != 0 {
            return Parsed::Reject(ProxyError::ProtocolViolation);
        }
        if self.buf.len() < 18 {
            return Parsed::Incomplete;
        }
        let optlen = self.buf[17] as usize;
        if self.buf.len() - 18 < 1 + optlen {
            return Parsed::Incomplete;
        }
        let cmd = self.buf[18 + optlen];
        let uuid = crate::addr::copy_range(&self.buf, 1, 17);
        match parse_vless_addr(&self.buf, 19 + optlen) {
            Parsed::Incomplete => Parsed::Incomplete,
            Parsed::Reject(e) => Parsed::Reject(e),
            Parsed::Complete(dest, n) => {
                proof {
                    lemma_parse_vless_addr_consumed(self.buf@.skip(19 + optlen as int));
                }
                Parsed::Complete(VlessRequest { uuid, cmd, dest }, 19 + optlen + n)
            },
        }
    }

    /// Consumes the parser and returns the bytes fed beyond the first
    /// `consumed`: payload that follows a completed handshake.
    pub fn into_remainder(self, consumed: usize) -> (r: Vec<u8>)
        requires
            consumed <= self.fed().len(),
        ensures
            r@ == self.fed().skip(consumed as int),
    {
        let mut buf = self.buf;
        let _head = take_front(&mut buf, consumed);
        buf
    }
}

/// The fixed two-byte reply sent after a successful handshake:
/// `[version=0][addon-length=0]`.
pub fn vless_inbound_reply() -> (r: Vec<u8>)
    ensures
        r@ == seq![0u8, 0u8],
{
    let mut r: Vec<u8> = Vec::new();
    r.push(0);
    r.push(0);
    proof {
        assert(r@ =~= seq![0u8, 0u8]);
    }
    r
}

/// Law: a handshake with no addons and a domain destination of length `L`
/// consumes exactly `1 + 16 + 1 + 1 + 2 + 1 + 1 + L` bytes and no more.
pub proof fn lemma_vless_inbound_domain_consumes(input: Seq<u8>, q: VlessReq, n: usize)
    requires
        spec_vless_inbound_parse(input) == Parsed::<VlessReq>::Complete(q, n),
        input.len() >= 18 && input[17] == 0,
        q.dest is Domain,
    ensures
        n == 23 + q.dest->Domain_0.len(),
{
    lemma_parse_vless_addr_consumed(input.skip(19));
}

/// Law: the header that a VLESS client emits parses back, on the inbound
/// side, to exactly the UUID, command and destination the client encoded, no
/// matter what payload follows, and consumes exactly the header bytes.
pub proof fn lemma_vless_header_roundtrip(uuid: Seq<u8>, d: DestAddr, udp: bool, rest: Seq<u8>)
    requires
        uuid.len() == 16,
        d.wf(),
    ensures
        spec_vless_inbound_parse(spec_vless_header(uuid, d, udp) + rest) == Parsed::<
            VlessReq,
        >::Complete(
            VlessReq { uuid, cmd: if udp { 2u8 } else { 1u8 }, dest: d },
            (19 + vless_encoding(d).len()) as usize,
        ),
{
    let w = spec_vless_header(uuid, d, udp) + rest;
    assert(w.skip(19) =~= vless_encoding(d) + rest);
    crate::addr::lemma_vless_addr_roundtrip(d, rest);
    assert(w.subrange(1, 17) =~= uuid);
    assert(spec_vless_inbound_parse(w) =~= Parsed::<VlessReq>::Complete(
        VlessReq { uuid, cmd: if udp { 2u8 } else { 1u8 }, dest: d },
        (19 + vless_encoding(d).len()) as usize,
    ));
}

} // verus!
