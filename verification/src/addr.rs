//! Destination addresses and their wire codecs.
//!
//! A destination is an IPv4 or IPv6 address or a domain name, together with a
//! port. Two wire layouts are used by the proxy protocols:
//!
//! * the SOCKS layout (Trojan, VMess): address type, address, then port,
//!   with type `0x01` = IPv4, `0x03` = domain, `0x04` = IPv6;
//! * the VLESS layout: port first, then address type and address, with type
//!   `0x01` = IPv4, `0x02` = domain, `0x03` = IPv6.
//!
//! Ports and length prefixes are big-endian; domains are length-prefixed and
//! must be valid UTF-8.
use vstd::prelude::*;

verus! {

use vstd::utf8::{pop_first_scalar, valid_first_scalar, valid_utf8};
use crate::bytestr::{be16, be16_bytes, be_to_u16, push_bytes};
use crate::error::ProxyError;

/// The mathematical value of a [`Destination`].
#[verifier::ext_equal]
pub enum DestAddr {
    V4(Seq<u8>, u16),
    V6(Seq<u8>, u16),
    Domain(Seq<u8>, u16),
}

impl DestAddr {
    /// Well-formedness: address bytes of the right length; domains fit their
    /// one-byte length prefix and are valid UTF-8.
    pub open spec fn wf(self) -> bool {
        match self {
            DestAddr::V4(a, _) => a.len() == 4,
            DestAddr::V6(a, _) => a.len() == 16,
            DestAddr::Domain(d, _) => d.len() <= 255 && valid_utf8(d),
        }
    }

    /// The port of the destination.
    pub open spec fn port(self) -> u16 {
        match self {
            DestAddr::V4(_, p) => p,
            DestAddr::V6(_, p) => p,
            DestAddr::Domain(_, p) => p,
        }
    }
}

/// A destination to relay traffic to: an IP address or a domain name, plus a
/// port.
#[derive(Debug, Clone, PartialEq, Eq)]
pub enum Destination {
    Ipv4 { addr: [u8; 4], port: u16 },
    Ipv6 { addr: [u8; 16], port: u16 },
    Domain { name: Vec<u8>, port: u16 },
}

impl View for Destination {
    type V = DestAddr;

    open spec fn view(&self) -> DestAddr {
        match self {
            Destination::Ipv4 { addr, port } => DestAddr::V4(addr@, *port),
            Destination::Ipv6 { addr, port } => DestAddr::V6(addr@, *port),
            Destination::Domain { name, port } => DestAddr::Domain(name@, *port),
        }
    }
}

impl Destination {
    /// Well-formedness of the underlying value.
    pub open spec fn wf(&self) -> bool {
        self@.wf()
    }

    /// The destination port.
    pub fn port(&self) -> (r: u16)
        ensures
            r == self@.port(),
    {
        match self {
            Destination::Ipv4 { port, .. } => *port,
            Destination::Ipv6 { port, .. } => *port,
            Destination::Domain { port, .. } => *port,
        }
    }
}

/// Outcome of running a parser over the bytes received so far: more bytes are
/// needed, the input was rejected, or a value was parsed that consumed the
/// given number of bytes.
#[verifier::ext_equal]
pub enum Parsed<T> {
    Incomplete,
    Reject(ProxyError),
    Complete(T, usize),
}

impl<T: View> View for Parsed<T> {
    type V = Parsed<T::V>;

    open spec fn view(&self) -> Parsed<T::V> {
        match self {
            Parsed::Incomplete => Parsed::Incomplete,
            Parsed::Reject(e) => Parsed::Reject(*e),
            Parsed::Complete(t, n) => Parsed::Complete(t.view(), *n),
        }
    }
}

/// The SOCKS wire layout of a destination: address type, address, port.
pub open spec fn socks_encoding(d: DestAddr) -> Seq<u8> {
    match d {
        DestAddr::V4(a, p) => seq![1u8] + a + be16_bytes(p),
        DestAddr::Domain(n, p) => seq![3u8, n.len() as u8] + n + be16_bytes(p),
        DestAddr::V6(a, p) => seq![4u8] + a + be16_bytes(p),
    }
}

/// The VLESS wire layout of a destination: port, address type, address.
pub open spec fn vless_encoding(d: DestAddr) -> Seq<u8> {
    match d {
        DestAddr::V4(a, p) => be16_bytes(p) + seq![1u8] + a,
        DestAddr::Domain(n, p) => be16_bytes(p) + seq![2u8, n.len() as u8] + n,
        DestAddr::V6(a, p) => be16_bytes(p) + seq![3u8] + a,
    }
}

/// Appends the SOCKS encoding of `d` to `out`.
pub fn encode_socks(d: &Destination, out: &mut Vec<u8>)
    requires
        d.wf(),
    ensures
        final(out)@ == old(out)@ + socks_encoding(d@),
{
    match d {
        Destination::Ipv4 { addr, port } => {
            out.push(1);
            push_bytes(out, addr.as_slice());
            push_port(out, *port);
            proof {
                assert(out@ =~= old(out)@ + socks_encoding(d@));
            }
        },
        Destination::Domain { name, port } => {
            out.push(3);
            out.push(name.len() as u8);
            push_bytes(out, name.as_slice());
            push_port(out, *port);
            proof {
                assert(out@ =~= old(out)@ + socks_encoding(d@));
            }
        },
        Destination::Ipv6 { addr, port } => {
            out.push(4);
            push_bytes(out, addr.as_slice());
            push_port(out, *port);
            proof {
                assert(out@ =~= old(out)@ + socks_encoding(d@));
            }
        },
    }
}

/// Appends the VLESS encoding of `d` to `out`.
pub fn encode_vless(d: &Destination, out: &mut Vec<u8>)
    requires
        d.wf(),
    ensures
        final(out)@ == old(out)@ + vless_encoding(d@),
{
    match d {
        Destination::Ipv4 { addr, port } => {
            push_port(out, *port);
            out.push(1);
            push_bytes(out, addr.as_slice());
            proof {
                assert(out@ =~= old(out)@ + vless_encoding(d@));
            }
        },
        Destination::Domain { name, port } => {
            push_port(out, *port);
            out.push(2);
            out.push(name.len() as u8);
            push_bytes(out, name.as_slice());
            proof {
                assert(out@ =~= old(out)@ + vless_encoding(d@));
            }
        },
        Destination::Ipv6 { addr, port } => {
            push_port(out, *port);
            out.push(3);
            push_bytes(out, addr.as_slice());
            proof {
                assert(out@ =~= old(out)@ + vless_encoding(d@));
            }
        },
    }
}

/// Appends a big-endian port to `out`.
fn push_port(out: &mut Vec<u8>, port: u16)
    ensures
        final(out)@ == old(out)@ + be16_bytes(port),
{
    out.push((port / 256) as u8);
    out.push((port % 256) as u8);
    proof {
        assert(out@ =~= old(out)@ + be16_bytes(port));
    }
}

/// Checks that `v` is valid UTF-8: each scalar opens with a well-formed
/// leading byte followed by the right number of continuation bytes, is not an
/// overlong encoding, and is not a surrogate.
pub fn utf8_check(v: &[u8]) -> (r: bool)
    ensures
        r == valid_utf8(v@),
{
    let n = v.len();
    let mut i: usize = 0;
    proof {
        assert(v@.skip(0) =~= v@);
    }
    while i < n
        invariant
            n == v@.len(),
            i <= n,
            valid_utf8(v@) == valid_utf8(v@.skip(i as int)),
        decreases n - i,
    {
        let ghost rest = v@.skip(i as int);
        let b0 = v[i];
        if b0 <= 0x7f {
            let cp = (b0 & 0x7f) as u32;
            if 0xd800 <= cp && cp <= 0xdfff {
                proof {
                    assert(!valid_first_scalar(rest));
                }
                return false;
            }
            proof {
                assert(valid_first_scalar(rest));
                assert(pop_first_scalar(rest) =~= v@.skip(i + 1));
            }
            i += 1;
        } else if 0xc0 <= b0 && b0 <= 0xdf {
            if n - i < 2 || !is_continuation(v[i + 1]) {
                proof {
                    assert(!valid_first_scalar(rest));
                }
                return false;
            }
            let b1 = v[i + 1];
            let cp = (((b0 & 0x1f) as u32) << 6) | ((b1 & 0x3f) as u32);
            if cp < 0x80 || (0xd800 <= cp && cp <= 0xdfff) {
                proof {
                    assert(!valid_first_scalar(rest));
                }
                return false;
            }
            proof {
                assert(valid_first_scalar(rest));
                assert(pop_first_scalar(rest) =~= v@.skip(i + 2));
            }
            i += 2;
        } else if 0xe0 <= b0 && b0 <= 0xef {
            if n - i < 3 || !is_continuation(v[i + 1]) || !is_continuation(v[i + 2]) {
                proof {
                    assert(!valid_first_scalar(rest));
                }
                return false;
            }
            let b1 = v[i + 1];
            let b2 = v[i + 2];
            let cp = (((b0 & 0x0f) as u32) << 12) | (((b1 & 0x3f) as u32) << 6) | ((b2
                & 0x3f) as u32);
            if cp < 0x800 || (0xd800 <= cp && cp <= 0xdfff) {
                proof {
                    assert(!valid_first_scalar(rest));
                }
                return false;
            }
            proof {
                assert(valid_first_scalar(rest));
                assert(pop_first_scalar(rest) =~= v@.skip(i + 3));
            }
            i += 3;
        } else if 0xf0 <= b0 && b0 <= 0xf7 {
            if n - i < 4 || !is_continuation(v[i + 1]) || !is_continuation(v[i + 2])
                || !is_continuation(v[i + 3]) {
                proof {
                    assert(!valid_first_scalar(rest));
                }
                return false;
            }
            let b1 = v[i + 1];
            let b2 = v[i + 2];
            let b3 = v[i + 3];
            let cp = (((b0 & 0x07) as u32) << 18) | (((b1 & 0x3f) as u32) << 12) | (((b2
                & 0x3f) as u32) << 6) | ((b3 & 0x3f) as u32);
            if cp < 0x10000 || cp > 0x10ffff || (0xd800 <= cp && cp <= 0xdfff) {
                proof {
                    assert(!valid_first_scalar(rest));
                }
                return false;
            }
            proof {
                assert(valid_first_scalar(rest));
                assert(pop_first_scalar(rest) =~= v@.skip(i + 4));
            }
            i += 4;
        } else {
            // A continuation byte, or a byte no encoding starts with.
            proof {
                assert(!valid_first_scalar(rest));
            }
            return false;
        }
    }
    proof {
        assert(v@.skip(n as int) =~= Seq::<u8>::empty());
    }
    true
}

/// Tests for the continuation-byte form `10xxxxxx`.
fn is_continuation(b: u8) -> (r: bool)
    ensures
        r == vstd::utf8::is_continuation_byte(b),
{
    0x80 <= b && b <= 0xbf
}

/// What parsing a destination in the SOCKS layout from `input` yields.
pub open spec fn spec_parse_socks(input: Seq<u8>) -> Parsed<DestAddr> {
    if input.len() < 1 {
        Parsed::Incomplete
    } else if input[0] == 1 {
        if input.len() < 7 {
            Parsed::Incomplete
        } else {
            Parsed::Complete(DestAddr::V4(input.subrange(1, 5), be16(input[5], input[6])), 7)
        }
    } else if input[0] == 4 {
        if input.len() < 19 {
            Parsed::Incomplete
        } else {
            Parsed::Complete(DestAddr::V6(input.subrange(1, 17), be16(input[17], input[18])), 19)
        }
    } else if input[0] == 3 {
        if input.len() < 2 {
            Parsed::Incomplete
        } else {
            let l = input[1] as int;
            if input.len() < 4 + l {
                Parsed::Incomplete
            } else {
                let name = input.subrange(2, 2 + l);
                if valid_utf8(name) {
                    Parsed::Complete(
                        DestAddr::Domain(name, be16(input[2 + l], input[3 + l])),
                        (4 + l) as usize,
                    )
                } else {
                    Parsed::Reject(ProxyError::ProtocolViolation)
                }
            }
        }
    } else {
        Parsed::Reject(ProxyError::ProtocolViolation)
    }
}

/// What parsing a destination in the VLESS layout from `input` yields.
pub open spec fn spec_parse_vless_addr(input: Seq<u8>) -> Parsed<DestAddr> {
    if input.len() < 3 {
        Parsed::Incomplete
    } else {
        let p = be16(input[0], input[1]);
        if input[2] == 1 {
            if input.len() < 7 {
                Parsed::Incomplete
            } else {
                Parsed::Complete(DestAddr::V4(input.subrange(3, 7), p), 7)
            }
        } else if input[2] == 3 {
            if input.len() < 19 {
                Parsed::Incomplete
            } else {
                Parsed::Complete(DestAddr::V6(input.subrange(3, 19), p), 19)
            }
        } else if input[2] == 2 {
            if input.len() < 4 {
                Parsed::Incomplete
            } else {
                let l = input[3] as int;
                if input.len() < 4 + l {
                    Parsed::Incomplete
                } else {
                    let name = input.subrange(4, 4 + l);
                    if valid_utf8(name) {
                        Parsed::Complete(DestAddr::Domain(name, p), (4 + l) as usize)
                    } else {
                        Parsed::Reject(ProxyError::ProtocolViolation)
                    }
                }
            }
        } else {
            Parsed::Reject(ProxyError::ProtocolViolation)
        }
    }
}

/// Copies `v[a..b]` into a fresh buffer.
pub fn copy_range(v: &Vec<u8>, a: usize, b: usize) -> (r: Vec<u8>)
    requires
        a <= b <= v@.len(),
    ensures
        r@ == v@.subrange(a as int, b as int),
{
    let mut r: Vec<u8> = Vec::new();
    let mut i: usize = a;
    while i < b
        invariant
            a <= i <= b <= v@.len(),
            r@ == v@.subrange(a as int, i as int),
        decreases b - i,
    {
        r.push(v[i]);
        proof {
            assert(v@.subrange(a as int, i as int) + seq![v@[i as int]] =~= v@.subrange(
                a as int,
                i + 1,
            ));
        }
        i += 1;
    }
    r
}

/// Parses a destination in the SOCKS layout from `input[start..]`.
pub fn parse_socks(input: &Vec<u8>, start: usize) -> (r: Parsed<Destination>)
    requires
        start <= input@.len(),
    ensures
        r@ == spec_parse_socks(input@.skip(start as int)),
        r matches Parsed::Complete(d, _) ==> d.wf(),
{
    let ghost s = input@.skip(start as int);
    let avail = input.len() - start;
    if avail < 1 {
        return Parsed::Incomplete;
    }
    let atyp = input[start];
    if atyp == 1 {
        if avail < 7 {
            return Parsed::Incomplete;
        }
        let addr = [input[start + 1], input[start + 2], input[start + 3], input[start + 4]];
        let port = be_to_u16(input[start + 5], input[start + 6]);
        let d = Destination::Ipv4 { addr, port };
        proof {
            assert(addr@ =~= s.subrange(1, 5));
        }
        Parsed::Complete(d, 7)
    } else if atyp == 4 {
        if avail < 19 {
            return Parsed::Incomplete;
        }
        let addr = [
            input[start + 1],
            input[start + 2],
            input[start + 3],
            input[start + 4],
            input[start + 5],
            input[start + 6],
            input[start + 7],
            input[start + 8],
            input[start + 9],
            input[start + 10],
            input[start + 11],
            input[start + 12],
            input[start + 13],
            input[start + 14],
            input[start + 15],
            input[start + 16],
        ];
        let port = be_to_u16(input[start + 17], input[start + 18]);
        let d = Destination::Ipv6 { addr, port };
        proof {
            assert(addr@ =~= s.subrange(1, 17));
        }
        Parsed::Complete(d, 19)
    } else if atyp == 3 {
        if avail < 2 {
            return Parsed::Incomplete;
        }
        let l = input[start + 1] as usize;
        if avail < 4 + l {
            return Parsed::Incomplete;
        }
        let name = copy_range(input, start + 2, start + 2 + l);
        proof {
            assert(name@ =~= s.subrange(2, 2 + l));
        }
        if !utf8_check(name.as_slice()) {
            return Parsed::Reject(ProxyError::ProtocolViolation);
        }
        let port = be_to_u16(input[start + 2 + l], input[start + 3 + l]);
        Parsed::Complete(Destination::Domain { name, port }, 4 + l)
    } else {
        Parsed::Reject(ProxyError::ProtocolViolation)
    }
}

/// Parses a destination in the VLESS layout from `input[start..]`.
pub fn parse_vless_addr(input: &Vec<u8>, start: usize) -> (r: Parsed<Destination>)
    requires
        start <= input@.len(),
    ensures
        r@ == spec_parse_vless_addr(input@.skip(start as int)),
        r matches Parsed::Complete(d, _) ==> d.wf(),
{
    let ghost s = input@.skip(start as int);
    let avail = input.len() - start;
    if avail < 3 {
        return Parsed::Incomplete;
    }
    let port = be_to_u16(input[start], input[start + 1]);
    let atyp = input[start + 2];
    if atyp == 1 {
        if avail < 7 {
            return Parsed::Incomplete;
        }
        let addr = [input[start + 3], input[start + 4], input[start + 5], input[start + 6]];
        let d = Destination::Ipv4 { addr, port };
        proof {
            assert(addr@ =~= s.subrange(3, 7));
        }
        Parsed::Complete(d, 7)
    } else if atyp == 3 {
        if avail < 19 {
            return Parsed::Incomplete;
        }
        let addr = [
            input[start + 3],
            input[start + 4],
            input[start + 5],
            input[start + 6],
            input[start + 7],
            input[start + 8],
            input[start + 9],
            input[start + 10],
            input[start + 11],
            input[start + 12],
            input[start + 13],
            input[start + 14],
            input[start + 15],
            input[start + 16],
            input[start + 17],
            input[start + 18],
        ];
        let d = Destination::Ipv6 { addr, port };
        proof {
            assert(addr@ =~= s.subrange(3, 19));
        }
        Parsed::Complete(d, 19)
    } else if atyp == 2 {
        if avail < 4 {
            return Parsed::Incomplete;
        }
        let l = input[start + 3] as usize;
        if avail < 4 + l {
            return Parsed::Incomplete;
        }
        let name = copy_range(input, start + 4, start + 4 + l);
        proof {
            assert(name@ =~= s.subrange(4, 4 + l));
        }
        if !utf8_check(name.as_slice()) {
            return Parsed::Reject(ProxyError::ProtocolViolation);
        }
        Parsed::Complete(Destination::Domain { name, port }, 4 + l)
    } else {
        Parsed::Reject(ProxyError::ProtocolViolation)
    }
}

/// Law: a destination encoded in the SOCKS layout parses back to itself, no
/// matter what bytes follow it, and consumes exactly its encoding.
pub proof fn lemma_socks_roundtrip(d: DestAddr, rest: Seq<u8>)
    requires
        d.wf(),
    ensures
        spec_parse_socks(socks_encoding(d) + rest) == Parsed::Complete(
            d,
            socks_encoding(d).len() as usize,
        ),
{
    let w = socks_encoding(d) + rest;
    match d {
        DestAddr::V4(a, p) => {
            assert(w.subrange(1, 5) =~= a);
            assert(w[5] == be16_bytes(p)[0] && w[6] == be16_bytes(p)[1]);
            crate::bytestr::lemma_be16_roundtrip(p);
            assert(spec_parse_socks(w) =~= Parsed::Complete(d, 7usize));
        },
        DestAddr::V6(a, p) => {
            assert(w.subrange(1, 17) =~= a);
            assert(w[17] == be16_bytes(p)[0] && w[18] == be16_bytes(p)[1]);
            crate::bytestr::lemma_be16_roundtrip(p);
            assert(spec_parse_socks(w) =~= Parsed::Complete(d, 19usize));
        },
        DestAddr::Domain(n, p) => {
            let l = n.len() as int;
            assert(w.subrange(2, 2 + l) =~= n);
            assert(w[2 + l] == be16_bytes(p)[0] && w[3 + l] == be16_bytes(p)[1]);
            crate::bytestr::lemma_be16_roundtrip(p);
            assert(spec_parse_socks(w) =~= Parsed::Complete(d, (4 + l) as usize));
        },
    }
}

/// Law: a destination encoded in the VLESS layout parses back to itself, no
/// matter what bytes follow it, and consumes exactly its encoding.
pub proof fn lemma_vless_addr_roundtrip(d: DestAddr, rest: Seq<u8>)
    requires
        d.wf(),
    ensures
        spec_parse_vless_addr(vless_encoding(d) + rest) == Parsed::Complete(
            d,
            vless_encoding(d).len() as usize,
        ),
{
    let w = vless_encoding(d) + rest;
    crate::bytestr::lemma_be16_roundtrip(d.port());
    match d {
        DestAddr::V4(a, p) => {
            assert(w.subrange(3, 7) =~= a);
            assert(w[0] == be16_bytes(p)[0] && w[1] == be16_bytes(p)[1]);
            assert(spec_parse_vless_addr(w) =~= Parsed::Complete(d, 7usize));
        },
        DestAddr::V6(a, p) => {
            assert(w.subrange(3, 19) =~= a);
            assert(w[0] == be16_bytes(p)[0] && w[1] == be16_bytes(p)[1]);
            assert(spec_parse_vless_addr(w) =~= Parsed::Complete(d, 19usize));
        },
        DestAddr::Domain(n, p) => {
            let l = n.len() as int;
            assert(w.subrange(4, 4 + l) =~= n);
            assert(w[0] == be16_bytes(p)[0] && w[1] == be16_bytes(p)[1]);
            assert(spec_parse_vless_addr(w) =~= Parsed::Complete(d, (4 + l) as usize));
        },
    }
}

/// On a complete SOCKS address parse, between 1 and `input.len()` bytes are
/// consumed and the destination is well-formed.
pub proof fn lemma_parse_socks_consumed(input: Seq<u8>)
    ensures
        spec_parse_socks(input) matches Parsed::Complete(d, n) ==> d.wf() && 1 <= n
            <= input.len(),
{
}

/// On a complete VLESS address parse, between 1 and `input.len()` bytes are
/// consumed and the destination is well-formed.
pub proof fn lemma_parse_vless_addr_consumed(input: Seq<u8>)
    ensures
        spec_parse_vless_addr(input) matches Parsed::Complete(d, n) ==> d.wf() && 1 <= n
            <= input.len(),
{
}

} // verus!
