//! Trojan inbound handshake.
//!
//! A Trojan request is `hex(SHA224(password))[56] CRLF cmd[1] dst CRLF`,
//! where `dst` uses the SOCKS address layout. Authentication succeeds exactly
//! when the received hex equals the expected digest and the CRLF follows.
//! Command `0x01` opens a TCP relay; `0x03` (UDP associate) is recognized but
//! unsupported; anything else is a protocol violation. The parser consumes no
//! payload byte past the trailing CRLF.
use vstd::prelude::*;

verus! {

use vstd::string::StringSliceAdditionalSpecFns;
use crate::addr::{lemma_parse_socks_consumed, spec_parse_socks, parse_socks, socks_encoding,
    DestAddr, Destination, Parsed};
use crate::bytestr::take_front;
use crate::error::ProxyError;

/// The SHA-224 digest of a byte sequence; 28 bytes, a function of the input
/// alone.
pub uninterp spec fn sha224_of(data: Seq<u8>) -> Seq<u8>;

/// Relies on sha2::Sha224 through the one-shot `Digest::digest`: the SHA-224
/// digest of the input bytes, always 28 bytes long.
#[verifier::external_body]
fn sha224_digest(data: &[u8]) -> (r: Vec<u8>)
    ensures
        r@ == sha224_of(data@),
        r@.len() == 28,
{
    <sha2::Sha224 as sha2::Digest>::digest(data).to_vec()
}

/// The ASCII code of the lower-case hex digit for `n < 16`.
pub open spec fn hex_digit(n: u8) -> u8 {
    if n < 10 {
        (48 + n) as u8
    } else {
        (87 + n) as u8
    }
}

/// Lower-case hex of a byte sequence: two ASCII digits per byte.
pub open spec fn hex_bytes(s: Seq<u8>) -> Seq<u8> {
    Seq::new(2 * s.len(), |i: int| hex_digit(if i % 2 == 0 { s[i / 2] / 16 } else { s[i / 2] % 16 }))
}

/// Encodes bytes as lower-case ASCII hex, two digits per byte.
pub fn hex_of(bytes: &[u8]) -> (r: Vec<u8>)
    ensures
        r@ == hex_bytes(bytes@),
{
    let n = bytes.len();
    let mut r: Vec<u8> = Vec::new();
    let mut i: usize = 0;
    while i < n
        invariant
            n == bytes@.len(),
            i <= n,
            r@.len() == 2 * i,
            forall|j: int| 0 <= j < r@.len() ==> r@[j] == hex_bytes(bytes@)[j],
        decreases n - i,
    {
        let b = bytes[i];
        let hi = b / 16;
        let lo = b % 16;
        r.push(if hi < 10 { 48 + hi } else { 87 + hi });
        r.push(if lo < 10 { 48 + lo } else { 87 + lo });
        i += 1;
    }
    proof {
        assert(r@ =~= hex_bytes(bytes@));
    }
    r
}

/// The 56 hex digits a client must present for `password`.
pub open spec fn spec_auth_hex(password: Seq<char>) -> Seq<u8> {
    hex_bytes(sha224_of(vstd::utf8::encode_utf8(password)))
}

/// The expected authentication line for a password: lower-case hex of the
/// password's SHA-224 digest.
pub fn trojan_auth_hex(password: &str) -> (r: Vec<u8>)
    ensures
        r@ == spec_auth_hex(password@),
        r@.len() == 56,
{
    let digest = sha224_digest(password.as_bytes());
    hex_of(digest.as_slice())
}

/// The first 56 input bytes match the expected digest hex exactly.
pub open spec fn auth_ok(expected: Seq<u8>, input: Seq<u8>) -> bool {
    &&& expected.len() == 56
    &&& input.len() >= 56
    &&& forall|j: int| 0 <= j < 56 ==> input[j] == expected[j]
}

/// What parsing a Trojan request from `input`, against the digest hex
/// `expected`, yields: the requested destination and the number of handshake
/// bytes consumed.
pub open spec fn spec_trojan_parse(expected: Seq<u8>, input: Seq<u8>) -> Parsed<DestAddr> {
    if input.len() < 59 {
        Parsed::Incomplete
    } else if !(auth_ok(expected, input) && input[56] == 13 && input[57] == 10) {
        Parsed::Reject(ProxyError::AuthenticationFailure)
    } else {
        match spec_parse_socks(input.skip(59)) {
            Parsed::Incomplete => Parsed::Incomplete,
            Parsed::Reject(e) => Parsed::Reject(e),
            Parsed::Complete(d, n) => {
                if input.len() < 59 + n + 2 {
                    Parsed::Incomplete
                } else if !(input[59 + n] == 13 && input[60 + n] == 10) {
                    Parsed::Reject(ProxyError::ProtocolViolation)
                } else if input[58] == 1 {
                    Parsed::Complete(d, (61 + n) as usize)
                } else if input[58] == 3 {
                    Parsed::Reject(ProxyError::UnsupportedOperation)
                } else {
                    Parsed::Reject(ProxyError::ProtocolViolation)
                }
            },
        }
    }
}

/// Incremental parser for the Trojan inbound handshake. Bytes read from the
/// raw connection are fed in as they arrive, in any chunking; the outcome
/// depends only on their concatenation.
pub struct TrojanParser {
    expected: Vec<u8>,
    buf: Vec<u8>,
}

impl TrojanParser {
    /// The digest hex this parser authenticates against.
    pub closed spec fn expected_view(&self) -> Seq<u8> {
        self.expected@
    }

    /// All bytes fed so far.
    pub closed spec fn fed(&self) -> Seq<u8> {
        self.buf@
    }

    /// The expected digest hex is the fixed 56 digits.
    pub closed spec fn wf(&self) -> bool {
        self.expected@.len() == 56
    }

    /// A parser for connections authenticated by `password`.
    pub fn new(password: &str) -> (r: TrojanParser)
        ensures
            r.wf(),
            r.expected_view() == spec_auth_hex(password@),
            r.fed() == Seq::<u8>::empty(),
    {
        let expected = trojan_auth_hex(password);
        let r = TrojanParser { expected, buf: Vec::new() };
        proof {
            assert(r.fed() =~= Seq::<u8>::empty());
        }
        r
    }

    /// Feeds the bytes of one underlying read.
    pub fn feed(&mut self, chunk: &[u8])
        ensures
            final(self).wf() == old(self).wf(),
            final(self).expected_view() == old(self).expected_view(),
            final(self).fed() == old(self).fed() + chunk@,
    {
        crate::bytestr::push_bytes(&mut self.buf, chunk);
    }

    /// Parses the bytes fed so far. The result is a function of the
    /// concatenation of the fed bytes alone, so the handshake may arrive in
    /// one read or byte by byte.
    pub fn poll(&self) -> (r: Parsed<Destination>)
        requires
            self.wf(),
        ensures
            r@ == spec_trojan_parse(self.expected_view(), self.fed()),
            r matches Parsed::Complete(d, n) ==> d.wf() && n <= self.fed().len(),
    {
        if self.buf.len() < 59 {
            return Parsed::Incomplete;
        }
        // Constant-content comparison: always scans all 56 digits.
        let mut ok = true;
        let mut i: usize = 0;
        while i < 56
            invariant
                self.wf(),
                self.buf@.len() >= 59,
                i <= 56,
                ok == (forall|j: int| 0 <= j < i ==> self.buf@[j] == self.expected@[j]),
            decreases 56 - i,
        {
            if self.buf[i] != self.expected[i] {
                ok = false;
            }
            i += 1;
        }
        if !(ok && self.buf[56] == 13 && self.buf[57] == 10) {
            return Parsed::Reject(ProxyError::AuthenticationFailure);
        }
        let cmd = self.buf[58];
        let dst = parse_socks(&self.buf, 59);
        proof {
            lemma_parse_socks_consumed(self.buf@.skip(59));
        }
        match dst {
            Parsed::Incomplete => Parsed::Incomplete,
            Parsed::Reject(e) => Parsed::Reject(e),
            Parsed::Complete(d, n) => {
                if self.buf.len() - 59 - n < 2 {
                    return Parsed::Incomplete;
                }
                if !(self.buf[59 + n] == 13 && self.buf[60 + n] == 10) {
                    return Parsed::Reject(ProxyError::ProtocolViolation);
                }
                if cmd == 1 {
                    Parsed::Complete(d, 61 + n)
                } else if cmd == 3 {
                    Parsed::Reject(ProxyError::UnsupportedOperation)
                } else {
                    Parsed::Reject(ProxyError::ProtocolViolation)
                }
            },
        }
    }

    /// Consumes the parser and returns the bytes fed beyond the first
    /// `consumed`: payload that follows a completed handshake.
    pub fn into_remainder(self, consumed: usize) -> (r: Vec<u8>)
        requires
            consumed <= self.fed().len(),
        ensures
            r@ == self.fed().skip(consumed as int),
    {
        let mut buf = self.buf;
        let _head = take_front(&mut buf, consumed);
        buf
    }
}

/// The full wire form of a Trojan request for digest hex `expected`, TCP
/// command, and destination `d`.
pub open spec fn trojan_encoding(expected: Seq<u8>, d: DestAddr) -> Seq<u8> {
    expected + seq![13u8, 10u8, 1u8] + socks_encoding(d) + seq![13u8, 10u8]
}

/// Law: a valid Trojan handshake carrying the expected digest parses to
/// exactly the destination the client encoded — whatever payload follows it —
/// and consumes exactly the handshake bytes. Together with `TrojanParser`'s
/// contracts, which depend only on the concatenation of the fed bytes, the
/// outcome is the same whether the handshake arrives in one read or is split
/// across many single-byte reads.
pub proof fn lemma_trojan_roundtrip(expected: Seq<u8>, d: DestAddr, rest: Seq<u8>)
    requires
        expected.len() == 56,
        d.wf(),
    ensures
        spec_trojan_parse(expected, trojan_encoding(expected, d) + rest) == Parsed::Complete(
            d,
            (61 + socks_encoding(d).len()) as usize,
        ),
{
    let w = trojan_encoding(expected, d) + rest;
    let enc = socks_encoding(d);
    let n = enc.len() as int;
    assert(w.skip(59) =~= enc + (seq![13u8, 10u8] + rest));
    crate::addr::lemma_socks_roundtrip(d, seq![13u8, 10u8] + rest);
    assert(auth_ok(expected, w));
    assert(w.len() >= 61 + n);
    assert(w[59 + n] == 13 && w[60 + n] == 10);
    assert(spec_trojan_parse(expected, w) =~= Parsed::Complete(d, (61 + n) as usize));
}

} // verus!
