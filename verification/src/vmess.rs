//! VMess inbound handshake, reduced scope: this codebase parses only a
//! destination in the SOCKS address layout and dispatches; VMess's encrypted
//! handshake and authentication are not implemented.
use vstd::prelude::*;

verus! {

use crate::addr::{parse_socks, spec_parse_socks, Destination, Parsed};
use crate::bytestr::take_front;

/// Incremental parser for the reduced VMess inbound handshake: a destination
/// in the SOCKS layout. Bytes are fed as they arrive, in any chunking; the
/// outcome depends only on their concatenation.
pub struct VmessInboundParser {
    buf: Vec<u8>,
}

impl VmessInboundParser {
    /// All bytes fed so far.
    pub closed spec fn fed(&self) -> Seq<u8> {
        self.buf@
    }

    /// A parser that has seen nothing.
    pub fn new() -> (r: VmessInboundParser)
        ensures
            r.fed() == Seq::<u8>::empty(),
    {
        let r = VmessInboundParser { buf: Vec::new() };
        proof {
            assert(r.fed() =~= Seq::<u8>::empty());
        }
        r
    }

    /// Feeds the bytes of one underlying read.
    pub fn feed(&mut self, chunk: &[u8])
        ensures
            final(self).fed() == old(self).fed() + chunk@,
    {
        crate::bytestr::push_bytes(&mut self.buf, chunk);
    }

    /// Parses the bytes fed so far as a SOCKS-layout destination.
    pub fn poll(&self) -> (r: Parsed<Destination>)
        ensures
            r@ == spec_parse_socks(self.fed()),
            r matches Parsed::Complete(d, n) ==> d.wf() && n <= self.fed().len(),
    {
        let r = parse_socks(&self.buf, 0);
        proof {
            assert(self.buf@.skip(0) =~= self.buf@);
            crate::addr::lemma_parse_socks_consumed(self.buf@);
        }
        r
    }

    /// Consumes the parser and returns the bytes fed beyond the first
    /// `consumed`: payload that follows a completed handshake.
    pub fn into_remainder(self, consumed: usize) -> (r: Vec<u8>)
        requires
            consumed <= self.fed().len(),
        ensures
            r@ == self.fed().skip(consumed as int),
    {
        let mut buf = self.buf;
        let _head = take_front(&mut buf, consumed);
        buf
    }
}

} // verus!
