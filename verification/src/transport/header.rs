//! Read side shared by the HTTP-style obfuscation transports.
//!
//! Each of them must consume an HTTP/1.1 header block from the first reads of
//! the underlying stream: bytes are buffered until the terminator `\r\n\r\n`
//! appears — the terminator may be split across any number of underlying
//! reads — and the bytes that follow it in the same read are payload, spilled
//! and delivered to the caller in order before any further underlying read.
//! No header byte is ever delivered as payload.
use vstd::prelude::*;

verus! {

use vstd::math::min;
use vstd::string::StringSliceAdditionalSpecFns;
use crate::bytestr::{push_bytes, slice_starts_with, starts_with_bytes, take_front};
use crate::error::ProxyError;

/// The four bytes `\r\n\r\n` stand at position `i` of `s`.
pub open spec fn is_delim_at(s: Seq<u8>, i: int) -> bool {
    &&& 0 <= i
    &&& i + 4 <= s.len()
    &&& s[i] == 13
    &&& s[i + 1] == 10
    &&& s[i + 2] == 13
    &&& s[i + 3] == 10
}

/// The first position at or after `from` where the terminator stands.
pub open spec fn find_delim_from(s: Seq<u8>, from: int) -> Option<int>
    decreases s.len() - from,
    when 0 <= from
{
    if from + 4 > s.len() {
        None
    } else if is_delim_at(s, from) {
        Some(from)
    } else {
        find_delim_from(s, from + 1)
    }
}

/// The first position of the header terminator in `s`.
pub open spec fn find_delim(s: Seq<u8>) -> Option<int> {
    find_delim_from(s, 0)
}

/// The payload carried after the header block: everything past the first
/// terminator, or nothing while no terminator has appeared.
pub open spec fn payload_of(s: Seq<u8>) -> Seq<u8> {
    match find_delim(s) {
        Some(i) => s.skip(i + 4),
        None => Seq::empty(),
    }
}

/// What `find_delim_from` finds is a terminator, and the first one.
pub proof fn lemma_find_delim_from_sound(s: Seq<u8>, from: int)
    requires
        0 <= from,
    ensures
        match find_delim_from(s, from) {
            Some(i) => is_delim_at(s, i) && from <= i && (forall|j: int|
                from <= j < i ==> !is_delim_at(s, j)),
            None => forall|j: int| from <= j ==> !is_delim_at(s, j),
        },
    decreases s.len() - from,
{
    if from + 4 > s.len() {
    } else if is_delim_at(s, from) {
    } else {
        lemma_find_delim_from_sound(s, from + 1);
    }
}

/// Conversely, the first terminator is what `find_delim_from` finds.
pub proof fn lemma_find_delim_from_complete(s: Seq<u8>, from: int, i: int)
    requires
        0 <= from <= i,
        is_delim_at(s, i),
        forall|j: int| from <= j < i ==> !is_delim_at(s, j),
    ensures
        find_delim_from(s, from) == Some(i),
    decreases i - from,
{
    if from < i {
        lemma_find_delim_from_complete(s, from + 1, i);
    }
}

/// Law: buffering makes the terminator visible wherever the underlying reads
/// split it. If the terminator stands anywhere in the concatenation of two
/// reads — in the first, in the second, or across their boundary — the scan
/// over the concatenation finds one.
pub proof fn lemma_delim_split_detected(a: Seq<u8>, b: Seq<u8>, i: int)
    requires
        is_delim_at(a + b, i),
    ensures
        find_delim(a + b) is Some,
{
    lemma_find_delim_from_sound(a + b, 0);
}

/// Finds the first `\r\n\r\n` in `v`.
pub fn find_crlf2(v: &[u8]) -> (r: Option<usize>)
    ensures
        match r {
            Some(i) => find_delim(v@) == Some(i as int),
            None => find_delim(v@) is None,
        },
{
    if v.len() < 4 {
        return None;
    }
    let end = v.len() - 4;
    let mut i: usize = 0;
    while i <= end
        invariant
            v@.len() >= 4,
            end == v@.len() - 4,
            i <= end + 1,
            forall|j: int| 0 <= j < i ==> !is_delim_at(v@, j),
        decreases end + 1 - i,
    {
        if v[i] == 13 && v[i + 1] == 10 && v[i + 2] == 13 && v[i + 3] == 10 {
            proof {
                lemma_find_delim_from_complete(v@, 0, i as int);
            }
            return Some(i);
        }
        i += 1;
    }
    proof {
        lemma_find_delim_from_sound(v@, 0);
    }
    None
}

/// The response header block opens with a status the Upgrade transport
/// accepts: `101 Switching Protocols`, or `200` as a lenient fallback.
pub open spec fn upgrade_status_ok(s: Seq<u8>) -> bool {
    ||| starts_with_bytes(s, ("HTTP/1.1 101").spec_bytes())
    ||| starts_with_bytes(s, ("HTTP/1.0 101").spec_bytes())
    ||| starts_with_bytes(s, ("HTTP/1.1 200").spec_bytes())
}

/// Whether an underlying read makes the header reader fail: the stream ended
/// before the terminator, or — where a success status is required — the
/// header block arrived with another status.
pub open spec fn chunk_fails(fed: Seq<u8>, chunk: Seq<u8>, require_status: bool) -> bool {
    ||| (find_delim(fed + chunk) is None && chunk.len() == 0)
    ||| (require_status && find_delim(fed + chunk) is Some && !upgrade_status_ok(fed + chunk))
}

/// The read-side state of one obfuscation transport: scans for the header
/// terminator, then holds the payload bytes that arrived past it until the
/// caller collects them.
pub struct HeaderReader {
    done: bool,
    acc: Vec<u8>,
    spill: Vec<u8>,
    fed: Ghost<Seq<u8>>,
    delivered: Ghost<Seq<u8>>,
}

impl HeaderReader {
    /// All bytes taken from the underlying stream so far.
    pub closed spec fn fed(&self) -> Seq<u8> {
        self.fed@
    }

    /// All payload bytes handed to the caller so far.
    pub closed spec fn delivered(&self) -> Seq<u8> {
        self.delivered@
    }

    /// Whether the header block has been consumed entirely.
    pub closed spec fn is_done(&self) -> bool {
        self.done
    }

    /// Payload bytes already read from the underlying stream but not yet
    /// collected by the caller.
    pub closed spec fn pending(&self) -> Seq<u8> {
        self.spill@
    }

    /// Internal consistency: while scanning, no terminator has been seen and
    /// nothing is deliverable; once done, what was delivered followed by what
    /// is pending is exactly the payload after the header block — header
    /// bytes never leak into the payload, and payload bytes are neither
    /// dropped, duplicated nor reordered.
    pub closed spec fn wf(&self) -> bool {
        if !self.done {
            &&& find_delim(self.fed@) is None
            &&& self.acc@ == self.fed@
            &&& self.spill@.len() == 0
            &&& self.delivered@.len() == 0
        } else {
            &&& find_delim(self.fed@) is Some
            &&& self.delivered@ + self.spill@ == payload_of(self.fed@)
        }
    }

    /// What `wf` guarantees once the header has been consumed, stated over
    /// the public views.
    pub proof fn lemma_payload_complete(&self)
        requires
            self.wf(),
            self.is_done(),
        ensures
            find_delim(self.fed()) is Some,
            self.delivered() + self.pending() == payload_of(self.fed()),
    {
    }

    /// A reader that has seen nothing.
    pub fn new() -> (r: HeaderReader)
        ensures
            r.wf(),
            !r.is_done(),
            r.fed() == Seq::<u8>::empty(),
            r.delivered() == Seq::<u8>::empty(),
            r.pending() == Seq::<u8>::empty(),
    {
        HeaderReader {
            done: false,
            acc: Vec::new(),
            spill: Vec::new(),
            fed: Ghost(Seq::empty()),
            delivered: Ghost(Seq::empty()),
        }
    }

    /// Whether the header block has been consumed, for the runtime that
    /// drives the reader.
    pub fn done(&self) -> (r: bool)
        ensures
            r == self.is_done(),
    {
        self.done
    }

    /// Consumes the bytes of one underlying read; an empty `chunk` records
    /// that the stream ended. With `require_status`, a header block whose
    /// status line is not a success is rejected. Returns whether the header
    /// block is now complete. The outcome depends only on the concatenation
    /// of the bytes fed, so a terminator split across reads is still found.
    pub fn on_chunk(&mut self, chunk: &[u8], require_status: bool) -> (r: Result<
        bool,
        ProxyError,
    >)
        requires
            old(self).wf(),
            !old(self).is_done(),
        ensures
            final(self).fed() == old(self).fed() + chunk@,
            match r {
                Ok(done) => {
                    &&& final(self).wf()
                    &&& !chunk_fails(old(self).fed(), chunk@, require_status)
                    &&& done == final(self).is_done()
                    &&& (done <==> find_delim(final(self).fed()) is Some)
                    &&& final(self).delivered() == Seq::<u8>::empty()
                    &&& (done ==> final(self).pending() == payload_of(final(self).fed()))
                    &&& (done && require_status ==> upgrade_status_ok(final(self).fed()))
                },
                Err(e) => {
                    &&& chunk_fails(old(self).fed(), chunk@, require_status)
                    &&& e == ProxyError::ProtocolViolation
                },
            },
    {
        push_bytes(&mut self.acc, chunk);
        proof {
            self.fed@ = self.fed@ + chunk@;
        }
        match find_crlf2(self.acc.as_slice()) {
            Some(i) => {
                if require_status {
                    let ok = slice_starts_with(self.acc.as_slice(), "HTTP/1.1 101".as_bytes())
                        || slice_starts_with(self.acc.as_slice(), "HTTP/1.0 101".as_bytes())
                        || slice_starts_with(self.acc.as_slice(), "HTTP/1.1 200".as_bytes());
                    if !ok {
                        return Err(ProxyError::ProtocolViolation);
                    }
                }
                let alen = self.acc.len();
                proof {
                    lemma_find_delim_from_sound(self.acc@, 0);
                    assert(is_delim_at(self.acc@, i as int));
                    assert(i + 4 <= alen);
                }
                let _header = take_front(&mut self.acc, i + 4);
                core::mem::swap(&mut self.spill, &mut self.acc);
                self.done = true;
                proof {
                    assert(self.spill@ =~= payload_of(self.fed@));
                    assert(self.delivered@ + self.spill@ =~= payload_of(self.fed@));
                }
                Ok(true)
            },
            None => {
                if chunk.is_empty() {
                    Err(ProxyError::ProtocolViolation)
                } else {
                    Ok(false)
                }
            },
        }
    }

    /// Hands the caller up to `cap` payload bytes, oldest first.
    pub fn pull(&mut self, cap: usize) -> (out: Vec<u8>)
        requires
            old(self).wf(),
        ensures
            final(self).wf(),
            final(self).is_done() == old(self).is_done(),
            final(self).fed() == old(self).fed(),
            out@ == old(self).pending().take(min(cap as int, old(self).pending().len() as int)),
            final(self).pending() == old(self).pending().skip(
                min(cap as int, old(self).pending().len() as int),
            ),
            final(self).delivered() == old(self).delivered() + out@,
    {
        let n = if cap < self.spill.len() {
            cap
        } else {
            self.spill.len()
        };
        let out = take_front(&mut self.spill, n);
        proof {
            self.delivered@ = self.delivered@ + out@;
            if !self.done {
                assert(self.delivered@ =~= Seq::<u8>::empty());
            } else {
                assert(self.delivered@ + self.spill@ =~= payload_of(self.fed@));
            }
        }
        out
    }
}

} // verus!
