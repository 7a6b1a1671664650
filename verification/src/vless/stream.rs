//! VLESS outbound stream codec.
//!
//! Constructed over an already transport-wrapped stream, the codec first
//! emits the fixed request header
//! `[version=0][uuid:16][addon-length=0][command: 1=TCP, 2=UDP][destination]`
//! and then runs two independent state machines, one per direction:
//!
//! * write side: in UDP mode every caller write becomes a frame
//!   `len[2,BE] payload[len]`; in TCP mode payload passes unframed. The
//!   machine tracks how much of the current frame the underlying stream has
//!   accepted and reports the caller's write as consumed only when the whole
//!   frame is through. An underlying write of zero bytes is a short-write
//!   error, never silently retried.
//! * read side: strips the one-byte version (which must be 0) and the
//!   addon-length byte, discards that many addon bytes, then — in UDP mode —
//!   decodes the length-prefixed frames one at a time, handing the caller
//!   bytes of a single datagram frame per collection, or — in TCP mode —
//!   passes bytes through. Decoded payload is handed over in order; the
//!   excess of a frame is retained, never re-requested.
use vstd::prelude::*;

verus! {

use crate::addr::{vless_encoding, DestAddr, Destination};
use crate::bytestr::{be16, be16_bytes, be_to_u16, push_bytes, take_front, u16_to_be};
use crate::error::ProxyError;
use crate::vless::{parse_uuid, uuid_bytes_of};
use vstd::math::min;

/// The fixed VLESS request header for a UUID, destination and mode.
pub open spec fn spec_vless_header(uuid: Seq<u8>, d: DestAddr, udp: bool) -> Seq<u8> {
    seq![0u8] + uuid + seq![0u8] + seq![if udp { 2u8 } else { 1u8 }] + vless_encoding(d)
}

/// Builds the request header sent once, on construction.
pub fn vless_request_header(uuid: &Vec<u8>, dst: &Destination, udp: bool) -> (r: Vec<u8>)
    requires
        uuid@.len() == 16,
        dst.wf(),
    ensures
        r@ == spec_vless_header(uuid@, dst@, udp),
{
    let mut r: Vec<u8> = Vec::new();
    r.push(0);
    push_bytes(&mut r, uuid.as_slice());
    r.push(0);
    r.push(if udp { 2 } else { 1 });
    crate::addr::encode_vless(dst, &mut r);
    proof {
        assert(r@ =~= spec_vless_header(uuid@, dst@, udp));
    }
    r
}

/// Builds the request header from a textual UUID, as a handler does when
/// opening a connection; rejects text that is not a UUID.
pub fn connect_header(uuid: &str, dst: &Destination, udp: bool) -> (r: Result<Vec<u8>, ProxyError>)
    requires
        dst.wf(),
    ensures
        match r {
            Ok(h) => uuid_bytes_of(uuid@) matches Some(b) && h@ == spec_vless_header(b, dst@, udp),
            Err(e) => uuid_bytes_of(uuid@) is None && e == ProxyError::ProtocolViolation,
        },
{
    match parse_uuid(uuid) {
        Some(bytes) => Ok(vless_request_header(&bytes, dst, udp)),
        None => Err(ProxyError::ProtocolViolation),
    }
}

/// One UDP frame on the wire: big-endian length, then the payload.
pub open spec fn spec_udp_frame(p: Seq<u8>) -> Seq<u8> {
    be16_bytes(p.len() as u16) + p
}

/// The frame for one caller write: length-prefixed in UDP mode, bare in TCP
/// mode.
pub open spec fn spec_frame(udp: bool, p: Seq<u8>) -> Seq<u8> {
    if udp {
        spec_udp_frame(p)
    } else {
        p
    }
}

/// The wire bytes of a sequence of UDP-mode writes, in order.
pub open spec fn spec_udp_wire(writes: Seq<Seq<u8>>) -> Seq<u8>
    decreases writes.len(),
{
    if writes.len() == 0 {
        Seq::empty()
    } else {
        spec_udp_frame(writes[0]) + spec_udp_wire(writes.skip(1))
    }
}

/// The payloads of the complete `len[2,BE] payload[len]` frames at the front
/// of `s`, in order.
pub open spec fn udp_frames(s: Seq<u8>) -> Seq<Seq<u8>>
    decreases s.len(),
{
    if s.len() < 2 {
        seq![]
    } else {
        let n = be16(s[0], s[1]) as int;
        if s.len() < 2 + n {
            seq![]
        } else {
            seq![s.subrange(2, 2 + n)] + udp_frames(s.skip(2 + n))
        }
    }
}

/// Those payloads concatenated: what a UDP-mode reader delivers from `s`.
pub open spec fn udp_payload(s: Seq<u8>) -> Seq<u8>
    decreases s.len(),
{
    if s.len() < 2 {
        Seq::empty()
    } else {
        let n = be16(s[0], s[1]) as int;
        if s.len() < 2 + n {
            Seq::empty()
        } else {
            s.subrange(2, 2 + n) + udp_payload(s.skip(2 + n))
        }
    }
}

/// The bytes of `s` past its complete frames: at most one partial frame.
pub open spec fn udp_leftover(s: Seq<u8>) -> Seq<u8>
    decreases s.len(),
{
    if s.len() < 2 {
        s
    } else {
        let n = be16(s[0], s[1]) as int;
        if s.len() < 2 + n {
            s
        } else {
            udp_leftover(s.skip(2 + n))
        }
    }
}

/// The concatenation of a sequence of writes.
pub open spec fn concat_all(writes: Seq<Seq<u8>>) -> Seq<u8>
    decreases writes.len(),
{
    if writes.len() == 0 {
        Seq::empty()
    } else {
        writes[0] + concat_all(writes.skip(1))
    }
}

/// Law: the wire bytes of any sequence of UDP-mode writes, each at most
/// 65535 bytes, decompose uniquely back into those frames — `udp_frames` is a
/// function of the wire bytes — and their payloads reassemble, in order, to
/// the original writes.
pub proof fn lemma_udp_roundtrip(writes: Seq<Seq<u8>>)
    requires
        forall|i: int| 0 <= i < writes.len() ==> #[trigger] writes[i].len() <= 0xffff,
    ensures
        udp_frames(spec_udp_wire(writes)) == writes,
        udp_payload(spec_udp_wire(writes)) == concat_all(writes),
        udp_leftover(spec_udp_wire(writes)) == Seq::<u8>::empty(),
    decreases writes.len(),
{
    if writes.len() == 0 {
        assert(udp_frames(spec_udp_wire(writes)) =~= writes);
        assert(udp_payload(spec_udp_wire(writes)) =~= concat_all(writes));
        assert(udp_leftover(spec_udp_wire(writes)) =~= Seq::<u8>::empty());
    } else {
        let w0 = writes[0];
        let rest = writes.skip(1);
        let wire = spec_udp_wire(writes);
        let n = w0.len() as int;
        crate::bytestr::lemma_be16_roundtrip(w0.len() as u16);
        assert(wire[0] == be16_bytes(w0.len() as u16)[0]);
        assert(wire[1] == be16_bytes(w0.len() as u16)[1]);
        assert(be16(wire[0], wire[1]) as int == n);
        assert(wire.len() == 2 + n + spec_udp_wire(rest).len());
        assert(wire.subrange(2, 2 + n) =~= w0);
        assert(wire.skip(2 + n) =~= spec_udp_wire(rest));
        lemma_udp_roundtrip(rest);
        assert(udp_frames(wire) =~= writes);
        assert(udp_payload(wire) =~= concat_all(writes));
    }
}

/// The payload a UDP-mode reader delivers is exactly the concatenation of
/// the frames the wire decomposes into, in order.
pub proof fn lemma_udp_payload_is_frames(s: Seq<u8>)
    ensures
        udp_payload(s) == concat_all(udp_frames(s)),
    decreases s.len(),
{
    if s.len() < 2 {
        assert(udp_payload(s) =~= concat_all(udp_frames(s)));
    } else {
        let n = be16(s[0], s[1]) as int;
        if s.len() < 2 + n {
            assert(udp_payload(s) =~= concat_all(udp_frames(s)));
        } else {
            lemma_udp_payload_is_frames(s.skip(2 + n));
            assert((seq![s.subrange(2, 2 + n)] + udp_frames(s.skip(2 + n))).skip(1)
                =~= udp_frames(s.skip(2 + n)));
            assert(udp_payload(s) =~= concat_all(udp_frames(s)));
        }
    }
}

/// The write side: what the caller is writing, what remains to flush.
pub enum WriteState {
    /// Between writes: nothing buffered.
    BuildingData,
    /// A frame of `total` bytes is being flushed; `written` bytes of it have
    /// been accepted by the underlying stream, and once all are, the caller
    /// is told that `consumed` payload bytes were written.
    FlushingData { consumed: usize, total: usize, written: usize },
}

/// Write-side state machine of the VLESS codec.
pub struct VlessWriter {
    udp: bool,
    state: WriteState,
    write_buf: Vec<u8>,
    payload: Ghost<Seq<u8>>,
    frame: Ghost<Seq<u8>>,
}

impl VlessWriter {
    /// Whether writes are framed as UDP datagrams.
    pub closed spec fn is_udp(&self) -> bool {
        self.udp
    }

    /// Whether the machine is between writes.
    pub closed spec fn is_building(&self) -> bool {
        self.state is BuildingData
    }

    /// The payload of the write being flushed.
    pub closed spec fn payload(&self) -> Seq<u8> {
        self.payload@
    }

    /// The bytes of the current frame not yet accepted by the underlying
    /// stream.
    pub closed spec fn unflushed(&self) -> Seq<u8> {
        self.write_buf@
    }

    /// Internal consistency: between writes nothing is buffered; during a
    /// flush, the unflushed bytes are exactly the tail of the frame built
    /// from the caller's payload.
    pub closed spec fn wf(&self) -> bool {
        match self.state {
            WriteState::BuildingData => self.write_buf@.len() == 0,
            WriteState::FlushingData { consumed, total, written } => {
                &&& self.frame@ == spec_frame(self.udp, self.payload@)
                &&& consumed == self.payload@.len()
                &&& total == self.frame@.len()
                &&& written <= total
                &&& self.write_buf@ == self.frame@.skip(written as int)
            },
        }
    }

    /// A writer for a TCP- or UDP-mode connection.
    pub fn new(udp: bool) -> (r: VlessWriter)
        ensures
            r.wf(),
            r.is_building(),
            r.is_udp() == udp,
            r.unflushed() == Seq::<u8>::empty(),
    {
        VlessWriter {
            udp,
            state: WriteState::BuildingData,
            write_buf: Vec::new(),
            payload: Ghost(Seq::empty()),
            frame: Ghost(Seq::empty()),
        }
    }

    /// Whether the machine is between writes, for the runtime that drives
    /// the stream.
    pub fn is_idle(&self) -> (r: bool)
        ensures
            r == self.is_building(),
    {
        match self.state {
            WriteState::BuildingData => true,
            WriteState::FlushingData { .. } => false,
        }
    }

    /// Accepts one caller write and builds its frame. In UDP mode the payload
    /// must fit the two-byte length prefix.
    pub fn begin_write(&mut self, payload: &[u8])
        requires
            old(self).wf(),
            old(self).is_building(),
            old(self).is_udp() ==> payload@.len() <= 0xffff,
        ensures
            final(self).wf(),
            !final(self).is_building(),
            final(self).is_udp() == old(self).is_udp(),
            final(self).payload() == payload@,
            final(self).unflushed() == spec_frame(old(self).is_udp(), payload@),
    {
        if self.udp {
            let len_be = u16_to_be(payload.len() as u16);
            push_bytes(&mut self.write_buf, len_be.as_slice());
        }
        push_bytes(&mut self.write_buf, payload);
        self.state = WriteState::FlushingData {
            consumed: payload.len(),
            total: self.write_buf.len(),
            written: 0,
        };
        proof {
            self.payload@ = payload@;
            self.frame@ = self.write_buf@;
            assert(self.write_buf@ =~= spec_frame(self.udp, payload@));
            assert(self.write_buf@ =~= self.frame@.skip(0));
        }
    }

    /// The bytes to hand to the underlying stream next.
    pub fn unflushed_bytes(&self) -> (r: &Vec<u8>)
        ensures
            r@ == self.unflushed(),
    {
        &self.write_buf
    }

    /// Records that the underlying stream accepted `n` bytes of the current
    /// frame. Zero is a short write and fatal: retrying it blindly could
    /// corrupt frame boundaries. When the whole frame is through, the machine
    /// returns to `BuildingData` and reports the caller's payload length as
    /// consumed.
    pub fn on_wrote(&mut self, n: usize) -> (r: Result<Option<usize>, ProxyError>)
        requires
            old(self).wf(),
            !old(self).is_building(),
            n <= old(self).unflushed().len(),
        ensures
            final(self).is_udp() == old(self).is_udp(),
            r is Err <==> n == 0,
            match r {
                Err(e) => e == ProxyError::ShortWrite,
                Ok(opt) => {
                    &&& final(self).wf()
                    &&& final(self).unflushed() == old(self).unflushed().skip(n as int)
                    &&& match opt {
                        Some(consumed) => {
                            &&& n == old(self).unflushed().len()
                            &&& consumed == old(self).payload().len()
                            &&& final(self).is_building()
                        },
                        None => {
                            &&& n < old(self).unflushed().len()
                            &&& !final(self).is_building()
                            &&& final(self).payload() == old(self).payload()
                        },
                    }
                },
            },
    {
        if n == 0 {
            return Err(ProxyError::ShortWrite);
        }
        let _flushed = take_front(&mut self.write_buf, n);
        match self.state {
            WriteState::FlushingData { consumed, total, written } => {
                if self.write_buf.len() == 0 {
                    self.state = WriteState::BuildingData;
                    Ok(Some(consumed))
                } else {
                    self.state = WriteState::FlushingData { consumed, total, written: written + n };
                    proof {
                        assert(self.write_buf@ =~= self.frame@.skip((written + n) as int));
                    }
                    Ok(None)
                }
            },
            WriteState::BuildingData => {
                // Unreachable: the machine is flushing.
                proof {
                    assert(false);
                }
                Err(ProxyError::ShortWrite)
            },
        }
    }
}

/// Whether the stream preamble — version byte and addon length plus addon
/// bytes — has fully arrived in `s`.
pub open spec fn preamble_done(s: Seq<u8>) -> bool {
    s.len() >= 2 && s.len() >= 2 + s[1]
}

/// The bytes past the preamble.
pub open spec fn body_of(s: Seq<u8>) -> Seq<u8> {
    s.skip(2 + s[1] as int)
}

/// Everything a reader of mode `udp` can deliver from the stream bytes `s`:
/// nothing until the preamble is complete, then the complete frames' payloads
/// in UDP mode, or the whole body in TCP mode.
pub open spec fn decoded_payload(udp: bool, s: Seq<u8>) -> Seq<u8> {
    if !preamble_done(s) {
        Seq::empty()
    } else if udp {
        udp_payload(body_of(s))
    } else {
        body_of(s)
    }
}

/// The one-frame decode step: when nothing is held for the caller and a
/// complete frame stands at the front of the undecoded bytes, that frame —
/// and only that frame — is decoded; otherwise nothing changes. The pair is
/// (bytes held for the caller, undecoded bytes).
pub open spec fn spec_next_frame(pending: Seq<u8>, undecoded: Seq<u8>) -> (Seq<u8>, Seq<u8>) {
    if pending.len() == 0 && spec_has_full_frame(undecoded) {
        let n = be16(undecoded[0], undecoded[1]) as int;
        (undecoded.subrange(2, 2 + n), undecoded.skip(2 + n))
    } else {
        (pending, undecoded)
    }
}

/// Read-side state machine of the VLESS codec. In UDP mode, frames are
/// decoded one at a time: the bytes held for the caller always belong to a
/// single datagram frame, so one collection never crosses a frame boundary
/// and a relay that forwards each delivery as one datagram keeps the
/// sender's datagram boundaries.
pub struct VlessReader {
    udp: bool,
    preamble: bool,
    failed: bool,
    buf: Vec<u8>,
    pending: Vec<u8>,
    fed: Ghost<Seq<u8>>,
    delivered: Ghost<Seq<u8>>,
    decoded: Ghost<Seq<u8>>,
}

impl VlessReader {
    /// Whether frames are decoded as UDP datagrams.
    pub closed spec fn is_udp(&self) -> bool {
        self.udp
    }

    /// All bytes taken from the underlying stream so far.
    pub closed spec fn fed(&self) -> Seq<u8> {
        self.fed@
    }

    /// All payload bytes handed to the caller so far.
    pub closed spec fn delivered(&self) -> Seq<u8> {
        self.delivered@
    }

    /// Decoded payload not yet collected by the caller; in UDP mode, always
    /// part of a single frame.
    pub closed spec fn pending(&self) -> Seq<u8> {
        self.pending@
    }

    /// Wire bytes retained but not yet decoded: frames after the one being
    /// delivered, and at most one incomplete tail frame.
    pub closed spec fn undecoded(&self) -> Seq<u8> {
        self.buf@
    }

    /// The payloads of the frames decoded so far, in wire order.
    pub closed spec fn frames_taken(&self) -> Seq<Seq<u8>> {
        udp_frames(self.decoded@)
    }

    /// Whether the stream preamble has been consumed.
    pub closed spec fn preamble_complete(&self) -> bool {
        self.preamble
    }

    /// Whether a protocol violation has been seen; the connection is then
    /// abandoned.
    pub closed spec fn has_failed(&self) -> bool {
        self.failed
    }

    /// Internal consistency. Until the preamble is complete nothing is
    /// deliverable and all fed bytes are retained unprocessed. Afterwards, in
    /// UDP mode the fed body splits into the wire bytes of the decoded frames
    /// followed by the undecoded rest; what was delivered and what is held
    /// is exactly the decoded frames' payload, in order, nothing dropped,
    /// duplicated or reordered; and the held bytes are a suffix of the last
    /// decoded frame — one frame at a time. In TCP mode the body passes
    /// through whole.
    pub closed spec fn wf(&self) -> bool {
        !self.failed ==> {
            &&& (self.fed@.len() >= 1 ==> self.fed@[0] == 0)
            &&& if !self.preamble {
                &&& !preamble_done(self.fed@)
                &&& self.buf@ == self.fed@
                &&& self.pending@.len() == 0
                &&& self.delivered@.len() == 0
                &&& self.decoded@.len() == 0
            } else {
                &&& preamble_done(self.fed@)
                &&& if self.udp {
                    &&& body_of(self.fed@) == self.decoded@ + self.buf@
                    &&& udp_leftover(self.decoded@) == Seq::<u8>::empty()
                    &&& self.delivered@ + self.pending@ == udp_payload(self.decoded@)
                    &&& (self.pending@.len() > 0 ==> {
                        let frames = udp_frames(self.decoded@);
                        &&& frames.len() > 0
                        &&& self.pending@.len() <= frames.last().len()
                        &&& self.pending@ == frames.last().skip(
                            frames.last().len() - self.pending@.len(),
                        )
                    })
                } else {
                    &&& self.buf@.len() == 0
                    &&& self.decoded@.len() == 0
                    &&& self.delivered@ + self.pending@ == body_of(self.fed@)
                }
            }
        }
    }

    /// Law: what `wf` guarantees, stated over the public views. In TCP mode
    /// the bytes handed out so far, followed by those held, are exactly the
    /// decoded payload of everything taken from the underlying stream. In UDP
    /// mode they are exactly the payloads of the frames decoded so far, in
    /// order, and those frames followed by the frames still undecoded are
    /// exactly the frames of the fed body: nothing dropped, duplicated or
    /// reordered, and never a header or length-prefix byte.
    pub proof fn lemma_delivered_in_order(&self)
        requires
            self.wf(),
            !self.has_failed(),
        ensures
            !self.is_udp() ==> self.delivered() + self.pending() == decoded_payload(
                false,
                self.fed(),
            ),
            self.is_udp() ==> self.delivered() + self.pending() == concat_all(self.frames_taken()),
            self.is_udp() && self.preamble_complete() ==> udp_frames(body_of(self.fed()))
                == self.frames_taken() + udp_frames(self.undecoded()),
            self.is_udp() && self.preamble_complete() ==> self.delivered() + self.pending()
                + udp_payload(self.undecoded()) == decoded_payload(true, self.fed()),
    {
        if self.udp {
            lemma_udp_payload_is_frames(self.decoded@);
            if self.preamble {
                lemma_udp_leftover_extend(self.decoded@, self.buf@);
                assert(udp_leftover(self.decoded@) + self.buf@ =~= self.buf@);
            } else {
                assert(self.delivered() + self.pending() =~= concat_all(self.frames_taken()));
            }
        }
    }

    /// Law: in UDP mode the bytes held for the caller never span a datagram
    /// boundary — they are a suffix of the last decoded frame's payload, so
    /// each collection hands back bytes of at most one frame.
    pub proof fn lemma_frame_aligned(&self)
        requires
            self.wf(),
            !self.has_failed(),
            self.is_udp(),
        ensures
            self.pending().len() > 0 ==> {
                let frames = self.frames_taken();
                &&& frames.len() > 0
                &&& self.pending().len() <= frames.last().len()
                &&& self.pending() == frames.last().skip(
                    frames.last().len() - self.pending().len(),
                )
            },
    {
    }

    /// A reader for a TCP- or UDP-mode connection.
    pub fn new(udp: bool) -> (r: VlessReader)
        ensures
            r.wf(),
            !r.has_failed(),
            !r.preamble_complete(),
            r.is_udp() == udp,
            r.fed() == Seq::<u8>::empty(),
            r.delivered() == Seq::<u8>::empty(),
            r.pending() == Seq::<u8>::empty(),
    {
        VlessReader {
            udp,
            preamble: false,
            failed: false,
            buf: Vec::new(),
            pending: Vec::new(),
            fed: Ghost(Seq::empty()),
            delivered: Ghost(Seq::empty()),
            decoded: Ghost(Seq::empty()),
        }
    }

    /// How many decoded bytes are held for the caller, for the runtime that
    /// drives the stream.
    pub fn buffered_len(&self) -> (r: usize)
        ensures
            r == self.pending().len(),
    {
        self.pending.len()
    }

    /// Consumes the bytes of one underlying read. Fails exactly when the
    /// version byte is not zero. In UDP mode, at most one new frame is
    /// decoded, and only if nothing was already held for the caller.
    pub fn push(&mut self, chunk: &[u8]) -> (r: Result<(), ProxyError>)
        requires
            old(self).wf(),
            !old(self).has_failed(),
        ensures
            final(self).fed() == old(self).fed() + chunk@,
            final(self).is_udp() == old(self).is_udp(),
            final(self).delivered() == old(self).delivered(),
            r is Err <==> (final(self).fed().len() >= 1 && final(self).fed()[0] != 0),
            match r {
                Err(e) => e == ProxyError::ProtocolViolation && final(self).has_failed(),
                Ok(u) => final(self).wf() && !final(self).has_failed(),
            },
            r is Ok ==> (final(self).preamble_complete() <==> preamble_done(final(self).fed())),
            old(self).preamble_complete() && old(self).is_udp() ==> (
            final(self).pending(),
            final(self).undecoded(),
            ) == spec_next_frame(old(self).pending(), old(self).undecoded() + chunk@),
            old(self).preamble_complete() && !old(self).is_udp() ==> final(self).pending() == old(
                self,
            ).pending() + chunk@,
            (r is Ok && !old(self).preamble_complete() && final(self).preamble_complete()
                && old(self).is_udp()) ==> (final(self).pending(), final(self).undecoded())
                == spec_next_frame(Seq::<u8>::empty(), body_of(final(self).fed())),
            (r is Ok && !old(self).preamble_complete() && final(self).preamble_complete() && !old(
                self,
            ).is_udp()) ==> final(self).pending() == body_of(final(self).fed()),
    {
        push_bytes(&mut self.buf, chunk);
        proof {
            self.fed@ = self.fed@ + chunk@;
        }
        if !self.preamble {
            if self.buf.len() >= 1 && self.buf[0] != 0 {
                self.failed = true;
                return Err(ProxyError::ProtocolViolation);
            }
            if self.buf.len() >= 2 {
                let addons = self.buf[1] as usize;
                if self.buf.len() >= 2 + addons {
                    let _preamble = take_front(&mut self.buf, 2 + addons);
                    self.preamble = true;
                    proof {
                        assert(self.buf@ =~= body_of(self.fed@));
                    }
                    if !self.udp {
                        self.pending.append(&mut self.buf);
                        proof {
                            assert(self.delivered@ + self.pending@ =~= body_of(self.fed@));
                        }
                    } else {
                        proof {
                            assert(self.decoded@ =~= Seq::<u8>::empty());
                            assert(self.decoded@ + self.buf@ =~= body_of(self.fed@));
                            assert(udp_leftover(self.decoded@) =~= Seq::<u8>::empty());
                            assert(udp_payload(self.decoded@) =~= Seq::<u8>::empty());
                            assert(self.delivered@ + self.pending@ =~= udp_payload(self.decoded@));
                        }
                        self.next_frame();
                    }
                }
            }
            return Ok(());
        }
        if self.udp {
            proof {
                assert(body_of(self.fed@) =~= body_of(old(self).fed()) + chunk@);
                assert(self.decoded@ + self.buf@ =~= body_of(self.fed@));
            }
            self.next_frame();
        } else {
            self.pending.append(&mut self.buf);
            proof {
                assert(body_of(self.fed@) =~= body_of(old(self).fed()) + chunk@);
                assert(self.delivered@ + self.pending@ =~= body_of(self.fed@));
            }
        }
        Ok(())
    }

    /// Decodes the next frame when nothing is held for the caller and a
    /// complete frame has arrived.
    fn next_frame(&mut self)
        requires
            old(self).udp,
            old(self).preamble,
            !old(self).failed,
            old(self).fed@.len() >= 1 ==> old(self).fed@[0] == 0,
            preamble_done(old(self).fed@),
            body_of(old(self).fed@) == old(self).decoded@ + old(self).buf@,
            udp_leftover(old(self).decoded@) == Seq::<u8>::empty(),
            old(self).delivered@ + old(self).pending@ == udp_payload(old(self).decoded@),
            old(self).pending@.len() > 0 ==> {
                let frames = udp_frames(old(self).decoded@);
                &&& frames.len() > 0
                &&& old(self).pending@.len() <= frames.last().len()
                &&& old(self).pending@ == frames.last().skip(
                    frames.last().len() - old(self).pending@.len(),
                )
            },
        ensures
            final(self).udp == old(self).udp,
            final(self).preamble == old(self).preamble,
            final(self).failed == old(self).failed,
            final(self).fed@ == old(self).fed@,
            final(self).delivered@ == old(self).delivered@,
            (final(self).pending@, final(self).buf@) == spec_next_frame(
                old(self).pending@,
                old(self).buf@,
            ),
            final(self).wf(),
    {
        if self.pending.len() == 0 && has_full_frame(&self.buf) {
            let ghost pre = self.buf@;
            let n = be_to_u16(self.buf[0], self.buf[1]) as usize;
            let _header = take_front(&mut self.buf, 2);
            let mut payload = take_front(&mut self.buf, n);
            proof {
                assert(payload@ =~= pre.subrange(2, 2 + n as int));
                assert(self.buf@ =~= pre.skip(2 + n as int));
            }
            self.pending.append(&mut payload);
            proof {
                let f = pre.take(2 + n as int);
                assert(f[0] == pre[0] && f[1] == pre[1]);
                assert(f.subrange(2, 2 + n as int) =~= self.pending@);
                assert(f.skip(2 + n as int) =~= Seq::<u8>::empty());
                assert(f.len() == 2 + n);
                assert(be16(f[0], f[1]) == n as u16);
                assert(udp_payload(Seq::<u8>::empty()) == Seq::<u8>::empty());
                assert(udp_leftover(Seq::<u8>::empty()) == Seq::<u8>::empty());
                assert(udp_frames(Seq::<u8>::empty()) == Seq::<Seq<u8>>::empty());
                assert(udp_payload(f) =~= self.pending@);
                assert(udp_leftover(f) =~= Seq::<u8>::empty());
                assert(udp_frames(f) =~= seq![self.pending@]);
                lemma_udp_leftover_extend(self.decoded@, f);
                assert(udp_leftover(self.decoded@) + f =~= f);
                let ghost prior = self.decoded@;
                self.decoded@ = self.decoded@ + f;
                assert(self.decoded@ + self.buf@ =~= prior + pre);
                assert(self.delivered@ + self.pending@ =~= udp_payload(self.decoded@));
                assert(udp_frames(self.decoded@) =~= udp_frames(prior) + seq![self.pending@]);
                let frames = udp_frames(self.decoded@);
                assert(frames.last() =~= self.pending@);
                assert(self.pending@ =~= frames.last().skip(
                    frames.last().len() - self.pending@.len(),
                ));
            }
        }
    }

    /// Hands the caller up to `cap` decoded payload bytes, oldest first; in
    /// UDP mode, bytes of at most one datagram frame. When the held frame is
    /// finished, the next complete frame, if it has arrived, is decoded for
    /// the following call.
    pub fn pull(&mut self, cap: usize) -> (out: Vec<u8>)
        requires
            old(self).wf(),
            !old(self).has_failed(),
        ensures
            final(self).wf(),
            !final(self).has_failed(),
            final(self).is_udp() == old(self).is_udp(),
            final(self).preamble_complete() == old(self).preamble_complete(),
            final(self).fed() == old(self).fed(),
            out@ == old(self).pending().take(min(cap as int, old(self).pending().len() as int)),
            final(self).delivered() == old(self).delivered() + out@,
            old(self).is_udp() && out@.len() > 0 ==> {
                let frames = old(self).frames_taken();
                let start = frames.last().len() - old(self).pending().len();
                &&& frames.len() > 0
                &&& out@ == frames.last().subrange(start, start + out@.len())
            },
            if old(self).is_udp() && old(self).preamble_complete() {
                (final(self).pending(), final(self).undecoded()) == spec_next_frame(
                    old(self).pending().skip(
                        min(cap as int, old(self).pending().len() as int),
                    ),
                    old(self).undecoded(),
                )
            } else {
                final(self).pending() == old(self).pending().skip(
                    min(cap as int, old(self).pending().len() as int),
                ) && final(self).undecoded() == old(self).undecoded()
            },
    {
        let m = if cap < self.pending.len() {
            cap
        } else {
            self.pending.len()
        };
        let out = take_front(&mut self.pending, m);
        proof {
            self.delivered@ = self.delivered@ + out@;
            if !self.preamble {
                assert(self.delivered@ =~= Seq::<u8>::empty());
            } else if self.udp {
                assert(self.delivered@ + self.pending@ =~= udp_payload(self.decoded@));
                if out@.len() > 0 {
                    let frames = udp_frames(self.decoded@);
                    let start = frames.last().len() - old(self).pending@.len();
                    assert(out@ =~= frames.last().subrange(start, start + out@.len()));
                }
                if self.pending@.len() > 0 {
                    let frames = udp_frames(self.decoded@);
                    assert(self.pending@ =~= frames.last().skip(
                        frames.last().len() - self.pending@.len(),
                    ));
                }
            } else {
                assert(self.delivered@ + self.pending@ =~= body_of(self.fed@));
            }
        }
        if self.udp && self.preamble {
            self.next_frame();
        }
        out
    }
}

/// How decoding interacts with arrival: the frames, payload and leftover of
/// an extended stream split into what the old bytes alone yielded and what
/// the old leftover plus the new bytes yield.
pub proof fn lemma_udp_leftover_extend(s: Seq<u8>, t: Seq<u8>)
    ensures
        udp_leftover(s + t) == udp_leftover(udp_leftover(s) + t),
        udp_payload(s + t) == udp_payload(s) + udp_payload(udp_leftover(s) + t),
        udp_frames(s + t) == udp_frames(s) + udp_frames(udp_leftover(s) + t),
    decreases s.len(),
{
    if s.len() < 2 {
        assert(udp_leftover(s) + t =~= s + t);
        assert(udp_payload(s) + udp_payload(s + t) =~= udp_payload(s + t));
        assert(udp_frames(s) + udp_frames(s + t) =~= udp_frames(s + t));
    } else {
        let n = be16(s[0], s[1]) as int;
        if s.len() < 2 + n {
            assert(udp_leftover(s) + t =~= s + t);
            assert(udp_payload(s) + udp_payload(s + t) =~= udp_payload(s + t));
            assert(udp_frames(s) + udp_frames(s + t) =~= udp_frames(s + t));
        } else {
            let u = s + t;
            assert(u[0] == s[0] && u[1] == s[1]);
            assert(u.len() >= 2 + n);
            assert(u.subrange(2, 2 + n) =~= s.subrange(2, 2 + n));
            assert(u.skip(2 + n) =~= s.skip(2 + n) + t);
            lemma_udp_leftover_extend(s.skip(2 + n), t);
            assert(udp_payload(u) =~= udp_payload(s) + udp_payload(udp_leftover(s) + t));
            assert(udp_frames(u) =~= udp_frames(s) + udp_frames(udp_leftover(s) + t));
        }
    }
}

/// A complete `len[2,BE] payload[len]` frame stands at the front of `s`.
pub open spec fn spec_has_full_frame(s: Seq<u8>) -> bool {
    s.len() >= 2 && s.len() >= 2 + be16(s[0], s[1])
}

/// Tests whether a complete frame stands at the front of `buf`.
fn has_full_frame(buf: &Vec<u8>) -> (r: bool)
    ensures
        r == spec_has_full_frame(buf@),
{
    if buf.len() < 2 {
        return false;
    }
    let n = be_to_u16(buf[0], buf[1]) as usize;
    buf.len() >= 2 + n
}

} // verus!
