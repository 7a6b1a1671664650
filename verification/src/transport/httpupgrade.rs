//! HTTP-Upgrade transport: presents an HTTP Upgrade handshake, then always
//! runs in upgraded, raw mode. The first write emits only the GET request and
//! consumes none of the caller's payload; the first reads consume the
//! response header block, whose status must announce success.
use vstd::prelude::*;

verus! {

use vstd::string::StringSliceAdditionalSpecFns;
use vstd::string::StringExecFns;
use crate::bytestr::{push_bytes, push_str_bytes, str_bytes};
use crate::config::{CommonConfigOptions, HttpOpt};
use crate::error::ProxyError;
use crate::transport::header::{chunk_fails, find_delim, payload_of, upgrade_status_ok,
    HeaderReader};
use crate::transport::request::{append_headers, has_key_ic, spec_has_key_ic, spec_headers_block};

/// The GET request block sent as the first write: the request line,
/// `Connection: Upgrade`, a default `Upgrade: websocket` unless the
/// configuration sets its own `Upgrade` field (compared ignoring ASCII case),
/// the configured fields, a `Host` field unless one is configured (compared
/// ignoring ASCII case), and the empty line.
pub open spec fn spec_upgrade_request(
    host: Seq<char>,
    path: Seq<char>,
    headers: Seq<(String, String)>,
) -> Seq<u8> {
    ("GET ").spec_bytes() + str_bytes(path) + (" HTTP/1.1\r\nConnection: Upgrade\r\n").spec_bytes()
        + (if spec_has_key_ic(headers, ("Upgrade")@) {
        Seq::<u8>::empty()
    } else {
        ("Upgrade: websocket\r\n").spec_bytes()
    }) + spec_headers_block(headers, false, false, false) + (if spec_has_key_ic(
        headers,
        ("Host")@,
    ) {
        Seq::<u8>::empty()
    } else {
        ("Host: ").spec_bytes() + str_bytes(host) + ("\r\n").spec_bytes()
    }) + ("\r\n").spec_bytes()
}

/// Configuration of the Upgrade handshake for one endpoint.
pub struct Client {
    pub host: String,
    pub path: String,
    pub headers: Vec<(String, String)>,
}

impl Client {
    /// A client for the given host, path and extra headers.
    pub fn new(host: String, path: String, headers: Vec<(String, String)>) -> (r: Client)
        ensures
            r.host@ == host@,
            r.path@ == path@,
            r.headers@ == headers@,
    {
        Client { host, path, headers }
    }

    /// The client an outbound configuration selects: the handler's server as
    /// host, path defaulting to `/`, and the configured headers.
    pub fn from_options(opt: &HttpOpt, common: &CommonConfigOptions) -> (r: Client)
        ensures
            r.host@ == common.server@,
            r.path@ == match opt.path {
                Some(p) => p@,
                None => ("/")@,
            },
            r.headers@ == match opt.headers {
                Some(h) => h@,
                None => Seq::<(String, String)>::empty(),
            },
    {
        let path = match &opt.path {
            Some(p) => p.clone(),
            None => <String as StringExecFns>::from_str("/"),
        };
        let headers = match &opt.headers {
            Some(h) => crate::transport::request::clone_headers(h),
            None => Vec::new(),
        };
        proof {
            assert(match opt.headers {
                Some(h) => headers@ == h@,
                None => headers@ =~= Seq::<(String, String)>::empty(),
            });
        }
        Client { host: common.server.clone(), path, headers }
    }

    /// Builds the Upgrade request block.
    pub fn build_request(&self) -> (r: Vec<u8>)
        ensures
            r@ == spec_upgrade_request(self.host@, self.path@, self.headers@),
    {
        let mut out: Vec<u8> = Vec::new();
        push_str_bytes(&mut out, "GET ");
        push_str_bytes(&mut out, self.path.as_str());
        push_str_bytes(&mut out, " HTTP/1.1\r\nConnection: Upgrade\r\n");
        if !has_key_ic(&self.headers, "Upgrade") {
            push_str_bytes(&mut out, "Upgrade: websocket\r\n");
        }
        append_headers(&mut out, &self.headers, false, false, false);
        if !has_key_ic(&self.headers, "Host") {
            push_str_bytes(&mut out, "Host: ");
            push_str_bytes(&mut out, self.host.as_str());
            push_str_bytes(&mut out, "\r\n");
        }
        push_str_bytes(&mut out, "\r\n");
        proof {
            assert(out@ =~= spec_upgrade_request(self.host@, self.path@, self.headers@));
        }
        out
    }
}

/// Per-connection state of the Upgrade transport: the configuration, whether
/// the handshake request is still owed, and the response-side reader.
pub struct HttpUpgradeStream {
    client: Client,
    first_request: bool,
    reader: HeaderReader,
}

impl HttpUpgradeStream {
    /// The configuration the stream was built from.
    pub closed spec fn client_view(&self) -> (Seq<char>, Seq<char>, Seq<(String, String)>) {
        (self.client.host@, self.client.path@, self.client.headers@)
    }

    /// Whether the first write, which sends the handshake, is still to come.
    pub closed spec fn awaiting_first_write(&self) -> bool {
        self.first_request
    }

    /// All bytes the read side has taken from the underlying stream.
    pub closed spec fn read_fed(&self) -> Seq<u8> {
        self.reader.fed()
    }

    /// Whether the response header block has been consumed.
    pub closed spec fn response_done(&self) -> bool {
        self.reader.is_done()
    }

    /// Payload bytes read past the response header and not yet collected.
    pub closed spec fn read_pending(&self) -> Seq<u8> {
        self.reader.pending()
    }

    /// All payload bytes handed to the caller so far.
    pub closed spec fn read_delivered(&self) -> Seq<u8> {
        self.reader.delivered()
    }

    /// Internal consistency of the read side.
    pub closed spec fn wf(&self) -> bool {
        self.reader.wf()
    }

    /// A fresh stream state for one connection of `client`.
    pub fn new(client: Client) -> (r: HttpUpgradeStream)
        ensures
            r.wf(),
            r.awaiting_first_write(),
            !r.response_done(),
            r.client_view() == (client.host@, client.path@, client.headers@),
            r.read_fed() == Seq::<u8>::empty(),
            r.read_delivered() == Seq::<u8>::empty(),
    {
        HttpUpgradeStream { client, first_request: true, reader: HeaderReader::new() }
    }

    /// Transforms one caller write. The first write sends only the handshake
    /// request and consumes none of the caller's payload — the caller retries
    /// the write once the handshake completes, as under ordinary
    /// backpressure; later writes pass through unchanged.
    pub fn on_write(&mut self, payload: &[u8]) -> (r: (Vec<u8>, usize))
        ensures
            final(self).wf() == old(self).wf(),
            !final(self).awaiting_first_write(),
            final(self).client_view() == old(self).client_view(),
            final(self).read_fed() == old(self).read_fed(),
            old(self).awaiting_first_write() ==> r.0@ == spec_upgrade_request(
                old(self).client_view().0,
                old(self).client_view().1,
                old(self).client_view().2,
            ) && r.1 == 0,
            !old(self).awaiting_first_write() ==> r.0@ == payload@ && r.1 == payload@.len(),
    {
        if self.first_request {
            self.first_request = false;
            (self.client.build_request(), 0)
        } else {
            let mut out: Vec<u8> = Vec::new();
            push_bytes(&mut out, payload);
            proof {
                assert(out@ =~= payload@);
            }
            (out, payload.len())
        }
    }

    /// Feeds the read side one underlying read while the response header
    /// block is still being scanned. The header block must open with a
    /// success status (`101`, or `200` as a lenient fallback); any other
    /// status, or end of stream before the terminator, is a protocol
    /// violation.
    pub fn on_read_chunk(&mut self, chunk: &[u8]) -> (r: Result<bool, ProxyError>)
        requires
            old(self).wf(),
            !old(self).response_done(),
        ensures
            final(self).client_view() == old(self).client_view(),
            final(self).awaiting_first_write() == old(self).awaiting_first_write(),
            final(self).read_fed() == old(self).read_fed() + chunk@,
            r is Ok ==> final(self).wf(),
            match r {
                Ok(done) => {
                    &&& !chunk_fails(old(self).read_fed(), chunk@, true)
                    &&& done == final(self).response_done()
                    &&& (done <==> find_delim(final(self).read_fed()) is Some)
                    &&& (done ==> final(self).read_pending() == payload_of(final(self).read_fed())
                        && upgrade_status_ok(final(self).read_fed()))
                    &&& (!done ==> chunk@.len() > 0)
                },
                Err(e) => {
                    &&& e == ProxyError::ProtocolViolation
                    &&& chunk_fails(old(self).read_fed(), chunk@, true)
                },
            },
    {
        self.reader.on_chunk(chunk, true)
    }

    /// Whether the response header block has been consumed, for the runtime
    /// that drives the stream.
    pub fn is_response_done(&self) -> (r: bool)
        ensures
            r == self.response_done(),
    {
        self.reader.done()
    }

    /// Hands the caller up to `cap` payload bytes that were read past the
    /// response header block.
    pub fn read_buffered(&mut self, cap: usize) -> (out: Vec<u8>)
        requires
            old(self).wf(),
        ensures
            final(self).wf(),
            final(self).client_view() == old(self).client_view(),
            final(self).awaiting_first_write() == old(self).awaiting_first_write(),
            final(self).response_done() == old(self).response_done(),
            final(self).read_fed() == old(self).read_fed(),
            out@ == old(self).read_pending().take(
                vstd::math::min(cap as int, old(self).read_pending().len() as int),
            ),
            final(self).read_pending() == old(self).read_pending().skip(
                vstd::math::min(cap as int, old(self).read_pending().len() as int),
            ),
            final(self).read_delivered() == old(self).read_delivered() + out@,
    {
        self.reader.pull(cap)
    }
}

} // verus!
