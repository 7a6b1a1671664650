//! HTTP/1.1 disguise transport: makes proxy traffic resemble an HTTP/1.1
//! exchange. The first write is prefixed with a synthesized request header
//! block whose `Content-Length` equals that write's size; the first reads
//! consume a response header block (no status validation — terminator
//! discovery only); afterwards the stream is a transparent pipe.
use vstd::prelude::*;

verus! {

use vstd::string::StringSliceAdditionalSpecFns;
use vstd::string::StringExecFns;
use crate::bytestr::{dec_bytes, eq_ignore_case_bytes, push_bytes, push_str_bytes, str_bytes,
    str_eq_ignore_case, usize_to_dec};
use crate::config::{CommonConfigOptions, HttpOpt};
use crate::error::ProxyError;
use crate::transport::header::{chunk_fails, find_delim, payload_of, HeaderReader};
use crate::transport::request::{append_headers, find_host, spec_headers_block,
    spec_host_override};

/// The request header block written in front of the first write: request
/// line, `Host` (a configured `Host` field overrides the default), the
/// configured fields except those the codec manages, connection defaults, and
/// a `Content-Length` equal to the first write's size.
pub open spec fn spec_request_prefix(
    host: Seq<char>,
    path: Seq<char>,
    method: Seq<char>,
    headers: Seq<(String, String)>,
    body_len: nat,
) -> Seq<u8> {
    str_bytes(method) + (" ").spec_bytes() + str_bytes(path) + (" HTTP/1.1\r\n").spec_bytes() + (
    "Host: ").spec_bytes() + str_bytes(
        match spec_host_override(headers) {
            Some(h) => h,
            None => host,
        },
    ) + ("\r\n").spec_bytes() + spec_headers_block(headers, true, true, true) + (
    "Connection: keep-alive\r\nContent-Type: application/octet-stream\r\nContent-Length: ").spec_bytes()
        + dec_bytes(body_len) + ("\r\n\r\n").spec_bytes()
}

/// Configuration of the HTTP/1.1 disguise for one endpoint.
pub struct Client {
    pub host: String,
    pub path: String,
    pub method: String,
    pub headers: Vec<(String, String)>,
}

impl Client {
    /// A client for the given host, path, method and extra headers.
    pub fn new(host: String, path: String, method: String, headers: Vec<(String, String)>) -> (r:
        Client)
        ensures
            r.host@ == host@,
            r.path@ == path@,
            r.method@ == method@,
            r.headers@ == headers@,
    {
        Client { host, path, method, headers }
    }

    /// The client an outbound configuration selects: the handler's server as
    /// host, path defaulting to `/`, the method `GET` when configured so
    /// (ignoring ASCII case) and `POST` otherwise, and the configured
    /// headers.
    pub fn from_options(opt: &HttpOpt, common: &CommonConfigOptions) -> (r: Client)
        ensures
            r.host@ == common.server@,
            r.path@ == match opt.path {
                Some(p) => p@,
                None => ("/")@,
            },
            r.method@ == match opt.method {
                Some(m) => if eq_ignore_case_bytes(str_bytes(m@), ("get").spec_bytes()) {
                    ("GET")@
                } else {
                    ("POST")@
                },
                None => ("POST")@,
            },
            r.headers@ == match opt.headers {
                Some(h) => h@,
                None => Seq::<(String, String)>::empty(),
            },
    {
        let path = match &opt.path {
            Some(p) => p.clone(),
            None => <String as StringExecFns>::from_str("/"),
        };
        let method = match &opt.method {
            Some(m) => if str_eq_ignore_case(m.as_str(), "get") {
                <String as StringExecFns>::from_str("GET")
            } else {
                <String as StringExecFns>::from_str("POST")
            },
            None => <String as StringExecFns>::from_str("POST"),
        };
        let headers = match &opt.headers {
            Some(h) => crate::transport::request::clone_headers(h),
            None => Vec::new(),
        };
        proof {
            assert(match opt.headers {
                Some(h) => headers@ == h@,
                None => headers@ =~= Seq::<(String, String)>::empty(),
            });
        }
        Client { host: common.server.clone(), path, method, headers }
    }

    /// Builds the request header block for a first write of
    /// `initial_body_len` bytes.
    pub fn build_request_prefix(&self, initial_body_len: usize) -> (r: Vec<u8>)
        ensures
            r@ == spec_request_prefix(
                self.host@,
                self.path@,
                self.method@,
                self.headers@,
                initial_body_len as nat,
            ),
    {
        let mut out: Vec<u8> = Vec::new();
        push_str_bytes(&mut out, self.method.as_str());
        push_str_bytes(&mut out, " ");
        push_str_bytes(&mut out, self.path.as_str());
        push_str_bytes(&mut out, " HTTP/1.1\r\n");
        push_str_bytes(&mut out, "Host: ");
        match find_host(&self.headers) {
            Some(i) => push_str_bytes(&mut out, self.headers[i].1.as_str()),
            None => push_str_bytes(&mut out, self.host.as_str()),
        }
        push_str_bytes(&mut out, "\r\n");
        append_headers(&mut out, &self.headers, true, true, true);
        push_str_bytes(
            &mut out,
            "Connection: keep-alive\r\nContent-Type: application/octet-stream\r\nContent-Length: ",
        );
        let mut dec = usize_to_dec(initial_body_len);
        out.append(&mut dec);
        push_str_bytes(&mut out, "\r\n\r\n");
        proof {
            assert(out@ =~= spec_request_prefix(
                self.host@,
                self.path@,
                self.method@,
                self.headers@,
                initial_body_len as nat,
            ));
        }
        out
    }
}

/// Per-connection state of the HTTP/1.1 disguise: the configuration, whether
/// the request header block is still owed, and the response-side reader.
pub struct Http1Stream {
    client: Client,
    first_request: bool,
    reader: HeaderReader,
}

impl Http1Stream {
    /// The configuration the stream was built from.
    pub closed spec fn client_view(&self) -> (Seq<char>, Seq<char>, Seq<char>, Seq<
        (String, String),
    >) {
        (self.client.host@, self.client.path@, self.client.method@, self.client.headers@)
    }

    /// Whether the first write, which carries the header block, is still to
    /// come.
    pub closed spec fn awaiting_first_write(&self) -> bool {
        self.first_request
    }

    /// All bytes the read side has taken from the underlying stream.
    pub closed spec fn read_fed(&self) -> Seq<u8> {
        self.reader.fed()
    }

    /// Whether the response header block has been consumed.
    pub closed spec fn response_done(&self) -> bool {
        self.reader.is_done()
    }

    /// Payload bytes read past the response header and not yet collected.
    pub closed spec fn read_pending(&self) -> Seq<u8> {
        self.reader.pending()
    }

    /// All payload bytes handed to the caller so far.
    pub closed spec fn read_delivered(&self) -> Seq<u8> {
        self.reader.delivered()
    }

    /// Internal consistency of the read side.
    pub closed spec fn wf(&self) -> bool {
        self.reader.wf()
    }

    /// A fresh stream state for one connection of `client`.
    pub fn new(client: Client) -> (r: Http1Stream)
        ensures
            r.wf(),
            r.awaiting_first_write(),
            !r.response_done(),
            r.client_view() == (client.host@, client.path@, client.method@, client.headers@),
            r.read_fed() == Seq::<u8>::empty(),
            r.read_delivered() == Seq::<u8>::empty(),
    {
        Http1Stream { client, first_request: true, reader: HeaderReader::new() }
    }

    /// Transforms one caller write into the bytes for the underlying stream:
    /// the first write is prefixed with the request header block, every
    /// later write passes through unchanged. Returns the bytes to write and
    /// how many payload bytes they carry.
    pub fn on_write(&mut self, payload: &[u8]) -> (r: (Vec<u8>, usize))
        ensures
            final(self).wf() == old(self).wf(),
            !final(self).awaiting_first_write(),
            final(self).client_view() == old(self).client_view(),
            final(self).read_fed() == old(self).read_fed(),
            r.1 == payload@.len(),
            r.0@ == if old(self).awaiting_first_write() {
                spec_request_prefix(
                    old(self).client_view().0,
                    old(self).client_view().1,
                    old(self).client_view().2,
                    old(self).client_view().3,
                    payload@.len(),
                ) + payload@
            } else {
                payload@
            },
    {
        if self.first_request {
            self.first_request = false;
            let mut out = self.client.build_request_prefix(payload.len());
            push_bytes(&mut out, payload);
            (out, payload.len())
        } else {
            let mut out: Vec<u8> = Vec::new();
            push_bytes(&mut out, payload);
            proof {
                assert(out@ =~= payload@);
            }
            (out, payload.len())
        }
    }

    /// Feeds the read side one underlying read while the response header
    /// block is still being scanned; an empty chunk records that the stream
    /// ended, which before the terminator is a protocol violation. No status
    /// validation is performed: terminator discovery is the only requirement.
    pub fn on_read_chunk(&mut self, chunk: &[u8]) -> (r: Result<bool, ProxyError>)
        requires
            old(self).wf(),
            !old(self).response_done(),
        ensures
            final(self).client_view() == old(self).client_view(),
            final(self).awaiting_first_write() == old(self).awaiting_first_write(),
            final(self).read_fed() == old(self).read_fed() + chunk@,
            r is Ok ==> final(self).wf(),
            match r {
                Ok(done) => {
                    &&& !chunk_fails(old(self).read_fed(), chunk@, false)
                    &&& done == final(self).response_done()
                    &&& (done <==> find_delim(final(self).read_fed()) is Some)
                    &&& (done ==> final(self).read_pending() == payload_of(final(self).read_fed()))
                    &&& (!done ==> chunk@.len() > 0)
                },
                Err(e) => {
                    &&& e == ProxyError::ProtocolViolation
                    &&& chunk_fails(old(self).read_fed(), chunk@, false)
                },
            },
    {
        self.reader.on_chunk(chunk, false)
    }

    /// Whether the response header block has been consumed, for the runtime
    /// that drives the stream.
    pub fn is_response_done(&self) -> (r: bool)
        ensures
            r == self.response_done(),
    {
        self.reader.done()
    }

    /// Hands the caller up to `cap` payload bytes that were read past the
    /// response header block.
    pub fn read_buffered(&mut self, cap: usize) -> (out: Vec<u8>)
        requires
            old(self).wf(),
        ensures
            final(self).wf(),
            final(self).client_view() == old(self).client_view(),
            final(self).awaiting_first_write() == old(self).awaiting_first_write(),
            final(self).response_done() == old(self).response_done(),
            final(self).read_fed() == old(self).read_fed(),
            out@ == old(self).read_pending().take(
                vstd::math::min(cap as int, old(self).read_pending().len() as int),
            ),
            final(self).read_pending() == old(self).read_pending().skip(
                vstd::math::min(cap as int, old(self).read_pending().len() as int),
            ),
            final(self).read_delivered() == old(self).read_delivered() + out@,
    {
        self.reader.pull(cap)
    }
}

} // verus!
