//! XHTTP disguise transport: header-then-body on the first write, terminator
//! scan on the first reads, as in the HTTP/1.1 disguise, with its own header
//! set: configurable method, a `Host` that names the port only when it is not
//! 80, and a `Content-Length` always injected by the codec (explicit length
//! headers from configuration are dropped to avoid duplication).
use vstd::prelude::*;

verus! {

use vstd::string::StringSliceAdditionalSpecFns;
use crate::bytestr::{dec_bytes, push_bytes, push_str_bytes, str_bytes, usize_to_dec};
use crate::error::ProxyError;
use crate::transport::header::{chunk_fails, find_delim, payload_of, HeaderReader};
use crate::transport::request::{append_headers, spec_headers_block};

/// The `Host` header value: the host, with the port appended only when it is
/// not 80.
pub open spec fn spec_host_value(host: Seq<char>, port: u16) -> Seq<u8> {
    if port != 80 {
        str_bytes(host) + (":").spec_bytes() + dec_bytes(port as nat)
    } else {
        str_bytes(host)
    }
}

/// The request block written in front of the first write: request line,
/// `Host`, the configured fields except explicit `Content-Length` ones, and
/// the `Content-Length` the codec injects, equal to the first write's size.
pub open spec fn spec_xhttp_prefix(
    host: Seq<char>,
    port: u16,
    path: Seq<char>,
    method: Seq<char>,
    headers: Seq<(String, String)>,
    body_len: nat,
) -> Seq<u8> {
    str_bytes(method) + (" ").spec_bytes() + str_bytes(path) + (" HTTP/1.1\r\nHost: ").spec_bytes()
        + spec_host_value(host, port) + ("\r\n").spec_bytes() + spec_headers_block(
        headers,
        false,
        true,
        false,
    ) + ("Content-Length: ").spec_bytes() + dec_bytes(body_len) + ("\r\n\r\n").spec_bytes()
}

/// Options of the XHTTP transport; unset fields fall back to defaults.
#[derive(Clone, Default)]
pub struct Options {
    pub host: Option<String>,
    pub path: Option<String>,
    pub method: Option<String>,
    pub headers: Option<Vec<(String, String)>>,
}

/// Configuration of the XHTTP disguise for one endpoint.
pub struct Client {
    pub server: String,
    pub port: u16,
    pub opts: Options,
}

impl Client {
    /// A client for the given server, port and options.
    pub fn new(server: String, port: u16, opts: Options) -> (r: Client)
        ensures
            r.server@ == server@,
            r.port == port,
            r.opts == opts,
    {
        Client { server, port, opts }
    }

    /// The client an outbound configuration selects: the handler's server and
    /// port, with default options.
    pub fn from_options(common: &crate::config::CommonConfigOptions) -> (r: Client)
        ensures
            r.server@ == common.server@,
            r.port == common.port,
            r.opts.host is None,
            r.opts.path is None,
            r.opts.method is None,
            r.opts.headers is None,
    {
        Client {
            server: common.server.clone(),
            port: common.port,
            opts: Options { host: None, path: None, method: None, headers: None },
        }
    }
}

/// Per-connection state of the XHTTP disguise, with the option fallbacks
/// already applied: host defaults to the server name, path to `/`, method to
/// `GET`, headers to none.
pub struct XHttpObfs {
    host: String,
    port: u16,
    path: String,
    method: String,
    headers: Vec<(String, String)>,
    first_request: bool,
    reader: HeaderReader,
}

impl XHttpObfs {
    /// The effective configuration: host, port, path, method, headers.
    pub closed spec fn config_view(&self) -> (Seq<char>, u16, Seq<char>, Seq<char>, Seq<
        (String, String),
    >) {
        (self.host@, self.port, self.path@, self.method@, self.headers@)
    }

    /// Whether the first write, which carries the header block, is still to
    /// come.
    pub closed spec fn awaiting_first_write(&self) -> bool {
        self.first_request
    }

    /// All bytes the read side has taken from the underlying stream.
    pub closed spec fn read_fed(&self) -> Seq<u8> {
        self.reader.fed()
    }

    /// Whether the response header block has been consumed.
    pub closed spec fn response_done(&self) -> bool {
        self.reader.is_done()
    }

    /// Payload bytes read past the response header and not yet collected.
    pub closed spec fn read_pending(&self) -> Seq<u8> {
        self.reader.pending()
    }

    /// All payload bytes handed to the caller so far.
    pub closed spec fn read_delivered(&self) -> Seq<u8> {
        self.reader.delivered()
    }

    /// Internal consistency of the read side.
    pub closed spec fn wf(&self) -> bool {
        self.reader.wf()
    }

    /// A fresh stream state for one connection of `client`, the option
    /// fallbacks applied.
    pub fn new(client: &Client) -> (r: XHttpObfs)
        ensures
            r.wf(),
            r.awaiting_first_write(),
            !r.response_done(),
            r.read_fed() == Seq::<u8>::empty(),
            r.read_delivered() == Seq::<u8>::empty(),
            r.config_view().0 == match client.opts.host {
                Some(h) => h@,
                None => client.server@,
            },
            r.config_view().1 == client.port,
            r.config_view().2 == match client.opts.path {
                Some(p) => p@,
                None => ("/")@,
            },
            r.config_view().3 == match client.opts.method {
                Some(m) => m@,
                None => ("GET")@,
            },
            r.config_view().4 == match client.opts.headers {
                Some(hs) => hs@,
                None => Seq::<(String, String)>::empty(),
            },
    {
        let host = match &client.opts.host {
            Some(h) => h.clone(),
            None => client.server.clone(),
        };
        let path = match &client.opts.path {
            Some(p) => p.clone(),
            None => slash_string(),
        };
        let method = match &client.opts.method {
            Some(m) => m.clone(),
            None => get_string(),
        };
        let headers = match &client.opts.headers {
            Some(hs) => crate::transport::request::clone_headers(hs),
            None => Vec::new(),
        };
        proof {
            assert(match client.opts.headers {
                Some(hs) => headers@ == hs@,
                None => headers@ =~= Seq::<(String, String)>::empty(),
            });
        }
        XHttpObfs {
            host,
            port: client.port,
            path,
            method,
            headers,
            first_request: true,
            reader: HeaderReader::new(),
        }
    }

    /// Builds the request block for a first write of `body_len` bytes.
    pub fn build_prefix(&self, body_len: usize) -> (r: Vec<u8>)
        ensures
            r@ == spec_xhttp_prefix(
                self.config_view().0,
                self.config_view().1,
                self.config_view().2,
                self.config_view().3,
                self.config_view().4,
                body_len as nat,
            ),
    {
        let mut out: Vec<u8> = Vec::new();
        push_str_bytes(&mut out, self.method.as_str());
        push_str_bytes(&mut out, " ");
        push_str_bytes(&mut out, self.path.as_str());
        push_str_bytes(&mut out, " HTTP/1.1\r\nHost: ");
        push_str_bytes(&mut out, self.host.as_str());
        if self.port != 80 {
            push_str_bytes(&mut out, ":");
            let mut port_dec = usize_to_dec(self.port as usize);
            out.append(&mut port_dec);
        }
        push_str_bytes(&mut out, "\r\n");
        append_headers(&mut out, &self.headers, false, true, false);
        push_str_bytes(&mut out, "Content-Length: ");
        let mut dec = usize_to_dec(body_len);
        out.append(&mut dec);
        push_str_bytes(&mut out, "\r\n\r\n");
        proof {
            assert(out@ =~= spec_xhttp_prefix(
                self.config_view().0,
                self.config_view().1,
                self.config_view().2,
                self.config_view().3,
                self.config_view().4,
                body_len as nat,
            ));
        }
        out
    }

    /// Transforms one caller write into the bytes for the underlying stream:
    /// the first write is prefixed with the request block, every later write
    /// passes through unchanged. Returns the bytes to write and how many
    /// payload bytes they carry.
    pub fn on_write(&mut self, payload: &[u8]) -> (r: (Vec<u8>, usize))
        ensures
            final(self).wf() == old(self).wf(),
            !final(self).awaiting_first_write(),
            final(self).config_view() == old(self).config_view(),
            final(self).read_fed() == old(self).read_fed(),
            r.1 == payload@.len(),
            r.0@ == if old(self).awaiting_first_write() {
                spec_xhttp_prefix(
                    old(self).config_view().0,
                    old(self).config_view().1,
                    old(self).config_view().2,
                    old(self).config_view().3,
                    old(self).config_view().4,
                    payload@.len(),
                ) + payload@
            } else {
                payload@
            },
    {
        if self.first_request {
            self.first_request = false;
            let mut out = self.build_prefix(payload.len());
            push_bytes(&mut out, payload);
            (out, payload.len())
        } else {
            let mut out: Vec<u8> = Vec::new();
            push_bytes(&mut out, payload);
            proof {
                assert(out@ =~= payload@);
            }
            (out, payload.len())
        }
    }

    /// Feeds the read side one underlying read while the response header
    /// block is still being scanned; end of stream before the terminator is
    /// a protocol violation, distinct from a clean end of stream afterwards.
    pub fn on_read_chunk(&mut self, chunk: &[u8]) -> (r: Result<bool, ProxyError>)
        requires
            old(self).wf(),
            !old(self).response_done(),
        ensures
            final(self).config_view() == old(self).config_view(),
            final(self).awaiting_first_write() == old(self).awaiting_first_write(),
            final(self).read_fed() == old(self).read_fed() + chunk@,
            r is Ok ==> final(self).wf(),
            match r {
                Ok(done) => {
                    &&& !chunk_fails(old(self).read_fed(), chunk@, false)
                    &&& done == final(self).response_done()
                    &&& (done <==> find_delim(final(self).read_fed()) is Some)
                    &&& (done ==> final(self).read_pending() == payload_of(final(self).read_fed()))
                    &&& (!done ==> chunk@.len() > 0)
                },
                Err(e) => {
                    &&& e == ProxyError::ProtocolViolation
                    &&& chunk_fails(old(self).read_fed(), chunk@, false)
                },
            },
    {
        self.reader.on_chunk(chunk, false)
    }

    /// Whether the response header block has been consumed, for the runtime
    /// that drives the stream.
    pub fn is_response_done(&self) -> (r: bool)
        ensures
            r == self.response_done(),
    {
        self.reader.done()
    }

    /// Hands the caller up to `cap` payload bytes that were read past the
    /// response header block.
    pub fn read_buffered(&mut self, cap: usize) -> (out: Vec<u8>)
        requires
            old(self).wf(),
        ensures
            final(self).wf(),
            final(self).config_view() == old(self).config_view(),
            final(self).awaiting_first_write() == old(self).awaiting_first_write(),
            final(self).response_done() == old(self).response_done(),
            final(self).read_fed() == old(self).read_fed(),
            out@ == old(self).read_pending().take(
                vstd::math::min(cap as int, old(self).read_pending().len() as int),
            ),
            final(self).read_pending() == old(self).read_pending().skip(
                vstd::math::min(cap as int, old(self).read_pending().len() as int),
            ),
            final(self).read_delivered() == old(self).read_delivered() + out@,
    {
        self.reader.pull(cap)
    }
}

/// The one-character path `/`.
fn slash_string() -> (r: String)
    ensures
        r@ == ("/")@,
{
    <String as vstd::string::StringExecFns>::from_str("/")
}

/// The method name `GET`.
fn get_string() -> (r: String)
    ensures
        r@ == ("GET")@,
{
    <String as vstd::string::StringExecFns>::from_str("GET")
}

} // verus!
