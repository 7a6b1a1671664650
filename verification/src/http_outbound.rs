//! HTTP CONNECT outbound: the request and reply handling of an HTTP proxy
//! client. The embedding runtime dials the proxy (with TLS when configured)
//! and relays bytes; the request bytes, the credentials header and the check
//! of the proxy's reply are built and judged here.
use vstd::prelude::*;

verus! {

use vstd::string::StringSliceAdditionalSpecFns;
use vstd::string::StringExecFns;
use crate::bytestr::{dec_bytes, push_str_bytes, slice_starts_with, starts_with_bytes, str_bytes,
    usize_to_dec};

/// Configuration of one HTTP CONNECT outbound handler.
#[derive(Default)]
pub struct HandlerOptions {
    pub name: String,
    pub common_opts: crate::vless::HandlerCommonOptions,
    pub server: String,
    pub port: u16,
    pub username: Option<String>,
    pub password: Option<String>,
    pub tls: bool,
    pub sni: Option<String>,
    pub skip_cert_verify: bool,
}

/// The standard base64 encoding, with padding, of a byte sequence; a function
/// of the input bytes alone.
pub uninterp spec fn base64_of(data: Seq<u8>) -> Seq<char>;

/// Relies on base64's `Engine::encode` with the STANDARD engine: the standard
/// alphabet with padding, a function of the input bytes alone.
#[verifier::external_body]
fn base64_standard(data: &[u8]) -> (r: String)
    ensures
        r@ == base64_of(data@),
{
    base64::Engine::encode(&base64::engine::general_purpose::STANDARD, data)
}

/// The proxy-authorization value for a username and password:
/// `Basic base64(user:pass)`.
pub open spec fn spec_basic_auth(user: Seq<char>, pass: Seq<char>) -> Seq<char> {
    ("Basic ")@ + base64_of(str_bytes(user) + (":").spec_bytes() + str_bytes(pass))
}

impl HandlerOptions {
    /// The `Proxy-Authorization` value for the configured credentials: both a
    /// username and a password must be set, else no header is sent.
    pub fn basic_auth_header(&self) -> (r: Option<String>)
        ensures
            match (self.username, self.password) {
                (Some(u), Some(p)) => r matches Some(s) && s@ == spec_basic_auth(u@, p@),
                _ => r is None,
            },
    {
        match (&self.username, &self.password) {
            (Some(u), Some(p)) => {
                let mut raw: Vec<u8> = Vec::new();
                push_str_bytes(&mut raw, u.as_str());
                push_str_bytes(&mut raw, ":");
                push_str_bytes(&mut raw, p.as_str());
                let encoded = base64_standard(raw.as_slice());
                let mut s = <String as StringExecFns>::from_str("Basic ");
                s.append(encoded.as_str());
                Some(s)
            },
            _ => None,
        }
    }
}

/// The CONNECT request block for a destination, with the credentials header
/// when one is given.
pub open spec fn spec_connect_request(host: Seq<char>, port: u16, auth: Option<Seq<char>>) -> Seq<
    u8,
> {
    ("CONNECT ").spec_bytes() + str_bytes(host) + (":").spec_bytes() + dec_bytes(port as nat) + (
    " HTTP/1.1\r\nHost: ").spec_bytes() + str_bytes(host) + (":").spec_bytes() + dec_bytes(
        port as nat,
    ) + ("\r\n").spec_bytes() + (match auth {
        Some(a) => ("Proxy-Authorization: ").spec_bytes() + str_bytes(a) + ("\r\n").spec_bytes(),
        None => Seq::<u8>::empty(),
    }) + ("Proxy-Connection: keep-alive\r\n\r\n").spec_bytes()
}

/// Builds the CONNECT request for `host:port`.
pub fn connect_request(host: &str, port: u16, auth: &Option<String>) -> (r: Vec<u8>)
    ensures
        r@ == spec_connect_request(
            host@,
            port,
            match auth {
                Some(a) => Some(a@),
                None => None,
            },
        ),
{
    let mut out: Vec<u8> = Vec::new();
    push_str_bytes(&mut out, "CONNECT ");
    push_str_bytes(&mut out, host);
    push_str_bytes(&mut out, ":");
    let mut port_dec = usize_to_dec(port as usize);
    out.append(&mut port_dec);
    push_str_bytes(&mut out, " HTTP/1.1\r\nHost: ");
    push_str_bytes(&mut out, host);
    push_str_bytes(&mut out, ":");
    let mut port_dec2 = usize_to_dec(port as usize);
    out.append(&mut port_dec2);
    push_str_bytes(&mut out, "\r\n");
    match auth {
        Some(a) => {
            push_str_bytes(&mut out, "Proxy-Authorization: ");
            push_str_bytes(&mut out, a.as_str());
            push_str_bytes(&mut out, "\r\n");
        },
        None => {},
    }
    push_str_bytes(&mut out, "Proxy-Connection: keep-alive\r\n\r\n");
    proof {
        assert(out@ =~= spec_connect_request(
            host@,
            port,
            match auth {
                Some(a) => Some(a@),
                None => None,
            },
        ));
    }
    out
}

/// Whether the proxy's reply opens with a success status.
pub open spec fn spec_connect_ok(head: Seq<u8>) -> bool {
    ||| starts_with_bytes(head, ("HTTP/1.1 200").spec_bytes())
    ||| starts_with_bytes(head, ("HTTP/1.0 200").spec_bytes())
}

/// Judges the proxy's reply to the CONNECT request: only `200` means the
/// tunnel is open.
pub fn connect_response_ok(head: &[u8]) -> (r: bool)
    ensures
        r == spec_connect_ok(head@),
{
    slice_starts_with(head, "HTTP/1.1 200".as_bytes()) || slice_starts_with(
        head,
        "HTTP/1.0 200".as_bytes(),
    )
}

} // verus!
