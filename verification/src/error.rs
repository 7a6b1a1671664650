//! Error taxonomy of the proxy core.
//!
//! Every failure of a handshake parser, codec or transport falls into one of
//! these classes; all of them are terminal for the connection they occur on.
use vstd::prelude::*;

verus! {

/// Why a handshake, frame or transport operation was rejected.
#[derive(Clone, Copy, Debug, PartialEq, Eq, Structural)]
pub enum ProxyError {
    /// A Trojan digest did not match the expected password digest.
    AuthenticationFailure,
    /// A malformed header: bad version byte, missing CRLF, header terminator
    /// never found, invalid address type, or a non-UTF-8 domain name.
    ProtocolViolation,
    /// A recognized but unsupported request, such as UDP associate on Trojan.
    UnsupportedOperation,
    /// The underlying stream accepted zero bytes of a write that was expected
    /// to make progress.
    ShortWrite,
}

impl ProxyError {
    /// A short description of the error class, for embedding runtimes that
    /// map it onto their own error type.
    pub fn message(&self) -> (r: &'static str)
        ensures
            r@ == self.spec_message(),
    {
        match self {
            ProxyError::AuthenticationFailure => "authentication failed",
            ProxyError::ProtocolViolation => "protocol violation",
            ProxyError::UnsupportedOperation => "unsupported operation",
            ProxyError::ShortWrite => "short write on underlying stream",
        }
    }

    /// The description `message` returns for each error class.
    pub open spec fn spec_message(&self) -> Seq<char> {
        match self {
            ProxyError::AuthenticationFailure => "authentication failed"@,
            ProxyError::ProtocolViolation => "protocol violation"@,
            ProxyError::UnsupportedOperation => "unsupported operation"@,
            ProxyError::ShortWrite => "short write on underlying stream"@,
        }
    }
}

} // verus!
