//! The one error type every fallible operation of the crate returns.

use vstd::prelude::*;

verus! {

/// Failure taxonomy of the client core.
///
/// Every operation either returns the requested value or one of these;
/// nothing is retried and nothing is swallowed.
#[derive(Debug)]
pub enum Error {
    /// A required configuration field is missing or has the wrong type.
    InvalidConfig,
    /// The stored credential could not be decoded into `username:password`.
    Credential,
    /// The login handshake response held no usable session.
    Auth,
    /// A URL could not be parsed or joined.
    Parse,
    /// A response body did not match the expected wire shape; carries the
    /// name of the failing operation.
    Decode(String),
    /// A structurally valid response lacked an expected field; carries a
    /// human-readable message including the raw body.
    Unexpected(String),
    /// An I/O failure reported by the caller — a network or file error,
    /// carried verbatim. The library itself never raises this.
    Transport(String),
}

impl Error {
    /// One-line diagnostic text for this error.
    pub fn message(&self) -> (r: String)
        ensures
            r@ == self.spec_message(),
    {
        match self {
            Error::InvalidConfig => "invalid config file".to_owned(),
            Error::Credential => "credential could not be decoded".to_owned(),
            Error::Auth => "login response held no usable session".to_owned(),
            Error::Parse => "invalid url".to_owned(),
            Error::Decode(op) => "could not decode response: ".to_owned().concat(op.as_str()),
            Error::Unexpected(msg) => "unexpected result: ".to_owned().concat(msg.as_str()),
            Error::Transport(msg) => "transport error: ".to_owned().concat(msg.as_str()),
        }
    }

    /// What `message` returns, as a function of the error value.
    pub open spec fn spec_message(&self) -> Seq<char> {
        match self {
            Error::InvalidConfig => "invalid config file"@,
            Error::Credential => "credential could not be decoded"@,
            Error::Auth => "login response held no usable session"@,
            Error::Parse => "invalid url"@,
            Error::Decode(op) => "could not decode response: "@ + op@,
            Error::Unexpected(msg) => "unexpected result: "@ + msg@,
            Error::Transport(msg) => "transport error: "@ + msg@,
        }
    }
}

} // verus!
