//! Error model of the gateway core.
//!
//! Protocol and auth errors are fatal to one connection; a config error
//! aborts a whole registry build; probe failures never surface here at
//! all (they only clear a member's alive flag).
use vstd::prelude::*;

verus! {

/// The ways a peer can break the SOCKS5 wire protocol.
#[derive(Clone, Copy, PartialEq, Eq, Structural, Debug)]
pub enum ProtocolKind {
    /// The version byte was not the one this library speaks.
    UnsupportedVersion,
    /// A field was structurally invalid (zero method count, bad address tag).
    Malformed,
    /// The command byte named neither CONNECT nor UDP_ASSOCIATE.
    UnsupportedCommand,
}

/// Connection- or configuration-fatal failures of the core.
#[derive(Clone, Debug)]
pub enum Error {
    /// Malformed or unsupported SOCKS bytes; fatal to the connection.
    Protocol(ProtocolKind),
    /// Bad credentials, or no acceptable auth method offered.
    AuthFailure,
    /// A bad outbound definition; aborts the whole configuration load.
    InvalidConfig(String),
}

impl Error {
    /// True iff this is a protocol error of the given kind.
    pub fn is_protocol(&self, kind: ProtocolKind) -> (r: bool)
        ensures
            r == (*self == Error::Protocol(kind)),
    {
        match self {
            Error::Protocol(k) => *k == kind,
            _ => false,
        }
    }

    /// True iff this is an authentication failure.
    pub fn is_auth_failure(&self) -> (r: bool)
        ensures
            r == (*self is AuthFailure),
    {
        matches!(self, Error::AuthFailure)
    }

    /// True iff this is a configuration error.
    pub fn is_invalid_config(&self) -> (r: bool)
        ensures
            r == (*self is InvalidConfig),
    {
        matches!(self, Error::InvalidConfig(_))
    }

    /// The configuration diagnostic, where there is one.
    pub fn config_message(&self) -> (r: Option<&String>)
        ensures
            match r {
                Some(m) => *self matches Error::InvalidConfig(s) && m == s,
                None => !(*self is InvalidConfig),
            },
    {
        match self {
            Error::InvalidConfig(m) => Some(m),
            _ => None,
        }
    }
}

} // verus!
