//! The error taxonomy of the proxy. Failures that originate in the
//! operating system's sockets carry the reported message as text.

use vstd::prelude::*;

verus! {

/// Everything that can go wrong while serving: startup, admission,
/// negotiation, request parsing, dialing, and relaying.
#[derive(Debug, Clone)]
pub enum ServerError {
    /// The listening socket could not be bound.
    BindError(String),
    /// A dial or transport failure, fatal to one connection only.
    ConnectionError(String),
    /// An underlying read, write, or accept failure.
    IoError(String),
    /// The client's bytes do not form a well-formed request.
    InvalidRequestFormat,
    /// The client spoke a SOCKS version other than 5.
    UnsupportedProtocolVersion,
    /// The client asked for BIND or UDP ASSOCIATE; the command byte is kept.
    UnsupportedCmd(u8),
    /// Method negotiation or the password check refused the client.
    AuthenticationFailed(String),
    /// A configuration value could not be understood.
    Unknown(String),
}

} // verus!
