//! The errors of the connection acceptor. The acceptor itself binds and
//! listens on a socket, which is transport work outside this library; its
//! failures are reported through this taxonomy.

use vstd::prelude::*;
use vstd::string::StringExecFns;

verus! {

/// What can go wrong while binding the listener or accepting a
/// connection.
#[derive(Debug, Clone, Copy, PartialEq, Eq, Structural)]
pub enum ServerError {
    /// The underlying socket operation failed.
    IoError,
    /// The listen address did not parse as an IPv4 address.
    InvalidIpAddress,
}

impl ServerError {
    /// The human-readable description of the error.
    pub fn message(&self) -> (r: String)
        ensures
            (*self == ServerError::IoError ==> r@ == "IO error"@),
            (*self == ServerError::InvalidIpAddress ==> r@ == "Invalid IP address"@),
    {
        match self {
            ServerError::IoError => String::from_str("IO error"),
            ServerError::InvalidIpAddress => String::from_str("Invalid IP address"),
        }
    }
}

} // verus!
