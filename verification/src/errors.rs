//! Error kinds shared by every gateway operation, with their HTTP mapping.

use vstd::prelude::*;

verus! {

/// Why a gateway operation was refused.
///
/// `Internal` is part of the error model for the service boundary (an
/// unexpected failure outside the core); the verified operations themselves
/// never produce it.
#[derive(Clone, Copy, PartialEq, Eq, Structural, Debug)]
pub enum GatewayError {
    /// A required field was missing or empty.
    InvalidInput,
    /// A sync or close referenced a connection id that was never issued.
    UnknownConnection,
    /// A protocol name that the registry does not list.
    UnsupportedProtocol,
    /// An unexpected failure outside the verified core.
    Internal,
}

impl GatewayError {
    /// The machine-readable kind, as it appears in an error envelope.
    pub open spec fn spec_kind(self) -> Seq<char> {
        match self {
            GatewayError::InvalidInput => "invalid_input"@,
            GatewayError::UnknownConnection => "unknown_connection"@,
            GatewayError::UnsupportedProtocol => "unsupported_protocol"@,
            GatewayError::Internal => "internal"@,
        }
    }

    pub fn kind(&self) -> (r: &'static str)
        ensures
            r@ == self.spec_kind(),
    {
        match self {
            GatewayError::InvalidInput => "invalid_input",
            GatewayError::UnknownConnection => "unknown_connection",
            GatewayError::UnsupportedProtocol => "unsupported_protocol",
            GatewayError::Internal => "internal",
        }
    }

    /// The HTTP status code each kind maps to at the service boundary.
    pub open spec fn spec_http_status(self) -> u16 {
        match self {
            GatewayError::InvalidInput => 400,
            GatewayError::UnknownConnection => 404,
            GatewayError::UnsupportedProtocol => 400,
            GatewayError::Internal => 500,
        }
    }

    pub fn http_status(&self) -> (r: u16)
        ensures
            r == self.spec_http_status(),
    {
        match self {
            GatewayError::InvalidInput => 400,
            GatewayError::UnknownConnection => 404,
            GatewayError::UnsupportedProtocol => 400,
            GatewayError::Internal => 500,
        }
    }
}

} // verus!
