//! The ways in which a request can fail.
use vstd::prelude::*;

verus! {

/// Why a call to the upstream service produced no result.
#[derive(Clone, Copy, Debug, PartialEq, Eq, Structural)]
pub enum UpstreamError {
    /// The service could not be reached or the exchange broke off.
    Network,
    /// The service answered with a status outside the success class.
    Status(u16),
    /// The service answered with a body of an unexpected shape.
    Shape,
}

/// The inbound body did not decode into the expected record.
#[derive(Clone, Copy, Debug, PartialEq, Eq, Structural)]
pub struct DecodeError;

/// Any failure of one gateway request.
#[derive(Clone, Copy, Debug, PartialEq, Eq, Structural)]
pub enum GatewayError {
    /// The caller's body was malformed; the upstream service was not called.
    Decode(DecodeError),
    /// The upstream call failed.
    Upstream(UpstreamError),
}

impl UpstreamError {
    /// A short description for logs; never sent to a caller.
    pub fn describe(&self) -> (text: String)
        ensures
            text@ == match *self {
                UpstreamError::Network => "upstream unreachable"@,
                UpstreamError::Status(_) => "upstream status not successful"@,
                UpstreamError::Shape => "upstream body of unexpected shape"@,
            },
    {
        match self {
            UpstreamError::Network => "upstream unreachable".to_owned(),
            UpstreamError::Status(_) => "upstream status not successful".to_owned(),
            UpstreamError::Shape => "upstream body of unexpected shape".to_owned(),
        }
    }
}

} // verus!
