//! Error taxonomy of the service: configuration failures at startup,
//! upstream transport/authorization failures surfaced per request, and
//! violations of invariants the upstream is trusted to maintain.

use vstd::prelude::*;

verus! {

/// Which class of failure an [`ApiError`] reports.
#[derive(Clone, Copy, Debug, PartialEq, Eq, Structural)]
pub enum ErrorKind {
    /// Required configuration was missing at startup; fatal, never served.
    Config,
    /// The upstream provider call failed (network, authorization, rate limit).
    Upstream,
    /// A state the requested scopes should make impossible was observed.
    Invariant,
}

/// A tagged error carrying the original diagnostic message.
#[derive(Debug)]
pub struct ApiError {
    pub kind: ErrorKind,
    pub message: String,
}

/// Mathematical model of an [`ApiError`].
pub struct ErrorModel {
    pub kind: ErrorKind,
    pub message: Seq<char>,
}

impl View for ApiError {
    type V = ErrorModel;

    open spec fn view(&self) -> ErrorModel {
        ErrorModel { kind: self.kind, message: self.message@ }
    }
}

/// The HTTP status code that each error class maps to: upstream failures
/// are reported as a bad gateway, everything else as an internal error.
pub fn error_status(kind: ErrorKind) -> (status: u16)
    ensures
        status == spec_error_status(kind),
{
    match kind {
        ErrorKind::Config => 500,
        ErrorKind::Upstream => 502,
        ErrorKind::Invariant => 500,
    }
}

/// Status mapping: `Upstream` is the only failure caused by the remote
/// collaborator, so it alone maps to 502; the rest are this service's fault.
pub open spec fn spec_error_status(kind: ErrorKind) -> u16 {
    match kind {
        ErrorKind::Config => 500u16,
        ErrorKind::Upstream => 502u16,
        ErrorKind::Invariant => 500u16,
    }
}

} // verus!
