use vstd::prelude::*;

verus! {

/// What can go wrong while serving one request.
#[derive(Clone, Copy, Debug, PartialEq, Eq, Structural)]
pub enum ProxyError {
    /// The configured origin does not parse as a URL.
    InvalidOriginUrl,
    /// The origin could not be reached (connection or transport failure).
    UpstreamUnreachable,
    /// The origin answered with a failure status, or its body is not text.
    UpstreamError,
    /// The cache backend could not be reached.
    StoreUnavailable,
}

} // verus!
