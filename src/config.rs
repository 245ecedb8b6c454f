use vstd::prelude::*;

verus! {

/// Upstream, reverse proxy configuration.
///
/// Read once at startup and shared, unchanged, by every request.
pub struct UpstreamConfig {
    /// The upstream HTTP server URL this proxy forwards requests to after
    /// potentially performing a token exchange.
    pub forward_url: String,
}

} // verus!
