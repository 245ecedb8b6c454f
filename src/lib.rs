//! A token exchange aware reverse proxy core.
//!
//! The library decides, for each inbound request, what a credential exchange
//! means for the request that goes upstream: the `Authorization` header is
//! rewritten, left alone, or the request is answered at once with a status.
//! The network work (the exchange call and the forwarding) is done by the
//! caller, which hands the outcomes back to [`dispatch`].
pub mod config;
pub mod dispatch;
pub mod headers;
pub mod token_exchanger;
