use vstd::prelude::*;
use vstd::string::to_string_from_display_ensures;

verus! {

#[verifier::external_type_specification]
#[verifier::external_body]
pub struct ExReqwestError(reqwest::Error);

/// The status of the HTTP response that a failed call was built from, if any.
pub uninterp spec fn reqwest_status_of(e: reqwest::Error) -> Option<u16>;

/// Relies on `reqwest::Error::status`: it gives the status of the response
/// that the error was built from, if any, reading the error alone, and an
/// `http::StatusCode` holds three decimal digits.
#[verifier::external_body]
fn reqwest_error_status(err: &reqwest::Error) -> (r: Option<u16>)
    ensures
        r == reqwest_status_of(*err),
        r matches Some(code) ==> is_status_code(code),
{
    err.status().map(|s| s.as_u16())
}

/// The status codes that an HTTP status can carry: three decimal digits.
pub open spec fn is_status_code(code: u16) -> bool {
    100 <= code <= 999
}

/// Error returned for token exchange failures.
///
/// With a status code, the request is answered with that status and never
/// forwarded; without one, the failure is treated as transient and the
/// inbound request is forwarded unchanged.
#[derive(Debug, Clone)]
pub struct TokenExchangeError {
    pub msg: String,
    pub status_code: Option<u16>,
}

impl TokenExchangeError {
    /// A status code, where present, is a valid HTTP status.
    pub open spec fn wf(&self) -> bool {
        self.status_code matches Some(code) ==> is_status_code(code)
    }

    /// Classifies a failed call to the exchange service: a failure that came
    /// with an HTTP response keeps that response's status, one that did not
    /// (a connection error, a decoding error) has none.
    pub fn from_error(err: reqwest::Error) -> (r: TokenExchangeError)
        ensures
            r.wf(),
            r.status_code == reqwest_status_of(err),
            to_string_from_display_ensures::<reqwest::Error>(&err, r.msg),
    {
        let status_code = reqwest_error_status(&err);
        let msg = err.to_string();
        TokenExchangeError { msg, status_code }
    }
}

/// Response from a token exchanger upon successfully completing a token
/// exchange. The `access_token` and `token_type` populate the
/// `Authorization` header of the proxied request.
#[derive(Debug)]
pub struct TokenExchangeResponse {
    /// The token to forward to the upstream service.
    pub access_token: String,
    /// The token type (e.g. `Bearer`).
    pub token_type: String,
}

} // verus!
