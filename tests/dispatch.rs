use hyper::header::{HeaderValue, AUTHORIZATION, CONTENT_TYPE};
use hyper::HeaderMap;
use toxy::dispatch::{apply_exchange, reply_from_forward, Reply, Step, INTERNAL_SERVER_ERROR};
use toxy::token_exchanger::{TokenExchangeError, TokenExchangeResponse};

fn request_headers() -> HeaderMap {
    let mut headers = HeaderMap::new();
    headers.insert(AUTHORIZATION, HeaderValue::from_static("Basic dXNlcjpwYXNz"));
    headers.append(AUTHORIZATION, HeaderValue::from_static("Token second"));
    headers.insert(CONTENT_TYPE, HeaderValue::from_static("application/json"));
    headers
}

fn exchanged(token_type: &str, access_token: &str) -> Result<Option<TokenExchangeResponse>, TokenExchangeError> {
    Ok(Some(TokenExchangeResponse {
        access_token: access_token.to_string(),
        token_type: token_type.to_string(),
    }))
}

fn failed(status_code: Option<u16>) -> Result<Option<TokenExchangeResponse>, TokenExchangeError> {
    Err(TokenExchangeError { msg: "exchange failed".to_string(), status_code })
}

fn authorization_values(headers: &HeaderMap) -> Vec<Vec<u8>> {
    headers.get_all(AUTHORIZATION).iter().map(|v| v.as_bytes().to_vec()).collect()
}

#[test]
fn not_needed_leaves_authorization_untouched() {
    let mut headers = request_headers();
    let step = apply_exchange(&mut headers, &Ok(None));
    assert_eq!(step, Step::Forward);
    assert_eq!(headers, request_headers());
    assert_eq!(
        authorization_values(&headers),
        vec![b"Basic dXNlcjpwYXNz".to_vec(), b"Token second".to_vec()]
    );
}

#[test]
fn bearer_credential_replaces_every_earlier_value() {
    let mut headers = request_headers();
    let step = apply_exchange(&mut headers, &exchanged("Bearer", "abc"));
    assert_eq!(step, Step::Forward);
    assert_eq!(authorization_values(&headers), vec![b"Bearer abc".to_vec()]);
    assert_eq!(headers.get(CONTENT_TYPE).unwrap(), "application/json");
    assert_eq!(headers.len(), 2);
}

#[test]
fn credential_is_inserted_where_none_was() {
    let mut headers = HeaderMap::new();
    let step = apply_exchange(&mut headers, &exchanged("DPoP", "tok-123"));
    assert_eq!(step, Step::Forward);
    assert_eq!(authorization_values(&headers), vec![b"DPoP tok-123".to_vec()]);
}

#[test]
fn credential_with_control_character_is_not_forwarded() {
    let mut headers = request_headers();
    let step = apply_exchange(&mut headers, &exchanged("Bearer", "abc\ndef"));
    assert_eq!(step, Step::Respond(INTERNAL_SERVER_ERROR));
    assert_eq!(headers, request_headers());
}

#[test]
fn failure_with_status_answers_with_that_status() {
    let mut headers = request_headers();
    let step = apply_exchange(&mut headers, &failed(Some(403)));
    assert_eq!(step, Step::Respond(403));
    assert_eq!(headers, request_headers());
    let step = apply_exchange(&mut headers, &failed(Some(401)));
    assert_eq!(step, Step::Respond(401));
}

#[test]
fn failure_without_status_forwards_the_inbound_request() {
    let mut headers = request_headers();
    let step = apply_exchange(&mut headers, &failed(None));
    assert_eq!(step, Step::Forward);
    assert_eq!(headers, request_headers());
}

#[test]
fn forwarding_error_answers_500() {
    let reply = reply_from_forward::<&str, &str>(Err("upstream unreachable"));
    assert!(matches!(reply, Reply::Status(500)));
}

#[test]
fn forwarded_response_passes_through() {
    let reply = reply_from_forward::<&str, &str>(Ok("upstream response"));
    assert!(matches!(reply, Reply::Upstream("upstream response")));
}

#[test]
fn handling_twice_gives_the_same_result() {
    let outcome = exchanged("Bearer", "abc");
    let mut first = request_headers();
    let mut second = request_headers();
    let step_first = apply_exchange(&mut first, &outcome);
    let step_second = apply_exchange(&mut second, &outcome);
    assert_eq!(step_first, step_second);
    assert_eq!(first, second);
    let step_again = apply_exchange(&mut first, &outcome);
    assert_eq!(step_again, step_first);
    assert_eq!(first, second);
}
