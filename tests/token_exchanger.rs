use toxy::token_exchanger::TokenExchangeError;

#[test]
fn error_from_response_keeps_its_status() {
    let response = hyper::Response::builder().status(403).body(String::new()).unwrap();
    let err = reqwest::Response::from(response).error_for_status().unwrap_err();
    let classified = TokenExchangeError::from_error(err);
    assert_eq!(classified.status_code, Some(403));
    assert!(!classified.msg.is_empty());
}

#[test]
fn error_without_response_has_no_status() {
    let err = reqwest::Client::new().get("not a url").build().unwrap_err();
    let classified = TokenExchangeError::from_error(err);
    assert_eq!(classified.status_code, None);
    assert!(!classified.msg.is_empty());
}
