//! What the proxy does with one request, around its two network calls.
//!
//! A request goes through the states `Start`, `ExchangeInvoked`, and ends
//! either forwarded or answered with an error status. The caller performs the
//! exchange call, hands its outcome to [`apply_exchange`], and follows the
//! [`Step`] that comes back: on [`Step::Forward`] it forwards the (possibly
//! rewritten) request and hands the result to [`reply_from_forward`].
use vstd::prelude::*;
use vstd::utf8::encode_utf8;
use crate::headers::{
    authorization_name, max_header_names, header_fields, header_value_from_str, is_header_value_text,
    remove_authorization, try_insert_authorization,
};
use crate::token_exchanger::{is_status_code, TokenExchangeError, TokenExchangeResponse};

verus! {

/// The status of the answer when the request cannot be served: the upstream
/// failed, or the credential could not be put into the request.
pub const INTERNAL_SERVER_ERROR: u16 = 500;

/// What happens to a request once the token exchange has answered.
#[derive(Debug, Clone, Copy, PartialEq, Eq, Structural)]
pub enum Step {
    /// Send the request upstream.
    Forward,
    /// Answer at once with this status and an empty body; the upstream is
    /// never contacted.
    Respond(u16),
}

/// The answer to the client once forwarding has been tried.
pub enum Reply<R> {
    /// The upstream's response, passed on as it came.
    Upstream(R),
    /// A response with this status and an empty body.
    Status(u16),
}

/// The text of the credential header after an exchange: the token type, one
/// space, and the access token.
pub open spec fn credential_text(r: TokenExchangeResponse) -> Seq<char> {
    r.token_type@ + seq![' '] + r.access_token@
}

pub open spec fn credential_bytes(r: TokenExchangeResponse) -> Seq<u8> {
    encode_utf8(credential_text(r))
}

/// Whether the outcome asks for the credential header to be rewritten: the
/// exchange succeeded with a credential that a header value can hold.
pub open spec fn rewrites(outcome: Result<Option<TokenExchangeResponse>, TokenExchangeError>) -> bool {
    outcome matches Ok(Some(r)) && is_header_value_text(credential_bytes(r))
}

/// The step that an exchange outcome calls for.
pub open spec fn planned_step(outcome: Result<Option<TokenExchangeResponse>, TokenExchangeError>) -> Step {
    match outcome {
        Ok(None) => Step::Forward,
        Ok(Some(r)) => if is_header_value_text(credential_bytes(r)) {
            Step::Forward
        } else {
            Step::Respond(INTERNAL_SERVER_ERROR)
        },
        Err(e) => match e.status_code {
            Some(code) => Step::Respond(code),
            None => Step::Forward,
        },
    }
}

/// The headers that an exchange outcome calls for: the credential header
/// holds exactly the new credential after a rewrite, and nothing changes
/// otherwise.
pub open spec fn planned_fields(
    fields: Map<Seq<char>, Seq<Seq<u8>>>,
    outcome: Result<Option<TokenExchangeResponse>, TokenExchangeError>,
) -> Map<Seq<char>, Seq<Seq<u8>>> {
    if rewrites(outcome) {
        fields.insert(authorization_name(), seq![credential_bytes(outcome->Ok_0->Some_0)])
    } else {
        fields
    }
}

/// Applies the outcome of a token exchange to the headers of the request and
/// says what happens to the request next.
///
/// - No exchange needed: the headers are left as they are; forward.
/// - A new credential: every earlier `Authorization` value is removed and the
///   one value `"<token_type> <access_token>"` is inserted; forward. A
///   credential that a header value cannot hold (a control character) is
///   never forwarded: the answer is 500 and the headers are left as they are.
///   Only when the header map is at its maximum size (thousands of
///   distinct names) does the insert fail, and the answer is 500 too.
/// - A failure with a status: answer with that status; the headers are left
///   as they are.
/// - A failure without a status: the inbound request is forwarded as it is.
pub fn apply_exchange(
    headers: &mut hyper::HeaderMap,
    outcome: &Result<Option<TokenExchangeResponse>, TokenExchangeError>,
) -> (step: Step)
    requires
        outcome matches Err(e) ==> e.wf(),
    ensures
        step matches Step::Respond(code) ==> is_status_code(code),
        outcome matches Ok(None) ==> step == Step::Forward && *final(headers) == *old(headers),
        outcome matches Err(e) ==> match e.status_code {
            Some(code) => step == Step::Respond(code) && *final(headers) == *old(headers),
            None => step == Step::Forward && *final(headers) == *old(headers),
        },
        !rewrites(*outcome) ==> step == planned_step(*outcome) && *final(headers) == *old(headers),
        header_fields(*old(headers)).dom().finite() && header_fields(*old(headers)).dom().len()
            < max_header_names() ==> step == planned_step(*outcome) && header_fields(
            *final(headers),
        ) == planned_fields(header_fields(*old(headers)), *outcome),
        rewrites(*outcome) ==> (step == Step::Forward && header_fields(*final(headers))
            == planned_fields(header_fields(*old(headers)), *outcome)) || (step
            == Step::Respond(INTERNAL_SERVER_ERROR) && header_fields(*final(headers))
            == header_fields(*old(headers)).remove(authorization_name())),
{
    match outcome {
        Ok(Some(r)) => {
            let mut text = r.token_type.clone();
            proof {
                reveal_strlit(" ");
            }
            text.append(" ");
            text.append(r.access_token.as_str());
            assert(text@ == credential_text(*r));
            match header_value_from_str(text.as_str()) {
                Some(value) => {
                    let ghost before = header_fields(*headers);
                    remove_authorization(headers);
                    proof {
                        if before.dom().finite() {
                            assert(header_fields(*headers).dom() == before.dom().remove(
                                authorization_name(),
                            ));
                            assert(header_fields(*headers).dom().len() <= before.dom().len());
                        }
                    }
                    if try_insert_authorization(headers, value) {
                        Step::Forward
                    } else {
                        Step::Respond(INTERNAL_SERVER_ERROR)
                    }
                },
                None => Step::Respond(INTERNAL_SERVER_ERROR),
            }
        },
        Ok(None) => Step::Forward,
        Err(e) => match e.status_code {
            Some(code) => Step::Respond(code),
            None => Step::Forward,
        },
    }
}

/// Turns the result of forwarding into the answer to the client: the
/// upstream's response as it came, or 500 when forwarding failed.
pub fn reply_from_forward<R, E>(result: Result<R, E>) -> (reply: Reply<R>)
    ensures
        result matches Ok(response) ==> reply == Reply::Upstream(response),
        result is Err ==> reply == Reply::<R>::Status(INTERNAL_SERVER_ERROR),
{
    match result {
        Ok(response) => Reply::Upstream(response),
        Err(_) => Reply::Status(INTERNAL_SERVER_ERROR),
    }
}

/// For every request: when the exchange yields the token type `Bearer` and
/// the access token `abc`, the request is forwarded with exactly one
/// credential value, `Bearer abc`; every earlier credential value is gone
/// and every other header is as it was.
pub proof fn lemma_bearer_credential_replaces_authorization(
    fields: Map<Seq<char>, Seq<Seq<u8>>>,
    r: TokenExchangeResponse,
)
    requires
        r.token_type@ == "Bearer"@,
        r.access_token@ == "abc"@,
    ensures
        rewrites(Ok(Some(r))),
        planned_step(Ok(Some(r))) == Step::Forward,
        planned_fields(fields, Ok(Some(r)))[authorization_name()] == seq![encode_utf8("Bearer abc"@)],
        planned_fields(fields, Ok(Some(r))).dom() == fields.dom().insert(authorization_name()),
        forall|name: Seq<char>|
            name != authorization_name() && fields.contains_key(name) ==> #[trigger] planned_fields(
                fields,
                Ok(Some(r)),
            )[name] == fields[name],
{
    reveal_strlit("Bearer");
    reveal_strlit("abc");
    reveal_strlit("Bearer abc");
    let text = credential_text(r);
    assert(text =~= "Bearer abc"@);
    assert(vstd::utf8::is_ascii_chars(text));
    vstd::utf8::is_ascii_chars_encode_utf8(text);
    assert(is_header_value_text(credential_bytes(r)));
    assert(planned_fields(fields, Ok(Some(r))).dom() =~= fields.dom().insert(authorization_name()));
}

/// Handling a request is repeatable. Below the size limit, `apply_exchange`
/// gives exactly `planned_step(outcome)` and `planned_fields(fields, outcome)`,
/// so equal header contents and an equal outcome give an equal step and equal
/// headers. Handling the rewritten request again with the same outcome stays
/// below the limit, takes the same step, and changes nothing more.
pub proof fn lemma_exchange_repeatable(
    fields: Map<Seq<char>, Seq<Seq<u8>>>,
    outcome: Result<Option<TokenExchangeResponse>, TokenExchangeError>,
)
    requires
        fields.dom().finite(),
        fields.dom().len() + 1 < max_header_names(),
    ensures
        planned_fields(fields, outcome).dom().finite(),
        planned_fields(fields, outcome).dom().len() < max_header_names(),
        planned_fields(planned_fields(fields, outcome), outcome) == planned_fields(
            fields,
            outcome,
        ),
{
    let once = planned_fields(fields, outcome);
    assert(planned_fields(once, outcome) =~= once);
}

} // verus!
