//! The request headers, as far as this library reads and writes them.
//!
//! A header map is modelled by [`header_fields`]: each header name, in lower
//! case, maps to the byte strings of its values, in order. Only the
//! `Authorization` entry is ever changed here.
use vstd::prelude::*;
use vstd::utf8::encode_utf8;

verus! {

#[verifier::external_type_specification]
#[verifier::external_body]
#[verifier::reject_recursive_types(T)]
pub struct ExHeaderMap<T>(hyper::HeaderMap<T>);

#[verifier::external_type_specification]
#[verifier::external_body]
pub struct ExHeaderValue(hyper::header::HeaderValue);

/// Below this many distinct names a header map always takes one more.
pub open spec fn max_header_names() -> nat {
    6553
}

/// What a header map holds: each lower-case name with its values, in order.
pub uninterp spec fn header_fields(h: hyper::HeaderMap) -> Map<Seq<char>, Seq<Seq<u8>>>;

/// The bytes of a header value.
pub uninterp spec fn header_value_bytes(v: hyper::header::HeaderValue) -> Seq<u8>;

/// The name of the credential header, as the header map keys it.
pub open spec fn authorization_name() -> Seq<char> {
    seq!['a', 'u', 't', 'h', 'o', 'r', 'i', 'z', 'a', 't', 'i', 'o', 'n']
}

/// A byte that may stand in a header value: visible text, space, tab, or any
/// byte of a multi-byte character; not a control character.
pub open spec fn is_header_value_byte(b: u8) -> bool {
    (b >= 32 && b != 127) || b == 9
}

pub open spec fn is_header_value_text(bytes: Seq<u8>) -> bool {
    forall|i: int| 0 <= i < bytes.len() ==> #[trigger] is_header_value_byte(bytes[i])
}

/// Relies on `HeaderValue::from_str`: it refuses a text with a byte that
/// `is_header_value_byte` rejects, and otherwise holds the text's bytes.
#[verifier::external_body]
pub(crate) fn header_value_from_str(s: &str) -> (r: Option<hyper::header::HeaderValue>)
    ensures
        r is Some <==> is_header_value_text(encode_utf8(s@)),
        r matches Some(v) ==> header_value_bytes(v) == encode_utf8(s@),
{
    hyper::header::HeaderValue::from_str(s).ok()
}

/// Relies on `HeaderMap::remove`: every value under the name is removed.
#[verifier::external_body]
pub(crate) fn remove_authorization(h: &mut hyper::HeaderMap)
    ensures
        header_fields(*final(h)) == header_fields(*old(h)).remove(authorization_name()),
        header_fields(*old(h)).dom().finite() ==> header_fields(*final(h)).dom().finite(),
{
    h.remove(hyper::header::AUTHORIZATION);
}

/// Relies on `HeaderMap::try_insert`: on success the name holds the one new
/// value and no earlier one; when the map is at its maximum size it is left
/// as it was and an error comes back. That size is reached only with at
/// least 6554 distinct names (the table's growth stops at 32768 slots, and a
/// table of that size takes new names up to a fifth of it before it refuses).
#[verifier::external_body]
pub(crate) fn try_insert_authorization(
    h: &mut hyper::HeaderMap,
    v: hyper::header::HeaderValue,
) -> (r: bool)
    ensures
        r ==> header_fields(*final(h)) == header_fields(*old(h)).insert(
            authorization_name(),
            seq![header_value_bytes(v)],
        ),
        !r ==> header_fields(*final(h)) == header_fields(*old(h)),
        header_fields(*old(h)).dom().finite() && header_fields(*old(h)).dom().len()
            < max_header_names() ==> r,
{
    h.try_insert(hyper::header::AUTHORIZATION, v).is_ok()
}

} // verus!
