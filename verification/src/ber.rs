//! Calls into `asn1-rs` that read the BER encodings found in VCEK
//! certificate extensions.

use asn1_rs::FromBer;
use vstd::prelude::*;

verus! {

/// The error that `asn1-rs` parsers return: nom's `Err` around
/// `asn1_rs::Error`.
#[verifier::external_type_specification]
#[verifier::external_body]
#[verifier::reject_recursive_types(E)]
pub struct ExBerErr<E>(asn1_rs::Err<E>);

/// The error type of `asn1-rs`.
#[verifier::external_type_specification]
#[verifier::external_body]
pub struct ExAsn1Error(asn1_rs::Error);

/// The value of the BER INTEGER at the start of `bytes`, when the bytes
/// start with one and its value fits in a `u8`.
pub uninterp spec fn ber_integer_u8(bytes: Seq<u8>) -> Option<u8>;

/// The bytes that follow the BER OCTET STRING at the start of `bytes`,
/// when the bytes start with one.
pub uninterp spec fn ber_octet_string_rest(bytes: Seq<u8>) -> Option<Seq<u8>>;

/// Reads a BER INTEGER with `asn1_rs::Integer::from_ber` and converts it
/// with `Integer::as_u8` (an error of the latter becomes `Err::Error`, as
/// `?` does). Claimed: the call succeeds exactly when `ber_integer_u8`
/// has a value, and then returns it; both functions depend on the bytes
/// alone.
#[verifier::external_body]
pub(crate) fn parse_ber_u8(bytes: &[u8]) -> (r: Result<u8, asn1_rs::Err<asn1_rs::Error>>)
    ensures
        r is Ok <==> ber_integer_u8(bytes@) is Some,
        r matches Ok(v) ==> ber_integer_u8(bytes@) == Some(v),
{
    asn1_rs::Integer::from_ber(bytes).and_then(|(_, integer)| Ok(integer.as_u8()?))
}

/// Reads a BER OCTET STRING with `asn1_rs::OctetString::from_ber` and
/// keeps the first element of the pair it returns, the bytes that follow
/// the string. Claimed: the call succeeds exactly when
/// `ber_octet_string_rest` has a value, and then returns it.
#[verifier::external_body]
pub(crate) fn parse_ber_octet_string_rest<'a>(bytes: &'a [u8]) -> (r: Result<
    &'a [u8],
    asn1_rs::Err<asn1_rs::Error>,
>)
    ensures
        r is Ok <==> ber_octet_string_rest(bytes@) is Some,
        r matches Ok(rest) ==> ber_octet_string_rest(bytes@) == Some(rest@),
{
    asn1_rs::OctetString::from_ber(bytes).map(|parsed| parsed.0)
}

/// The text that displaying an `asn1-rs` parse error shows (nom's
/// `Display`). Nothing is claimed of it.
#[verifier::external_body]
pub(crate) fn ber_error_text(e: &asn1_rs::Err<asn1_rs::Error>) -> String {
    format!("{}", e)
}

} // verus!
