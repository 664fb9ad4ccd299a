//! The crate's trusted boundary: declarations of the outside types that run
//! through the key pipeline, names for what the outside decoding routines
//! return, and the wrappers that make the outside calls.

use vstd::prelude::*;

use jsonwebtoken::jwk::AlgorithmParameters as JwtParams;

use crate::keys::AlgorithmParameters;
use crate::keys::RawKey;
use crate::keys::RawKeyModel;
use crate::keys::raw_key_views;

verus! {

/// jsonwebtoken's verification-key object; opaque here.
#[verifier::external_type_specification]
#[verifier::external_body]
pub struct ExDecodingKey(jsonwebtoken::DecodingKey);

/// jsonwebtoken's error type, carried as the cause of a decoding failure;
/// opaque here.
#[verifier::external_type_specification]
#[verifier::external_body]
pub struct ExJwtError(jsonwebtoken::errors::Error);

/// What URL-safe, unpadded base64 decoding returns on a given string:
/// the decoded bytes, or nothing when the string is not valid base64url.
/// The result depends on the characters alone.
pub uninterp spec fn base64url_nopad_decoded(s: Seq<char>) -> Option<Seq<u8>>;

/// What parsing a JWKS document body yields: the raw keys it publishes, in
/// document order, or nothing when the body is not a well-formed JWKS
/// document. The result depends on the characters alone.
pub uninterp spec fn jwks_document_keys(body: Seq<char>) -> Option<Seq<RawKeyModel>>;

/// What reading a named top-level string member out of a JSON document
/// yields, or nothing when the document does not parse or the member is
/// absent or not a string. The result depends on the characters alone.
pub uninterp spec fn json_top_string(body: Seq<char>, field: Seq<char>) -> Option<Seq<char>>;

/// Relies on the base64 crate's `URL_SAFE_NO_PAD` engine: decoding is a
/// function of the input characters alone. A failure is carried over into
/// jsonwebtoken's error type, as the callers of this crate expect of a
/// malformed key component.
#[verifier::external_body]
pub(crate) fn base64url_decode(value: &str) -> (r: Result<
    Vec<u8>,
    jsonwebtoken::errors::Error,
>)
    ensures
        match r {
            Ok(bytes) => base64url_nopad_decoded(value@) == Some(bytes@),
            Err(_) => base64url_nopad_decoded(value@) is None,
        },
{
    base64::Engine::decode(&base64::engine::general_purpose::URL_SAFE_NO_PAD, value).map_err(
        |e| e.into(),
    )
}

/// Relies on jsonwebtoken's `DecodingKey::from_rsa_components`, which
/// base64url-decodes the modulus and the exponent with the same
/// `URL_SAFE_NO_PAD` engine of the same base64 version as
/// [`base64url_decode`], and accepts the pair exactly when both decode.
#[verifier::external_body]
pub(crate) fn rsa_decoding_key(n: &str, e: &str) -> (r: Result<
    jsonwebtoken::DecodingKey,
    jsonwebtoken::errors::Error,
>)
    ensures
        r is Ok <==> (base64url_nopad_decoded(n@) is Some && base64url_nopad_decoded(e@)
            is Some),
{
    jsonwebtoken::DecodingKey::from_rsa_components(n, e)
}

/// Relies on jsonwebtoken's `DecodingKey::from_ec_components`, which
/// base64url-decodes the two coordinates with the same `URL_SAFE_NO_PAD`
/// engine of the same base64 version as [`base64url_decode`], and accepts
/// the pair exactly when both decode.
#[verifier::external_body]
pub(crate) fn ec_decoding_key(x: &str, y: &str) -> (r: Result<
    jsonwebtoken::DecodingKey,
    jsonwebtoken::errors::Error,
>)
    ensures
        r is Ok <==> (base64url_nopad_decoded(x@) is Some && base64url_nopad_decoded(y@)
            is Some),
{
    jsonwebtoken::DecodingKey::from_ec_components(x, y)
}

/// Relies on jsonwebtoken's `DecodingKey::from_ed_components`, which
/// base64url-decodes the single coordinate with the same `URL_SAFE_NO_PAD`
/// engine of the same base64 version as [`base64url_decode`], and accepts
/// it exactly when it decodes.
#[verifier::external_body]
pub(crate) fn ed_decoding_key(x: &str) -> (r: Result<
    jsonwebtoken::DecodingKey,
    jsonwebtoken::errors::Error,
>)
    ensures
        r is Ok <==> base64url_nopad_decoded(x@) is Some,
{
    jsonwebtoken::DecodingKey::from_ed_components(x)
}

/// Relies on jsonwebtoken's `DecodingKey::from_secret`, which accepts any
/// byte string as a symmetric verification secret.
#[verifier::external_body]
pub(crate) fn secret_decoding_key(secret: &[u8]) -> jsonwebtoken::DecodingKey {
    jsonwebtoken::DecodingKey::from_secret(secret)
}

/// Relies on jsonwebtoken's derived `Clone` for `DecodingKey`, which copies
/// the key material.
#[verifier::external_body]
pub(crate) fn clone_decoding_key(key: &jsonwebtoken::DecodingKey) -> jsonwebtoken::DecodingKey {
    key.clone()
}

/// Relies on serde_json and jsonwebtoken's `JwkSet` to parse a JWKS
/// document; the body either parses into a list of raw keys or is refused
/// whole, and each parsed key's id and algorithm components are carried
/// over one for one.
#[verifier::external_body]
pub(crate) fn parse_jwks_keys(body: &str) -> (r: Option<Vec<RawKey>>)
    ensures
        match r {
            Some(ks) => jwks_document_keys(body@) == Some(raw_key_views(ks@)),
            None => jwks_document_keys(body@) is None,
        },
{
    let set = serde_json::from_str::<jsonwebtoken::jwk::JwkSet>(body).ok()?;
    Some(set.keys.into_iter().map(|k| RawKey {
        kid: k.common.key_id,
        algorithm: match k.algorithm {
            JwtParams::RSA(p) => AlgorithmParameters::Rsa { n: p.n, e: p.e },
            JwtParams::EllipticCurve(p) => AlgorithmParameters::EllipticCurve { x: p.x, y: p.y },
            JwtParams::OctetKeyPair(p) => AlgorithmParameters::OctetKeyPair { x: p.x },
            JwtParams::OctetKey(p) => AlgorithmParameters::OctetKey { value: p.value },
        },
    }).collect())
}

/// Relies on serde_json (`from_str`, `Value::get`, `Value::as_str`) to
/// parse a JSON document and read one named top-level string member, as
/// serde would deserialize a struct with that single field.
#[verifier::external_body]
pub(crate) fn json_string_field(body: &str, field: &str) -> (r: Option<String>)
    ensures
        match r {
            Some(s) => json_top_string(body@, field@) == Some(s@),
            None => json_top_string(body@, field@) is None,
        },
{
    match serde_json::from_str::<serde_json::Value>(body) {
        Ok(v) => v.get(field).and_then(|u| u.as_str()).map(|s| s.to_string()),
        Err(_) => None,
    }
}

} // verus!
