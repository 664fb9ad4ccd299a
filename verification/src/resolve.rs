//! Resolution of fetched document bodies into a key registry: the JWKS
//! document directly, or an OIDC discovery document first, whose `jwks_uri`
//! names where the JWKS document lives.

use vstd::prelude::*;

use crate::errors::FetchError;
use crate::errors::FetchErrorModel;
use crate::errors::JwksError;
use crate::errors::JwksErrorModel;
use crate::keys::KeyModel;
use crate::registry::Jwks;
use crate::registry::registry_spec;
use crate::trusted::json_string_field;
use crate::trusted::json_top_string;
use crate::trusted::jwks_document_keys;
use crate::trusted::parse_jwks_keys;

verus! {

/// The `jwks_uri` member of an OIDC discovery document, when the document
/// parses and carries one.
pub open spec fn discovery_jwks_uri(body: Seq<char>) -> Option<Seq<char>> {
    json_top_string(body, "jwks_uri"@)
}

/// What resolving the body of a fetched JWKS document yields: the registry
/// mapping when the document parses and every key decodes; a fetch error
/// when the body is not a JWKS document; the first key's error otherwise.
pub open spec fn resolve_jwks_spec(body: Seq<char>) -> Result<
    Map<Seq<char>, KeyModel>,
    JwksErrorModel,
> {
    match jwks_document_keys(body) {
        None => Err(JwksErrorModel::FetchError(FetchErrorModel::InvalidDocument)),
        Some(raws) => match registry_spec(raws) {
            Ok(m) => Ok(m),
            Err(e) => Err(JwksErrorModel::KeyError(e)),
        },
    }
}

/// What resolving through OIDC discovery yields, given the fetched bodies
/// of the discovery document and of the JWKS document its `jwks_uri` names.
pub open spec fn resolve_oidc_spec(discovery_body: Seq<char>, jwks_body: Seq<char>) -> Result<
    Map<Seq<char>, KeyModel>,
    JwksErrorModel,
> {
    match discovery_jwks_uri(discovery_body) {
        None => Err(JwksErrorModel::FetchError(FetchErrorModel::InvalidDocument)),
        Some(_) => resolve_jwks_spec(jwks_body),
    }
}

/// Discovery delegation: once the discovery document yields a JWKS address,
/// resolving through it gives exactly the registry that resolving the same
/// JWKS document directly gives.
pub proof fn lemma_discovery_delegation(discovery_body: Seq<char>, jwks_body: Seq<char>)
    requires
        discovery_jwks_uri(discovery_body) is Some,
    ensures
        resolve_oidc_spec(discovery_body, jwks_body) == resolve_jwks_spec(jwks_body),
{
}

impl Jwks {
    /// Build the registry from the body of a fetched JWKS document, exactly
    /// as [`resolve_jwks_spec`] says of it.
    pub fn from_jwks_body(body: &str) -> (r: Result<Jwks, JwksError>)
        ensures
            match r {
                Ok(jwks) => resolve_jwks_spec(body@) == Ok::<_, JwksErrorModel>(jwks@),
                Err(e) => resolve_jwks_spec(body@) == Err::<Map<Seq<char>, KeyModel>, _>(e@),
            },
    {
        match parse_jwks_keys(body) {
            None => Err(JwksError::FetchError(FetchError::InvalidDocument)),
            Some(raw_keys) => match Jwks::from_raw_keys(&raw_keys) {
                Ok(jwks) => Ok(jwks),
                Err(e) => Err(JwksError::KeyError(e)),
            },
        }
    }

    /// Read the `jwks_uri` member out of the body of a fetched OIDC
    /// discovery document; a body that does not parse or carries no such
    /// member is refused as an invalid document.
    pub fn jwks_uri_from_oidc_body(body: &str) -> (r: Result<String, JwksError>)
        ensures
            match r {
                Ok(uri) => discovery_jwks_uri(body@) == Some(uri@),
                Err(e) => discovery_jwks_uri(body@) is None && e@ == JwksErrorModel::FetchError(
                    FetchErrorModel::InvalidDocument,
                ),
            },
    {
        match json_string_field(body, "jwks_uri") {
            Some(uri) => Ok(uri),
            None => Err(JwksError::FetchError(FetchError::InvalidDocument)),
        }
    }
}

} // verus!
