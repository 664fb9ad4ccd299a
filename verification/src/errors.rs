use vstd::prelude::*;

verus! {

/// An error with one specific key of a key set.
#[derive(Debug)]
pub enum JwkError {
    /// A component of the key (its modulus, a coordinate, a secret value)
    /// could not be decoded; `key_id` names the key it belongs to.
    DecodingError { key_id: String, error: jsonwebtoken::errors::Error },
    /// The key gives no way to determine how to interpret it. Kept for
    /// forward compatibility; unreachable while the component dispatch is
    /// exhaustive.
    MissingAlgorithm { key_id: String },
    /// The key has no `kid` attribute.
    MissingKeyId,
}

/// An error with the overall set of keys.
#[derive(Debug)]
pub enum JwksError {
    /// The JWKS or discovery document could not be retrieved or read.
    FetchError(FetchError),
    /// One key of the set could not be turned into a verification key.
    KeyError(JwkError),
}

/// A failure to obtain a usable document.
#[derive(Debug)]
pub enum FetchError {
    /// The transport failed; the message comes from the component that
    /// performed the request.
    Transport(String),
    /// The body is not a well-formed JWKS or discovery document.
    InvalidDocument,
}

/// The mathematical view of a [`JwkError`]: the cause carried by a
/// decoding failure is opaque and is not part of the model.
#[verifier::ext_equal]
pub enum JwkErrorModel {
    DecodingError { key_id: Seq<char> },
    MissingAlgorithm { key_id: Seq<char> },
    MissingKeyId,
}

/// The mathematical view of a [`JwksError`].
#[verifier::ext_equal]
pub enum JwksErrorModel {
    FetchError(FetchErrorModel),
    KeyError(JwkErrorModel),
}

/// The mathematical view of a [`FetchError`].
#[verifier::ext_equal]
pub enum FetchErrorModel {
    Transport(Seq<char>),
    InvalidDocument,
}

impl View for JwkError {
    type V = JwkErrorModel;

    open spec fn view(&self) -> JwkErrorModel {
        match self {
            JwkError::DecodingError { key_id, .. } => JwkErrorModel::DecodingError {
                key_id: key_id@,
            },
            JwkError::MissingAlgorithm { key_id } => JwkErrorModel::MissingAlgorithm {
                key_id: key_id@,
            },
            JwkError::MissingKeyId => JwkErrorModel::MissingKeyId,
        }
    }
}

impl View for JwksError {
    type V = JwksErrorModel;

    open spec fn view(&self) -> JwksErrorModel {
        match self {
            JwksError::FetchError(f) => JwksErrorModel::FetchError(f@),
            JwksError::KeyError(k) => JwksErrorModel::KeyError(k@),
        }
    }
}

impl View for FetchError {
    type V = FetchErrorModel;

    open spec fn view(&self) -> FetchErrorModel {
        match self {
            FetchError::Transport(msg) => FetchErrorModel::Transport(msg@),
            FetchError::InvalidDocument => FetchErrorModel::InvalidDocument,
        }
    }
}

} // verus!
