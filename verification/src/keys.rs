//! Raw published keys and their transformation into verification keys.

use vstd::prelude::*;

use crate::errors::JwkError;
use crate::errors::JwkErrorModel;
use crate::trusted::base64url_decode;
use crate::trusted::base64url_nopad_decoded;
use crate::trusted::clone_decoding_key;
use crate::trusted::ec_decoding_key;
use crate::trusted::ed_decoding_key;
use crate::trusted::rsa_decoding_key;
use crate::trusted::secret_decoding_key;

verus! {

/// The algorithm-specific components of one published key, as plain
/// base64url strings, exactly as they stand in the document.
pub enum AlgorithmParameters {
    /// An RSA public key: modulus `n` and public exponent `e`.
    Rsa { n: String, e: String },
    /// An elliptic-curve public key: the coordinate pair `x`, `y`.
    EllipticCurve { x: String, y: String },
    /// An Edwards-curve octet key pair: the single coordinate `x`.
    OctetKeyPair { x: String },
    /// A symmetric octet key: its secret `value`, base64url-encoded.
    OctetKey { value: String },
}

/// One published key descriptor: an optional key id and its components.
pub struct RawKey {
    pub kid: Option<String>,
    pub algorithm: AlgorithmParameters,
}

/// The mathematical view of [`AlgorithmParameters`].
#[verifier::ext_equal]
pub enum AlgorithmParametersModel {
    Rsa { n: Seq<char>, e: Seq<char> },
    EllipticCurve { x: Seq<char>, y: Seq<char> },
    OctetKeyPair { x: Seq<char> },
    OctetKey { value: Seq<char> },
}

/// The mathematical view of a [`RawKey`].
#[verifier::ext_equal]
pub struct RawKeyModel {
    pub kid: Option<Seq<char>>,
    pub algorithm: AlgorithmParametersModel,
}

impl View for AlgorithmParameters {
    type V = AlgorithmParametersModel;

    open spec fn view(&self) -> AlgorithmParametersModel {
        match self {
            AlgorithmParameters::Rsa { n, e } => AlgorithmParametersModel::Rsa {
                n: n@,
                e: e@,
            },
            AlgorithmParameters::EllipticCurve { x, y } => AlgorithmParametersModel::EllipticCurve {
                x: x@,
                y: y@,
            },
            AlgorithmParameters::OctetKeyPair { x } => AlgorithmParametersModel::OctetKeyPair {
                x: x@,
            },
            AlgorithmParameters::OctetKey { value } => AlgorithmParametersModel::OctetKey {
                value: value@,
            },
        }
    }
}

impl View for RawKey {
    type V = RawKeyModel;

    open spec fn view(&self) -> RawKeyModel {
        RawKeyModel { kid: self.kid.deep_view(), algorithm: self.algorithm@ }
    }
}

/// The views of a sequence of raw keys, in order.
pub open spec fn raw_key_views(ks: Seq<RawKey>) -> Seq<RawKeyModel> {
    ks.map_values(|k: RawKey| k@)
}

/// What a verification key was built from: its algorithm family, fixed at
/// construction, and the material of that family.
#[verifier::ext_equal]
pub enum KeyModel {
    /// Built from the RSA components as they stand in the document.
    Rsa { n: Seq<char>, e: Seq<char> },
    /// Built from the elliptic-curve coordinate pair.
    EllipticCurve { x: Seq<char>, y: Seq<char> },
    /// Built from the Edwards-curve coordinate.
    OctetKeyPair { x: Seq<char> },
    /// Built from the already-decoded secret bytes.
    Secret { bytes: Seq<u8> },
}

/// A decoding key usable only to verify signatures, together with the
/// record of the material it was built from.
pub struct Jwk {
    pub decoding_key: jsonwebtoken::DecodingKey,
    material: Ghost<KeyModel>,
}

impl View for Jwk {
    type V = KeyModel;

    closed spec fn view(&self) -> KeyModel {
        self.material@
    }
}

/// What decoding one raw key yields: its key id and the key material on
/// success, or the precise error. A key without `kid` is always refused;
/// a key whose component strings do not base64url-decode is refused with
/// a decoding error attributed to its `kid`; the secret of a symmetric key
/// is the *decoded* bytes of its `value`, never the encoded string itself.
pub open spec fn transform_spec(raw: RawKeyModel) -> Result<(Seq<char>, KeyModel), JwkErrorModel> {
    match raw.kid {
        None => Err(JwkErrorModel::MissingKeyId),
        Some(kid) => match raw.algorithm {
            AlgorithmParametersModel::Rsa { n, e } => if base64url_nopad_decoded(n) is Some
                && base64url_nopad_decoded(e) is Some {
                Ok((kid, KeyModel::Rsa { n, e }))
            } else {
                Err(JwkErrorModel::DecodingError { key_id: kid })
            },
            AlgorithmParametersModel::EllipticCurve { x, y } => if base64url_nopad_decoded(x)
                is Some && base64url_nopad_decoded(y) is Some {
                Ok((kid, KeyModel::EllipticCurve { x, y }))
            } else {
                Err(JwkErrorModel::DecodingError { key_id: kid })
            },
            AlgorithmParametersModel::OctetKeyPair { x } => if base64url_nopad_decoded(x)
                is Some {
                Ok((kid, KeyModel::OctetKeyPair { x }))
            } else {
                Err(JwkErrorModel::DecodingError { key_id: kid })
            },
            AlgorithmParametersModel::OctetKey { value } => match base64url_nopad_decoded(value) {
                Some(bytes) => Ok((kid, KeyModel::Secret { bytes })),
                None => Err(JwkErrorModel::DecodingError { key_id: kid }),
            },
        },
    }
}

impl Jwk {
    /// Decode one raw key into its key id and verification key, or fail
    /// exactly as [`transform_spec`] says.
    pub fn decode(raw: &RawKey) -> (r: Result<(String, Jwk), JwkError>)
        ensures
            match r {
                Ok(p) => transform_spec(raw@) == Ok::<_, JwkErrorModel>((p.0@, p.1@)),
                Err(e) => transform_spec(raw@) == Err::<(Seq<char>, KeyModel), _>(e@),
            },
    {
        let kid = match &raw.kid {
            Some(k) => k.clone(),
            None => {
                return Err(JwkError::MissingKeyId);
            },
        };
        match &raw.algorithm {
            AlgorithmParameters::Rsa { n, e } => match rsa_decoding_key(n.as_str(), e.as_str()) {
                Ok(dk) => Ok(
                    (kid, Jwk { decoding_key: dk, material: Ghost(KeyModel::Rsa { n: n@, e: e@ }) }),
                ),
                Err(err) => Err(JwkError::DecodingError { key_id: kid, error: err }),
            },
            AlgorithmParameters::EllipticCurve { x, y } => match ec_decoding_key(
                x.as_str(),
                y.as_str(),
            ) {
                Ok(dk) => Ok(
                    (
                        kid,
                        Jwk {
                            decoding_key: dk,
                            material: Ghost(KeyModel::EllipticCurve { x: x@, y: y@ }),
                        },
                    ),
                ),
                Err(err) => Err(JwkError::DecodingError { key_id: kid, error: err }),
            },
            AlgorithmParameters::OctetKeyPair { x } => match ed_decoding_key(x.as_str()) {
                Ok(dk) => Ok(
                    (
                        kid,
                        Jwk {
                            decoding_key: dk,
                            material: Ghost(KeyModel::OctetKeyPair { x: x@ }),
                        },
                    ),
                ),
                Err(err) => Err(JwkError::DecodingError { key_id: kid, error: err }),
            },
            AlgorithmParameters::OctetKey { value } => match base64url_decode(value.as_str()) {
                Ok(bytes) => {
                    let ghost material = KeyModel::Secret { bytes: bytes@ };
                    let dk = secret_decoding_key(bytes.as_slice());
                    Ok((kid, Jwk { decoding_key: dk, material: Ghost(material) }))
                },
                Err(err) => Err(JwkError::DecodingError { key_id: kid, error: err }),
            },
        }
    }
}

impl Clone for Jwk {
    /// A clone denotes the same key: same algorithm family, same material.
    fn clone(&self) -> (r: Self)
        ensures
            r@ == self@,
    {
        Jwk {
            decoding_key: clone_decoding_key(&self.decoding_key),
            material: Ghost(self.material@),
        }
    }
}

/// The symmetric secret is the decoded layer beneath the key's own string
/// value: a symmetric key whose `value` is the base64url encoding of some
/// bytes decodes to a verification key built from exactly those bytes.
pub proof fn lemma_symmetric_secret_decoding(raw: RawKeyModel, bytes: Seq<u8>)
    requires
        raw.kid is Some,
        raw.algorithm matches AlgorithmParametersModel::OctetKey { value } &&
            base64url_nopad_decoded(value) == Some(bytes),
    ensures
        transform_spec(raw) == Ok::<_, JwkErrorModel>(
            (raw.kid->Some_0, KeyModel::Secret { bytes }),
        ),
{
}

} // verus!
