use jwks::AlgorithmParameters;
use jwks::FetchError;
use jwks::JwkError;
use jwks::Jwks;
use jwks::JwksError;
use jwks::RawKey;

use base64::engine::general_purpose::URL_SAFE_NO_PAD;
use base64::Engine;
use jsonwebtoken::encode;
use jsonwebtoken::decode;
use jsonwebtoken::Algorithm;
use jsonwebtoken::EncodingKey;
use jsonwebtoken::Header;
use jsonwebtoken::Validation;

// The two RSA keys published at https://www.googleapis.com/oauth2/v3/certs.
const GOOGLE_JWKS: &str = r#"{
  "keys": [
    {
      "use": "sig",
      "n": "jb1Ps3fdt0oPYPbQlfZqKkCXrM1qJ5EkfBHSMrPXPzh9QLwa43WCLEdrTcf5vI8cNwbgSxDlCDS2BzHQC0hYPwFkJaD6y6NIIcwdSMcKlQPwk4-sqJbz55_gyUWjifcpXXKbXDdnd2QzSE2YipareOPJaBs3Ybuvf_EePnYoKEhXNeGm_T3546A56uOV2mNEe6e-RaIa76i8kcx_8JP3FjqxZSWRrmGYwZJhTGbeY5pfOS6v_EYpA4Up1kZANWReeC3mgh3O78f5nKEDxwPf99bIQ22fIC2779HbfzO-ybqR_EJ0zv8LlqfT7dMjZs25LH8Jw5wGWjP_9efP8emTOw",
      "kty": "RSA",
      "alg": "RS256",
      "e": "AQAB",
      "kid": "91413cf4fa0cb92a3c3f5a054509132c47660937"
    },
    {
      "n": "tgkwz0K80MycaI2Dz_jHkErJ_IHUPTlx4LR_6wltAHQW_ZwhMzINNH8vbWo8P5F2YLDiIbuslF9y7Q3izsPX3XWQyt6LI8ZT4gmGXQBumYMKx2VtbmTYIysKY8AY7x5UCDO-oaAcBuKQvWc5E31kXm6d6vfaEZjrMc_KT3DsFdN0LcAkB-Q9oYcVl7YEgAN849ROKUs6onf7eukj1PHwDzIBgA9AExJaKen0wITvxQv3H_BRXB7m6hFkLbK5Jo18gl3UxJ7Em29peEwi8Psn7MuI7CwhFNchKhjZM9eaMX27tpDPqR15-I6CA5Zf94rabUGWYph5cFXKWPPr8dskQQ",
      "alg": "RS256",
      "use": "sig",
      "kid": "1f40f0a8ef3d880978dc82f25c3ec317c6a5b781",
      "e": "AQAB",
      "kty": "RSA"
    }
  ]
}"#;

fn claims_with_exp() -> serde_json::Value {
    let mut claims = serde_json::Map::new();
    claims.insert("sub".to_string(), serde_json::Value::from("someone"));
    claims.insert("exp".to_string(), serde_json::Value::from(32503680000u64));
    serde_json::Value::Object(claims)
}

fn octet_raw_key(kid: &str, secret: &[u8]) -> RawKey {
    RawKey {
        kid: Some(kid.to_string()),
        algorithm: AlgorithmParameters::OctetKey { value: URL_SAFE_NO_PAD.encode(secret) },
    }
}

#[test]
fn resolves_two_rsa_keys_by_kid() {
    let jwks = Jwks::from_jwks_body(GOOGLE_JWKS).unwrap();
    assert_eq!(jwks.len(), 2);
    jwks.get(&"91413cf4fa0cb92a3c3f5a054509132c47660937".to_string())
        .expect("key one should be found");
    jwks.get(&"1f40f0a8ef3d880978dc82f25c3ec317c6a5b781".to_string())
        .expect("key two should be found");
    assert!(jwks.get(&"unknown".to_string()).is_none());
}

#[test]
fn oidc_discovery_delegates_to_the_jwks_document() {
    // The discovery document published at
    // https://accounts.google.com/.well-known/openid-configuration, shortened.
    let oidc_body = r#"{
      "issuer": "https://accounts.google.com",
      "authorization_endpoint": "https://accounts.google.com/o/oauth2/v2/auth",
      "token_endpoint": "https://oauth2.googleapis.com/token",
      "jwks_uri": "https://www.googleapis.com/oauth2/v3/certs",
      "response_types_supported": ["code", "token", "id_token"],
      "id_token_signing_alg_values_supported": ["RS256"]
    }"#;
    let uri = Jwks::jwks_uri_from_oidc_body(oidc_body).unwrap();
    assert_eq!(uri, "https://www.googleapis.com/oauth2/v3/certs");

    // With identical JWKS content behind that address, the second hop gives
    // exactly what direct resolution gives.
    let via_discovery = Jwks::from_jwks_body(GOOGLE_JWKS).unwrap();
    let direct = Jwks::from_jwks_body(GOOGLE_JWKS).unwrap();
    assert_eq!(via_discovery.len(), direct.len());
    for kid in [
        "91413cf4fa0cb92a3c3f5a054509132c47660937",
        "1f40f0a8ef3d880978dc82f25c3ec317c6a5b781",
    ] {
        assert!(via_discovery.get(&kid.to_string()).is_some());
        assert!(direct.get(&kid.to_string()).is_some());
    }
}

#[test]
fn discovery_document_without_jwks_uri_is_invalid() {
    let r = Jwks::jwks_uri_from_oidc_body(r#"{"issuer": "https://example.com"}"#);
    assert!(matches!(r, Err(JwksError::FetchError(FetchError::InvalidDocument))));
}

#[test]
fn discovery_document_that_is_not_json_is_invalid() {
    let r = Jwks::jwks_uri_from_oidc_body("not a json document");
    assert!(matches!(r, Err(JwksError::FetchError(FetchError::InvalidDocument))));
}

#[test]
fn jwks_body_that_is_not_a_key_set_is_invalid() {
    let r = Jwks::from_jwks_body("[1, 2, 3]");
    assert!(matches!(r, Err(JwksError::FetchError(FetchError::InvalidDocument))));
}

#[test]
fn empty_key_set_resolves_to_empty_registry() {
    let jwks = Jwks::from_jwks_body(r#"{"keys": []}"#).unwrap();
    assert_eq!(jwks.len(), 0);
}

#[test]
fn missing_kid_fails_the_whole_resolution() {
    // The second key is valid but carries no kid: no partial registry comes
    // back, whatever the other keys look like.
    let body = r#"{
      "keys": [
        {
          "kty": "RSA",
          "n": "tgkwz0K80MycaI2Dz_jHkErJ_IHUPTlx4LR_6wltAHQ",
          "e": "AQAB",
          "kid": "good"
        },
        {
          "kty": "oct",
          "k": "c2VjcmV0"
        }
      ]
    }"#;
    let r = Jwks::from_jwks_body(body);
    assert!(matches!(r, Err(JwksError::KeyError(JwkError::MissingKeyId))));
}

#[test]
fn malformed_component_is_attributed_to_its_kid() {
    let body = r#"{
      "keys": [
        {
          "kty": "RSA",
          "n": "tgkwz0K80MycaI2Dz_jHkErJ_IHUPTlx4LR_6wltAHQ",
          "e": "AQAB",
          "kid": "fine"
        },
        {
          "kty": "RSA",
          "n": "!!!this is not base64url!!!",
          "e": "AQAB",
          "kid": "broken"
        }
      ]
    }"#;
    match Jwks::from_jwks_body(body) {
        Err(JwksError::KeyError(JwkError::DecodingError { key_id, .. })) => {
            assert_eq!(key_id, "broken");
        }
        other => panic!("expected a decoding error, got {:?}", other.map(|_| ())),
    }
}

#[test]
fn elliptic_curve_and_edwards_keys_resolve() {
    let raw_keys = vec![
        RawKey {
            kid: Some("ec".to_string()),
            algorithm: AlgorithmParameters::EllipticCurve {
                x: URL_SAFE_NO_PAD.encode([7u8; 32]),
                y: URL_SAFE_NO_PAD.encode([9u8; 32]),
            },
        },
        RawKey {
            kid: Some("ed".to_string()),
            algorithm: AlgorithmParameters::OctetKeyPair {
                x: URL_SAFE_NO_PAD.encode([5u8; 32]),
            },
        },
    ];
    let jwks = Jwks::from_raw_keys(&raw_keys).unwrap();
    assert_eq!(jwks.len(), 2);
    assert!(jwks.get(&"ec".to_string()).is_some());
    assert!(jwks.get(&"ed".to_string()).is_some());
}

#[test]
fn edwards_key_with_bad_coordinate_is_refused() {
    let raw_keys = vec![RawKey {
        kid: Some("ed".to_string()),
        algorithm: AlgorithmParameters::OctetKeyPair { x: "?bad?".to_string() },
    }];
    match Jwks::from_raw_keys(&raw_keys) {
        Err(JwkError::DecodingError { key_id, .. }) => assert_eq!(key_id, "ed"),
        other => panic!("expected a decoding error, got {:?}", other.map(|_| ())),
    }
}

#[test]
fn symmetric_secret_is_decoded_before_use() {
    // The registry must be built from the decoded bytes of the key's value,
    // not from the still-encoded string: a token signed with the raw secret
    // verifies against the resolved key.
    let secret = b"a-shared-secret-for-signing-tokens";
    let raw_keys = vec![octet_raw_key("sym", secret)];
    let jwks = Jwks::from_raw_keys(&raw_keys).unwrap();
    let key = jwks.get(&"sym".to_string()).unwrap();

    let token = encode(
        &Header::new(Algorithm::HS256),
        &claims_with_exp(),
        &EncodingKey::from_secret(secret),
    )
    .unwrap();
    decode::<serde_json::Value>(&token, &key.decoding_key, &Validation::new(Algorithm::HS256))
        .expect("token signed with the decoded secret should verify");

    // A token signed with the encoded string itself must be rejected.
    let wrong = encode(
        &Header::new(Algorithm::HS256),
        &claims_with_exp(),
        &EncodingKey::from_secret(URL_SAFE_NO_PAD.encode(secret).as_bytes()),
    )
    .unwrap();
    assert!(decode::<serde_json::Value>(
        &wrong,
        &key.decoding_key,
        &Validation::new(Algorithm::HS256)
    )
    .is_err());
}

#[test]
fn keys_verify_only_their_own_tokens() {
    let secret_one = b"first-signing-secret";
    let secret_two = b"second-signing-secret";
    let raw_keys = vec![octet_raw_key("k1", secret_one), octet_raw_key("k2", secret_two)];
    let jwks = Jwks::from_raw_keys(&raw_keys).unwrap();
    assert_eq!(jwks.len(), 2);

    let token_one = encode(
        &Header::new(Algorithm::HS256),
        &claims_with_exp(),
        &EncodingKey::from_secret(secret_one),
    )
    .unwrap();
    let validation = Validation::new(Algorithm::HS256);
    let key_one = jwks.get(&"k1".to_string()).unwrap();
    let key_two = jwks.get(&"k2".to_string()).unwrap();
    assert!(decode::<serde_json::Value>(&token_one, &key_one.decoding_key, &validation).is_ok());
    assert!(decode::<serde_json::Value>(&token_one, &key_two.decoding_key, &validation).is_err());
}

#[test]
fn cloned_registry_holds_the_same_keys() {
    let secret = b"a-secret-shared-with-the-clone";
    let raw_keys = vec![octet_raw_key("only", secret)];
    let jwks = Jwks::from_raw_keys(&raw_keys).unwrap();
    let cloned = jwks.clone();
    assert_eq!(cloned.len(), 1);

    let token = encode(
        &Header::new(Algorithm::HS256),
        &claims_with_exp(),
        &EncodingKey::from_secret(secret),
    )
    .unwrap();
    let key = cloned.get(&"only".to_string()).unwrap();
    assert!(decode::<serde_json::Value>(
        &token,
        &key.decoding_key,
        &Validation::new(Algorithm::HS256)
    )
    .is_ok());
}

#[test]
fn duplicate_kid_keeps_the_later_key() {
    let early = b"the-earlier-secret";
    let late = b"the-later-secret";
    let raw_keys = vec![octet_raw_key("dup", early), octet_raw_key("dup", late)];
    let jwks = Jwks::from_raw_keys(&raw_keys).unwrap();
    assert_eq!(jwks.len(), 1);

    let token = encode(
        &Header::new(Algorithm::HS256),
        &claims_with_exp(),
        &EncodingKey::from_secret(late),
    )
    .unwrap();
    let key = jwks.get(&"dup".to_string()).unwrap();
    assert!(decode::<serde_json::Value>(
        &token,
        &key.decoding_key,
        &Validation::new(Algorithm::HS256)
    )
    .is_ok());
}
