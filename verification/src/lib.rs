//! Resolution of published JSON Web Key Sets (JWKS) into a registry of
//! ready-to-use signature-verification keys, keyed by key id (`kid`).
//!
//! The registry is built atomically: either every raw key of a document
//! decodes into a verification key, or the first failure aborts the build
//! and is reported with the key id it belongs to.

pub mod errors;
pub mod keys;
pub mod registry;
pub mod resolve;
pub mod trusted;

pub use keys::AlgorithmParameters;
pub use keys::AlgorithmParametersModel;
pub use keys::Jwk;
pub use keys::KeyModel;
pub use keys::RawKey;
pub use keys::RawKeyModel;
pub use keys::transform_spec;
pub use registry::Jwks;
pub use registry::registry_spec;
pub use errors::FetchError;
pub use errors::FetchErrorModel;
pub use errors::JwkError;
pub use errors::JwkErrorModel;
pub use errors::JwksError;
pub use errors::JwksErrorModel;
