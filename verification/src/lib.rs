//! Signing and verification keys for JSON-based digital signatures.
//!
//! A key is bound, when it is made, to the algorithm it signs with and to the
//! algorithms it will verify. The cryptographic primitives are OpenSSL's; what
//! is verified here is everything around them: which algorithm a key accepts,
//! which digest and padding are handed to the primitive, when a key is refused,
//! and the conversion between a key's numbers and their JSON form.
//!
//! - [`algorithm`]: the algorithms, their names, and how a key's binding
//!   reconciles an asserted name.
//! - [`key`]: what every key can do, the rules by which keys are taken and
//!   verdicts are given, and what follows from them.
//! - [`rsa`]: RSA private and public keys.
//! - [`jwk`], [`material`], [`base64url`], [`numbers`]: the JSON record of a
//!   key and the way from its fields to the key's numbers and back.
//! - [`some`]: keys made from a record.
//! - [`primitives`], [`signature`]: the boundary to OpenSSL and to the
//!   signature buffer.
//! - [`text`], [`views`]: comparisons, searches and views used throughout.

pub mod algorithm;
pub mod base64url;
pub mod error;
pub mod jwk;
pub mod key;
pub mod material;
pub mod numbers;
pub mod primitives;
pub mod rsa;
pub mod signature;
pub mod some;
pub mod text;
pub mod views;

pub use algorithm::{AlgorithmBinding, DigestKind, RsaAlgorithm};
pub use error::Error;
pub use jwk::Jwk;
pub use key::{PrivateKeyToJwk, PublicKeyToJwk, SigningKey, VerificationKey};
pub use rsa::{RsaPrivateKey, RsaPublicKey};
pub use signature::Signature;
pub use some::{SomePrivateKey, SomePublicKey};
