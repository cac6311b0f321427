//! Key management and key selection for JSON Object Signing and Encryption
//! (JOSE).
//!
//! The crate has four parts:
//!
//! - a key codec that loads asymmetric private keys from PEM or DER documents
//!   carrying PKCS#1, PKCS#8 (plain or encrypted) or SEC1 payloads, and
//!   serializes them back;
//! - a closed set of key representations (RSA and three named elliptic
//!   curves), each bound to a fixed set of signature algorithms;
//! - an immutable, cheaply cloneable keystore holding keys together with
//!   their public attributes, with a public-only view for publication;
//! - a constraint engine that filters and ranks candidate keys against the
//!   requirements of an incoming token header.

pub mod asn1;
pub mod codec;
pub mod constraints;
pub mod escape;
pub mod jose;
pub mod keys;
pub mod keyset;

pub use asn1::{SecretBytes, SecretString};
pub use constraints::{Constrainable, Constraint, ConstraintDecision, ConstraintSet};
pub use escape::filter_add_slashes;
pub use jose::{JsonWebKeyEcCurve, JsonWebKeyType, JsonWebKeyUse, JsonWebSignatureAlg};
pub use keys::{
    AsymmetricSigningKey, AsymmetricVerifyingKey, JsonWebKeyPublicParameters, KeyKind, LoadError,
    LoadErrorShape, PrivateKey, WrongAlgorithmError,
};
pub use keyset::{JsonWebKey, JsonWebKeySet, Keystore, PublicJsonWebKey, PublicJsonWebKeySet};
