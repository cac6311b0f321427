//! Registry enums for JOSE: signature algorithms, key uses and key types.
//!
//! These are closed subsets of the IANA "JSON Object Signing and Encryption"
//! registries, restricted to the entries this crate works with.

use vstd::prelude::*;

verus! {

/// A JSON Web Signature algorithm (`alg` header parameter).
#[derive(Clone, Copy, Debug, PartialEq, Eq, Hash, Structural)]
pub enum JsonWebSignatureAlg {
    /// HMAC using SHA-256
    Hs256,
    /// HMAC using SHA-384
    Hs384,
    /// HMAC using SHA-512
    Hs512,
    /// RSASSA-PKCS1-v1_5 using SHA-256
    Rs256,
    /// RSASSA-PKCS1-v1_5 using SHA-384
    Rs384,
    /// RSASSA-PKCS1-v1_5 using SHA-512
    Rs512,
    /// ECDSA using P-256 and SHA-256
    Es256,
    /// ECDSA using P-384 and SHA-384
    Es384,
    /// ECDSA using P-521 and SHA-512
    Es512,
    /// ECDSA using secp256k1 and SHA-256
    Es256K,
    /// RSASSA-PSS using SHA-256
    Ps256,
    /// RSASSA-PSS using SHA-384
    Ps384,
    /// RSASSA-PSS using SHA-512
    Ps512,
    /// EdDSA
    EdDsa,
}

/// The intended use of a JSON Web Key (`use` parameter).
#[derive(Clone, Copy, Debug, PartialEq, Eq, Hash, Structural)]
pub enum JsonWebKeyUse {
    /// The key is used for signing
    Sig,
    /// The key is used for encryption
    Enc,
}

/// The family of a JSON Web Key (`kty` parameter).
#[derive(Clone, Copy, Debug, PartialEq, Eq, Hash, Structural)]
pub enum JsonWebKeyType {
    /// An octet (symmetric) key
    Oct,
    /// An RSA key
    Rsa,
    /// An elliptic-curve key
    Ec,
    /// An octet key pair (Edwards curves)
    Okp,
}

/// The named elliptic curve of an EC JSON Web Key (`crv` parameter).
#[derive(Clone, Copy, Debug, PartialEq, Eq, Hash, Structural)]
pub enum JsonWebKeyEcCurve {
    /// NIST P-256
    P256,
    /// NIST P-384
    P384,
    /// secp256k1
    Secp256K1,
}

} // verus!
