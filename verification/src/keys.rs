//! Key representations and algorithm binding.
//!
//! [`PrivateKey`] is a closed set of key variants: RSA and three named
//! elliptic curves.  Each variant supports a fixed, enumerable set of
//! signature algorithms; [`PrivateKey::signing_key_for_alg`] and
//! [`PrivateKey::verifying_key_for_alg`] bind a key to one algorithm of that
//! set and fail with [`WrongAlgorithmError`] on every other pairing.

use vstd::prelude::*;
use vstd::slice::{slice_subrange, slice_to_vec};

use crate::asn1;
use crate::asn1::{K256SecretKey, P256SecretKey, P384SecretKey};
use crate::jose::{JsonWebKeyEcCurve, JsonWebKeyType, JsonWebSignatureAlg};

verus! {

/// Error type used when a key could not be loaded.
#[derive(Debug)]
pub enum LoadError {
    /// Failed to read the PEM document
    Pem { inner: pem_rfc7468::Error },
    /// Invalid RSA private key
    Rsa { inner: rsa::errors::Error },
    /// Failed to decode the PKCS#1-encoded RSA key
    Pkcs1 { inner: pkcs1::Error },
    /// Failed to decode or decrypt the PKCS#8-encoded key
    Pkcs8 { inner: pkcs8::Error },
    /// Failed to decode a DER structure
    Der { inner: der::Error },
    /// Failed to read the algorithm parameters
    Spki { inner: spki::Error },
    /// Unknown elliptic curve object identifier (arc bytes)
    UnknownEllipticCurveOid { oid: Vec<u8> },
    /// Unknown algorithm object identifier (arc bytes)
    UnknownAlgorithmOid { oid: Vec<u8> },
    /// Unsupported PEM label (label bytes)
    UnsupportedPemLabel { label: Vec<u8> },
    /// Missing parameters in the SEC1 key
    MissingSec1Parameters,
    /// Missing curve name in the SEC1 parameters
    MissingSec1CurveName,
    /// The key is encrypted and no password was provided
    Encrypted,
    /// The key is not encrypted but a password was provided
    Unencrypted,
    /// None of the supported formats matched
    UnsupportedFormat,
    /// Decoding the decrypted payload failed
    InEncrypted { inner: Box<LoadError> },
}

/// The shape of a [`LoadError`]: which variant it is, with the plain values
/// it carries.  Contracts in [`crate::codec`] are stated over shapes, since
/// the errors of the outside crates are opaque here.
pub enum LoadErrorShape {
    Pem,
    Rsa,
    Pkcs1,
    Pkcs8,
    Der,
    Spki,
    UnknownEllipticCurveOid { oid: Seq<u8> },
    UnknownAlgorithmOid { oid: Seq<u8> },
    UnsupportedPemLabel { label: Seq<u8> },
    MissingSec1Parameters,
    MissingSec1CurveName,
    Encrypted,
    Unencrypted,
    UnsupportedFormat,
    InEncrypted { inner: Box<LoadErrorShape> },
}

impl LoadError {
    /// The shape of this error.
    pub open spec fn shape(self) -> LoadErrorShape
        decreases self,
    {
        match self {
            LoadError::Pem { .. } => LoadErrorShape::Pem,
            LoadError::Rsa { .. } => LoadErrorShape::Rsa,
            LoadError::Pkcs1 { .. } => LoadErrorShape::Pkcs1,
            LoadError::Pkcs8 { .. } => LoadErrorShape::Pkcs8,
            LoadError::Der { .. } => LoadErrorShape::Der,
            LoadError::Spki { .. } => LoadErrorShape::Spki,
            LoadError::UnknownEllipticCurveOid { oid } => LoadErrorShape::UnknownEllipticCurveOid {
                oid: oid@,
            },
            LoadError::UnknownAlgorithmOid { oid } => LoadErrorShape::UnknownAlgorithmOid {
                oid: oid@,
            },
            LoadError::UnsupportedPemLabel { label } => LoadErrorShape::UnsupportedPemLabel {
                label: label@,
            },
            LoadError::MissingSec1Parameters => LoadErrorShape::MissingSec1Parameters,
            LoadError::MissingSec1CurveName => LoadErrorShape::MissingSec1CurveName,
            LoadError::Encrypted => LoadErrorShape::Encrypted,
            LoadError::Unencrypted => LoadErrorShape::Unencrypted,
            LoadError::UnsupportedFormat => LoadErrorShape::UnsupportedFormat,
            LoadError::InEncrypted { inner } => LoadErrorShape::InEncrypted {
                inner: Box::new(inner.shape()),
            },
        }
    }

    /// Returns `true` if the load error is `Encrypted`.
    pub fn is_encrypted(&self) -> (r: bool)
        ensures
            r == (self.shape() == LoadErrorShape::Encrypted),
    {
        matches!(self, LoadError::Encrypted)
    }

    /// Returns `true` if the load error is `Unencrypted`.
    pub fn is_unencrypted(&self) -> (r: bool)
        ensures
            r == (self.shape() == LoadErrorShape::Unencrypted),
    {
        matches!(self, LoadError::Unencrypted)
    }
}

/// The variant of a [`PrivateKey`], without its key material.
#[derive(Clone, Copy, Debug, PartialEq, Eq, Structural)]
pub enum KeyKind {
    Rsa,
    EcP256,
    EcP384,
    EcK256,
}

/// A single private key.
#[derive(Debug)]
#[non_exhaustive]
pub enum PrivateKey {
    Rsa(Box<rsa::RsaPrivateKey>),
    EcP256(P256SecretKey),
    EcP384(P384SecretKey),
    EcK256(K256SecretKey),
}

/// Error returned when the key can't be used for the requested algorithm.
#[derive(Clone, Copy, Debug, PartialEq, Eq, Structural)]
pub struct WrongAlgorithmError;

/// The key type of each key variant.
pub open spec fn spec_kty_of(kind: KeyKind) -> JsonWebKeyType {
    match kind {
        KeyKind::Rsa => JsonWebKeyType::Rsa,
        KeyKind::EcP256 => JsonWebKeyType::Ec,
        KeyKind::EcP384 => JsonWebKeyType::Ec,
        KeyKind::EcK256 => JsonWebKeyType::Ec,
    }
}

/// The fixed list of signature algorithms each key variant may be used with.
pub open spec fn spec_possible_algs_of(kind: KeyKind) -> Seq<JsonWebSignatureAlg> {
    match kind {
        KeyKind::Rsa => seq![
            JsonWebSignatureAlg::Rs256,
            JsonWebSignatureAlg::Rs384,
            JsonWebSignatureAlg::Rs512,
            JsonWebSignatureAlg::Ps256,
            JsonWebSignatureAlg::Ps384,
            JsonWebSignatureAlg::Ps512,
        ],
        KeyKind::EcP256 => seq![JsonWebSignatureAlg::Es256],
        KeyKind::EcP384 => seq![JsonWebSignatureAlg::Es384],
        KeyKind::EcK256 => seq![JsonWebSignatureAlg::Es256K],
    }
}

/// The compatibility table: which (key variant, algorithm) pairs may be
/// bound.  Binding succeeds exactly on these pairs and on no others.
pub open spec fn spec_compatible(kind: KeyKind, alg: JsonWebSignatureAlg) -> bool {
    match kind {
        KeyKind::Rsa => alg == JsonWebSignatureAlg::Rs256 || alg == JsonWebSignatureAlg::Rs384
            || alg == JsonWebSignatureAlg::Rs512 || alg == JsonWebSignatureAlg::Ps256 || alg
            == JsonWebSignatureAlg::Ps384 || alg == JsonWebSignatureAlg::Ps512,
        KeyKind::EcP256 => alg == JsonWebSignatureAlg::Es256,
        KeyKind::EcP384 => alg == JsonWebSignatureAlg::Es384,
        KeyKind::EcK256 => alg == JsonWebSignatureAlg::Es256K,
    }
}

/// The compatibility table is exactly membership in the possible-algorithms
/// list: a pairing may be bound if and only if the algorithm is one the key
/// variant declares possible.
pub proof fn lemma_compatible_is_possible(kind: KeyKind, alg: JsonWebSignatureAlg)
    ensures
        spec_compatible(kind, alg) <==> spec_possible_algs_of(kind).contains(alg),
{
    let algs = spec_possible_algs_of(kind);
    if spec_compatible(kind, alg) {
        match kind {
            KeyKind::Rsa => {
                assert(algs[0] == JsonWebSignatureAlg::Rs256);
                assert(algs[1] == JsonWebSignatureAlg::Rs384);
                assert(algs[2] == JsonWebSignatureAlg::Rs512);
                assert(algs[3] == JsonWebSignatureAlg::Ps256);
                assert(algs[4] == JsonWebSignatureAlg::Ps384);
                assert(algs[5] == JsonWebSignatureAlg::Ps512);
            },
            KeyKind::EcP256 => {
                assert(algs[0] == JsonWebSignatureAlg::Es256);
            },
            KeyKind::EcP384 => {
                assert(algs[0] == JsonWebSignatureAlg::Es384);
            },
            KeyKind::EcK256 => {
                assert(algs[0] == JsonWebSignatureAlg::Es256K);
            },
        }
    }
    if algs.contains(alg) {
        let i = choose|i: int| 0 <= i < algs.len() && algs[i] == alg;
        assert(spec_compatible(kind, alg));
    }
}

impl PrivateKey {
    /// The variant of this key.
    pub open spec fn kind(self) -> KeyKind {
        match self {
            PrivateKey::Rsa(_) => KeyKind::Rsa,
            PrivateKey::EcP256(_) => KeyKind::EcP256,
            PrivateKey::EcP384(_) => KeyKind::EcP384,
            PrivateKey::EcK256(_) => KeyKind::EcK256,
        }
    }

    /// The key type (`kty`) of this key.
    pub fn kty(&self) -> (r: JsonWebKeyType)
        ensures
            r == spec_kty_of(self.kind()),
    {
        match self {
            PrivateKey::Rsa(_) => JsonWebKeyType::Rsa,
            PrivateKey::EcP256(_) | PrivateKey::EcP384(_) | PrivateKey::EcK256(_) => {
                JsonWebKeyType::Ec
            },
        }
    }

    /// The list of signature algorithms this key may be used with.
    pub fn possible_algs(&self) -> (r: Vec<JsonWebSignatureAlg>)
        ensures
            r@ == spec_possible_algs_of(self.kind()),
    {
        match self {
            PrivateKey::Rsa(_) => {
                let algs = vec![
                    JsonWebSignatureAlg::Rs256,
                    JsonWebSignatureAlg::Rs384,
                    JsonWebSignatureAlg::Rs512,
                    JsonWebSignatureAlg::Ps256,
                    JsonWebSignatureAlg::Ps384,
                    JsonWebSignatureAlg::Ps512,
                ];
                proof {
                    assert(algs@ =~= spec_possible_algs_of(self.kind()));
                }
                algs
            },
            PrivateKey::EcP256(_) => {
                let algs = vec![JsonWebSignatureAlg::Es256];
                proof {
                    assert(algs@ =~= spec_possible_algs_of(self.kind()));
                }
                algs
            },
            PrivateKey::EcP384(_) => {
                let algs = vec![JsonWebSignatureAlg::Es384];
                proof {
                    assert(algs@ =~= spec_possible_algs_of(self.kind()));
                }
                algs
            },
            PrivateKey::EcK256(_) => {
                let algs = vec![JsonWebSignatureAlg::Es256K];
                proof {
                    assert(algs@ =~= spec_possible_algs_of(self.kind()));
                }
                algs
            },
        }
    }
}

/// The public parameters of a key, as published in a JSON Web Key: the
/// modulus and exponent of an RSA key, or the curve and point coordinates of
/// an elliptic-curve key.
#[derive(Clone, Debug)]
pub enum JsonWebKeyPublicParameters {
    Rsa { n: Vec<u8>, e: Vec<u8> },
    Ec { crv: JsonWebKeyEcCurve, x: Vec<u8>, y: Vec<u8> },
}

impl JsonWebKeyPublicParameters {
    /// The key type these parameters belong to.
    pub open spec fn spec_kty(self) -> JsonWebKeyType {
        match self {
            JsonWebKeyPublicParameters::Rsa { .. } => JsonWebKeyType::Rsa,
            JsonWebKeyPublicParameters::Ec { .. } => JsonWebKeyType::Ec,
        }
    }

    /// Whether these are the public parameters of a key of the given variant:
    /// the families match, and for an elliptic-curve key the named curve and
    /// the coordinate widths are those of the variant's curve.
    pub open spec fn matches_kind(self, kind: KeyKind) -> bool {
        match self {
            JsonWebKeyPublicParameters::Rsa { .. } => kind == KeyKind::Rsa,
            JsonWebKeyPublicParameters::Ec { crv, x, y } => match kind {
                KeyKind::Rsa => false,
                KeyKind::EcP256 => crv == JsonWebKeyEcCurve::P256 && x@.len() == 32 && y@.len()
                    == 32,
                KeyKind::EcP384 => crv == JsonWebKeyEcCurve::P384 && x@.len() == 48 && y@.len()
                    == 48,
                KeyKind::EcK256 => crv == JsonWebKeyEcCurve::Secp256K1 && x@.len() == 32
                    && y@.len() == 32,
            },
        }
    }
}

/// A private key bound to one signature algorithm, ready to sign.
pub struct AsymmetricSigningKey {
    alg: JsonWebSignatureAlg,
    key: PrivateKey,
}

impl AsymmetricSigningKey {
    /// The algorithm this handle is bound to.
    pub closed spec fn spec_alg(self) -> JsonWebSignatureAlg {
        self.alg
    }

    /// The variant of the key behind this handle.
    pub closed spec fn spec_kind(self) -> KeyKind {
        self.key.kind()
    }

    /// The algorithm this handle is bound to.
    pub fn alg(&self) -> (r: JsonWebSignatureAlg)
        ensures
            r == self.spec_alg(),
    {
        self.alg
    }

    /// The key behind this handle.
    pub fn key(&self) -> (r: &PrivateKey)
        ensures
            r.kind() == self.spec_kind(),
    {
        &self.key
    }
}

/// A public key bound to one signature algorithm, ready to verify.
pub struct AsymmetricVerifyingKey {
    alg: JsonWebSignatureAlg,
    params: JsonWebKeyPublicParameters,
}

impl AsymmetricVerifyingKey {
    /// The algorithm this handle is bound to.
    pub closed spec fn spec_alg(self) -> JsonWebSignatureAlg {
        self.alg
    }

    /// The public parameters behind this handle.
    pub closed spec fn spec_params(self) -> JsonWebKeyPublicParameters {
        self.params
    }

    /// The algorithm this handle is bound to.
    pub fn alg(&self) -> (r: JsonWebSignatureAlg)
        ensures
            r == self.spec_alg(),
    {
        self.alg
    }

    /// The public parameters behind this handle.
    pub fn params(&self) -> (r: &JsonWebKeyPublicParameters)
        ensures
            *r == self.spec_params(),
    {
        &self.params
    }
}

impl PrivateKey {
    /// The public parameters of this key: modulus and exponent for RSA, curve
    /// and uncompressed point coordinates for an elliptic-curve key.
    pub fn public_params(&self) -> (r: JsonWebKeyPublicParameters)
        ensures
            r.matches_kind(self.kind()),
    {
        match self {
            PrivateKey::Rsa(key) => JsonWebKeyPublicParameters::Rsa {
                n: asn1::rsa_public_n_be(key),
                e: asn1::rsa_public_e_be(key),
            },
            PrivateKey::EcP256(key) => {
                let point = asn1::p256_public_point(key);
                JsonWebKeyPublicParameters::Ec {
                    crv: JsonWebKeyEcCurve::P256,
                    x: slice_to_vec(slice_subrange(point.as_slice(), 1, 33)),
                    y: slice_to_vec(slice_subrange(point.as_slice(), 33, 65)),
                }
            },
            PrivateKey::EcP384(key) => {
                let point = asn1::p384_public_point(key);
                JsonWebKeyPublicParameters::Ec {
                    crv: JsonWebKeyEcCurve::P384,
                    x: slice_to_vec(slice_subrange(point.as_slice(), 1, 49)),
                    y: slice_to_vec(slice_subrange(point.as_slice(), 49, 97)),
                }
            },
            PrivateKey::EcK256(key) => {
                let point = asn1::k256_public_point(key);
                JsonWebKeyPublicParameters::Ec {
                    crv: JsonWebKeyEcCurve::Secp256K1,
                    x: slice_to_vec(slice_subrange(point.as_slice(), 1, 33)),
                    y: slice_to_vec(slice_subrange(point.as_slice(), 33, 65)),
                }
            },
        }
    }

    /// Get an [`AsymmetricVerifyingKey`] out of this key, for the specified
    /// algorithm.
    ///
    /// Succeeds exactly on the pairings of the compatibility table
    /// ([`spec_compatible`]); every other pairing is a [`WrongAlgorithmError`].
    pub fn verifying_key_for_alg(&self, alg: &JsonWebSignatureAlg) -> (r: Result<
        AsymmetricVerifyingKey,
        WrongAlgorithmError,
    >)
        ensures
            r is Ok <==> spec_compatible(self.kind(), *alg),
            r matches Ok(h) ==> h.spec_alg() == *alg && h.spec_params().matches_kind(self.kind()),
    {
        if self.supports_alg(alg) {
            Ok(AsymmetricVerifyingKey { alg: *alg, params: self.public_params() })
        } else {
            Err(WrongAlgorithmError)
        }
    }

    /// Get an [`AsymmetricSigningKey`] out of this key, for the specified
    /// algorithm.
    ///
    /// Succeeds exactly on the pairings of the compatibility table
    /// ([`spec_compatible`]); every other pairing is a [`WrongAlgorithmError`].
    pub fn signing_key_for_alg(&self, alg: &JsonWebSignatureAlg) -> (r: Result<
        AsymmetricSigningKey,
        WrongAlgorithmError,
    >)
        ensures
            r is Ok <==> spec_compatible(self.kind(), *alg),
            r matches Ok(h) ==> h.spec_alg() == *alg && h.spec_kind() == self.kind(),
    {
        if self.supports_alg(alg) {
            let key = match self {
                PrivateKey::Rsa(key) => PrivateKey::Rsa(asn1::rsa_clone(key)),
                PrivateKey::EcP256(key) => PrivateKey::EcP256(asn1::p256_clone(key)),
                PrivateKey::EcP384(key) => PrivateKey::EcP384(asn1::p384_clone(key)),
                PrivateKey::EcK256(key) => PrivateKey::EcK256(asn1::k256_clone(key)),
            };
            Ok(AsymmetricSigningKey { alg: *alg, key })
        } else {
            Err(WrongAlgorithmError)
        }
    }

    /// Whether this key may be bound to the given algorithm.
    fn supports_alg(&self, alg: &JsonWebSignatureAlg) -> (r: bool)
        ensures
            r == spec_compatible(self.kind(), *alg),
    {
        match self {
            PrivateKey::Rsa(_) => match alg {
                JsonWebSignatureAlg::Rs256 | JsonWebSignatureAlg::Rs384
                    | JsonWebSignatureAlg::Rs512 | JsonWebSignatureAlg::Ps256
                    | JsonWebSignatureAlg::Ps384 | JsonWebSignatureAlg::Ps512 => true,
                _ => false,
            },
            PrivateKey::EcP256(_) => matches!(alg, JsonWebSignatureAlg::Es256),
            PrivateKey::EcP384(_) => matches!(alg, JsonWebSignatureAlg::Es384),
            PrivateKey::EcK256(_) => matches!(alg, JsonWebSignatureAlg::Es256K),
        }
    }

    /// Generate an RSA key with a 2048-bit modulus from the supplied random
    /// source.
    pub fn generate_rsa<R: rand::RngCore + rand::CryptoRng>(mut rng: R) -> (r: Result<
        Self,
        rsa::errors::Error,
    >)
        ensures
            r matches Ok(k) ==> k.kind() == KeyKind::Rsa,
    {
        match asn1::rsa_generate(&mut rng, 2048) {
            Ok(key) => Ok(PrivateKey::Rsa(key)),
            Err(e) => Err(e),
        }
    }

    /// Generate an elliptic-curve key for the P-256 curve from the supplied
    /// random source.
    pub fn generate_ec_p256<R: rand::RngCore + rand::CryptoRng>(mut rng: R) -> (r: Self)
        ensures
            r.kind() == KeyKind::EcP256,
    {
        PrivateKey::EcP256(asn1::p256_generate(&mut rng))
    }

    /// Generate an elliptic-curve key for the P-384 curve from the supplied
    /// random source.
    pub fn generate_ec_p384<R: rand::RngCore + rand::CryptoRng>(mut rng: R) -> (r: Self)
        ensures
            r.kind() == KeyKind::EcP384,
    {
        PrivateKey::EcP384(asn1::p384_generate(&mut rng))
    }

    /// Generate an elliptic-curve key for the secp256k1 curve from the
    /// supplied random source.
    pub fn generate_ec_k256<R: rand::RngCore + rand::CryptoRng>(mut rng: R) -> (r: Self)
        ensures
            r.kind() == KeyKind::EcK256,
    {
        PrivateKey::EcK256(asn1::k256_generate(&mut rng))
    }
}

} // verus!
