//! The key codec: loading private keys from PEM or DER documents and
//! serializing them back.
//!
//! The decoding policy, stated exactly by the contracts below:
//!
//! - [`PrivateKey::load`]: valid UTF-8 input is first tried as PEM; a
//!   malformed PEM document falls through to DER decoding of the raw bytes,
//!   while any other PEM-path error is returned as is.
//! - DER decoding tries, strictly in this order: an encrypted PKCS#8
//!   container (rejected with `Encrypted`), plain PKCS#8, SEC1, PKCS#1; if
//!   none parse the result is `UnsupportedFormat`.
//! - PEM decoding dispatches on the document label.
//! - [`PrivateKey::load_encrypted`] accepts only encrypted PKCS#8 containers,
//!   decrypts with the supplied password and re-runs the plain DER loader on
//!   the plaintext, wrapping any error of that stage in `InEncrypted`; a
//!   plain document is rejected with `Unencrypted`.
//!
//! The outcome of each outside parser on given bytes is an uninterpreted
//! name declared in [`crate::asn1`]; the spec functions here combine those
//! names into the exact result shape each loader must produce.

use vstd::prelude::*;
use vstd::string::StringSliceAdditionalSpecFns;

use crate::asn1;
use crate::asn1::{
    contains_subseq, enc_pkcs8_decrypted, parses_enc_pkcs8, pem_decoding, pkcs1_as_rsa,
    pkcs1_parsed, pkcs8_as_k256, pkcs8_as_p256, pkcs8_as_p384, pkcs8_as_rsa, pkcs8_parsed,
    sec1_as_k256, sec1_as_p256, sec1_as_p384, sec1_parsed, secret_bytes_view, spec_ec_oid,
    spec_k256_oid, spec_oid_tlv, spec_p256_oid, spec_p384_oid, spec_rsa_oid, SecretBytes,
    SecretString,
};
use crate::keys::{KeyKind, LoadError, LoadErrorShape, PrivateKey};

verus! {

// ---------------------------------------------------------------------------
// PEM type labels (RFC 7468), as byte strings.
// ---------------------------------------------------------------------------
/// The PEM label of a PKCS#1 RSA private key, `RSA PRIVATE KEY`.
pub open spec fn spec_pkcs1_label() -> Seq<u8> {
    seq![82u8, 83u8, 65u8, 32u8, 80u8, 82u8, 73u8, 86u8, 65u8, 84u8, 69u8, 32u8, 75u8, 69u8, 89u8]
}

/// The PEM label of a plain PKCS#8 key, `PRIVATE KEY`.
pub open spec fn spec_pkcs8_label() -> Seq<u8> {
    seq![80u8, 82u8, 73u8, 86u8, 65u8, 84u8, 69u8, 32u8, 75u8, 69u8, 89u8]
}

/// The PEM label of a SEC1 EC private key, `EC PRIVATE KEY`.
pub open spec fn spec_sec1_label() -> Seq<u8> {
    seq![69u8, 67u8, 32u8, 80u8, 82u8, 73u8, 86u8, 65u8, 84u8, 69u8, 32u8, 75u8, 69u8, 89u8]
}

/// The PEM label of an encrypted PKCS#8 key, `ENCRYPTED PRIVATE KEY`.
pub open spec fn spec_enc_pkcs8_label() -> Seq<u8> {
    seq![
        69u8, 78u8, 67u8, 82u8, 89u8, 80u8, 84u8, 69u8, 68u8, 32u8, 80u8, 82u8, 73u8, 86u8, 65u8,
        84u8, 69u8, 32u8, 75u8, 69u8, 89u8,
    ]
}

// ---------------------------------------------------------------------------
// The decoding policy over the parser names: the exact result shape of each
// loader as a function of the input bytes.
// ---------------------------------------------------------------------------
/// The shape of a loader result: the variant of the loaded key, or the shape
/// of the error.
pub open spec fn load_shape(r: Result<PrivateKey, LoadError>) -> Result<KeyKind, LoadErrorShape> {
    match r {
        Ok(key) => Ok(key.kind()),
        Err(e) => Err(e.shape()),
    }
}

/// What decoding a plain PKCS#8 `PrivateKeyInfo` yields, by its algorithm
/// object identifier: an RSA key, an EC key on one of the three supported
/// curves, or the error naming the unknown identifier.
pub open spec fn spec_from_pkcs8(der: Seq<u8>) -> Result<KeyKind, LoadErrorShape>
    recommends
        pkcs8_parsed(der) is Some,
{
    match pkcs8_parsed(der) {
        Some((alg_oid, params)) => if alg_oid == spec_rsa_oid() {
            if pkcs8_as_rsa(der) {
                Ok(KeyKind::Rsa)
            } else {
                Err(LoadErrorShape::Pkcs8)
            }
        } else if alg_oid == spec_ec_oid() {
            match params {
                None => Err(LoadErrorShape::Spki),
                Some(curve) => if curve == spec_p256_oid() {
                    if pkcs8_as_p256(der) {
                        Ok(KeyKind::EcP256)
                    } else {
                        Err(LoadErrorShape::Pkcs8)
                    }
                } else if curve == spec_p384_oid() {
                    if pkcs8_as_p384(der) {
                        Ok(KeyKind::EcP384)
                    } else {
                        Err(LoadErrorShape::Pkcs8)
                    }
                } else if curve == spec_k256_oid() {
                    if pkcs8_as_k256(der) {
                        Ok(KeyKind::EcK256)
                    } else {
                        Err(LoadErrorShape::Pkcs8)
                    }
                } else {
                    Err(LoadErrorShape::UnknownEllipticCurveOid { oid: curve })
                },
            }
        } else {
            Err(LoadErrorShape::UnknownAlgorithmOid { oid: alg_oid })
        },
        None => arbitrary(),
    }
}

/// What decoding a SEC1 `EcPrivateKey` yields: the named-curve parameters
/// must be present and name one of the three supported curves; missing
/// parameters and a missing curve name are distinct errors.
pub open spec fn spec_from_sec1(der: Seq<u8>) -> Result<KeyKind, LoadErrorShape>
    recommends
        sec1_parsed(der) is Some,
{
    match sec1_parsed(der) {
        Some((params_present, curve_oid)) => if !params_present {
            Err(LoadErrorShape::MissingSec1Parameters)
        } else {
            match curve_oid {
                None => Err(LoadErrorShape::MissingSec1CurveName),
                Some(curve) => if curve == spec_p256_oid() {
                    if sec1_as_p256(der) {
                        Ok(KeyKind::EcP256)
                    } else {
                        Err(LoadErrorShape::Der)
                    }
                } else if curve == spec_p384_oid() {
                    if sec1_as_p384(der) {
                        Ok(KeyKind::EcP384)
                    } else {
                        Err(LoadErrorShape::Der)
                    }
                } else if curve == spec_k256_oid() {
                    if sec1_as_k256(der) {
                        Ok(KeyKind::EcK256)
                    } else {
                        Err(LoadErrorShape::Der)
                    }
                } else {
                    Err(LoadErrorShape::UnknownEllipticCurveOid { oid: curve })
                },
            }
        },
        None => arbitrary(),
    }
}

/// What decoding a PKCS#1 `RsaPrivateKey` yields: multi-prime keys are
/// rejected as a version error, two-prime keys become RSA keys when their
/// integers form a valid key.
pub open spec fn spec_from_pkcs1(der: Seq<u8>) -> Result<KeyKind, LoadErrorShape>
    recommends
        pkcs1_parsed(der) is Some,
{
    if pkcs1_parsed(der) == Some(true) {
        if pkcs1_as_rsa(der) {
            Ok(KeyKind::Rsa)
        } else {
            Err(LoadErrorShape::Rsa)
        }
    } else {
        Err(LoadErrorShape::Pkcs1)
    }
}

/// The DER decoding policy: encrypted PKCS#8 is rejected first, then plain
/// PKCS#8, SEC1 and PKCS#1 are tried strictly in this order, and the first
/// format that parses decides the result.
pub open spec fn spec_load_der(der: Seq<u8>) -> Result<KeyKind, LoadErrorShape> {
    if parses_enc_pkcs8(der) {
        Err(LoadErrorShape::Encrypted)
    } else if pkcs8_parsed(der) is Some {
        spec_from_pkcs8(der)
    } else if sec1_parsed(der) is Some {
        spec_from_sec1(der)
    } else if pkcs1_parsed(der) is Some {
        spec_from_pkcs1(der)
    } else {
        Err(LoadErrorShape::UnsupportedFormat)
    }
}

/// The PEM decoding policy: decode the single PEM document, then dispatch on
/// its label; an encrypted PKCS#8 label is rejected with `Encrypted`, an
/// unknown label with `UnsupportedPemLabel`.
pub open spec fn spec_load_pem(doc: Seq<u8>) -> Result<KeyKind, LoadErrorShape> {
    match pem_decoding(doc) {
        None => Err(LoadErrorShape::Pem),
        Some((label, body)) => if label == spec_pkcs1_label() {
            if pkcs1_parsed(body) is Some {
                spec_from_pkcs1(body)
            } else {
                Err(LoadErrorShape::Der)
            }
        } else if label == spec_pkcs8_label() {
            if pkcs8_parsed(body) is Some {
                spec_from_pkcs8(body)
            } else {
                Err(LoadErrorShape::Der)
            }
        } else if label == spec_sec1_label() {
            if sec1_parsed(body) is Some {
                spec_from_sec1(body)
            } else {
                Err(LoadErrorShape::Der)
            }
        } else if label == spec_enc_pkcs8_label() {
            Err(LoadErrorShape::Encrypted)
        } else {
            Err(LoadErrorShape::UnsupportedPemLabel { label })
        },
    }
}

/// The format precedence of [`PrivateKey::load`]: valid UTF-8 input is tried
/// as PEM first, and only a malformed PEM document falls through to DER
/// decoding; any other PEM-path error is returned unmasked.
pub open spec fn spec_load(bytes: Seq<u8>) -> Result<KeyKind, LoadErrorShape> {
    if vstd::utf8::valid_utf8(bytes) {
        match spec_load_pem(bytes) {
            Err(LoadErrorShape::Pem) => spec_load_der(bytes),
            r => r,
        }
    } else {
        spec_load_der(bytes)
    }
}

/// The encrypted DER decoding policy: an encrypted PKCS#8 container is
/// decrypted and its plaintext re-run through the plain DER loader, errors of
/// that stage wrapped in `InEncrypted`; a plain PKCS#8, SEC1 or PKCS#1
/// document is rejected with `Unencrypted`.
pub open spec fn spec_load_encrypted_der(der: Seq<u8>, password: Seq<u8>) -> Result<
    KeyKind,
    LoadErrorShape,
> {
    if parses_enc_pkcs8(der) {
        match enc_pkcs8_decrypted(der, password) {
            None => Err(LoadErrorShape::Pkcs8),
            Some(plain) => match spec_load_der(plain) {
                Ok(kind) => Ok(kind),
                Err(e) => Err(LoadErrorShape::InEncrypted { inner: Box::new(e) }),
            },
        }
    } else if pkcs8_parsed(der) is Some || sec1_parsed(der) is Some || pkcs1_parsed(der) is Some {
        Err(LoadErrorShape::Unencrypted)
    } else {
        Err(LoadErrorShape::UnsupportedFormat)
    }
}

/// The encrypted PEM decoding policy: only the encrypted PKCS#8 label is
/// accepted; a recognized plain label is rejected with `Unencrypted`.
pub open spec fn spec_load_encrypted_pem(doc: Seq<u8>, password: Seq<u8>) -> Result<
    KeyKind,
    LoadErrorShape,
> {
    match pem_decoding(doc) {
        None => Err(LoadErrorShape::Pem),
        Some((label, body)) => if label == spec_enc_pkcs8_label() {
            if !parses_enc_pkcs8(body) {
                Err(LoadErrorShape::Der)
            } else {
                match enc_pkcs8_decrypted(body, password) {
                    None => Err(LoadErrorShape::Pkcs8),
                    Some(plain) => match spec_load_der(plain) {
                        Ok(kind) => Ok(kind),
                        Err(e) => Err(LoadErrorShape::InEncrypted { inner: Box::new(e) }),
                    },
                }
            }
        } else if label == spec_pkcs1_label() || label == spec_pkcs8_label() || label
            == spec_sec1_label() {
            Err(LoadErrorShape::Unencrypted)
        } else {
            Err(LoadErrorShape::UnsupportedPemLabel { label })
        },
    }
}

/// The format precedence of [`PrivateKey::load_encrypted`], mirroring
/// [`spec_load`].
pub open spec fn spec_load_encrypted(bytes: Seq<u8>, password: Seq<u8>) -> Result<
    KeyKind,
    LoadErrorShape,
> {
    if vstd::utf8::valid_utf8(bytes) {
        match spec_load_encrypted_pem(bytes, password) {
            Err(LoadErrorShape::Pem) => spec_load_encrypted_der(bytes, password),
            r => r,
        }
    } else {
        spec_load_encrypted_der(bytes, password)
    }
}

// ---------------------------------------------------------------------------
// Small verified helpers.
// ---------------------------------------------------------------------------
/// Byte-slice equality.
fn bytes_eq(a: &[u8], b: &[u8]) -> (r: bool)
    ensures
        r == (a@ == b@),
{
    if a.len() != b.len() {
        proof {
            assert(a@.len() != b@.len());
        }
        return false;
    }
    let mut i: usize = 0;
    while i < a.len()
        invariant
            0 <= i <= a@.len(),
            a@.len() == b@.len(),
            forall|j: int| 0 <= j < i ==> a@[j] == b@[j],
        decreases a@.len() - i,
    {
        if a[i] != b[i] {
            return false;
        }
        i = i + 1;
    }
    proof {
        assert(a@ =~= b@);
    }
    true
}

/// The arc bytes of the `rsaEncryption` object identifier.
fn rsa_oid() -> (r: Vec<u8>)
    ensures
        r@ == spec_rsa_oid(),
{
    let v = vec![0x2au8, 0x86u8, 0x48u8, 0x86u8, 0xf7u8, 0x0du8, 0x01u8, 0x01u8, 0x01u8];
    proof {
        assert(v@ =~= spec_rsa_oid());
    }
    v
}

/// The arc bytes of the `id-ecPublicKey` object identifier.
fn ec_oid() -> (r: Vec<u8>)
    ensures
        r@ == spec_ec_oid(),
{
    let v = vec![0x2au8, 0x86u8, 0x48u8, 0xceu8, 0x3du8, 0x02u8, 0x01u8];
    proof {
        assert(v@ =~= spec_ec_oid());
    }
    v
}

/// The arc bytes of the P-256 curve object identifier.
fn p256_oid() -> (r: Vec<u8>)
    ensures
        r@ == spec_p256_oid(),
{
    let v = vec![0x2au8, 0x86u8, 0x48u8, 0xceu8, 0x3du8, 0x03u8, 0x01u8, 0x07u8];
    proof {
        assert(v@ =~= spec_p256_oid());
    }
    v
}

/// The arc bytes of the P-384 curve object identifier.
fn p384_oid() -> (r: Vec<u8>)
    ensures
        r@ == spec_p384_oid(),
{
    let v = vec![0x2bu8, 0x81u8, 0x04u8, 0x00u8, 0x22u8];
    proof {
        assert(v@ =~= spec_p384_oid());
    }
    v
}

/// The arc bytes of the secp256k1 curve object identifier.
fn k256_oid() -> (r: Vec<u8>)
    ensures
        r@ == spec_k256_oid(),
{
    let v = vec![0x2bu8, 0x81u8, 0x04u8, 0x00u8, 0x0au8];
    proof {
        assert(v@ =~= spec_k256_oid());
    }
    v
}

/// The `RSA PRIVATE KEY` PEM label.
fn pkcs1_label() -> (r: Vec<u8>)
    ensures
        r@ == spec_pkcs1_label(),
{
    let v = vec![
        82u8, 83u8, 65u8, 32u8, 80u8, 82u8, 73u8, 86u8, 65u8, 84u8, 69u8, 32u8, 75u8, 69u8, 89u8,
    ];
    proof {
        assert(v@ =~= spec_pkcs1_label());
    }
    v
}

/// The `PRIVATE KEY` PEM label.
fn pkcs8_label() -> (r: Vec<u8>)
    ensures
        r@ == spec_pkcs8_label(),
{
    let v = vec![80u8, 82u8, 73u8, 86u8, 65u8, 84u8, 69u8, 32u8, 75u8, 69u8, 89u8];
    proof {
        assert(v@ =~= spec_pkcs8_label());
    }
    v
}

/// The `EC PRIVATE KEY` PEM label.
fn sec1_label() -> (r: Vec<u8>)
    ensures
        r@ == spec_sec1_label(),
{
    let v = vec![
        69u8, 67u8, 32u8, 80u8, 82u8, 73u8, 86u8, 65u8, 84u8, 69u8, 32u8, 75u8, 69u8, 89u8,
    ];
    proof {
        assert(v@ =~= spec_sec1_label());
    }
    v
}

/// The `ENCRYPTED PRIVATE KEY` PEM label.
fn enc_pkcs8_label() -> (r: Vec<u8>)
    ensures
        r@ == spec_enc_pkcs8_label(),
{
    let v = vec![
        69u8, 78u8, 67u8, 82u8, 89u8, 80u8, 84u8, 69u8, 68u8, 32u8, 80u8, 82u8, 73u8, 86u8, 65u8,
        84u8, 69u8, 32u8, 75u8, 69u8, 89u8,
    ];
    proof {
        assert(v@ =~= spec_enc_pkcs8_label());
    }
    v
}

// ---------------------------------------------------------------------------
// The verified loaders.
// ---------------------------------------------------------------------------
impl PrivateKey {
    /// Decode the PKCS#8 `PrivateKeyInfo` whose probe results are given,
    /// dispatching on the algorithm object identifier.
    fn from_private_key_info(der: &[u8], alg_oid: Vec<u8>, params: Result<Vec<u8>, spki::Error>)
        -> (r: Result<Self, LoadError>)
        requires
            pkcs8_parsed(der@) matches Some(q) && q.0 == alg_oid@ && (params is Ok <==> q.1
                is Some) && (params matches Ok(v) ==> q.1 == Some(v@)),
        ensures
            load_shape(r) == spec_from_pkcs8(der@),
    {
        if bytes_eq(alg_oid.as_slice(), rsa_oid().as_slice()) {
            match asn1::pkcs8_to_rsa(der) {
                Ok(key) => Ok(PrivateKey::Rsa(key)),
                Err(e) => Err(LoadError::Pkcs8 { inner: e }),
            }
        } else if bytes_eq(alg_oid.as_slice(), ec_oid().as_slice()) {
            match params {
                Err(e) => Err(LoadError::Spki { inner: e }),
                Ok(curve) => {
                    if bytes_eq(curve.as_slice(), p256_oid().as_slice()) {
                        match asn1::pkcs8_to_p256(der) {
                            Ok(key) => Ok(PrivateKey::EcP256(key)),
                            Err(e) => Err(LoadError::Pkcs8 { inner: e }),
                        }
                    } else if bytes_eq(curve.as_slice(), p384_oid().as_slice()) {
                        match asn1::pkcs8_to_p384(der) {
                            Ok(key) => Ok(PrivateKey::EcP384(key)),
                            Err(e) => Err(LoadError::Pkcs8 { inner: e }),
                        }
                    } else if bytes_eq(curve.as_slice(), k256_oid().as_slice()) {
                        match asn1::pkcs8_to_k256(der) {
                            Ok(key) => Ok(PrivateKey::EcK256(key)),
                            Err(e) => Err(LoadError::Pkcs8 { inner: e }),
                        }
                    } else {
                        Err(LoadError::UnknownEllipticCurveOid { oid: curve })
                    }
                },
            }
        } else {
            Err(LoadError::UnknownAlgorithmOid { oid: alg_oid })
        }
    }

    /// Decode the SEC1 `EcPrivateKey` whose probe results are given: the
    /// named-curve parameters must be present and name a supported curve.
    fn from_ec_private_key(der: &[u8], params_present: bool, curve_oid: Option<Vec<u8>>) -> (r:
        Result<Self, LoadError>)
        requires
            sec1_parsed(der@) matches Some(q) && q.0 == params_present && (curve_oid is Some <==> q.1 is Some) && (curve_oid matches Some(c) ==> q.1 == Some(c@)),
        ensures
            load_shape(r) == spec_from_sec1(der@),
    {
        if !params_present {
            return Err(LoadError::MissingSec1Parameters);
        }
        let curve = match curve_oid {
            None => {
                return Err(LoadError::MissingSec1CurveName);
            },
            Some(curve) => curve,
        };
        if bytes_eq(curve.as_slice(), p256_oid().as_slice()) {
            match asn1::sec1_to_p256(der) {
                Ok(key) => Ok(PrivateKey::EcP256(key)),
                Err(e) => Err(LoadError::Der { inner: e }),
            }
        } else if bytes_eq(curve.as_slice(), p384_oid().as_slice()) {
            match asn1::sec1_to_p384(der) {
                Ok(key) => Ok(PrivateKey::EcP384(key)),
                Err(e) => Err(LoadError::Der { inner: e }),
            }
        } else if bytes_eq(curve.as_slice(), k256_oid().as_slice()) {
            match asn1::sec1_to_k256(der) {
                Ok(key) => Ok(PrivateKey::EcK256(key)),
                Err(e) => Err(LoadError::Der { inner: e }),
            }
        } else {
            Err(LoadError::UnknownEllipticCurveOid { oid: curve })
        }
    }

    /// Decode the PKCS#1 `RsaPrivateKey` whose probe result is given,
    /// rejecting multi-prime keys as a version error.
    fn from_pkcs1_private_key(der: &[u8], two_prime: bool) -> (r: Result<Self, LoadError>)
        requires
            pkcs1_parsed(der@) == Some(two_prime),
        ensures
            load_shape(r) == spec_from_pkcs1(der@),
    {
        if !two_prime {
            // Multi-prime RSA keys are not supported
            return Err(LoadError::Pkcs1 { inner: asn1::pkcs1_version_error() });
        }
        match asn1::pkcs1_to_rsa(der) {
            Ok(key) => Ok(PrivateKey::Rsa(key)),
            Err(e) => Err(LoadError::Rsa { inner: e }),
        }
    }

    /// Load an unencrypted key from DER-encoded bytes.
    ///
    /// The known DER formats are tried in a fixed order: an encrypted PKCS#8
    /// container fails fast with `Encrypted`, then plain PKCS#8, SEC1 and
    /// PKCS#1 are tried and the first that parses decides the outcome
    /// ([`spec_load_der`]).
    pub fn load_der(der: &[u8]) -> (r: Result<Self, LoadError>)
        ensures
            load_shape(r) == spec_load_der(der@),
    {
        if asn1::enc_pkcs8_check(der).is_ok() {
            return Err(LoadError::Encrypted);
        }
        match asn1::pkcs8_probe(der) {
            Ok((alg_oid, params)) => {
                return Self::from_private_key_info(der, alg_oid, params);
            },
            Err(_) => {},
        }
        match asn1::sec1_probe(der) {
            Ok((params_present, curve_oid)) => {
                return Self::from_ec_private_key(der, params_present, curve_oid);
            },
            Err(_) => {},
        }
        match asn1::pkcs1_probe(der) {
            Ok(two_prime) => {
                return Self::from_pkcs1_private_key(der, two_prime);
            },
            Err(_) => {},
        }
        Err(LoadError::UnsupportedFormat)
    }
}

impl PrivateKey {
    /// Load an unencrypted key from a PEM-encoded string.
    ///
    /// The single PEM document is decoded and its label dispatched on: the
    /// PKCS#1, plain PKCS#8 and SEC1 labels are parsed, the encrypted PKCS#8
    /// label is rejected with `Encrypted`, and any other label with
    /// `UnsupportedPemLabel` ([`spec_load_pem`]).
    pub fn load_pem(pem: &str) -> (r: Result<Self, LoadError>)
        ensures
            load_shape(r) == spec_load_pem(pem.spec_bytes()),
    {
        let (label, doc) = match asn1::pem_decode(pem) {
            Ok(p) => p,
            Err(e) => {
                return Err(LoadError::Pem { inner: e });
            },
        };
        if bytes_eq(label.as_slice(), pkcs1_label().as_slice()) {
            match asn1::pkcs1_probe(doc.as_slice()) {
                Ok(two_prime) => Self::from_pkcs1_private_key(doc.as_slice(), two_prime),
                Err(e) => Err(LoadError::Der { inner: e }),
            }
        } else if bytes_eq(label.as_slice(), pkcs8_label().as_slice()) {
            match asn1::pkcs8_probe(doc.as_slice()) {
                Ok((alg_oid, params)) => Self::from_private_key_info(doc.as_slice(), alg_oid, params),
                Err(e) => Err(LoadError::Der { inner: e }),
            }
        } else if bytes_eq(label.as_slice(), sec1_label().as_slice()) {
            match asn1::sec1_probe(doc.as_slice()) {
                Ok((params_present, curve_oid)) => Self::from_ec_private_key(
                    doc.as_slice(),
                    params_present,
                    curve_oid,
                ),
                Err(e) => Err(LoadError::Der { inner: e }),
            }
        } else if bytes_eq(label.as_slice(), enc_pkcs8_label().as_slice()) {
            Err(LoadError::Encrypted)
        } else {
            Err(LoadError::UnsupportedPemLabel { label })
        }
    }

    /// Load an unencrypted PEM- or DER-encoded key.
    ///
    /// Valid UTF-8 input is tried as PEM first; a malformed PEM document
    /// falls through to DER decoding of the raw bytes, while any other
    /// PEM-path error is returned immediately ([`spec_load`]).
    pub fn load(bytes: &[u8]) -> (r: Result<Self, LoadError>)
        ensures
            load_shape(r) == spec_load(bytes@),
    {
        match asn1::bytes_as_str(bytes) {
            Some(pem) => {
                match Self::load_pem(pem) {
                    Ok(key) => {
                        return Ok(key);
                    },
                    // A malformed PEM document: fall through and try DER
                    Err(LoadError::Pem { .. }) => {},
                    Err(e) => {
                        return Err(e);
                    },
                }
            },
            None => {},
        }
        Self::load_der(bytes)
    }

    /// Load an encrypted key from DER-encoded bytes and decrypt it with the
    /// given password.
    ///
    /// Only an encrypted PKCS#8 container is accepted: its plaintext is
    /// re-run through the plain DER loader, with errors of that stage
    /// wrapped in `InEncrypted`; a plain PKCS#8, SEC1 or PKCS#1 document is
    /// rejected with `Unencrypted` ([`spec_load_encrypted_der`]).
    pub fn load_encrypted_der(der: &[u8], password: &[u8]) -> (r: Result<Self, LoadError>)
        ensures
            load_shape(r) == spec_load_encrypted_der(der@, password@),
    {
        if asn1::enc_pkcs8_check(der).is_ok() {
            let decrypted = match asn1::enc_pkcs8_decrypt(der, password) {
                Ok(z) => z,
                Err(e) => {
                    return Err(LoadError::Pkcs8 { inner: e });
                },
            };
            return match Self::load_der(decrypted.as_bytes()) {
                Ok(key) => Ok(key),
                Err(inner) => Err(LoadError::InEncrypted { inner: Box::new(inner) }),
            };
        }
        if asn1::pkcs8_probe(der).is_ok() || asn1::sec1_probe(der).is_ok() || asn1::pkcs1_probe(
            der,
        ).is_ok() {
            return Err(LoadError::Unencrypted);
        }
        Err(LoadError::UnsupportedFormat)
    }

    /// Load an encrypted key from a PEM-encoded string and decrypt it with
    /// the given password.
    ///
    /// Only the encrypted PKCS#8 label is accepted; a recognized plain label
    /// is rejected with `Unencrypted`, since no password is needed there
    /// ([`spec_load_encrypted_pem`]).
    pub fn load_encrypted_pem(pem: &str, password: &[u8]) -> (r: Result<Self, LoadError>)
        ensures
            load_shape(r) == spec_load_encrypted_pem(pem.spec_bytes(), password@),
    {
        let (label, doc) = match asn1::pem_decode(pem) {
            Ok(p) => p,
            Err(e) => {
                return Err(LoadError::Pem { inner: e });
            },
        };
        if bytes_eq(label.as_slice(), enc_pkcs8_label().as_slice()) {
            if let Err(e) = asn1::enc_pkcs8_check(doc.as_slice()) {
                return Err(LoadError::Der { inner: e });
            }
            let decrypted = match asn1::enc_pkcs8_decrypt(doc.as_slice(), password) {
                Ok(z) => z,
                Err(e) => {
                    return Err(LoadError::Pkcs8 { inner: e });
                },
            };
            match Self::load_der(decrypted.as_bytes()) {
                Ok(key) => Ok(key),
                Err(inner) => Err(LoadError::InEncrypted { inner: Box::new(inner) }),
            }
        } else if bytes_eq(label.as_slice(), pkcs1_label().as_slice()) || bytes_eq(
            label.as_slice(),
            pkcs8_label().as_slice(),
        ) || bytes_eq(label.as_slice(), sec1_label().as_slice()) {
            Err(LoadError::Unencrypted)
        } else {
            Err(LoadError::UnsupportedPemLabel { label })
        }
    }

    /// Load an encrypted PEM- or DER-encoded key and decrypt it with the
    /// given password.
    ///
    /// Valid UTF-8 input is tried as PEM first; a malformed PEM document
    /// falls through to DER decoding, while any other PEM-path error is
    /// returned immediately ([`spec_load_encrypted`]).
    pub fn load_encrypted(bytes: &[u8], password: &[u8]) -> (r: Result<Self, LoadError>)
        ensures
            load_shape(r) == spec_load_encrypted(bytes@, password@),
    {
        match asn1::bytes_as_str(bytes) {
            Some(pem) => {
                match Self::load_encrypted_pem(pem, password) {
                    Ok(key) => {
                        return Ok(key);
                    },
                    // A malformed PEM document: fall through and try DER
                    Err(LoadError::Pem { .. }) => {},
                    Err(e) => {
                        return Err(e);
                    },
                }
            },
            None => {},
        }
        Self::load_encrypted_der(bytes, password)
    }

    /// Serialize the key as a DER document, in its canonical native format:
    /// PKCS#1 for RSA keys and SEC1 for elliptic-curve keys.
    ///
    /// The SEC1 encoding always embeds the named-curve object identifier and
    /// the uncompressed public point, so the output of an elliptic-curve key
    /// contains the curve identifier TLV.  The buffer is scrubbed on release.
    pub fn to_der(&self) -> (r: Result<SecretBytes, pkcs1::Error>)
        ensures
            r matches Ok(b) ==> match self.kind() {
                KeyKind::Rsa => true,
                KeyKind::EcP256 => contains_subseq(
                    secret_bytes_view(b),
                    spec_oid_tlv(spec_p256_oid()),
                ),
                KeyKind::EcP384 => contains_subseq(
                    secret_bytes_view(b),
                    spec_oid_tlv(spec_p384_oid()),
                ),
                KeyKind::EcK256 => contains_subseq(
                    secret_bytes_view(b),
                    spec_oid_tlv(spec_k256_oid()),
                ),
            },
    {
        match self {
            PrivateKey::Rsa(key) => asn1::rsa_to_pkcs1_der(key),
            PrivateKey::EcP256(key) => asn1::p256_to_sec1_der(key),
            PrivateKey::EcP384(key) => asn1::p384_to_sec1_der(key),
            PrivateKey::EcK256(key) => asn1::k256_to_sec1_der(key),
        }
    }

    /// Serialize the key as a PKCS#8 DER document.  The algorithm (and, for
    /// an elliptic-curve key, named-curve) object identifier is embedded in
    /// the output.  The buffer is scrubbed on release.
    pub fn to_pkcs8_der(&self) -> (r: Result<SecretBytes, pkcs8::Error>)
        ensures
            r matches Ok(b) ==> match self.kind() {
                KeyKind::Rsa => contains_subseq(
                    secret_bytes_view(b),
                    spec_oid_tlv(spec_rsa_oid()),
                ),
                KeyKind::EcP256 => contains_subseq(
                    secret_bytes_view(b),
                    spec_oid_tlv(spec_p256_oid()),
                ),
                KeyKind::EcP384 => contains_subseq(
                    secret_bytes_view(b),
                    spec_oid_tlv(spec_p384_oid()),
                ),
                KeyKind::EcK256 => contains_subseq(
                    secret_bytes_view(b),
                    spec_oid_tlv(spec_k256_oid()),
                ),
            },
    {
        match self {
            PrivateKey::Rsa(key) => asn1::rsa_to_pkcs8_der(key),
            PrivateKey::EcP256(key) => asn1::p256_to_pkcs8_der(key),
            PrivateKey::EcP384(key) => asn1::p384_to_pkcs8_der(key),
            PrivateKey::EcK256(key) => asn1::k256_to_pkcs8_der(key),
        }
    }

    /// Serialize the key as a PEM document, in its canonical native format:
    /// PKCS#1 for RSA keys and SEC1 for elliptic-curve keys, the latter with
    /// the named-curve object identifier and public point embedded.  The
    /// string is scrubbed on release.
    pub fn to_pem(&self, line_ending: pem_rfc7468::LineEnding) -> (r: Result<
        SecretString,
        pkcs1::Error,
    >) {
        match self {
            PrivateKey::Rsa(key) => asn1::rsa_to_pkcs1_pem(key, line_ending),
            PrivateKey::EcP256(key) => asn1::p256_to_sec1_pem(key, line_ending),
            PrivateKey::EcP384(key) => asn1::p384_to_sec1_pem(key, line_ending),
            PrivateKey::EcK256(key) => asn1::k256_to_sec1_pem(key, line_ending),
        }
    }
}

// ---------------------------------------------------------------------------
// Laws of the codec.
// ---------------------------------------------------------------------------
/// Format precedence: a byte buffer that is valid UTF-8 but not a
/// well-formed PEM document falls through to DER decoding rather than
/// failing outright.
pub proof fn lemma_utf8_non_pem_falls_through_to_der(bytes: Seq<u8>)
    requires
        vstd::utf8::valid_utf8(bytes),
        pem_decoding(bytes) is None,
    ensures
        spec_load(bytes) == spec_load_der(bytes),
{
}

/// `load` on an encrypted PKCS#8 DER container fails with `Encrypted`,
/// never silently succeeds: there is no password to use on this path.
pub proof fn lemma_load_der_rejects_encrypted(der: Seq<u8>)
    requires
        parses_enc_pkcs8(der),
    ensures
        spec_load_der(der) == Err::<KeyKind, LoadErrorShape>(LoadErrorShape::Encrypted),
{
}

/// `load` on a PEM document with the encrypted PKCS#8 label fails with
/// `Encrypted`, never silently succeeds.
pub proof fn lemma_load_pem_rejects_encrypted(doc: Seq<u8>)
    requires
        pem_decoding(doc) matches Some(p) && p.0 == spec_enc_pkcs8_label(),
    ensures
        spec_load_pem(doc) == Err::<KeyKind, LoadErrorShape>(LoadErrorShape::Encrypted),
{
    assert(spec_enc_pkcs8_label() != spec_pkcs1_label());
    assert(spec_enc_pkcs8_label() != spec_pkcs8_label()) by {
        assert(spec_enc_pkcs8_label().len() != spec_pkcs8_label().len());
    }
    assert(spec_enc_pkcs8_label() != spec_sec1_label());
}

/// `load_encrypted` on a plain (unencrypted) PKCS#8, SEC1 or PKCS#1 DER key
/// fails with `Unencrypted`, never silently succeeds.
pub proof fn lemma_load_encrypted_der_rejects_plain(der: Seq<u8>, password: Seq<u8>)
    requires
        !parses_enc_pkcs8(der),
        pkcs8_parsed(der) is Some || sec1_parsed(der) is Some || pkcs1_parsed(der) is Some,
    ensures
        spec_load_encrypted_der(der, password) == Err::<KeyKind, LoadErrorShape>(
            LoadErrorShape::Unencrypted,
        ),
{
}

/// `load_encrypted` on a PEM document with a recognized plain label fails
/// with `Unencrypted`: no password is needed there.
pub proof fn lemma_load_encrypted_pem_rejects_plain(doc: Seq<u8>, password: Seq<u8>)
    requires
        pem_decoding(doc) matches Some(p) && (p.0 == spec_pkcs1_label() || p.0
            == spec_pkcs8_label() || p.0 == spec_sec1_label()),
    ensures
        spec_load_encrypted_pem(doc, password) == Err::<KeyKind, LoadErrorShape>(
            LoadErrorShape::Unencrypted,
        ),
{
    assert(spec_enc_pkcs8_label() != spec_pkcs1_label());
    assert(spec_enc_pkcs8_label() != spec_pkcs8_label()) by {
        assert(spec_enc_pkcs8_label().len() != spec_pkcs8_label().len());
    }
    assert(spec_enc_pkcs8_label() != spec_sec1_label());
}

/// Decoding an EC key whose SEC1 structure omits the domain parameters
/// fails with the specific `MissingSec1Parameters` error, not a generic
/// parse failure.
pub proof fn lemma_sec1_missing_parameters(der: Seq<u8>)
    requires
        !parses_enc_pkcs8(der),
        pkcs8_parsed(der) is None,
        sec1_parsed(der) matches Some(p) && !p.0,
    ensures
        spec_load_der(der) == Err::<KeyKind, LoadErrorShape>(
            LoadErrorShape::MissingSec1Parameters,
        ),
{
}

} // verus!
