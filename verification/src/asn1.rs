//! Trusted boundary to the ASN.1 and cryptographic crates.
//!
//! Every function here is `external_body`: its body performs one call into an
//! outside crate (plus argument and result conversions) and its contract is
//! what that crate's source shows.  Parsing and decryption outcomes are
//! deterministic functions of the input bytes, so they are named by
//! uninterpreted spec functions keyed on those bytes; the verified codec in
//! [`crate::codec`] is specified exactly in terms of these names.

use vstd::prelude::*;
use vstd::string::StringSliceAdditionalSpecFns;
use der::Decode;
use der::EncodePem;
use der::zeroize::Zeroizing;
use elliptic_curve::sec1::ToEncodedPoint;
use pkcs1::EncodeRsaPrivateKey;
use pkcs8::AssociatedOid;
use pkcs8::EncodePrivateKey;
use rsa::traits::PublicKeyParts;

verus! {

// ---------------------------------------------------------------------------
// Outside types that appear in signatures or fields.
// ---------------------------------------------------------------------------
#[verifier::external_type_specification]
#[verifier::external_body]
pub struct ExRsaPrivateKey(rsa::RsaPrivateKey);

#[verifier::external_type_specification]
#[verifier::external_body]
pub struct ExLineEnding(pem_rfc7468::LineEnding);

// `elliptic_curve::SecretKey<C>` and `zeroize::Zeroizing<Z>` have outside
// trait bounds on their type parameters, which a type declaration cannot
// carry here, so each instantiation this crate uses is held opaquely in a
// struct of its own.
/// A NIST P-256 secret scalar (`elliptic_curve::SecretKey<p256::NistP256>`).
#[verifier::external_body]
#[derive(Debug)]
pub struct P256SecretKey {
    inner: elliptic_curve::SecretKey<p256::NistP256>,
}

/// A NIST P-384 secret scalar (`elliptic_curve::SecretKey<p384::NistP384>`).
#[verifier::external_body]
#[derive(Debug)]
pub struct P384SecretKey {
    inner: elliptic_curve::SecretKey<p384::NistP384>,
}

/// A secp256k1 secret scalar (`elliptic_curve::SecretKey<k256::Secp256k1>`).
#[verifier::external_body]
#[derive(Debug)]
pub struct K256SecretKey {
    inner: elliptic_curve::SecretKey<k256::Secp256k1>,
}

/// A byte buffer that is scrubbed when released (`Zeroizing<Vec<u8>>`).
#[verifier::external_body]
pub struct SecretBytes {
    inner: Zeroizing<Vec<u8>>,
}

/// A string buffer that is scrubbed when released (`Zeroizing<String>`).
#[verifier::external_body]
pub struct SecretString {
    inner: Zeroizing<String>,
}

#[verifier::external_type_specification]
#[verifier::external_body]
pub struct ExPemError(pem_rfc7468::Error);

#[verifier::external_type_specification]
#[verifier::external_body]
pub struct ExDerError(der::Error);

#[verifier::external_type_specification]
#[verifier::external_body]
pub struct ExSpkiError(spki::Error);

#[verifier::external_type_specification]
#[verifier::external_body]
pub struct ExPkcs1Error(pkcs1::Error);

#[verifier::external_type_specification]
#[verifier::external_body]
pub struct ExPkcs8Error(pkcs8::Error);

#[verifier::external_type_specification]
#[verifier::external_body]
pub struct ExRsaError(rsa::errors::Error);

// ---------------------------------------------------------------------------
// Names for what the outside calls return.  Each is a function of its
// arguments alone: parsing, decryption and key construction are deterministic
// in the input bytes (and password).
// ---------------------------------------------------------------------------
/// What `pem_rfc7468::decode_vec` returns on these bytes: the type label (as
/// bytes) and the decoded binary body of the single PEM document, or `None`
/// when the bytes are not a well-formed PEM document.
pub uninterp spec fn pem_decoding(doc: Seq<u8>) -> Option<(Seq<u8>, Seq<u8>)>;

/// Whether the bytes parse as a PKCS#8 `EncryptedPrivateKeyInfo` DER document.
pub uninterp spec fn parses_enc_pkcs8(der: Seq<u8>) -> bool;

/// The plaintext that decrypting the PKCS#8 encrypted container with this
/// password yields, or `None` when decryption fails.
pub uninterp spec fn enc_pkcs8_decrypted(der: Seq<u8>, password: Seq<u8>) -> Option<Seq<u8>>;

/// The bytes held by a scrub-on-release buffer.
pub uninterp spec fn secret_bytes_view(b: SecretBytes) -> Seq<u8>;

/// The characters held by a scrub-on-release string buffer.
pub uninterp spec fn secret_string_view(s: SecretString) -> Seq<char>;

/// What parsing the bytes as a plain PKCS#8 `PrivateKeyInfo` yields: the
/// algorithm object identifier (as its DER arc bytes) and, when the algorithm
/// parameters hold an object identifier, that identifier too.
pub uninterp spec fn pkcs8_parsed(der: Seq<u8>) -> Option<(Seq<u8>, Option<Seq<u8>>)>;

/// Whether the PKCS#8 `PrivateKeyInfo` in these bytes carries a usable RSA key.
pub uninterp spec fn pkcs8_as_rsa(der: Seq<u8>) -> bool;

/// Whether the PKCS#8 `PrivateKeyInfo` in these bytes carries a usable P-256 key.
pub uninterp spec fn pkcs8_as_p256(der: Seq<u8>) -> bool;

/// Whether the PKCS#8 `PrivateKeyInfo` in these bytes carries a usable P-384 key.
pub uninterp spec fn pkcs8_as_p384(der: Seq<u8>) -> bool;

/// Whether the PKCS#8 `PrivateKeyInfo` in these bytes carries a usable secp256k1 key.
pub uninterp spec fn pkcs8_as_k256(der: Seq<u8>) -> bool;

/// What parsing the bytes as a SEC1 `EcPrivateKey` yields: whether the
/// optional domain parameters are present and, if so, the named-curve object
/// identifier they carry (when they name one).
pub uninterp spec fn sec1_parsed(der: Seq<u8>) -> Option<(bool, Option<Seq<u8>>)>;

/// Whether the SEC1 `EcPrivateKey` in these bytes carries a usable P-256 key.
pub uninterp spec fn sec1_as_p256(der: Seq<u8>) -> bool;

/// Whether the SEC1 `EcPrivateKey` in these bytes carries a usable P-384 key.
pub uninterp spec fn sec1_as_p384(der: Seq<u8>) -> bool;

/// Whether the SEC1 `EcPrivateKey` in these bytes carries a usable secp256k1 key.
pub uninterp spec fn sec1_as_k256(der: Seq<u8>) -> bool;

/// What parsing the bytes as a PKCS#1 `RsaPrivateKey` yields: whether the
/// version field is `two-prime`, or `None` when the bytes do not parse.
pub uninterp spec fn pkcs1_parsed(der: Seq<u8>) -> Option<bool>;

/// Whether a usable RSA key can be built from the integers of the two-prime
/// PKCS#1 `RsaPrivateKey` in these bytes.
pub uninterp spec fn pkcs1_as_rsa(der: Seq<u8>) -> bool;

// ---------------------------------------------------------------------------
// DER arc encodings of the object identifiers this crate dispatches on.
// ---------------------------------------------------------------------------
/// Arc bytes of 1.2.840.113549.1.1.1 (`rsaEncryption`).
pub open spec fn spec_rsa_oid() -> Seq<u8> {
    seq![0x2au8, 0x86u8, 0x48u8, 0x86u8, 0xf7u8, 0x0du8, 0x01u8, 0x01u8, 0x01u8]
}

/// Arc bytes of 1.2.840.10045.2.1 (`id-ecPublicKey`).
pub open spec fn spec_ec_oid() -> Seq<u8> {
    seq![0x2au8, 0x86u8, 0x48u8, 0xceu8, 0x3du8, 0x02u8, 0x01u8]
}

/// Arc bytes of 1.2.840.10045.3.1.7 (`prime256v1`, NIST P-256).
pub open spec fn spec_p256_oid() -> Seq<u8> {
    seq![0x2au8, 0x86u8, 0x48u8, 0xceu8, 0x3du8, 0x03u8, 0x01u8, 0x07u8]
}

/// Arc bytes of 1.3.132.0.34 (`secp384r1`, NIST P-384).
pub open spec fn spec_p384_oid() -> Seq<u8> {
    seq![0x2bu8, 0x81u8, 0x04u8, 0x00u8, 0x22u8]
}

/// Arc bytes of 1.3.132.0.10 (`secp256k1`).
pub open spec fn spec_k256_oid() -> Seq<u8> {
    seq![0x2bu8, 0x81u8, 0x04u8, 0x00u8, 0x0au8]
}

/// Whether `needle` occurs contiguously inside `haystack`.
pub open spec fn contains_subseq(haystack: Seq<u8>, needle: Seq<u8>) -> bool {
    exists|i: int|
        0 <= i && i + needle.len() <= haystack.len() && #[trigger] haystack.subrange(
            i,
            i + needle.len(),
        ) == needle
}

// ---------------------------------------------------------------------------
// Wrappers around the outside calls.
// ---------------------------------------------------------------------------
/// Relies on `std::str::from_utf8`: it succeeds exactly on valid UTF-8 input,
/// and the resulting string views the same bytes.
#[verifier::external_body]
pub(crate) fn bytes_as_str(bytes: &[u8]) -> (r: Option<&str>)
    ensures
        r is Some <==> vstd::utf8::valid_utf8(bytes@),
        r matches Some(s) ==> s.spec_bytes() == bytes@,
{
    std::str::from_utf8(bytes).ok()
}

/// Relies on `pem_rfc7468::decode_vec`: decodes a single PEM document into
/// its type label and binary body.
#[verifier::external_body]
pub(crate) fn pem_decode(doc: &str) -> (r: Result<(Vec<u8>, Vec<u8>), pem_rfc7468::Error>)
    ensures
        r is Ok <==> pem_decoding(doc.spec_bytes()) is Some,
        r matches Ok(p) ==> pem_decoding(doc.spec_bytes()) == Some((p.0@, p.1@)),
{
    match pem_rfc7468::decode_vec(doc.as_bytes()) {
        Ok((label, body)) => Ok((label.as_bytes().to_vec(), body)),
        Err(e) => Err(e),
    }
}

/// Relies on `pkcs8::EncryptedPrivateKeyInfo::from_der`: reports whether the
/// bytes parse as an encrypted PKCS#8 container, or the parse error.
#[verifier::external_body]
pub(crate) fn enc_pkcs8_check(der: &[u8]) -> (r: Result<(), der::Error>)
    ensures
        r is Ok <==> parses_enc_pkcs8(der@),
{
    match pkcs8::EncryptedPrivateKeyInfo::from_der(der) {
        Ok(_) => Ok(()),
        Err(e) => Err(e),
    }
}

/// Relies on `pkcs8::EncryptedPrivateKeyInfo::decrypt`: decrypts the
/// container with the given password; the plaintext depends only on the
/// container bytes and the password, and is held in a buffer scrubbed on
/// release.
#[verifier::external_body]
pub(crate) fn enc_pkcs8_decrypt(der: &[u8], password: &[u8]) -> (r: Result<
    SecretBytes,
    pkcs8::Error,
>)
    requires
        parses_enc_pkcs8(der@),
    ensures
        r is Ok <==> enc_pkcs8_decrypted(der@, password@) is Some,
        r matches Ok(z) ==> Some(secret_bytes_view(z)) == enc_pkcs8_decrypted(der@, password@),
{
    let info = pkcs8::EncryptedPrivateKeyInfo::from_der(der).expect("parse was checked");
    match info.decrypt(password) {
        Ok(doc) => Ok(SecretBytes { inner: Zeroizing::new(doc.as_bytes().to_vec()) }),
        Err(e) => Err(e),
    }
}

impl SecretBytes {
    /// Borrows the bytes held by the buffer.
    #[verifier::external_body]
    pub fn as_bytes(&self) -> (r: &[u8])
        ensures
            r@ == secret_bytes_view(*self),
    {
        &self.inner
    }
}

impl SecretString {
    /// Borrows the string held by the buffer.
    #[verifier::external_body]
    pub fn as_str(&self) -> (r: &str)
        ensures
            r@ == secret_string_view(*self),
    {
        &self.inner
    }
}

/// Relies on `pkcs8::PrivateKeyInfo::from_der` and
/// `spki::AlgorithmIdentifier::parameters_oid`: parses a plain PKCS#8
/// `PrivateKeyInfo` and reports the algorithm object identifier, together
/// with the parameters object identifier or the error met reading it.
#[verifier::external_body]
pub(crate) fn pkcs8_probe(der: &[u8]) -> (r: Result<
    (Vec<u8>, Result<Vec<u8>, spki::Error>),
    der::Error,
>)
    ensures
        r is Ok <==> pkcs8_parsed(der@) is Some,
        r matches Ok(p) ==> {
            &&& pkcs8_parsed(der@) matches Some(q)
            &&& q.0 == p.0@
            &&& (p.1 is Ok <==> q.1 is Some)
            &&& (p.1 matches Ok(o) ==> q.1 == Some(o@))
        },
{
    match pkcs8::PrivateKeyInfo::from_der(der) {
        Ok(info) => {
            let alg = info.algorithm.oid.as_bytes().to_vec();
            let params = match info.algorithm.parameters_oid() {
                Ok(oid) => Ok(oid.as_bytes().to_vec()),
                Err(e) => Err(e),
            };
            Ok((alg, params))
        },
        Err(e) => Err(e),
    }
}

/// Relies on `TryFrom<pkcs8::PrivateKeyInfo>` for `rsa::RsaPrivateKey`:
/// builds the RSA key carried by the `PrivateKeyInfo` in these bytes.
#[verifier::external_body]
pub(crate) fn pkcs8_to_rsa(der: &[u8]) -> (r: Result<Box<rsa::RsaPrivateKey>, pkcs8::Error>)
    requires
        pkcs8_parsed(der@) is Some,
    ensures
        r is Ok <==> pkcs8_as_rsa(der@),
{
    let info = pkcs8::PrivateKeyInfo::from_der(der).expect("parse was checked");
    match rsa::RsaPrivateKey::try_from(info) {
        Ok(key) => Ok(Box::new(key)),
        Err(e) => Err(e),
    }
}

/// Relies on `TryFrom<pkcs8::PrivateKeyInfo>` for
/// `elliptic_curve::SecretKey<p256::NistP256>`.
#[verifier::external_body]
pub(crate) fn pkcs8_to_p256(der: &[u8]) -> (r: Result<P256SecretKey, pkcs8::Error>)
    requires
        pkcs8_parsed(der@) is Some,
    ensures
        r is Ok <==> pkcs8_as_p256(der@),
{
    let info = pkcs8::PrivateKeyInfo::from_der(der).expect("parse was checked");
    match elliptic_curve::SecretKey::try_from(info) {
        Ok(key) => Ok(P256SecretKey { inner: key }),
        Err(e) => Err(e),
    }
}

/// Relies on `TryFrom<pkcs8::PrivateKeyInfo>` for
/// `elliptic_curve::SecretKey<p384::NistP384>`.
#[verifier::external_body]
pub(crate) fn pkcs8_to_p384(der: &[u8]) -> (r: Result<P384SecretKey, pkcs8::Error>)
    requires
        pkcs8_parsed(der@) is Some,
    ensures
        r is Ok <==> pkcs8_as_p384(der@),
{
    let info = pkcs8::PrivateKeyInfo::from_der(der).expect("parse was checked");
    match elliptic_curve::SecretKey::try_from(info) {
        Ok(key) => Ok(P384SecretKey { inner: key }),
        Err(e) => Err(e),
    }
}

/// Relies on `TryFrom<pkcs8::PrivateKeyInfo>` for
/// `elliptic_curve::SecretKey<k256::Secp256k1>`.
#[verifier::external_body]
pub(crate) fn pkcs8_to_k256(der: &[u8]) -> (r: Result<K256SecretKey, pkcs8::Error>)
    requires
        pkcs8_parsed(der@) is Some,
    ensures
        r is Ok <==> pkcs8_as_k256(der@),
{
    let info = pkcs8::PrivateKeyInfo::from_der(der).expect("parse was checked");
    match elliptic_curve::SecretKey::try_from(info) {
        Ok(key) => Ok(K256SecretKey { inner: key }),
        Err(e) => Err(e),
    }
}

/// Relies on `sec1::EcPrivateKey::from_der` and
/// `sec1::EcParameters::named_curve`: parses a SEC1 `EcPrivateKey` and
/// reports whether domain parameters are present and which named curve they
/// identify.
#[verifier::external_body]
pub(crate) fn sec1_probe(der: &[u8]) -> (r: Result<(bool, Option<Vec<u8>>), der::Error>)
    ensures
        r is Ok <==> sec1_parsed(der@) is Some,
        r matches Ok(p) ==> {
            &&& sec1_parsed(der@) matches Some(q)
            &&& q.0 == p.0
            &&& (p.1 is Some <==> q.1 is Some)
            &&& (p.1 matches Some(c) ==> q.1 == Some(c@))
        },
{
    match sec1::EcPrivateKey::from_der(der) {
        Ok(key) => match key.parameters {
            None => Ok((false, None)),
            Some(params) => match params.named_curve() {
                Some(oid) => Ok((true, Some(oid.as_bytes().to_vec()))),
                None => Ok((true, None)),
            },
        },
        Err(e) => Err(e),
    }
}

/// Relies on `TryFrom<sec1::EcPrivateKey>` for
/// `elliptic_curve::SecretKey<p256::NistP256>`.
#[verifier::external_body]
pub(crate) fn sec1_to_p256(der: &[u8]) -> (r: Result<P256SecretKey, der::Error>)
    requires
        sec1_parsed(der@) is Some,
    ensures
        r is Ok <==> sec1_as_p256(der@),
{
    let key = sec1::EcPrivateKey::from_der(der).expect("parse was checked");
    match elliptic_curve::SecretKey::try_from(key) {
        Ok(key) => Ok(P256SecretKey { inner: key }),
        Err(e) => Err(e),
    }
}

/// Relies on `TryFrom<sec1::EcPrivateKey>` for
/// `elliptic_curve::SecretKey<p384::NistP384>`.
#[verifier::external_body]
pub(crate) fn sec1_to_p384(der: &[u8]) -> (r: Result<P384SecretKey, der::Error>)
    requires
        sec1_parsed(der@) is Some,
    ensures
        r is Ok <==> sec1_as_p384(der@),
{
    let key = sec1::EcPrivateKey::from_der(der).expect("parse was checked");
    match elliptic_curve::SecretKey::try_from(key) {
        Ok(key) => Ok(P384SecretKey { inner: key }),
        Err(e) => Err(e),
    }
}

/// Relies on `TryFrom<sec1::EcPrivateKey>` for
/// `elliptic_curve::SecretKey<k256::Secp256k1>`.
#[verifier::external_body]
pub(crate) fn sec1_to_k256(der: &[u8]) -> (r: Result<K256SecretKey, der::Error>)
    requires
        sec1_parsed(der@) is Some,
    ensures
        r is Ok <==> sec1_as_k256(der@),
{
    let key = sec1::EcPrivateKey::from_der(der).expect("parse was checked");
    match elliptic_curve::SecretKey::try_from(key) {
        Ok(key) => Ok(K256SecretKey { inner: key }),
        Err(e) => Err(e),
    }
}

/// Relies on `pkcs1::RsaPrivateKey::from_der` and
/// `pkcs1::RsaPrivateKey::version`: parses a PKCS#1 `RsaPrivateKey` and
/// reports whether its version is `two-prime`.
#[verifier::external_body]
pub(crate) fn pkcs1_probe(der: &[u8]) -> (r: Result<bool, der::Error>)
    ensures
        r is Ok <==> pkcs1_parsed(der@) is Some,
        r matches Ok(two_prime) ==> pkcs1_parsed(der@) == Some(two_prime),
{
    match pkcs1::RsaPrivateKey::from_der(der) {
        Ok(key) => match key.version() {
            pkcs1::Version::TwoPrime => Ok(true),
            pkcs1::Version::Multi => Ok(false),
        },
        Err(e) => Err(e),
    }
}

/// Relies on `rsa::BigUint::from_bytes_be` and
/// `rsa::RsaPrivateKey::from_components`: builds a two-prime RSA key from the
/// integers of the PKCS#1 `RsaPrivateKey` in these bytes.
#[verifier::external_body]
pub(crate) fn pkcs1_to_rsa(der: &[u8]) -> (r: Result<Box<rsa::RsaPrivateKey>, rsa::errors::Error>)
    requires
        pkcs1_parsed(der@) == Some(true),
    ensures
        r is Ok <==> pkcs1_as_rsa(der@),
{
    let key = pkcs1::RsaPrivateKey::from_der(der).expect("parse was checked");
    let n = rsa::BigUint::from_bytes_be(key.modulus.as_bytes());
    let e = rsa::BigUint::from_bytes_be(key.public_exponent.as_bytes());
    let d = rsa::BigUint::from_bytes_be(key.private_exponent.as_bytes());
    let prime1 = rsa::BigUint::from_bytes_be(key.prime1.as_bytes());
    let prime2 = rsa::BigUint::from_bytes_be(key.prime2.as_bytes());
    match rsa::RsaPrivateKey::from_components(n, e, d, vec![prime1, prime2]) {
        Ok(key) => Ok(Box::new(key)),
        Err(e) => Err(e),
    }
}

/// Relies on `pkcs1::Error::Version`: the error reported for an RSA key whose
/// version is not two-prime.
#[verifier::external_body]
pub(crate) fn pkcs1_version_error() -> pkcs1::Error {
    pkcs1::Error::Version
}

/// The DER tag-length-value encoding of an object identifier with the given
/// arc bytes (tag 0x06; the identifiers here are all shorter than 128 bytes).
pub open spec fn spec_oid_tlv(oid: Seq<u8>) -> Seq<u8> {
    seq![0x06u8, oid.len() as u8] + oid
}

/// Relies on `pkcs1::EncodeRsaPrivateKey::to_pkcs1_der` for
/// `rsa::RsaPrivateKey`; the output buffer is scrubbed on release.
#[verifier::external_body]
pub(crate) fn rsa_to_pkcs1_der(key: &rsa::RsaPrivateKey) -> (r: Result<SecretBytes, pkcs1::Error>)
{
    match key.to_pkcs1_der() {
        Ok(doc) => Ok(SecretBytes { inner: doc.to_bytes() }),
        Err(e) => Err(e),
    }
}

/// Relies on `sec1::EcPrivateKey::to_der`: encodes the P-256 key with the
/// named-curve parameters and the uncompressed public point filled in, so the
/// curve object identifier TLV appears literally in the DER output.
#[verifier::external_body]
pub(crate) fn p256_to_sec1_der(key: &P256SecretKey) -> (r: Result<SecretBytes, pkcs1::Error>)
    ensures
        r matches Ok(b) ==> contains_subseq(secret_bytes_view(b), spec_oid_tlv(spec_p256_oid())),
{
    let private_key_bytes = Zeroizing::new(key.inner.to_bytes());
    let public_key_bytes = key.inner.public_key().to_encoded_point(false);
    let ec = sec1::EcPrivateKey {
        private_key: &private_key_bytes,
        parameters: Some(sec1::EcParameters::NamedCurve(p256::NistP256::OID)),
        public_key: Some(public_key_bytes.as_bytes()),
    };
    match der::Encode::to_der(&ec) {
        Ok(bytes) => Ok(SecretBytes { inner: Zeroizing::new(bytes) }),
        Err(e) => Err(pkcs1::Error::Asn1(e)),
    }
}

/// Relies on `sec1::EcPrivateKey::to_der`: encodes the P-384 key with the
/// named-curve parameters and the uncompressed public point filled in, so the
/// curve object identifier TLV appears literally in the DER output.
#[verifier::external_body]
pub(crate) fn p384_to_sec1_der(key: &P384SecretKey) -> (r: Result<SecretBytes, pkcs1::Error>)
    ensures
        r matches Ok(b) ==> contains_subseq(secret_bytes_view(b), spec_oid_tlv(spec_p384_oid())),
{
    let private_key_bytes = Zeroizing::new(key.inner.to_bytes());
    let public_key_bytes = key.inner.public_key().to_encoded_point(false);
    let ec = sec1::EcPrivateKey {
        private_key: &private_key_bytes,
        parameters: Some(sec1::EcParameters::NamedCurve(p384::NistP384::OID)),
        public_key: Some(public_key_bytes.as_bytes()),
    };
    match der::Encode::to_der(&ec) {
        Ok(bytes) => Ok(SecretBytes { inner: Zeroizing::new(bytes) }),
        Err(e) => Err(pkcs1::Error::Asn1(e)),
    }
}

/// Relies on `sec1::EcPrivateKey::to_der`: encodes the secp256k1 key with the
/// named-curve parameters and the uncompressed public point filled in, so the
/// curve object identifier TLV appears literally in the DER output.
#[verifier::external_body]
pub(crate) fn k256_to_sec1_der(key: &K256SecretKey) -> (r: Result<SecretBytes, pkcs1::Error>)
    ensures
        r matches Ok(b) ==> contains_subseq(secret_bytes_view(b), spec_oid_tlv(spec_k256_oid())),
{
    let private_key_bytes = Zeroizing::new(key.inner.to_bytes());
    let public_key_bytes = key.inner.public_key().to_encoded_point(false);
    let ec = sec1::EcPrivateKey {
        private_key: &private_key_bytes,
        parameters: Some(sec1::EcParameters::NamedCurve(k256::Secp256k1::OID)),
        public_key: Some(public_key_bytes.as_bytes()),
    };
    match der::Encode::to_der(&ec) {
        Ok(bytes) => Ok(SecretBytes { inner: Zeroizing::new(bytes) }),
        Err(e) => Err(pkcs1::Error::Asn1(e)),
    }
}

/// Relies on `pkcs8::EncodePrivateKey::to_pkcs8_der` for `rsa::RsaPrivateKey`:
/// the PKCS#8 header names the `rsaEncryption` algorithm, so its object
/// identifier TLV appears literally in the DER output.
#[verifier::external_body]
pub(crate) fn rsa_to_pkcs8_der(key: &rsa::RsaPrivateKey) -> (r: Result<SecretBytes, pkcs8::Error>)
    ensures
        r matches Ok(b) ==> contains_subseq(secret_bytes_view(b), spec_oid_tlv(spec_rsa_oid())),
{
    match key.to_pkcs8_der() {
        Ok(doc) => Ok(SecretBytes { inner: doc.to_bytes() }),
        Err(e) => Err(e),
    }
}

/// Relies on `pkcs8::EncodePrivateKey::to_pkcs8_der` for
/// `elliptic_curve::SecretKey<p256::NistP256>`: the PKCS#8 header carries the
/// named-curve object identifier as its algorithm parameters, so that
/// identifier's TLV appears literally in the DER output.
#[verifier::external_body]
pub(crate) fn p256_to_pkcs8_der(key: &P256SecretKey) -> (r: Result<SecretBytes, pkcs8::Error>)
    ensures
        r matches Ok(b) ==> contains_subseq(secret_bytes_view(b), spec_oid_tlv(spec_p256_oid())),
{
    match key.inner.to_pkcs8_der() {
        Ok(doc) => Ok(SecretBytes { inner: doc.to_bytes() }),
        Err(e) => Err(e),
    }
}

/// Relies on `pkcs8::EncodePrivateKey::to_pkcs8_der` for
/// `elliptic_curve::SecretKey<p384::NistP384>`: the PKCS#8 header carries the
/// named-curve object identifier as its algorithm parameters, so that
/// identifier's TLV appears literally in the DER output.
#[verifier::external_body]
pub(crate) fn p384_to_pkcs8_der(key: &P384SecretKey) -> (r: Result<SecretBytes, pkcs8::Error>)
    ensures
        r matches Ok(b) ==> contains_subseq(secret_bytes_view(b), spec_oid_tlv(spec_p384_oid())),
{
    match key.inner.to_pkcs8_der() {
        Ok(doc) => Ok(SecretBytes { inner: doc.to_bytes() }),
        Err(e) => Err(e),
    }
}

/// Relies on `pkcs8::EncodePrivateKey::to_pkcs8_der` for
/// `elliptic_curve::SecretKey<k256::Secp256k1>`: the PKCS#8 header carries the
/// named-curve object identifier as its algorithm parameters, so that
/// identifier's TLV appears literally in the DER output.
#[verifier::external_body]
pub(crate) fn k256_to_pkcs8_der(key: &K256SecretKey) -> (r: Result<SecretBytes, pkcs8::Error>)
    ensures
        r matches Ok(b) ==> contains_subseq(secret_bytes_view(b), spec_oid_tlv(spec_k256_oid())),
{
    match key.inner.to_pkcs8_der() {
        Ok(doc) => Ok(SecretBytes { inner: doc.to_bytes() }),
        Err(e) => Err(e),
    }
}

/// Relies on `pkcs1::EncodeRsaPrivateKey::to_pkcs1_pem` for
/// `rsa::RsaPrivateKey`; the output string is scrubbed on release.
#[verifier::external_body]
pub(crate) fn rsa_to_pkcs1_pem(key: &rsa::RsaPrivateKey, line_ending: pem_rfc7468::LineEnding) -> (r:
    Result<SecretString, pkcs1::Error>)
{
    match key.to_pkcs1_pem(line_ending) {
        Ok(pem) => Ok(SecretString { inner: pem }),
        Err(e) => Err(e),
    }
}

/// Relies on `der::EncodePem::to_pem` for `sec1::EcPrivateKey`, built with the
/// named-curve parameters and the uncompressed public point filled in.
#[verifier::external_body]
pub(crate) fn p256_to_sec1_pem(key: &P256SecretKey, line_ending: pem_rfc7468::LineEnding) -> (r:
    Result<SecretString, pkcs1::Error>)
{
    let private_key_bytes = Zeroizing::new(key.inner.to_bytes());
    let public_key_bytes = key.inner.public_key().to_encoded_point(false);
    let ec = sec1::EcPrivateKey {
        private_key: &private_key_bytes,
        parameters: Some(sec1::EcParameters::NamedCurve(p256::NistP256::OID)),
        public_key: Some(public_key_bytes.as_bytes()),
    };
    match ec.to_pem(line_ending) {
        Ok(pem) => Ok(SecretString { inner: Zeroizing::new(pem) }),
        Err(e) => Err(pkcs1::Error::Asn1(e)),
    }
}

/// Relies on `der::EncodePem::to_pem` for `sec1::EcPrivateKey`, built with the
/// named-curve parameters and the uncompressed public point filled in.
#[verifier::external_body]
pub(crate) fn p384_to_sec1_pem(key: &P384SecretKey, line_ending: pem_rfc7468::LineEnding) -> (r:
    Result<SecretString, pkcs1::Error>)
{
    let private_key_bytes = Zeroizing::new(key.inner.to_bytes());
    let public_key_bytes = key.inner.public_key().to_encoded_point(false);
    let ec = sec1::EcPrivateKey {
        private_key: &private_key_bytes,
        parameters: Some(sec1::EcParameters::NamedCurve(p384::NistP384::OID)),
        public_key: Some(public_key_bytes.as_bytes()),
    };
    match ec.to_pem(line_ending) {
        Ok(pem) => Ok(SecretString { inner: Zeroizing::new(pem) }),
        Err(e) => Err(pkcs1::Error::Asn1(e)),
    }
}

/// Relies on `der::EncodePem::to_pem` for `sec1::EcPrivateKey`, built with the
/// named-curve parameters and the uncompressed public point filled in.
#[verifier::external_body]
pub(crate) fn k256_to_sec1_pem(key: &K256SecretKey, line_ending: pem_rfc7468::LineEnding) -> (r:
    Result<SecretString, pkcs1::Error>)
{
    let private_key_bytes = Zeroizing::new(key.inner.to_bytes());
    let public_key_bytes = key.inner.public_key().to_encoded_point(false);
    let ec = sec1::EcPrivateKey {
        private_key: &private_key_bytes,
        parameters: Some(sec1::EcParameters::NamedCurve(k256::Secp256k1::OID)),
        public_key: Some(public_key_bytes.as_bytes()),
    };
    match ec.to_pem(line_ending) {
        Ok(pem) => Ok(SecretString { inner: Zeroizing::new(pem) }),
        Err(e) => Err(pkcs1::Error::Asn1(e)),
    }
}

/// Relies on `Clone` for `rsa::RsaPrivateKey`.
#[verifier::external_body]
pub(crate) fn rsa_clone(key: &rsa::RsaPrivateKey) -> Box<rsa::RsaPrivateKey> {
    Box::new(key.clone())
}

/// Relies on `Clone` for `elliptic_curve::SecretKey<p256::NistP256>`.
#[verifier::external_body]
pub(crate) fn p256_clone(key: &P256SecretKey) -> P256SecretKey {
    P256SecretKey { inner: key.inner.clone() }
}

/// Relies on `Clone` for `elliptic_curve::SecretKey<p384::NistP384>`.
#[verifier::external_body]
pub(crate) fn p384_clone(key: &P384SecretKey) -> P384SecretKey {
    P384SecretKey { inner: key.inner.clone() }
}

/// Relies on `Clone` for `elliptic_curve::SecretKey<k256::Secp256k1>`.
#[verifier::external_body]
pub(crate) fn k256_clone(key: &K256SecretKey) -> K256SecretKey {
    K256SecretKey { inner: key.inner.clone() }
}

/// Relies on `rsa::traits::PublicKeyParts::n`: the big-endian bytes of the
/// public modulus.
#[verifier::external_body]
pub(crate) fn rsa_public_n_be(key: &rsa::RsaPrivateKey) -> Vec<u8> {
    key.n().to_bytes_be()
}

/// Relies on `rsa::traits::PublicKeyParts::e`: the big-endian bytes of the
/// public exponent.
#[verifier::external_body]
pub(crate) fn rsa_public_e_be(key: &rsa::RsaPrivateKey) -> Vec<u8> {
    key.e().to_bytes_be()
}

/// Relies on `elliptic_curve::PublicKey::to_encoded_point(false)`: the
/// uncompressed SEC1 point encoding is the tag byte 0x04 followed by the x
/// and y coordinates, 32 bytes each for P-256.
#[verifier::external_body]
pub(crate) fn p256_public_point(key: &P256SecretKey) -> (r: Vec<u8>)
    ensures
        r@.len() == 65,
        r@[0] == 0x04u8,
{
    key.inner.public_key().to_encoded_point(false).as_bytes().to_vec()
}

/// Relies on `elliptic_curve::PublicKey::to_encoded_point(false)`: the
/// uncompressed SEC1 point encoding is the tag byte 0x04 followed by the x
/// and y coordinates, 48 bytes each for P-384.
#[verifier::external_body]
pub(crate) fn p384_public_point(key: &P384SecretKey) -> (r: Vec<u8>)
    ensures
        r@.len() == 97,
        r@[0] == 0x04u8,
{
    key.inner.public_key().to_encoded_point(false).as_bytes().to_vec()
}

/// Relies on `elliptic_curve::PublicKey::to_encoded_point(false)`: the
/// uncompressed SEC1 point encoding is the tag byte 0x04 followed by the x
/// and y coordinates, 32 bytes each for secp256k1.
#[verifier::external_body]
pub(crate) fn k256_public_point(key: &K256SecretKey) -> (r: Vec<u8>)
    ensures
        r@.len() == 65,
        r@[0] == 0x04u8,
{
    key.inner.public_key().to_encoded_point(false).as_bytes().to_vec()
}

/// Relies on `rsa::RsaPrivateKey::new`: generates a fresh RSA key of the
/// requested bit size from the supplied random source.
#[verifier::external_body]
pub(crate) fn rsa_generate<R: rand::RngCore + rand::CryptoRng>(rng: &mut R, bits: usize) -> (r:
    Result<Box<rsa::RsaPrivateKey>, rsa::errors::Error>)
{
    match rsa::RsaPrivateKey::new(rng, bits) {
        Ok(key) => Ok(Box::new(key)),
        Err(e) => Err(e),
    }
}

/// Relies on `elliptic_curve::SecretKey::random`: draws a uniformly random
/// P-256 scalar from the supplied random source.
#[verifier::external_body]
pub(crate) fn p256_generate<R: rand::RngCore + rand::CryptoRng>(rng: &mut R) -> P256SecretKey {
    P256SecretKey { inner: elliptic_curve::SecretKey::random(rng) }
}

/// Relies on `elliptic_curve::SecretKey::random`: draws a uniformly random
/// P-384 scalar from the supplied random source.
#[verifier::external_body]
pub(crate) fn p384_generate<R: rand::RngCore + rand::CryptoRng>(rng: &mut R) -> P384SecretKey {
    P384SecretKey { inner: elliptic_curve::SecretKey::random(rng) }
}

/// Relies on `elliptic_curve::SecretKey::random`: draws a uniformly random
/// secp256k1 scalar from the supplied random source.
#[verifier::external_body]
pub(crate) fn k256_generate<R: rand::RngCore + rand::CryptoRng>(rng: &mut R) -> K256SecretKey {
    K256SecretKey { inner: elliptic_curve::SecretKey::random(rng) }
}

} // verus!
