//! Tests for algorithm binding: for every (key variant, algorithm) pair the
//! binding succeeds exactly when the pair is in the compatibility table.

use keystore::{JsonWebSignatureAlg, KeyKind, PrivateKey};
use rand::rngs::StdRng;
use rand::SeedableRng;

const ALL_ALGS: [JsonWebSignatureAlg; 14] = [
    JsonWebSignatureAlg::Hs256,
    JsonWebSignatureAlg::Hs384,
    JsonWebSignatureAlg::Hs512,
    JsonWebSignatureAlg::Rs256,
    JsonWebSignatureAlg::Rs384,
    JsonWebSignatureAlg::Rs512,
    JsonWebSignatureAlg::Es256,
    JsonWebSignatureAlg::Es384,
    JsonWebSignatureAlg::Es512,
    JsonWebSignatureAlg::Es256K,
    JsonWebSignatureAlg::Ps256,
    JsonWebSignatureAlg::Ps384,
    JsonWebSignatureAlg::Ps512,
    JsonWebSignatureAlg::EdDsa,
];

fn compatible(kind: KeyKind, alg: JsonWebSignatureAlg) -> bool {
    match kind {
        KeyKind::Rsa => matches!(
            alg,
            JsonWebSignatureAlg::Rs256
                | JsonWebSignatureAlg::Rs384
                | JsonWebSignatureAlg::Rs512
                | JsonWebSignatureAlg::Ps256
                | JsonWebSignatureAlg::Ps384
                | JsonWebSignatureAlg::Ps512
        ),
        KeyKind::EcP256 => alg == JsonWebSignatureAlg::Es256,
        KeyKind::EcP384 => alg == JsonWebSignatureAlg::Es384,
        KeyKind::EcK256 => alg == JsonWebSignatureAlg::Es256K,
    }
}

fn assert_binding_table(key: &PrivateKey, kind: KeyKind) {
    for alg in ALL_ALGS {
        let signing = key.signing_key_for_alg(&alg);
        let verifying = key.verifying_key_for_alg(&alg);
        if compatible(kind, alg) {
            let handle = signing.unwrap_or_else(|_| panic!("signing binding must succeed"));
            assert_eq!(handle.alg(), alg);
            let handle = verifying.unwrap_or_else(|_| panic!("verifying binding must succeed"));
            assert_eq!(handle.alg(), alg);
        } else {
            assert!(signing.is_err());
            assert!(verifying.is_err());
        }
    }
}

#[test]
fn binding_table_rsa() {
    let key = PrivateKey::generate_rsa(StdRng::seed_from_u64(20)).expect("RSA generation");
    assert_binding_table(&key, KeyKind::Rsa);
    // The possible algorithms are exactly the six RSA algorithms.
    let algs = key.possible_algs();
    assert_eq!(
        algs,
        vec![
            JsonWebSignatureAlg::Rs256,
            JsonWebSignatureAlg::Rs384,
            JsonWebSignatureAlg::Rs512,
            JsonWebSignatureAlg::Ps256,
            JsonWebSignatureAlg::Ps384,
            JsonWebSignatureAlg::Ps512,
        ]
    );
}

#[test]
fn binding_table_ec_p256() {
    let key = PrivateKey::generate_ec_p256(StdRng::seed_from_u64(21));
    assert_binding_table(&key, KeyKind::EcP256);
    assert_eq!(key.possible_algs(), vec![JsonWebSignatureAlg::Es256]);
}

#[test]
fn binding_table_ec_p384() {
    let key = PrivateKey::generate_ec_p384(StdRng::seed_from_u64(22));
    assert_binding_table(&key, KeyKind::EcP384);
    assert_eq!(key.possible_algs(), vec![JsonWebSignatureAlg::Es384]);
}

#[test]
fn binding_table_ec_k256() {
    let key = PrivateKey::generate_ec_k256(StdRng::seed_from_u64(23));
    assert_binding_table(&key, KeyKind::EcK256);
    assert_eq!(key.possible_algs(), vec![JsonWebSignatureAlg::Es256K]);
}
