//! Tests for the keystore and its published public view.

use keystore::{
    ConstraintSet, JsonWebKey, JsonWebKeyPublicParameters, JsonWebKeySet, JsonWebKeyType,
    JsonWebKeyUse, JsonWebKeyEcCurve, JsonWebSignatureAlg, Keystore, PrivateKey,
};
use rand::rngs::StdRng;
use rand::SeedableRng;

fn store_rng(seed: u64) -> StdRng {
    StdRng::seed_from_u64(seed)
}

#[test]
fn public_jwks_preserves_attributes() {
    let rsa = JsonWebKey::new(
        PrivateKey::generate_rsa(store_rng(50)).expect("RSA generation"),
    )
    .with_kid("rsa-key".to_string())
    .with_use(JsonWebKeyUse::Sig)
    .with_alg(JsonWebSignatureAlg::Rs256);
    let ec = JsonWebKey::new(PrivateKey::generate_ec_p256(store_rng(51)))
        .with_kid("ec-key".to_string());

    let store = Keystore::new(JsonWebKeySet::new(vec![rsa, ec]));
    let public = store.public_jwks();
    assert_eq!(public.len(), 2);

    let entries = public.entries();
    assert_eq!(entries[0].kid.as_deref(), Some("rsa-key"));
    assert_eq!(entries[0].use_, Some(JsonWebKeyUse::Sig));
    assert_eq!(entries[0].alg, Some(JsonWebSignatureAlg::Rs256));
    assert_eq!(entries[0].kty, JsonWebKeyType::Rsa);
    match &entries[0].params {
        JsonWebKeyPublicParameters::Rsa { n, e } => {
            // A 2048-bit modulus and the usual public exponent.
            assert_eq!(n.len(), 256);
            assert!(!e.is_empty());
        },
        _ => panic!("an RSA entry must carry RSA parameters"),
    }

    assert_eq!(entries[1].kid.as_deref(), Some("ec-key"));
    assert_eq!(entries[1].use_, None);
    assert_eq!(entries[1].alg, None);
    assert_eq!(entries[1].kty, JsonWebKeyType::Ec);
    match &entries[1].params {
        JsonWebKeyPublicParameters::Ec { crv, x, y } => {
            assert_eq!(*crv, JsonWebKeyEcCurve::P256);
            assert_eq!(x.len(), 32);
            assert_eq!(y.len(), 32);
        },
        _ => panic!("an EC entry must carry EC parameters"),
    }
}

#[test]
fn public_jwks_covers_every_curve() {
    let store = Keystore::new(JsonWebKeySet::new(vec![
        JsonWebKey::new(PrivateKey::generate_ec_p256(store_rng(52))),
        JsonWebKey::new(PrivateKey::generate_ec_p384(store_rng(53))),
        JsonWebKey::new(PrivateKey::generate_ec_k256(store_rng(54))),
    ]));
    let public = store.public_jwks();
    let entries = public.entries();
    assert_eq!(entries.len(), 3);

    let expected = [
        (JsonWebKeyEcCurve::P256, 32),
        (JsonWebKeyEcCurve::P384, 48),
        (JsonWebKeyEcCurve::Secp256K1, 32),
    ];
    for (entry, (curve, width)) in entries.iter().zip(expected) {
        assert_eq!(entry.kty, JsonWebKeyType::Ec);
        match &entry.params {
            JsonWebKeyPublicParameters::Ec { crv, x, y } => {
                assert_eq!(*crv, curve);
                assert_eq!(x.len(), width);
                assert_eq!(y.len(), width);
            },
            _ => panic!("an EC entry must carry EC parameters"),
        }
    }
}

#[test]
fn keystore_clones_share_the_set() {
    let store = Keystore::new(JsonWebKeySet::new(vec![
        JsonWebKey::new(PrivateKey::generate_ec_p256(store_rng(55)))
            .with_kid("shared".to_string()),
    ]));
    let clone = store.clone();
    assert_eq!(store.key_set().len(), 1);
    assert_eq!(clone.key_set().len(), 1);
    assert_eq!(
        clone.public_jwks().entries()[0].kid.as_deref(),
        Some("shared")
    );
}

#[test]
fn keystore_entries_feed_the_engine() {
    let store = Keystore::new(JsonWebKeySet::new(vec![
        JsonWebKey::new(PrivateKey::generate_ec_p256(store_rng(56)))
            .with_kid("first".to_string()),
        JsonWebKey::new(PrivateKey::generate_ec_p384(store_rng(57)))
            .with_kid("second".to_string()),
    ]));
    let set = ConstraintSet::default().alg(JsonWebSignatureAlg::Es384);
    let selected = set.filter(store.key_set().entries());
    assert_eq!(selected.len(), 1);
    assert_eq!(selected[0].kid.as_deref(), Some("second"));
}
