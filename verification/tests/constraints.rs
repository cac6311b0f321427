//! Tests for the constraint engine.

use keystore::{
    ConstraintSet, JsonWebKey, JsonWebKeyType, JsonWebKeyUse, JsonWebSignatureAlg, PrivateKey,
};
use rand::rngs::StdRng;
use rand::SeedableRng;

fn engine_rsa_key(seed: u64) -> PrivateKey {
    PrivateKey::generate_rsa(StdRng::seed_from_u64(seed)).expect("RSA generation")
}

fn engine_p256_key(seed: u64) -> PrivateKey {
    PrivateKey::generate_ec_p256(StdRng::seed_from_u64(seed))
}

/// Three keys against {kid="a", alg=RS256}: the kid mismatch excludes K2,
/// K1 scores 2, K3 (no fixed algorithm, RS256 merely possible) scores 1,
/// and K1 comes after K3 in the ascending ranking.
#[test]
fn constraint_scoring_three_keys() {
    let k1 = JsonWebKey::new(engine_p256_key(1))
        .with_kid("a".to_string())
        .with_alg(JsonWebSignatureAlg::Rs256);
    let k2 = JsonWebKey::new(engine_p256_key(2))
        .with_kid("b".to_string())
        .with_alg(JsonWebSignatureAlg::Rs256);
    let k3 = JsonWebKey::new(engine_rsa_key(3)).with_kid("a".to_string());

    let set = ConstraintSet::default()
        .kid("a".to_string())
        .alg(JsonWebSignatureAlg::Rs256);

    let candidates = vec![k1, k2, k3];
    let selected = set.filter(candidates.as_slice());

    assert_eq!(selected.len(), 2);
    // K3 first (score 1): kid "a", no declared algorithm.
    assert_eq!(selected[0].kid.as_deref(), Some("a"));
    assert_eq!(selected[0].alg, None);
    // K1 last (score 2): kid "a", declared RS256.
    assert_eq!(selected[1].kid.as_deref(), Some("a"));
    assert_eq!(selected[1].alg, Some(JsonWebSignatureAlg::Rs256));
}

/// A mismatched key type excludes a candidate even when every other
/// constraint decides Positive.
#[test]
fn negative_short_circuits() {
    let key = JsonWebKey::new(engine_p256_key(4))
        .with_kid("a".to_string())
        .with_use(JsonWebKeyUse::Sig);
    let set = ConstraintSet::default()
        .kid("a".to_string())
        .use_(JsonWebKeyUse::Sig)
        .kty(JsonWebKeyType::Rsa);

    let candidates = vec![key];
    let selected = set.filter(candidates.as_slice());
    assert!(selected.is_empty());
}

/// An empty constraint set returns every candidate, in the original order.
#[test]
fn empty_set_returns_all_in_order() {
    let keys = vec![
        JsonWebKey::new(engine_p256_key(5)).with_kid("first".to_string()),
        JsonWebKey::new(engine_p256_key(6)).with_kid("second".to_string()),
        JsonWebKey::new(engine_p256_key(7)).with_kid("third".to_string()),
    ];
    let set = ConstraintSet::default();
    let selected = set.filter(keys.as_slice());
    assert_eq!(selected.len(), 3);
    assert_eq!(selected[0].kid.as_deref(), Some("first"));
    assert_eq!(selected[1].kid.as_deref(), Some("second"));
    assert_eq!(selected[2].kid.as_deref(), Some("third"));
}

/// Inserting an equal constraint twice leaves one constraint in the set.
#[test]
fn duplicate_constraints_collapse() {
    let set = ConstraintSet::default()
        .alg(JsonWebSignatureAlg::Rs256)
        .alg(JsonWebSignatureAlg::Rs256);
    assert_eq!(set.len(), 1);

    let set = set.alg(JsonWebSignatureAlg::Es256);
    assert_eq!(set.len(), 2);

    let set = set
        .kid("a".to_string())
        .kid("a".to_string())
        .kid("b".to_string());
    assert_eq!(set.len(), 4);
}

/// An algorithm allowlist: Positive on a declared algorithm in the list,
/// Negative on a declared algorithm outside it, Neutral when only the
/// possible algorithms intersect the list.
#[test]
fn algorithm_allowlist_decisions() {
    let declared_in_list = JsonWebKey::new(engine_p256_key(8))
        .with_kid("in-list".to_string())
        .with_alg(JsonWebSignatureAlg::Es256);
    let declared_outside = JsonWebKey::new(engine_p256_key(9))
        .with_kid("outside".to_string())
        .with_alg(JsonWebSignatureAlg::Ps256);
    let possible_only = JsonWebKey::new(engine_rsa_key(10)).with_kid("possible".to_string());

    let set = ConstraintSet::default().algs(vec![
        JsonWebSignatureAlg::Rs256,
        JsonWebSignatureAlg::Es256,
    ]);

    let candidates = vec![declared_in_list, declared_outside, possible_only];
    let selected = set.filter(candidates.as_slice());

    // "outside" is excluded; "possible" (Neutral, score 0) comes before
    // "in-list" (Positive, score 1).
    assert_eq!(selected.len(), 2);
    assert_eq!(selected[0].kid.as_deref(), Some("possible"));
    assert_eq!(selected[1].kid.as_deref(), Some("in-list"));
}

/// A candidate that declares no key id is never disqualified by a key-id
/// constraint: the decision is Neutral.
#[test]
fn absent_kid_is_neutral() {
    let anonymous = JsonWebKey::new(engine_p256_key(11));
    let named = JsonWebKey::new(engine_p256_key(12)).with_kid("a".to_string());
    let set = ConstraintSet::default().kid("a".to_string());

    let candidates = vec![named, anonymous];
    let selected = set.filter(candidates.as_slice());
    assert_eq!(selected.len(), 2);
    // The anonymous key scores 0 and comes first; the named key scores 1.
    assert_eq!(selected[0].kid, None);
    assert_eq!(selected[1].kid.as_deref(), Some("a"));
}

/// A candidate that declares no use is never disqualified by a use
/// constraint, while a declared mismatch excludes it.
#[test]
fn use_constraint_decisions() {
    let signing = JsonWebKey::new(engine_p256_key(13))
        .with_kid("sig".to_string())
        .with_use(JsonWebKeyUse::Sig);
    let encryption = JsonWebKey::new(engine_p256_key(14))
        .with_kid("enc".to_string())
        .with_use(JsonWebKeyUse::Enc);
    let undeclared = JsonWebKey::new(engine_p256_key(15)).with_kid("none".to_string());

    let set = ConstraintSet::default().use_(JsonWebKeyUse::Sig);
    let candidates = vec![signing, encryption, undeclared];
    let selected = set.filter(candidates.as_slice());

    assert_eq!(selected.len(), 2);
    assert_eq!(selected[0].kid.as_deref(), Some("none"));
    assert_eq!(selected[1].kid.as_deref(), Some("sig"));
}

/// Bare private keys are candidates too: they declare no kid, use or fixed
/// algorithm, so only the key type and possible algorithms constrain them.
#[test]
fn bare_keys_as_candidates() {
    let keys = vec![engine_p256_key(16), engine_p256_key(17)];
    let set = ConstraintSet::default()
        .kid("whatever".to_string())
        .kty(JsonWebKeyType::Ec);
    let selected = set.filter(keys.as_slice());
    // kid is Neutral (none declared), kty is Positive on both.
    assert_eq!(selected.len(), 2);

    let set = ConstraintSet::default().alg(JsonWebSignatureAlg::Rs256);
    let selected = set.filter(keys.as_slice());
    // RS256 is not a possible algorithm of a P-256 key.
    assert!(selected.is_empty());
}
