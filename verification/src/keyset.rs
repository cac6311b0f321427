//! Key sets and the keystore.
//!
//! A [`JsonWebKey`] pairs one private key with its public attributes (key
//! id, declared use, declared algorithm); a [`JsonWebKeySet`] is an ordered
//! collection of them.  A [`Keystore`] shares one such set immutably:
//! cloning it clones a reference, not the keys, so it can be handed to many
//! concurrent readers; replacing the active set means building a new
//! [`Keystore`].  [`Keystore::public_jwks`] derives the public-only view
//! published to verification clients.

use std::sync::Arc;

use vstd::prelude::*;

use crate::constraints::Constrainable;
use crate::jose::{JsonWebKeyType, JsonWebKeyUse, JsonWebSignatureAlg};
use crate::keys::{
    spec_kty_of, spec_possible_algs_of, JsonWebKeyPublicParameters, PrivateKey,
};

verus! {

/// A private key with its public attributes.
pub struct JsonWebKey {
    /// The key material.
    pub key: PrivateKey,
    /// The key id (`kid`), an opaque label; uniqueness is not enforced here.
    pub kid: Option<String>,
    /// The declared use (`use`) of the key.
    pub use_: Option<JsonWebKeyUse>,
    /// The declared algorithm (`alg`) of the key.
    pub alg: Option<JsonWebSignatureAlg>,
}

impl JsonWebKey {
    /// A key with no attributes declared.
    pub fn new(key: PrivateKey) -> (r: Self)
        ensures
            r.key == key,
            r.kid is None,
            r.use_ is None,
            r.alg is None,
    {
        JsonWebKey { key, kid: None, use_: None, alg: None }
    }

    /// The same key with this key id declared.
    pub fn with_kid(self, kid: String) -> (r: Self)
        ensures
            r.key == self.key,
            r.kid matches Some(k) && k@ == kid@,
            r.use_ == self.use_,
            r.alg == self.alg,
    {
        JsonWebKey { kid: Some(kid), ..self }
    }

    /// The same key with this use declared.
    pub fn with_use(self, use_: JsonWebKeyUse) -> (r: Self)
        ensures
            r.key == self.key,
            r.kid == self.kid,
            r.use_ == Some(use_),
            r.alg == self.alg,
    {
        JsonWebKey { use_: Some(use_), ..self }
    }

    /// The same key with this algorithm declared.
    pub fn with_alg(self, alg: JsonWebSignatureAlg) -> (r: Self)
        ensures
            r.key == self.key,
            r.kid == self.kid,
            r.use_ == self.use_,
            r.alg == Some(alg),
    {
        JsonWebKey { alg: Some(alg), ..self }
    }
}

impl Constrainable for JsonWebKey {
    open spec fn spec_alg(&self) -> Option<JsonWebSignatureAlg> {
        self.alg
    }

    open spec fn spec_algs(&self) -> Seq<JsonWebSignatureAlg> {
        spec_possible_algs_of(self.key.kind())
    }

    open spec fn spec_kid(&self) -> Option<Seq<char>> {
        match self.kid {
            Some(kid) => Some(kid@),
            None => None,
        }
    }

    open spec fn spec_use(&self) -> Option<JsonWebKeyUse> {
        self.use_
    }

    open spec fn spec_kty(&self) -> JsonWebKeyType {
        spec_kty_of(self.key.kind())
    }

    fn alg(&self) -> (r: Option<JsonWebSignatureAlg>) {
        self.alg
    }

    fn algs(&self) -> (r: Vec<JsonWebSignatureAlg>) {
        self.key.possible_algs()
    }

    fn kid(&self) -> (r: Option<String>) {
        match &self.kid {
            Some(kid) => Some(kid.clone()),
            None => None,
        }
    }

    fn use_(&self) -> (r: Option<JsonWebKeyUse>) {
        self.use_
    }

    fn kty(&self) -> (r: JsonWebKeyType) {
        self.key.kty()
    }
}

/// A candidate that is bare key material declares no key id, use or single
/// algorithm: only its key type and its possible algorithms constrain it.
impl Constrainable for PrivateKey {
    open spec fn spec_alg(&self) -> Option<JsonWebSignatureAlg> {
        None
    }

    open spec fn spec_algs(&self) -> Seq<JsonWebSignatureAlg> {
        spec_possible_algs_of(self.kind())
    }

    open spec fn spec_kid(&self) -> Option<Seq<char>> {
        None
    }

    open spec fn spec_use(&self) -> Option<JsonWebKeyUse> {
        None
    }

    open spec fn spec_kty(&self) -> JsonWebKeyType {
        spec_kty_of(self.kind())
    }

    fn alg(&self) -> (r: Option<JsonWebSignatureAlg>) {
        None
    }

    fn algs(&self) -> (r: Vec<JsonWebSignatureAlg>) {
        self.possible_algs()
    }

    fn kid(&self) -> (r: Option<String>) {
        None
    }

    fn use_(&self) -> (r: Option<JsonWebKeyUse>) {
        None
    }

    fn kty(&self) -> (r: JsonWebKeyType) {
        self.kty()
    }
}

/// An ordered collection of keys with their attributes.
pub struct JsonWebKeySet {
    keys: Vec<JsonWebKey>,
}

impl View for JsonWebKeySet {
    type V = Seq<JsonWebKey>;

    closed spec fn view(&self) -> Seq<JsonWebKey> {
        self.keys@
    }
}

impl JsonWebKeySet {
    /// The set holding these keys, in order.
    pub fn new(keys: Vec<JsonWebKey>) -> (r: Self)
        ensures
            r@ == keys@,
    {
        JsonWebKeySet { keys }
    }

    /// The number of keys in the set.
    pub fn len(&self) -> (r: usize)
        ensures
            r == self@.len(),
    {
        self.keys.len()
    }

    /// The keys of the set, in order.
    pub fn entries(&self) -> (r: &[JsonWebKey])
        ensures
            r@ == self@,
    {
        self.keys.as_slice()
    }
}

/// One entry of the published public key set: the public parameters of a
/// key together with its attributes.
pub struct PublicJsonWebKey {
    /// The type-specific public parameters.
    pub params: JsonWebKeyPublicParameters,
    /// The key type.
    pub kty: JsonWebKeyType,
    /// The key id, as on the private entry.
    pub kid: Option<String>,
    /// The declared use, as on the private entry.
    pub use_: Option<JsonWebKeyUse>,
    /// The declared algorithm, as on the private entry.
    pub alg: Option<JsonWebSignatureAlg>,
}

/// The published, public-only view of a key set.
pub struct PublicJsonWebKeySet {
    keys: Vec<PublicJsonWebKey>,
}

impl View for PublicJsonWebKeySet {
    type V = Seq<PublicJsonWebKey>;

    closed spec fn view(&self) -> Seq<PublicJsonWebKey> {
        self.keys@
    }
}

impl PublicJsonWebKeySet {
    /// The number of entries.
    pub fn len(&self) -> (r: usize)
        ensures
            r == self@.len(),
    {
        self.keys.len()
    }

    /// The entries, in order.
    pub fn entries(&self) -> (r: &[PublicJsonWebKey])
        ensures
            r@ == self@,
    {
        self.keys.as_slice()
    }
}

/// Whether a published entry is the public view of a private entry: all
/// private material replaced by the matching public parameters, every
/// attribute kept.
pub open spec fn spec_public_entry_of(p: PublicJsonWebKey, k: JsonWebKey) -> bool {
    &&& p.params.matches_kind(k.key.kind())
    &&& p.kty == spec_kty_of(k.key.kind())
    &&& (p.kid is Some <==> k.kid is Some)
    &&& (p.kid matches Some(pk) ==> k.kid matches Some(kk) && pk@ == kk@)
    &&& p.use_ == k.use_
    &&& p.alg == k.alg
}

/// A list of private keys, held behind a shared reference so that cloning
/// the store is cheap and the keys are loaded only once in memory.
#[derive(Clone)]
pub struct Keystore {
    keys: Arc<JsonWebKeySet>,
}

impl View for Keystore {
    type V = Seq<JsonWebKey>;

    closed spec fn view(&self) -> Seq<JsonWebKey> {
        self.keys@
    }
}

impl Keystore {
    /// Create a keystore out of a key set.
    pub fn new(keys: JsonWebKeySet) -> (r: Self)
        ensures
            r@ == keys@,
    {
        let keys = Arc::new(keys);
        Keystore { keys }
    }

    /// The key set stored in this keystore.
    pub fn key_set(&self) -> (r: &JsonWebKeySet)
        ensures
            r@ == self@,
    {
        &self.keys
    }

    /// The public JSON Web Key Set for the keys stored in this keystore:
    /// one entry per key, in order, with the private material replaced by
    /// the corresponding public parameters and every attribute kept.
    pub fn public_jwks(&self) -> (r: PublicJsonWebKeySet)
        ensures
            r@.len() == self@.len(),
            forall|i: int|
                0 <= i < self@.len() ==> spec_public_entry_of(#[trigger] r@[i], self@[i]),
    {
        let entries = self.key_set().entries();
        let mut keys: Vec<PublicJsonWebKey> = Vec::new();
        let mut i: usize = 0;
        while i < entries.len()
            invariant
                0 <= i <= entries@.len(),
                entries@ == self@,
                keys@.len() == i,
                forall|j: int|
                    0 <= j < i ==> spec_public_entry_of(#[trigger] keys@[j], entries@[j]),
            decreases entries@.len() - i,
        {
            let entry = &entries[i];
            let kid = match &entry.kid {
                Some(kid) => Some(kid.clone()),
                None => None,
            };
            keys.push(
                PublicJsonWebKey {
                    params: entry.key.public_params(),
                    kty: entry.key.kty(),
                    kid,
                    use_: entry.use_,
                    alg: entry.alg,
                },
            );
            i = i + 1;
        }
        PublicJsonWebKeySet { keys }
    }
}

} // verus!
