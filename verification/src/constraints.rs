//! The constraint engine: filtering and ranking candidate keys against the
//! declarative requirements derived from a signed-token header.
//!
//! A [`Constraint`] matches one facet of a candidate (algorithm, algorithm
//! allowlist, key id, use, key type); a [`ConstraintSet`] collects them with
//! set semantics.  [`ConstraintSet::filter`] evaluates every constraint on
//! every candidate: one `Negative` decision discards the candidate, and the
//! survivors are returned sorted ascending by their count of `Positive`
//! decisions, ties keeping the encounter order — so the most specific match
//! is the *last* element of the result.

use vstd::prelude::*;
use vstd::multiset::Multiset;

use crate::jose::{JsonWebKeyType, JsonWebKeyUse, JsonWebSignatureAlg};

verus! {

/// A requirement on one facet of a candidate key.
#[derive(Clone, Debug)]
pub enum Constraint {
    /// The candidate must be usable with exactly this algorithm.
    Alg { constraint_alg: JsonWebSignatureAlg },
    /// The candidate must be usable with one of these algorithms.
    Algs { constraint_algs: Vec<JsonWebSignatureAlg> },
    /// The candidate must have this key id.
    Kid { constraint_kid: String },
    /// The candidate must be declared for this use.
    Use { constraint_use: JsonWebKeyUse },
    /// The candidate must have this key type.
    Kty { constraint_kty: JsonWebKeyType },
}

/// The mathematical value of a [`Constraint`].
pub enum ConstraintView {
    Alg { constraint_alg: JsonWebSignatureAlg },
    Algs { constraint_algs: Seq<JsonWebSignatureAlg> },
    Kid { constraint_kid: Seq<char> },
    Use { constraint_use: JsonWebKeyUse },
    Kty { constraint_kty: JsonWebKeyType },
}

impl View for Constraint {
    type V = ConstraintView;

    open spec fn view(&self) -> ConstraintView {
        match self {
            Constraint::Alg { constraint_alg } => ConstraintView::Alg {
                constraint_alg: *constraint_alg,
            },
            Constraint::Algs { constraint_algs } => ConstraintView::Algs {
                constraint_algs: constraint_algs@,
            },
            Constraint::Kid { constraint_kid } => ConstraintView::Kid {
                constraint_kid: constraint_kid@,
            },
            Constraint::Use { constraint_use } => ConstraintView::Use {
                constraint_use: *constraint_use,
            },
            Constraint::Kty { constraint_kty } => ConstraintView::Kty {
                constraint_kty: *constraint_kty,
            },
        }
    }
}

impl Constraint {
    /// Require exactly this algorithm.
    pub fn alg(constraint_alg: JsonWebSignatureAlg) -> (r: Self)
        ensures
            r@ == (ConstraintView::Alg { constraint_alg }),
    {
        Constraint::Alg { constraint_alg }
    }

    /// Require one of these algorithms.
    pub fn algs(constraint_algs: Vec<JsonWebSignatureAlg>) -> (r: Self)
        ensures
            r@ == (ConstraintView::Algs { constraint_algs: constraint_algs@ }),
    {
        Constraint::Algs { constraint_algs }
    }

    /// Require this key id.
    pub fn kid(constraint_kid: String) -> (r: Self)
        ensures
            r@ == (ConstraintView::Kid { constraint_kid: constraint_kid@ }),
    {
        Constraint::Kid { constraint_kid }
    }

    /// Require this declared use.
    pub fn use_(constraint_use: JsonWebKeyUse) -> (r: Self)
        ensures
            r@ == (ConstraintView::Use { constraint_use }),
    {
        Constraint::Use { constraint_use }
    }

    /// Require this key type.
    pub fn kty(constraint_kty: JsonWebKeyType) -> (r: Self)
        ensures
            r@ == (ConstraintView::Kty { constraint_kty }),
    {
        Constraint::Kty { constraint_kty }
    }
}

/// The outcome of evaluating one constraint on one candidate.
#[derive(Clone, Copy, Debug, PartialEq, Eq, Hash, Structural)]
pub enum ConstraintDecision {
    /// The candidate declares the facet and it matches.
    Positive,
    /// The candidate does not declare the facet, or matches only indirectly.
    Neutral,
    /// The facet is declared and does not match: the candidate is discarded.
    Negative,
}

/// The capability surface a candidate exposes to the engine: an optional
/// single algorithm, the list of algorithms it may be used with, an optional
/// key id and use, and its mandatory key type.  The engine never inspects key
/// material.
pub trait Constrainable: Sized {
    /// The single algorithm this candidate declares, if any.
    spec fn spec_alg(&self) -> Option<JsonWebSignatureAlg>;

    /// The algorithms this candidate may be used with.
    spec fn spec_algs(&self) -> Seq<JsonWebSignatureAlg>;

    /// The key id of this candidate, if any.
    spec fn spec_kid(&self) -> Option<Seq<char>>;

    /// The declared use of this candidate, if any.
    spec fn spec_use(&self) -> Option<JsonWebKeyUse>;

    /// The key type of this candidate.
    spec fn spec_kty(&self) -> JsonWebKeyType;

    /// The single algorithm this candidate declares, if any.
    fn alg(&self) -> (r: Option<JsonWebSignatureAlg>)
        ensures
            r == self.spec_alg(),
    ;

    /// List of available algorithms for this candidate.
    fn algs(&self) -> (r: Vec<JsonWebSignatureAlg>)
        ensures
            r@ == self.spec_algs(),
    ;

    /// Key ID (`kid`) of this candidate.
    fn kid(&self) -> (r: Option<String>)
        ensures
            r is Some <==> self.spec_kid() is Some,
            r matches Some(k) ==> self.spec_kid() == Some(k@),
    ;

    /// Usage specified for this candidate.
    fn use_(&self) -> (r: Option<JsonWebKeyUse>)
        ensures
            r == self.spec_use(),
    ;

    /// Key type (`kty`) of this candidate.
    fn kty(&self) -> (r: JsonWebKeyType)
        ensures
            r == self.spec_kty(),
    ;
}

/// The ternary decision of one constraint on one candidate:
///
/// - an exact-algorithm constraint is `Positive` or `Negative` when the
///   candidate declares one algorithm, `Neutral` when the requested
///   algorithm is merely possible for it, `Negative` otherwise;
/// - an allowlist constraint is the same with membership in the list;
/// - key-id and use constraints are `Neutral` when the candidate does not
///   declare the facet (absence is never disqualifying);
/// - a key-type constraint is always decided, never `Neutral`.
pub open spec fn spec_decide<T: Constrainable>(c: ConstraintView, t: T) -> ConstraintDecision {
    match c {
        ConstraintView::Alg { constraint_alg } => match t.spec_alg() {
            Some(alg) => if alg == constraint_alg {
                ConstraintDecision::Positive
            } else {
                ConstraintDecision::Negative
            },
            None => if t.spec_algs().contains(constraint_alg) {
                ConstraintDecision::Neutral
            } else {
                ConstraintDecision::Negative
            },
        },
        ConstraintView::Algs { constraint_algs } => match t.spec_alg() {
            Some(alg) => if constraint_algs.contains(alg) {
                ConstraintDecision::Positive
            } else {
                ConstraintDecision::Negative
            },
            None => if exists|i: int|
                0 <= i < t.spec_algs().len() && constraint_algs.contains(
                    #[trigger] t.spec_algs()[i],
                ) {
                ConstraintDecision::Neutral
            } else {
                ConstraintDecision::Negative
            },
        },
        ConstraintView::Kid { constraint_kid } => match t.spec_kid() {
            Some(kid) => if kid == constraint_kid {
                ConstraintDecision::Positive
            } else {
                ConstraintDecision::Negative
            },
            None => ConstraintDecision::Neutral,
        },
        ConstraintView::Use { constraint_use } => match t.spec_use() {
            Some(use_) => if use_ == constraint_use {
                ConstraintDecision::Positive
            } else {
                ConstraintDecision::Negative
            },
            None => ConstraintDecision::Neutral,
        },
        ConstraintView::Kty { constraint_kty } => if constraint_kty == t.spec_kty() {
            ConstraintDecision::Positive
        } else {
            ConstraintDecision::Negative
        },
    }
}

/// Whether a slice of algorithms contains the given one.
fn contains_alg(algs: &[JsonWebSignatureAlg], alg: &JsonWebSignatureAlg) -> (r: bool)
    ensures
        r == algs@.contains(*alg),
{
    let mut i: usize = 0;
    while i < algs.len()
        invariant
            0 <= i <= algs@.len(),
            forall|j: int| 0 <= j < i ==> algs@[j] != *alg,
        decreases algs@.len() - i,
    {
        if algs[i] == *alg {
            return true;
        }
        i = i + 1;
    }
    false
}

/// Whether any element of `algs` is contained in `allowed`.
fn intersects(algs: &[JsonWebSignatureAlg], allowed: &[JsonWebSignatureAlg]) -> (r: bool)
    ensures
        r == exists|i: int| 0 <= i < algs@.len() && allowed@.contains(#[trigger] algs@[i]),
{
    let mut i: usize = 0;
    while i < algs.len()
        invariant
            0 <= i <= algs@.len(),
            forall|j: int| 0 <= j < i ==> !allowed@.contains(#[trigger] algs@[j]),
        decreases algs@.len() - i,
    {
        if contains_alg(allowed, &algs[i]) {
            return true;
        }
        i = i + 1;
    }
    false
}

/// A copy of an algorithm list.
fn copy_algs(algs: &Vec<JsonWebSignatureAlg>) -> (r: Vec<JsonWebSignatureAlg>)
    ensures
        r@ == algs@,
{
    let mut out: Vec<JsonWebSignatureAlg> = Vec::new();
    let mut i: usize = 0;
    while i < algs.len()
        invariant
            0 <= i <= algs@.len(),
            out@ == algs@.subrange(0, i as int),
        decreases algs@.len() - i,
    {
        out.push(algs[i]);
        proof {
            assert(out@ =~= algs@.subrange(0, i + 1 as int));
        }
        i = i + 1;
    }
    proof {
        assert(algs@.subrange(0, algs@.len() as int) =~= algs@);
    }
    out
}

impl Constraint {
    /// A copy of this constraint, equal in value.
    pub fn duplicate(&self) -> (r: Self)
        ensures
            r@ == self@,
    {
        match self {
            Constraint::Alg { constraint_alg } => Constraint::Alg {
                constraint_alg: *constraint_alg,
            },
            Constraint::Algs { constraint_algs } => Constraint::Algs {
                constraint_algs: copy_algs(constraint_algs),
            },
            Constraint::Kid { constraint_kid } => Constraint::Kid {
                constraint_kid: constraint_kid.clone(),
            },
            Constraint::Use { constraint_use } => Constraint::Use {
                constraint_use: *constraint_use,
            },
            Constraint::Kty { constraint_kty } => Constraint::Kty {
                constraint_kty: *constraint_kty,
            },
        }
    }

    /// Evaluate this constraint on one candidate.
    fn decide<T: Constrainable>(&self, constrainable: &T) -> (r: ConstraintDecision)
        ensures
            r == spec_decide(self@, *constrainable),
    {
        match self {
            Constraint::Alg { constraint_alg } => {
                // If the constrainable has one specific alg defined, use
                // that; if not, check that the requested alg is valid for
                // this constrainable
                match constrainable.alg() {
                    Some(alg) => if alg == *constraint_alg {
                        ConstraintDecision::Positive
                    } else {
                        ConstraintDecision::Negative
                    },
                    None => {
                        let algs = constrainable.algs();
                        if contains_alg(algs.as_slice(), constraint_alg) {
                            ConstraintDecision::Neutral
                        } else {
                            ConstraintDecision::Negative
                        }
                    },
                }
            },
            Constraint::Algs { constraint_algs } => {
                match constrainable.alg() {
                    Some(alg) => if contains_alg(constraint_algs.as_slice(), &alg) {
                        ConstraintDecision::Positive
                    } else {
                        ConstraintDecision::Negative
                    },
                    None => {
                        let algs = constrainable.algs();
                        if intersects(algs.as_slice(), constraint_algs.as_slice()) {
                            ConstraintDecision::Neutral
                        } else {
                            ConstraintDecision::Negative
                        }
                    },
                }
            },
            Constraint::Kid { constraint_kid } => {
                match constrainable.kid() {
                    Some(kid) => if kid == *constraint_kid {
                        ConstraintDecision::Positive
                    } else {
                        ConstraintDecision::Negative
                    },
                    None => ConstraintDecision::Neutral,
                }
            },
            Constraint::Use { constraint_use } => {
                match constrainable.use_() {
                    Some(use_) => if use_ == *constraint_use {
                        ConstraintDecision::Positive
                    } else {
                        ConstraintDecision::Negative
                    },
                    None => ConstraintDecision::Neutral,
                }
            },
            Constraint::Kty { constraint_kty } => {
                if *constraint_kty == constrainable.kty() {
                    ConstraintDecision::Positive
                } else {
                    ConstraintDecision::Negative
                }
            },
        }
    }
}

/// Equality of two constraints, by value.
fn constraint_eq(a: &Constraint, b: &Constraint) -> (r: bool)
    ensures
        r == (a@ == b@),
{
    match (a, b) {
        (Constraint::Alg { constraint_alg: x }, Constraint::Alg { constraint_alg: y }) => *x == *y,
        (Constraint::Algs { constraint_algs: x }, Constraint::Algs { constraint_algs: y }) => {
            algs_eq(x.as_slice(), y.as_slice())
        },
        (Constraint::Kid { constraint_kid: x }, Constraint::Kid { constraint_kid: y }) => {
            x.eq(y)
        },
        (Constraint::Use { constraint_use: x }, Constraint::Use { constraint_use: y }) => *x == *y,
        (Constraint::Kty { constraint_kty: x }, Constraint::Kty { constraint_kty: y }) => *x == *y,
        _ => false,
    }
}

/// Equality of two algorithm lists.
fn algs_eq(a: &[JsonWebSignatureAlg], b: &[JsonWebSignatureAlg]) -> (r: bool)
    ensures
        r == (a@ == b@),
{
    if a.len() != b.len() {
        proof {
            assert(a@.len() != b@.len());
        }
        return false;
    }
    let mut i: usize = 0;
    while i < a.len()
        invariant
            0 <= i <= a@.len(),
            a@.len() == b@.len(),
            forall|j: int| 0 <= j < i ==> a@[j] == b@[j],
        decreases a@.len() - i,
    {
        if a[i] != b[i] {
            return false;
        }
        i = i + 1;
    }
    proof {
        assert(a@ =~= b@);
    }
    true
}

/// An unordered collection of constraints with set semantics: inserting a
/// constraint equal to one already present leaves the set unchanged.
pub struct ConstraintSet {
    constraints: Vec<Constraint>,
}

impl View for ConstraintSet {
    type V = Seq<ConstraintView>;

    closed spec fn view(&self) -> Seq<ConstraintView> {
        Seq::new(self.constraints@.len(), |i: int| self.constraints@[i]@)
    }
}

/// Inserting one constraint into a set: a no-op when an equal constraint is
/// already present.
pub open spec fn spec_insert(s: Seq<ConstraintView>, c: ConstraintView) -> Seq<ConstraintView> {
    if s.contains(c) {
        s
    } else {
        s.push(c)
    }
}

/// The set built by inserting the given constraints in order into the empty
/// set.
pub open spec fn spec_from_seq(cs: Seq<ConstraintView>) -> Seq<ConstraintView>
    decreases cs.len(),
{
    if cs.len() == 0 {
        Seq::empty()
    } else {
        spec_insert(spec_from_seq(cs.drop_last()), cs.last())
    }
}

/// The views of a sequence of constraints.
pub open spec fn views_of(cs: Seq<Constraint>) -> Seq<ConstraintView> {
    cs.map_values(|c: Constraint| c@)
}

impl Default for ConstraintSet {
    /// The empty constraint set.
    fn default() -> (r: Self)
        ensures
            r@ == Seq::<ConstraintView>::empty(),
    {
        let r = ConstraintSet { constraints: Vec::new() };
        proof {
            assert(r@ =~= Seq::<ConstraintView>::empty());
        }
        r
    }
}

impl ConstraintSet {
    /// The set holding the given constraints, duplicates collapsed.
    pub fn new(constraints: Vec<Constraint>) -> (r: Self)
        ensures
            r@ == spec_from_seq(views_of(constraints@)),
    {
        let mut set = ConstraintSet { constraints: Vec::new() };
        proof {
            assert(set@ =~= Seq::<ConstraintView>::empty());
            assert(views_of(constraints@.subrange(0, 0)) =~= Seq::<ConstraintView>::empty());
        }
        let mut i: usize = 0;
        while i < constraints.len()
            invariant
                0 <= i <= constraints@.len(),
                set@ == spec_from_seq(views_of(constraints@.subrange(0, i as int))),
            decreases constraints@.len() - i,
        {
            let c = constraints[i].duplicate();
            proof {
                assert(c@ == constraints@[i as int]@);
                let prefix = views_of(constraints@.subrange(0, i as int));
                let next = views_of(constraints@.subrange(0, i + 1 as int));
                assert(next.drop_last() =~= prefix);
                assert(next.last() == constraints@[i as int]@);
            }
            set = set.insert(c);
            i = i + 1;
        }
        proof {
            assert(constraints@.subrange(0, constraints@.len() as int) =~= constraints@);
        }
        set
    }

    /// Insert one constraint, leaving the set unchanged when an equal one is
    /// already present.
    fn insert(self, c: Constraint) -> (r: Self)
        ensures
            r@ == spec_insert(self@, c@),
    {
        let mut i: usize = 0;
        while i < self.constraints.len()
            invariant
                0 <= i <= self.constraints@.len(),
                forall|j: int| 0 <= j < i ==> self@[j] != c@,
            decreases self.constraints@.len() - i,
        {
            if constraint_eq(&self.constraints[i], &c) {
                proof {
                    assert(self@[i as int] == c@);
                    assert(self@.contains(c@));
                }
                return self;
            }
            i = i + 1;
        }
        proof {
            assert(forall|j: int| 0 <= j < self@.len() ==> self@[j] != c@);
            assert(!self@.contains(c@));
        }
        let ghost old_view = self@;
        let mut s = self;
        s.constraints.push(c);
        proof {
            assert(s@ =~= old_view.push(c@));
        }
        s
    }

    /// The number of distinct constraints in the set.
    pub fn len(&self) -> (r: usize)
        ensures
            r == self@.len(),
    {
        self.constraints.len()
    }

    /// Add an exact-algorithm constraint.
    pub fn alg(self, constraint_alg: JsonWebSignatureAlg) -> (r: Self)
        ensures
            r@ == spec_insert(self@, ConstraintView::Alg { constraint_alg }),
    {
        self.insert(Constraint::alg(constraint_alg))
    }

    /// Add an algorithm-allowlist constraint.
    pub fn algs(self, constraint_algs: Vec<JsonWebSignatureAlg>) -> (r: Self)
        ensures
            r@ == spec_insert(self@, ConstraintView::Algs { constraint_algs: constraint_algs@ }),
    {
        self.insert(Constraint::algs(constraint_algs))
    }

    /// Add an exact-key-id constraint.
    pub fn kid(self, constraint_kid: String) -> (r: Self)
        ensures
            r@ == spec_insert(self@, ConstraintView::Kid { constraint_kid: constraint_kid@ }),
    {
        self.insert(Constraint::kid(constraint_kid))
    }

    /// Add an exact-use constraint.
    pub fn use_(self, constraint_use: JsonWebKeyUse) -> (r: Self)
        ensures
            r@ == spec_insert(self@, ConstraintView::Use { constraint_use }),
    {
        self.insert(Constraint::use_(constraint_use))
    }

    /// Add an exact-key-type constraint.
    pub fn kty(self, constraint_kty: JsonWebKeyType) -> (r: Self)
        ensures
            r@ == spec_insert(self@, ConstraintView::Kty { constraint_kty }),
    {
        self.insert(Constraint::kty(constraint_kty))
    }
}

// ---------------------------------------------------------------------------
// Evaluating a constraint set over candidates.
// ---------------------------------------------------------------------------
/// Whether any constraint of the set decides `Negative` on this candidate:
/// one negative decision discards it, whatever the other constraints say.
pub open spec fn spec_excluded<T: Constrainable>(cs: Seq<ConstraintView>, t: T) -> bool {
    exists|i: int|
        0 <= i < cs.len() && #[trigger] spec_decide(cs[i], t) == ConstraintDecision::Negative
}

/// The specificity score of a candidate: how many constraints of the set
/// decide `Positive` on it (`Neutral` contributes nothing).
pub open spec fn spec_score<T: Constrainable>(cs: Seq<ConstraintView>, t: T) -> nat
    decreases cs.len(),
{
    if cs.len() == 0 {
        0
    } else {
        spec_score(cs.drop_last(), t) + (if spec_decide(cs.last(), t)
            == ConstraintDecision::Positive {
            1nat
        } else {
            0nat
        })
    }
}

/// The candidates that survive the set, in their encounter order.
pub open spec fn spec_kept<T: Constrainable>(cs: Seq<ConstraintView>, candidates: Seq<T>) -> Seq<
    T,
> {
    candidates.filter(|t: T| !spec_excluded(cs, t))
}

/// Stable insertion into a score-sorted sequence: the new element goes after
/// every element whose score is less than or equal to its own.
pub open spec fn spec_insert_by_score<T: Constrainable>(
    cs: Seq<ConstraintView>,
    sorted: Seq<T>,
    t: T,
) -> Seq<T>
    decreases sorted.len(),
{
    if sorted.len() == 0 {
        seq![t]
    } else if spec_score(cs, sorted.last()) <= spec_score(cs, t) {
        sorted.push(t)
    } else {
        spec_insert_by_score(cs, sorted.drop_last(), t).push(sorted.last())
    }
}

/// Stable sort ascending by score: the unique reordering that is sorted by
/// score and keeps the relative order of candidates with equal scores.
pub open spec fn spec_sort_by_score<T: Constrainable>(cs: Seq<ConstraintView>, s: Seq<T>) -> Seq<
    T,
>
    decreases s.len(),
{
    if s.len() == 0 {
        Seq::empty()
    } else {
        spec_insert_by_score(cs, spec_sort_by_score(cs, s.drop_last()), s.last())
    }
}

/// What [`ConstraintSet::filter`] returns: the surviving candidates, stably
/// sorted ascending by score.  The most specific candidates are at the end.
pub open spec fn spec_filter<T: Constrainable>(
    cs: Seq<ConstraintView>,
    candidates: Seq<T>,
) -> Seq<T> {
    spec_sort_by_score(cs, spec_kept(cs, candidates))
}

/// Stable insertion lands exactly at the boundary index: if everything below
/// `k` scores no more than `t` and everything from `k` on scores strictly
/// more, the insertion splits the sequence at `k`.
proof fn lemma_insert_by_score_at<T: Constrainable>(
    cs: Seq<ConstraintView>,
    sorted: Seq<T>,
    t: T,
    k: int,
)
    requires
        0 <= k <= sorted.len(),
        forall|i: int| 0 <= i < k ==> spec_score(cs, #[trigger] sorted[i]) <= spec_score(cs, t),
        forall|i: int|
            k <= i < sorted.len() ==> spec_score(cs, #[trigger] sorted[i]) > spec_score(cs, t),
    ensures
        spec_insert_by_score(cs, sorted, t) == sorted.subrange(0, k) + seq![t] + sorted.subrange(
            k,
            sorted.len() as int,
        ),
    decreases sorted.len(),
{
    if sorted.len() == 0 {
        assert(spec_insert_by_score(cs, sorted, t) =~= sorted.subrange(0, k) + seq![t]
            + sorted.subrange(k, sorted.len() as int));
    } else if k == sorted.len() {
        assert(spec_score(cs, sorted.last()) <= spec_score(cs, t));
        assert(sorted.push(t) =~= sorted.subrange(0, k) + seq![t] + sorted.subrange(
            k,
            sorted.len() as int,
        ));
    } else {
        assert(spec_score(cs, sorted.last()) > spec_score(cs, t));
        lemma_insert_by_score_at(cs, sorted.drop_last(), t, k);
        assert(spec_insert_by_score(cs, sorted.drop_last(), t).push(sorted.last())
            =~= sorted.subrange(0, k) + seq![t] + sorted.subrange(k, sorted.len() as int)) by {
            assert(sorted.drop_last().subrange(0, k) =~= sorted.subrange(0, k));
            assert(sorted.drop_last().subrange(k, sorted.len() - 1) =~= sorted.subrange(
                k,
                sorted.len() - 1,
            ));
        }
    }
}

impl ConstraintSet {
    /// The score of a candidate against this set, or `None` when some
    /// constraint decides `Negative` on it.
    fn score_of<T: Constrainable>(&self, t: &T) -> (r: Option<usize>)
        ensures
            r is Some <==> !spec_excluded(self@, *t),
            r matches Some(s) ==> s == spec_score(self@, *t),
    {
        let n = self.constraints.len();
        proof {
            assert(self@.len() == n);
        }
        let mut score: usize = 0;
        let mut i: usize = 0;
        while i < n
            invariant
                0 <= i <= n,
                n == self.constraints@.len(),
                self@.len() == n,
                score <= i,
                forall|j: int|
                    0 <= j < i ==> spec_decide(#[trigger] self@[j], *t)
                        != ConstraintDecision::Negative,
                score == spec_score(self@.subrange(0, i as int), *t),
            decreases n - i,
        {
            let d = self.constraints[i].decide(t);
            proof {
                assert(self@[i as int] == self.constraints@[i as int]@);
                assert(self@.subrange(0, i + 1 as int).drop_last() =~= self@.subrange(0, i as int));
                assert(self@.subrange(0, i + 1 as int).last() == self@[i as int]);
            }
            match d {
                ConstraintDecision::Positive => {
                    score = score + 1;
                },
                ConstraintDecision::Neutral => {},
                ConstraintDecision::Negative => {
                    proof {
                        assert(spec_decide(self@[i as int], *t) == ConstraintDecision::Negative);
                        assert(spec_excluded(self@, *t));
                    }
                    return None;
                },
            }
            i = i + 1;
        }
        proof {
            assert(self@.subrange(0, n as int) =~= self@);
            assert(!spec_excluded(self@, *t));
        }
        Some(score)
    }

    /// Filter a collection of candidates against this constraint set.
    ///
    /// A candidate on which any constraint decides `Negative` is discarded;
    /// the survivors are scored by their count of `Positive` decisions and
    /// returned sorted ascending by score, candidates with equal scores
    /// keeping their encounter order.  A caller looking for the most
    /// specific match must read from the *end* of the result.
    #[verifier::loop_isolation(false)]
    pub fn filter<'b, T: Constrainable>(&self, constrainables: &'b [T]) -> (r: Vec<&'b T>)
        ensures
            r@.map_values(|t: &T| *t) == spec_filter(self@, constrainables@),
    {
        let ghost cs = self@;
        let mut selected: Vec<&'b T> = Vec::new();
        let mut scores: Vec<usize> = Vec::new();
        proof {
            reveal(Seq::filter);
            assert(constrainables@.subrange(0, 0) =~= Seq::<T>::empty());
            assert(spec_kept(cs, constrainables@.subrange(0, 0)).len() == 0);
            assert(selected@.map_values(|t: &T| *t) =~= spec_sort_by_score(
                cs,
                spec_kept(cs, constrainables@.subrange(0, 0)),
            ));
        }
        let mut idx: usize = 0;
        while idx < constrainables.len()
            invariant
                0 <= idx <= constrainables@.len(),
                scores@.len() == selected@.len(),
                selected@.map_values(|t: &T| *t) == spec_sort_by_score(
                    cs,
                    spec_kept(cs, constrainables@.subrange(0, idx as int)),
                ),
                forall|k: int|
                    0 <= k < selected@.len() ==> #[trigger] scores@[k] as nat == spec_score(
                        cs,
                        *selected@[k],
                    ),
                forall|k1: int, k2: int|
                    0 <= k1 <= k2 < scores@.len() ==> #[trigger] scores@[k1] <= #[trigger] scores@[k2],
            decreases constrainables@.len() - idx,
        {
            let candidate = &constrainables[idx];
            let ghost prefix = constrainables@.subrange(0, idx as int);
            let ghost mapped = selected@.map_values(|t: &T| *t);
            proof {
                assert(constrainables@.subrange(0, idx + 1 as int).drop_last() =~= prefix);
                assert(constrainables@.subrange(0, idx + 1 as int).last() == *candidate);
            }
            match self.score_of(candidate) {
                None => {
                    proof {
                        reveal(Seq::filter);
                        assert(spec_kept(cs, constrainables@.subrange(0, idx + 1 as int))
                            =~= spec_kept(cs, prefix));
                    }
                },
                Some(sc) => {
                    let mut j: usize = selected.len();
                    while j > 0 && scores[j - 1] > sc
                        invariant
                            0 <= j <= scores@.len(),
                            forall|k: int| j <= k < scores@.len() ==> #[trigger] scores@[k] > sc,
                        decreases j,
                    {
                        j = j - 1;
                    }
                    proof {
                        assert forall|k: int| 0 <= k < j implies spec_score(
                            cs,
                            #[trigger] mapped[k],
                        ) <= spec_score(cs, *candidate) by {
                            assert(scores@[k] <= scores@[j - 1]);
                            assert(scores@[k] as nat == spec_score(cs, *selected@[k]));
                            assert(mapped[k] == *selected@[k]);
                        }
                        assert forall|k: int| j <= k < mapped.len() implies spec_score(
                            cs,
                            #[trigger] mapped[k],
                        ) > spec_score(cs, *candidate) by {
                            assert(scores@[k] > sc);
                            assert(scores@[k] as nat == spec_score(cs, *selected@[k]));
                            assert(mapped[k] == *selected@[k]);
                        }
                        lemma_insert_by_score_at(cs, mapped, *candidate, j as int);
                    }
                    let ghost old_selected = selected@;
                    let ghost old_scores = scores@;
                    selected.insert(j, candidate);
                    scores.insert(j, sc);
                    proof {
                        reveal(Seq::filter);
                        old_selected.insert_ensures(j as int, candidate);
                        old_scores.insert_ensures(j as int, sc);
                        assert(selected@.map_values(|t: &T| *t) =~= mapped.subrange(0, j as int)
                            + seq![*candidate] + mapped.subrange(j as int, mapped.len() as int));
                        assert(spec_kept(cs, constrainables@.subrange(0, idx + 1 as int))
                            =~= spec_kept(cs, prefix).push(*candidate));
                        assert(spec_kept(cs, prefix).push(*candidate).drop_last() =~= spec_kept(
                            cs,
                            prefix,
                        ));
                        assert forall|k1: int, k2: int|
                            0 <= k1 <= k2 < scores@.len() implies #[trigger] scores@[k1]
                            <= #[trigger] scores@[k2] by {
                            if k2 < j {
                                assert(scores@[k1] == old_scores[k1]);
                                assert(scores@[k2] == old_scores[k2]);
                            } else if k1 > j {
                                assert(scores@[k1] == old_scores[k1 - 1]);
                                assert(scores@[k2] == old_scores[k2 - 1]);
                            } else if k1 < j && k2 == j {
                                assert(scores@[k1] == old_scores[k1]);
                                assert(old_scores[k1] <= old_scores[j - 1]);
                            } else if k1 < j && k2 > j {
                                assert(scores@[k1] == old_scores[k1]);
                                assert(scores@[k2] == old_scores[k2 - 1]);
                                assert(old_scores[k1] <= old_scores[k2 - 1]);
                            } else if k1 == j && k2 == j {
                            } else if k1 == j && k2 > j {
                                assert(scores@[k2] == old_scores[k2 - 1]);
                            }
                        }
                    }
                },
            }
            idx = idx + 1;
        }
        proof {
            assert(constrainables@.subrange(0, constrainables@.len() as int) =~= constrainables@);
        }
        selected
    }
}

// ---------------------------------------------------------------------------
// Laws of the engine.
// ---------------------------------------------------------------------------
/// Stable insertion adds exactly the new element to the multiset of the
/// sequence.
proof fn lemma_insert_by_score_multiset<T: Constrainable>(
    cs: Seq<ConstraintView>,
    sorted: Seq<T>,
    t: T,
)
    ensures
        spec_insert_by_score(cs, sorted, t).to_multiset() == sorted.to_multiset().insert(t),
    decreases sorted.len(),
{
    broadcast use vstd::seq_lib::group_to_multiset_ensures;

    if sorted.len() == 0 {
        assert(seq![t] =~= Seq::<T>::empty().push(t));
        assert(sorted.to_multiset() =~= Multiset::<T>::empty()) by {
            assert forall|a: T| sorted.to_multiset().count(a) == 0 by {
                assert(!sorted.contains(a));
            }
        }
        assert(spec_insert_by_score(cs, sorted, t).to_multiset() =~= sorted.to_multiset().insert(
            t,
        ));
    } else if spec_score(cs, sorted.last()) <= spec_score(cs, t) {
        assert(spec_insert_by_score(cs, sorted, t) == sorted.push(t));
    } else {
        lemma_insert_by_score_multiset(cs, sorted.drop_last(), t);
        assert(sorted.drop_last().push(sorted.last()) =~= sorted);
        assert(spec_insert_by_score(cs, sorted, t).to_multiset() =~= sorted.to_multiset().insert(
            t,
        )) by {
            assert(spec_insert_by_score(cs, sorted, t).to_multiset() == sorted.drop_last()
                .to_multiset().insert(t).insert(sorted.last()));
            assert(sorted.to_multiset() == sorted.drop_last().to_multiset().insert(sorted.last()));
        }
    }
}

/// Stable sorting permutes the sequence: the multiset of elements is kept.
proof fn lemma_sort_by_score_multiset<T: Constrainable>(cs: Seq<ConstraintView>, s: Seq<T>)
    ensures
        spec_sort_by_score(cs, s).to_multiset() == s.to_multiset(),
    decreases s.len(),
{
    broadcast use vstd::seq_lib::group_to_multiset_ensures;

    if s.len() == 0 {
    } else {
        lemma_sort_by_score_multiset(cs, s.drop_last());
        lemma_insert_by_score_multiset(cs, spec_sort_by_score(cs, s.drop_last()), s.last());
        assert(s.drop_last().push(s.last()) =~= s);
        assert(s.to_multiset() == s.drop_last().to_multiset().insert(s.last()));
    }
}

/// A negative decision short-circuits, whatever the other constraints say:
/// a candidate on which any constraint of the set decides `Negative` does
/// not appear in the filter result at all.
pub proof fn lemma_negative_excludes<T: Constrainable>(
    cs: Seq<ConstraintView>,
    candidates: Seq<T>,
    t: T,
    i: int,
)
    requires
        0 <= i < cs.len(),
        spec_decide(cs[i], t) == ConstraintDecision::Negative,
    ensures
        !spec_filter(cs, candidates).contains(t),
{
    broadcast use vstd::seq_lib::group_to_multiset_ensures;

    assert(spec_excluded(cs, t));
    let pred = |x: T| !spec_excluded(cs, x);
    let kept = spec_kept(cs, candidates);
    assert forall|k: int| 0 <= k < kept.len() implies kept[k] != t by {
        candidates.lemma_filter_pred(pred, k);
    }
    assert(!kept.contains(t));
    lemma_sort_by_score_multiset(cs, kept);
    if spec_filter(cs, candidates).contains(t) {
        assert(spec_filter(cs, candidates).to_multiset().count(t) > 0);
        assert(kept.contains(t));
    }
}

/// An empty constraint set excludes nothing and scores every candidate
/// zero, so filtering returns every candidate, in the original order.
pub proof fn lemma_empty_set_keeps_all<T: Constrainable>(candidates: Seq<T>)
    ensures
        spec_filter(Seq::<ConstraintView>::empty(), candidates) == candidates,
        forall|t: T| spec_score(Seq::<ConstraintView>::empty(), t) == 0,
        forall|t: T| !spec_excluded(Seq::<ConstraintView>::empty(), t),
{
    let cs = Seq::<ConstraintView>::empty();
    lemma_kept_all(cs, candidates);
    lemma_sort_zero_scores(cs, candidates);
}

/// Filtering keeps every candidate when none is excluded.
proof fn lemma_kept_all<T: Constrainable>(cs: Seq<ConstraintView>, s: Seq<T>)
    requires
        forall|t: T| !spec_excluded(cs, t),
    ensures
        spec_kept(cs, s) == s,
    decreases s.len(),
{
    reveal(Seq::filter);
    if s.len() == 0 {
        assert(spec_kept(cs, s) =~= s);
    } else {
        lemma_kept_all(cs, s.drop_last());
        assert(spec_kept(cs, s) =~= s);
    }
}

/// Sorting is the identity when every candidate has the same score of zero.
proof fn lemma_sort_zero_scores<T: Constrainable>(cs: Seq<ConstraintView>, s: Seq<T>)
    requires
        forall|t: T| spec_score(cs, t) == 0,
    ensures
        spec_sort_by_score(cs, s) == s,
    decreases s.len(),
{
    if s.len() == 0 {
        assert(spec_sort_by_score(cs, s) =~= s);
    } else {
        lemma_sort_zero_scores(cs, s.drop_last());
        let sorted = spec_sort_by_score(cs, s.drop_last());
        if sorted.len() == 0 {
            assert(s.drop_last().len() == 0);
            assert(spec_insert_by_score(cs, sorted, s.last()) =~= s);
        } else {
            assert(spec_score(cs, sorted.last()) <= spec_score(cs, s.last()));
            assert(sorted.push(s.last()) =~= s);
        }
    }
}

/// The score contribution of one constraint: one for a `Positive` decision,
/// nothing otherwise.
pub open spec fn spec_contrib<T: Constrainable>(c: ConstraintView, t: T) -> nat {
    if spec_decide(c, t) == ConstraintDecision::Positive {
        1nat
    } else {
        0nat
    }
}

/// Removing one constraint removes exactly its contribution from the score.
proof fn lemma_score_remove<T: Constrainable>(cs: Seq<ConstraintView>, t: T, j: int)
    requires
        0 <= j < cs.len(),
    ensures
        spec_score(cs, t) == spec_score(cs.remove(j), t) + spec_contrib(cs[j], t),
    decreases cs.len(),
{
    if j == cs.len() - 1 {
        assert(cs.remove(j) =~= cs.drop_last());
    } else {
        lemma_score_remove(cs.drop_last(), t, j);
        assert(cs.remove(j).drop_last() =~= cs.drop_last().remove(j));
        assert(cs.remove(j).last() == cs.last());
    }
}

/// Evaluating a constraint set against a candidate is order-independent:
/// two sequences holding the same constraints (as a multiset) exclude the
/// same candidates and give every candidate the same score.
pub proof fn lemma_evaluation_order_independent<T: Constrainable>(
    cs1: Seq<ConstraintView>,
    cs2: Seq<ConstraintView>,
    t: T,
)
    requires
        cs1.to_multiset() == cs2.to_multiset(),
    ensures
        spec_excluded(cs1, t) == spec_excluded(cs2, t),
        spec_score(cs1, t) == spec_score(cs2, t),
    decreases cs1.len(),
{
    broadcast use vstd::seq_lib::group_to_multiset_ensures;

    if spec_excluded(cs1, t) {
        let i = choose|i: int|
            0 <= i < cs1.len() && spec_decide(cs1[i], t) == ConstraintDecision::Negative;
        assert(cs1.contains(cs1[i]));
        assert(cs1.to_multiset().count(cs1[i]) > 0);
        assert(cs2.to_multiset().count(cs1[i]) > 0);
        assert(cs2.contains(cs1[i]));
        let j = choose|j: int| 0 <= j < cs2.len() && cs2[j] == cs1[i];
        assert(spec_excluded(cs2, t));
    }
    if spec_excluded(cs2, t) {
        let i = choose|i: int|
            0 <= i < cs2.len() && spec_decide(cs2[i], t) == ConstraintDecision::Negative;
        assert(cs2.contains(cs2[i]));
        assert(cs2.to_multiset().count(cs2[i]) > 0);
        assert(cs1.to_multiset().count(cs2[i]) > 0);
        assert(cs1.contains(cs2[i]));
        let j = choose|j: int| 0 <= j < cs1.len() && cs1[j] == cs2[i];
        assert(spec_excluded(cs1, t));
    }
    if cs1.len() == 0 {
        assert(cs2.to_multiset().len() == 0);
        assert(cs2.len() == 0);
    } else {
        let c = cs1.last();
        assert(cs1.drop_last().push(c) =~= cs1);
        assert(cs1.to_multiset() == cs1.drop_last().to_multiset().insert(c));
        assert(cs1.to_multiset().count(c) > 0) by {
            assert(cs1.contains(c));
        }
        assert(cs2.to_multiset().count(c) > 0);
        assert(cs2.contains(c));
        let j = choose|j: int| 0 <= j < cs2.len() && cs2[j] == c;
        assert(cs2.remove(j).to_multiset() =~= cs1.drop_last().to_multiset()) by {
            assert(cs2.remove(j).to_multiset() == cs2.to_multiset().remove(c));
            assert(cs2.to_multiset() == cs1.drop_last().to_multiset().insert(c));
        }
        lemma_evaluation_order_independent(cs1.drop_last(), cs2.remove(j), t);
        lemma_score_remove(cs2, t, j);
    }
}

/// Whether a sequence of constraints holds no two equal constraints.
pub open spec fn spec_distinct(s: Seq<ConstraintView>) -> bool {
    forall|i: int, j: int| 0 <= i < j < s.len() ==> s[i] != s[j]
}

/// Insertion keeps the set a set: an equal constraint is never added twice.
pub proof fn lemma_insert_keeps_distinct(s: Seq<ConstraintView>, c: ConstraintView)
    requires
        spec_distinct(s),
    ensures
        spec_distinct(spec_insert(s, c)),
{
    if !s.contains(c) {
        assert forall|i: int, j: int|
            0 <= i < j < spec_insert(s, c).len() implies spec_insert(s, c)[i] != spec_insert(
            s,
            c,
        )[j] by {
            if j == s.len() {
                assert(s[i] == spec_insert(s, c)[i]);
                if s[i] == c {
                    assert(s.contains(c));
                }
            }
        }
    }
}

/// A constraint set is a set, not a list: however it is built, it never
/// holds two equal constraints.
pub proof fn lemma_built_sets_are_distinct(cs: Seq<ConstraintView>)
    ensures
        spec_distinct(spec_from_seq(cs)),
    decreases cs.len(),
{
    if cs.len() == 0 {
    } else {
        lemma_built_sets_are_distinct(cs.drop_last());
        lemma_insert_keeps_distinct(spec_from_seq(cs.drop_last()), cs.last());
    }
}

/// Whether a sequence of candidates is sorted ascending by score.
pub open spec fn spec_sorted_by_score<T: Constrainable>(
    cs: Seq<ConstraintView>,
    s: Seq<T>,
) -> bool {
    forall|i: int, j: int|
        0 <= i <= j < s.len() ==> spec_score(cs, #[trigger] s[i]) <= spec_score(
            cs,
            #[trigger] s[j],
        )
}

/// Stable insertion into a score-sorted sequence keeps it sorted.
proof fn lemma_insert_by_score_sorted<T: Constrainable>(
    cs: Seq<ConstraintView>,
    sorted: Seq<T>,
    t: T,
)
    requires
        spec_sorted_by_score(cs, sorted),
    ensures
        spec_sorted_by_score(cs, spec_insert_by_score(cs, sorted, t)),
    decreases sorted.len(),
{
    broadcast use vstd::seq_lib::group_to_multiset_ensures;

    if sorted.len() == 0 {
    } else if spec_score(cs, sorted.last()) <= spec_score(cs, t) {
        let out = sorted.push(t);
        assert forall|i: int, j: int| 0 <= i <= j < out.len() implies spec_score(
            cs,
            #[trigger] out[i],
        ) <= spec_score(cs, #[trigger] out[j]) by {
            if j == out.len() - 1 && i < j {
                assert(out[i] == sorted[i]);
                assert(spec_score(cs, sorted[i]) <= spec_score(cs, sorted.last()));
            }
        }
    } else {
        assert(spec_sorted_by_score(cs, sorted.drop_last())) by {
            assert(forall|i: int|
                0 <= i < sorted.len() - 1 ==> sorted.drop_last()[i] == sorted[i]);
        }
        lemma_insert_by_score_sorted(cs, sorted.drop_last(), t);
        let rec = spec_insert_by_score(cs, sorted.drop_last(), t);
        lemma_insert_by_score_multiset(cs, sorted.drop_last(), t);
        let out = rec.push(sorted.last());
        assert forall|i: int, j: int| 0 <= i <= j < out.len() implies spec_score(
            cs,
            #[trigger] out[i],
        ) <= spec_score(cs, #[trigger] out[j]) by {
            if j == out.len() - 1 && i < j {
                // out[i] is an element of rec, so it is either t or one of
                // the first elements of sorted; both score at most the last.
                assert(rec.contains(rec[i]));
                assert(rec.to_multiset().count(rec[i]) > 0);
                assert(sorted.drop_last().to_multiset().insert(t).count(rec[i]) > 0);
                if rec[i] == t {
                    assert(spec_score(cs, t) <= spec_score(cs, sorted.last()));
                } else {
                    assert(sorted.drop_last().to_multiset().count(rec[i]) > 0);
                    assert(sorted.drop_last().contains(rec[i]));
                    let k = choose|k: int|
                        0 <= k < sorted.drop_last().len() && sorted.drop_last()[k] == rec[i];
                    assert(sorted[k] == rec[i]);
                    assert(spec_score(cs, sorted[k]) <= spec_score(cs, sorted.last()));
                }
            }
        }
    }
}

/// The ordering convention of [`ConstraintSet::filter`] is a pinned
/// contract: the result is sorted ascending by score, so the most specific
/// candidate is the last element, never the first.
pub proof fn lemma_filter_result_sorted<T: Constrainable>(
    cs: Seq<ConstraintView>,
    candidates: Seq<T>,
)
    ensures
        spec_sorted_by_score(cs, spec_filter(cs, candidates)),
{
    lemma_sort_result_sorted(cs, spec_kept(cs, candidates));
}

/// Stable sorting by score yields a sequence sorted ascending by score.
proof fn lemma_sort_result_sorted<T: Constrainable>(cs: Seq<ConstraintView>, s: Seq<T>)
    ensures
        spec_sorted_by_score(cs, spec_sort_by_score(cs, s)),
    decreases s.len(),
{
    if s.len() == 0 {
    } else {
        lemma_sort_result_sorted(cs, s.drop_last());
        lemma_insert_by_score_sorted(cs, spec_sort_by_score(cs, s.drop_last()), s.last());
    }
}

} // verus!
