//! Applicative functors: `Apply` together with `Pure`, and the laws that
//! tie `pure`, `ap` and `map` together.
use crate::apply::{applied_to_clone, Apply};
use crate::data::ne_vec::NEVec;
use crate::data::validated::Validated;
use crate::functor::{computes, mapped};
use crate::higher::{same, Higher};
use crate::pure::Pure;
use crate::semigroup::Semigroup;
use crate::semigroupal::{clone_is_exact, pair_index};
use vstd::prelude::*;

verus! {

/// An applicative functor: functions in a container can be applied to
/// values in a container, and any plain value can be lifted into one.
pub trait Applicative<A, B>: Apply<A, B> + Pure {

}

impl<A, B, T> Applicative<A, B> for T where T: Apply<A, B> + Pure {

}

/// `fx` is what `pure(x)` gives.
pub open spec fn is_pure<F: Pure>(fx: F, x: F::Param) -> bool {
    fx.shape() == F::pure_shape() && fx.items() == seq![x]
}

/// Identity for `Option`: applying `pure` of the identity function changes
/// nothing.
pub proof fn lemma_applicative_identity_option<A, F: FnOnce(A) -> A>(
    ff: Option<F>,
    f: F,
    fa: Option<A>,
    r: Option<A>,
)
    requires
        is_pure(ff, f),
        computes(f, |a: A| a),
        ff.ap_ensures(fa, r),
    ensures
        r == fa,
{
    assert(ff.items()[0] == f);
}

/// Homomorphism for `Option`: applying `pure(f)` to `pure(x)` gives
/// `pure(f(x))`.
pub proof fn lemma_applicative_homomorphism_option<A, B, F: FnOnce(A) -> B>(
    ff: Option<F>,
    f: F,
    sf: spec_fn(A) -> B,
    fx: Option<A>,
    x: A,
    r: Option<B>,
)
    requires
        is_pure(ff, f),
        computes(f, sf),
        is_pure(fx, x),
        ff.ap_ensures(fx, r),
    ensures
        is_pure(r, sf(x)),
{
    assert(ff.items()[0] == f);
    assert(fx.items()[0] == x);
    assert(r.items() =~= seq![sf(x)]);
}

/// Coherence of `map` for `Option`: mapping with `f` gives what applying
/// `pure(f)` gives.
pub proof fn lemma_applicative_map_option<A, B, F: FnOnce(A) -> B>(
    fa: Option<A>,
    f: F,
    sf: spec_fn(A) -> B,
    r1: Option<B>,
    ff: Option<F>,
    r2: Option<B>,
)
    requires
        mapped(fa, f, r1),
        computes(f, sf),
        is_pure(ff, f),
        ff.ap_ensures(fa, r2),
    ensures
        r1 == r2,
{
    assert(ff.items()[0] == f);
    if fa.items().len() > 0 {
        assert(f.ensures((fa.items()[0],), r1.items()[0]));
        assert(r1.items()[0] == sf(fa.items()[0]));
    }
}

/// Unit for `Option`: replacing the `()` of `unit()` by `x` gives `pure(x)`.
pub proof fn lemma_applicative_unit_option<A, G: FnOnce(()) -> A>(
    u: Option<()>,
    g: G,
    x: A,
    r: Option<A>,
    px: Option<A>,
)
    requires
        is_pure(u, ()),
        mapped(u, g, r),
        forall|a: (), b: A| g.ensures((a,), b) ==> b == x,
        is_pure(px, x),
    ensures
        r == px,
{
    assert(g.ensures((u.items()[0],), r.items()[0]));
    assert(px.items()[0] == x);
}

/// Identity for `Result`: applying `pure` of the identity function changes
/// nothing.
pub proof fn lemma_applicative_identity_result<A, F: FnOnce(A) -> A, E>(
    ff: Result<F, E>,
    f: F,
    fa: Result<A, E>,
    r: Result<A, E>,
)
    requires
        is_pure(ff, f),
        computes(f, |a: A| a),
        ff.ap_ensures(fa, r),
    ensures
        r == fa,
{
    assert(ff.items()[0] == f);
}

/// Homomorphism for `Result`: applying `pure(f)` to `pure(x)` gives
/// `pure(f(x))`.
pub proof fn lemma_applicative_homomorphism_result<A, B, F: FnOnce(A) -> B, E>(
    ff: Result<F, E>,
    f: F,
    sf: spec_fn(A) -> B,
    fx: Result<A, E>,
    x: A,
    r: Result<B, E>,
)
    requires
        is_pure(ff, f),
        computes(f, sf),
        is_pure(fx, x),
        ff.ap_ensures(fx, r),
    ensures
        is_pure(r, sf(x)),
{
    assert(ff.items()[0] == f);
    assert(fx.items()[0] == x);
    assert(r.items() =~= seq![sf(x)]);
}

/// Coherence of `map` for `Result`: mapping with `f` gives what applying
/// `pure(f)` gives.
pub proof fn lemma_applicative_map_result<A, B, F: FnOnce(A) -> B, E>(
    fa: Result<A, E>,
    f: F,
    sf: spec_fn(A) -> B,
    r1: Result<B, E>,
    ff: Result<F, E>,
    r2: Result<B, E>,
)
    requires
        mapped(fa, f, r1),
        computes(f, sf),
        is_pure(ff, f),
        ff.ap_ensures(fa, r2),
    ensures
        r1 == r2,
{
    assert(ff.items()[0] == f);
    if fa.items().len() > 0 {
        assert(f.ensures((fa.items()[0],), r1.items()[0]));
        assert(r1.items()[0] == sf(fa.items()[0]));
    }
}

/// Unit for `Result`: replacing the `()` of `unit()` by `x` gives `pure(x)`.
pub proof fn lemma_applicative_unit_result<A, G: FnOnce(()) -> A, E>(
    u: Result<(), E>,
    g: G,
    x: A,
    r: Result<A, E>,
    px: Result<A, E>,
)
    requires
        is_pure(u, ()),
        mapped(u, g, r),
        forall|a: (), b: A| g.ensures((a,), b) ==> b == x,
        is_pure(px, x),
    ensures
        r == px,
{
    assert(g.ensures((u.items()[0],), r.items()[0]));
    assert(px.items()[0] == x);
}

/// Identity for `Box`: applying `pure` of the identity function changes
/// nothing.
pub proof fn lemma_applicative_identity_box<A, F: FnOnce(A) -> A>(
    ff: Box<F>,
    f: F,
    fa: Box<A>,
    r: Box<A>,
)
    requires
        is_pure(ff, f),
        computes(f, |a: A| a),
        ff.ap_ensures(fa, r),
    ensures
        r == fa,
{
    assert(ff.items()[0] == f);
}

/// Homomorphism for `Box`: applying `pure(f)` to `pure(x)` gives
/// `pure(f(x))`.
pub proof fn lemma_applicative_homomorphism_box<A, B, F: FnOnce(A) -> B>(
    ff: Box<F>,
    f: F,
    sf: spec_fn(A) -> B,
    fx: Box<A>,
    x: A,
    r: Box<B>,
)
    requires
        is_pure(ff, f),
        computes(f, sf),
        is_pure(fx, x),
        ff.ap_ensures(fx, r),
    ensures
        is_pure(r, sf(x)),
{
    assert(ff.items()[0] == f);
    assert(fx.items()[0] == x);
    assert(r.items() =~= seq![sf(x)]);
}

/// Coherence of `map` for `Box`: mapping with `f` gives what applying
/// `pure(f)` gives.
pub proof fn lemma_applicative_map_box<A, B, F: FnOnce(A) -> B>(
    fa: Box<A>,
    f: F,
    sf: spec_fn(A) -> B,
    r1: Box<B>,
    ff: Box<F>,
    r2: Box<B>,
)
    requires
        mapped(fa, f, r1),
        computes(f, sf),
        is_pure(ff, f),
        ff.ap_ensures(fa, r2),
    ensures
        r1 == r2,
{
    assert(ff.items()[0] == f);
    if fa.items().len() > 0 {
        assert(f.ensures((fa.items()[0],), r1.items()[0]));
        assert(r1.items()[0] == sf(fa.items()[0]));
    }
}

/// Unit for `Box`: replacing the `()` of `unit()` by `x` gives `pure(x)`.
pub proof fn lemma_applicative_unit_box<A, G: FnOnce(()) -> A>(
    u: Box<()>,
    g: G,
    x: A,
    r: Box<A>,
    px: Box<A>,
)
    requires
        is_pure(u, ()),
        mapped(u, g, r),
        forall|a: (), b: A| g.ensures((a,), b) ==> b == x,
        is_pure(px, x),
    ensures
        r == px,
{
    assert(g.ensures((u.items()[0],), r.items()[0]));
    assert(px.items()[0] == x);
}

/// Identity for `Validated`: applying `pure` of the identity function changes
/// nothing.
pub proof fn lemma_applicative_identity_validated<A, F: FnOnce(A) -> A, E: Semigroup>(
    ff: Validated<F, E>,
    f: F,
    fa: Validated<A, E>,
    r: Validated<A, E>,
)
    requires
        is_pure(ff, f),
        computes(f, |a: A| a),
        ff.ap_ensures(fa, r),
    ensures
        r == fa,
{
    assert(ff.items()[0] == f);
}

/// Homomorphism for `Validated`: applying `pure(f)` to `pure(x)` gives
/// `pure(f(x))`.
pub proof fn lemma_applicative_homomorphism_validated<A, B, F: FnOnce(A) -> B, E: Semigroup>(
    ff: Validated<F, E>,
    f: F,
    sf: spec_fn(A) -> B,
    fx: Validated<A, E>,
    x: A,
    r: Validated<B, E>,
)
    requires
        is_pure(ff, f),
        computes(f, sf),
        is_pure(fx, x),
        ff.ap_ensures(fx, r),
    ensures
        is_pure(r, sf(x)),
{
    assert(ff.items()[0] == f);
    assert(fx.items()[0] == x);
    assert(r.items() =~= seq![sf(x)]);
}

/// Coherence of `map` for `Validated`: mapping with `f` gives what applying
/// `pure(f)` gives.
pub proof fn lemma_applicative_map_validated<A, B, F: FnOnce(A) -> B, E: Semigroup>(
    fa: Validated<A, E>,
    f: F,
    sf: spec_fn(A) -> B,
    r1: Validated<B, E>,
    ff: Validated<F, E>,
    r2: Validated<B, E>,
)
    requires
        mapped(fa, f, r1),
        computes(f, sf),
        is_pure(ff, f),
        ff.ap_ensures(fa, r2),
    ensures
        r1 == r2,
{
    assert(ff.items()[0] == f);
    if fa.items().len() > 0 {
        assert(f.ensures((fa.items()[0],), r1.items()[0]));
        assert(r1.items()[0] == sf(fa.items()[0]));
    }
}

/// Unit for `Validated`: replacing the `()` of `unit()` by `x` gives `pure(x)`.
pub proof fn lemma_applicative_unit_validated<A, G: FnOnce(()) -> A, E: Semigroup>(
    u: Validated<(), E>,
    g: G,
    x: A,
    r: Validated<A, E>,
    px: Validated<A, E>,
)
    requires
        is_pure(u, ()),
        mapped(u, g, r),
        forall|a: (), b: A| g.ensures((a,), b) ==> b == x,
        is_pure(px, x),
    ensures
        r == px,
{
    assert(g.ensures((u.items()[0],), r.items()[0]));
    assert(px.items()[0] == x);
}

/// Identity for `Vec`, where clones are exact: applying `pure` of the
/// identity function changes nothing.
pub proof fn lemma_applicative_identity_vec<A: Clone, F: FnOnce(A) -> A>(
    ff: Vec<F>,
    f: F,
    fa: Vec<A>,
    r: Vec<A>,
)
    requires
        clone_is_exact::<A>(),
        is_pure(ff, f),
        computes(f, |a: A| a),
        ff.ap_ensures(fa, r),
    ensures
        same(r, fa),
{
    assert(ff.items()[0] == f);
    assert(ff@.len() == 1);
    assert(ff@.len() * fa@.len() == fa@.len()) by (nonlinear_arith)
        requires
            ff@.len() == 1,
    ;
    assert forall|j: int| 0 <= j < fa@.len() implies r@[j] == fa@[j] by {
        assert(pair_index(0, fa@.len() as int, j) == j);
        assert(applied_to_clone(ff@[0], fa@[j], r@[pair_index(0, fa@.len() as int, j)]));
    }
}

/// Homomorphism for `Vec`, where clones are exact: applying `pure(f)` to
/// `pure(x)` gives `pure(f(x))`.
pub proof fn lemma_applicative_homomorphism_vec<A: Clone, B, F: FnOnce(A) -> B>(
    ff: Vec<F>,
    f: F,
    sf: spec_fn(A) -> B,
    fx: Vec<A>,
    x: A,
    r: Vec<B>,
)
    requires
        clone_is_exact::<A>(),
        is_pure(ff, f),
        computes(f, sf),
        is_pure(fx, x),
        ff.ap_ensures(fx, r),
    ensures
        is_pure(r, sf(x)),
{
    assert(ff.items()[0] == f);
    assert(fx.items()[0] == x);
    assert(ff@.len() == 1 && fx@.len() == 1);
    assert(pair_index(0, 1, 0) == 0);
    assert(applied_to_clone(ff@[0], fx@[0], r@[pair_index(0, 1, 0)]));
    assert(r.items() =~= seq![sf(x)]);
}

/// Coherence of `map` for `Vec`, where clones are exact: mapping with `f`
/// gives what applying `pure(f)` gives.
pub proof fn lemma_applicative_map_vec<A: Clone, B, F: FnOnce(A) -> B>(
    fa: Vec<A>,
    f: F,
    sf: spec_fn(A) -> B,
    r1: Vec<B>,
    ff: Vec<F>,
    r2: Vec<B>,
)
    requires
        clone_is_exact::<A>(),
        mapped(fa, f, r1),
        computes(f, sf),
        is_pure(ff, f),
        ff.ap_ensures(fa, r2),
    ensures
        same(r1, r2),
{
    assert(ff.items()[0] == f);
    assert(ff@.len() == 1);
    assert(ff@.len() * fa@.len() == fa@.len()) by (nonlinear_arith)
        requires
            ff@.len() == 1,
    ;
    assert forall|j: int| 0 <= j < fa@.len() implies r1@[j] == r2@[j] by {
        assert(pair_index(0, fa@.len() as int, j) == j);
        assert(applied_to_clone(ff@[0], fa@[j], r2@[pair_index(0, fa@.len() as int, j)]));
        assert(f.ensures((fa.items()[j],), r1.items()[j]));
    }
}

/// Unit for `Vec`: replacing the `()` of `unit()` by `x` gives `pure(x)`.
pub proof fn lemma_applicative_unit_vec<A, G: FnOnce(()) -> A>(
    u: Vec<()>,
    g: G,
    x: A,
    r: Vec<A>,
    px: Vec<A>,
)
    requires
        is_pure(u, ()),
        mapped(u, g, r),
        forall|a: (), b: A| g.ensures((a,), b) ==> b == x,
        is_pure(px, x),
    ensures
        same(r, px),
{
    assert(g.ensures((u.items()[0],), r.items()[0]));
    assert(px.items()[0] == x);
}

/// Identity for `NEVec`, where clones are exact: applying `pure` of the
/// identity function changes nothing.
pub proof fn lemma_applicative_identity_ne_vec<A: Clone, F: FnOnce(A) -> A>(
    ff: NEVec<F>,
    f: F,
    fa: NEVec<A>,
    r: NEVec<A>,
)
    requires
        clone_is_exact::<A>(),
        is_pure(ff, f),
        computes(f, |a: A| a),
        ff.ap_ensures(fa, r),
    ensures
        same(r, fa),
{
    assert(ff.items()[0] == f);
    assert(ff@.len() == 1);
    assert(ff@.len() * fa@.len() == fa@.len()) by (nonlinear_arith)
        requires
            ff@.len() == 1,
    ;
    assert forall|j: int| 0 <= j < fa@.len() implies r@[j] == fa@[j] by {
        assert(pair_index(0, fa@.len() as int, j) == j);
        assert(applied_to_clone(ff@[0], fa@[j], r@[pair_index(0, fa@.len() as int, j)]));
    }
}

/// Homomorphism for `NEVec`, where clones are exact: applying `pure(f)` to
/// `pure(x)` gives `pure(f(x))`.
pub proof fn lemma_applicative_homomorphism_ne_vec<A: Clone, B, F: FnOnce(A) -> B>(
    ff: NEVec<F>,
    f: F,
    sf: spec_fn(A) -> B,
    fx: NEVec<A>,
    x: A,
    r: NEVec<B>,
)
    requires
        clone_is_exact::<A>(),
        is_pure(ff, f),
        computes(f, sf),
        is_pure(fx, x),
        ff.ap_ensures(fx, r),
    ensures
        is_pure(r, sf(x)),
{
    assert(ff.items()[0] == f);
    assert(fx.items()[0] == x);
    assert(ff@.len() == 1 && fx@.len() == 1);
    assert(pair_index(0, 1, 0) == 0);
    assert(applied_to_clone(ff@[0], fx@[0], r@[pair_index(0, 1, 0)]));
    assert(r.items() =~= seq![sf(x)]);
}

/// Coherence of `map` for `NEVec`, where clones are exact: mapping with `f`
/// gives what applying `pure(f)` gives.
pub proof fn lemma_applicative_map_ne_vec<A: Clone, B, F: FnOnce(A) -> B>(
    fa: NEVec<A>,
    f: F,
    sf: spec_fn(A) -> B,
    r1: NEVec<B>,
    ff: NEVec<F>,
    r2: NEVec<B>,
)
    requires
        clone_is_exact::<A>(),
        mapped(fa, f, r1),
        computes(f, sf),
        is_pure(ff, f),
        ff.ap_ensures(fa, r2),
    ensures
        same(r1, r2),
{
    assert(ff.items()[0] == f);
    assert(ff@.len() == 1);
    assert(ff@.len() * fa@.len() == fa@.len()) by (nonlinear_arith)
        requires
            ff@.len() == 1,
    ;
    assert forall|j: int| 0 <= j < fa@.len() implies r1@[j] == r2@[j] by {
        assert(pair_index(0, fa@.len() as int, j) == j);
        assert(applied_to_clone(ff@[0], fa@[j], r2@[pair_index(0, fa@.len() as int, j)]));
        assert(f.ensures((fa.items()[j],), r1.items()[j]));
    }
}

/// Unit for `NEVec`: replacing the `()` of `unit()` by `x` gives `pure(x)`.
pub proof fn lemma_applicative_unit_ne_vec<A, G: FnOnce(()) -> A>(
    u: NEVec<()>,
    g: G,
    x: A,
    r: NEVec<A>,
    px: NEVec<A>,
)
    requires
        is_pure(u, ()),
        mapped(u, g, r),
        forall|a: (), b: A| g.ensures((a,), b) ==> b == x,
        is_pure(px, x),
    ensures
        same(r, px),
{
    assert(g.ensures((u.items()[0],), r.items()[0]));
    assert(px.items()[0] == x);
}

} // verus!
