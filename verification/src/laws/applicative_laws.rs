//! The two sides of the applicative laws.
use crate::applicative::is_pure;
use crate::apply::{pairs_applied, Apply};
use crate::functor::{callable_on_items, computes, mapped, Functor};
use crate::higher::{Higher, Retarget, Target};
use crate::laws::is_eq::IsEq;
use crate::pure::Pure;
use crate::semigroupal::Semigroupal;
use vstd::prelude::*;

verus! {

/// `r` is what applying `pure(f)` to `fa` may give.
pub open spec fn pure_applied<FF, A, B>(f: FF::Param, fa: Target<FF, A>, r: Target<FF, B>) -> bool where
    FF: Pure + Apply<A, B>,
    FF::Param: FnOnce(A) -> B,
 {
    exists|ff: FF| #[trigger] is_pure(ff, f) && ff.ap_ensures(fa, r)
}

/// `pure(f)` can be applied to `fa`.
pub open spec fn pure_applicable<FF, A, B>(f: FF::Param, fa: Target<FF, A>) -> bool where
    FF: Pure + Apply<A, B>,
    FF::Param: FnOnce(A) -> B,
 {
    forall|ff: FF| #[trigger] is_pure(ff, f) ==> ff.ap_requires(fa)
}

/// Identity: the left side is `pure(identity)` applied to a clone of `fa`,
/// the right side is `fa`. `identity` is the identity function.
pub fn applicative_identity<FA, I>(fa: FA, identity: I) -> (r: IsEq<FA>) where
    I: Fn(FA::Param) -> FA::Param,
    FA: Retarget<I> + Clone,
    Target<FA, I>: Pure + Apply<<FA as Higher>::Param, <FA as Higher>::Param> + Retarget<
        <FA as Higher>::Param,
        Target = FA,
    >,

    requires
        computes(identity, |a: FA::Param| a),
        forall|c: FA| #[trigger]
            cloned(fa, c) ==> pure_applicable::<Target<FA, I>, FA::Param, FA::Param>(
                identity,
                c,
            ),
    ensures
        exists|c: FA| #[trigger]
            cloned(fa, c) && pure_applied::<Target<FA, I>, FA::Param, FA::Param>(
                identity,
                c,
                r.lhs,
            ),
        r.rhs == fa,
{
    let c = fa.clone();
    assert(cloned(fa, c));
    let ff = <Target<FA, I> as Pure>::pure(identity);
    assert(is_pure(ff, identity));
    let lhs = ff.ap(c);
    proof {
        assert(is_pure(ff, identity) && ff.ap_ensures(c, lhs));
    }
    IsEq::equal_under_law(lhs, fa)
}

/// Homomorphism: the left side is `pure(f(a))`, for a clone of `a`, the
/// right side is `pure(f)` applied to `pure(a)`.
pub fn applicative_homomorphism<FA, B, F>(a: FA::Param, f: F) -> (r: IsEq<
    Target<Target<FA, F>, B>,
>) where
    F: Fn(FA::Param) -> B,
    FA: Pure + Retarget<F>,
    FA::Param: Clone,
    Target<FA, F>: Pure + Apply<<FA as Higher>::Param, B> + Retarget<
        <FA as Higher>::Param,
        Target = FA,
    >,
    Target<Target<FA, F>, B>: Pure,

    requires
        forall|c: FA::Param| #[trigger] cloned(a, c) ==> f.requires((c,)),
        forall|fx: FA| #[trigger]
            is_pure(fx, a) ==> pure_applicable::<Target<FA, F>, FA::Param, B>(f, fx),
    ensures
        exists|c: FA::Param, b: B|
            #[trigger] cloned(a, c) && #[trigger] f.ensures((c,), b) && is_pure(r.lhs, b),
        exists|fx: FA| #[trigger]
            is_pure(fx, a) && pure_applied::<Target<FA, F>, FA::Param, B>(f, fx, r.rhs),
{
    let c = a.clone();
    assert(cloned(a, c));
    let b = f(c);
    let lhs = <Target<Target<FA, F>, B> as Pure>::pure(b);
    proof {
        assert(cloned(a, c) && f.ensures((c,), b) && is_pure(lhs, b));
    }
    let ff = <Target<FA, F> as Pure>::pure(f);
    let fx = FA::pure(a);
    assert(is_pure(fx, a));
    assert(is_pure(ff, f));
    let rhs = ff.ap(fx);
    proof {
        assert(is_pure(ff, f) && ff.ap_ensures(fx, rhs));
        assert(is_pure(fx, a) && pure_applied::<Target<FA, F>, FA::Param, B>(
            f,
            fx,
            rhs,
        ));
    }
    IsEq::equal_under_law(lhs, rhs)
}

/// Coherence of `map`: the left side is a clone of `fa` mapped with `f`, the
/// right side is `pure(f)` applied to `fa`.
pub fn applicative_map<FA, B, F>(fa: FA, f: F) -> (r: IsEq<Target<FA, B>>) where
    F: Fn(FA::Param) -> B,
    FA: Functor<B> + Retarget<F> + Clone,
    Target<FA, F>: Pure + Apply<<FA as Higher>::Param, B> + Retarget<
        <FA as Higher>::Param,
        Target = FA,
    > + Retarget<B, Target = Target<FA, B>>,

    requires
        forall|c: FA| #[trigger] cloned(fa, c) ==> callable_on_items(c, f),
        pure_applicable::<Target<FA, F>, FA::Param, B>(f, fa),
    ensures
        exists|c: FA| #[trigger] cloned(fa, c) && mapped(c, f, r.lhs),
        pure_applied::<Target<FA, F>, FA::Param, B>(f, fa, r.rhs),
{
    let c = fa.clone();
    assert(cloned(fa, c));
    let lhs = c.map(
        |a: FA::Param| -> (b: B)
            requires
                f.requires((a,))
            ensures
                f.ensures((a,), b)
            { f(a) },
    );
    proof {
        assert(cloned(fa, c) && mapped(c, f, lhs));
    }
    let ff = <Target<FA, F> as Pure>::pure(f);
    assert(is_pure(ff, f));
    let rhs = ff.ap(fa);
    proof {
        assert(is_pure(ff, f) && ff.ap_ensures(fa, rhs));
    }
    IsEq::equal_under_law(lhs, rhs)
}

/// `ap` and `product`: the left side is a clone of `ff` applied to a clone
/// of `fa`, the right side is the product of `ff` and `fa`, with every
/// function of a pair applied to the value of the pair.
pub fn ap_product_consistent<FF, A, B, F>(fa: Target<FF, A>, ff: FF) -> (r: IsEq<
    Target<FF, B>,
>) where
    F: Fn(A) -> B,
    FF: Higher<Param = F> + Apply<A, B> + Semigroupal<A> + Retarget<(F, A)> + Clone,
    Target<FF, A>: Clone,
    Target<FF, (F, A)>: Functor<B> + Retarget<B, Target = Target<FF, B>>,

    requires
        forall|cf: FF, ca: Target<FF, A>| #[trigger]
            cloned(ff, cf) && #[trigger] cloned(fa, ca) ==> cf.ap_requires(ca),
        ff.product_requires(fa),
        forall|p: Target<FF, (F, A)>, i: int| #[trigger]
            ff.product_ensures(fa, p) && 0 <= i < p.items().len() ==> (
            #[trigger] p.items()[i]).0.requires((p.items()[i].1,)),
    ensures
        exists|cf: FF, ca: Target<FF, A>|
            cloned(ff, cf) && cloned(fa, ca) && #[trigger] cf.ap_ensures(ca, r.lhs),
        exists|p: Target<FF, (F, A)>| #[trigger]
            ff.product_ensures(fa, p) && pairs_applied(p, r.rhs),
{
    let cf = ff.clone();
    let ca = fa.clone();
    assert(cloned(ff, cf) && cloned(fa, ca));
    let lhs = cf.ap(ca);
    proof {
        assert(cloned(ff, cf) && cloned(fa, ca) && cf.ap_ensures(ca, lhs));
    }
    let p = ff.product(fa);
    let rhs = p.map(
        |x: (F, A)| -> (b: B)
            requires
                x.0.requires((x.1,))
            ensures
                x.0.ensures((x.1,), b)
            {
                let f = x.0;
                f(x.1)
            },
    );
    proof {
        assert(ff.product_ensures(fa, p) && pairs_applied(p, rhs));
    }
    IsEq::equal_under_law(lhs, rhs)
}

/// Unit: the left side is `unit()` with its `()` replaced by a clone of
/// `a`, the right side is `pure(a)`.
pub fn applicative_unit<FA>(a: FA::Param) -> (r: IsEq<FA>) where
    FA: Pure + Retarget<()>,
    FA::Param: Clone,
    Target<FA, ()>: Pure + Functor<<FA as Higher>::Param> + Retarget<
        <FA as Higher>::Param,
        Target = FA,
    >,

    ensures
        r.lhs.shape() == <Target<FA, ()> as Pure>::pure_shape(),
        r.lhs.items().len() == 1,
        cloned(a, r.lhs.items()[0]),
        is_pure(r.rhs, a),
{
    let u = <Target<FA, ()> as Pure>::unit();
    let lhs = u.map(
        |x: ()| -> (b: FA::Param)
            ensures
                cloned(a, b)
            { a.clone() },
    );
    let rhs = FA::pure(a);
    IsEq::equal_under_law(lhs, rhs)
}

} // verus!
