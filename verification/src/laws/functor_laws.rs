//! The two sides of the functor laws.
use crate::combinator::id;
use crate::functor::{callable_on_items, lemma_map_identity, lift, mapped, Functor};
use crate::higher::{Higher, Retarget, same, Target};
use crate::laws::is_eq::IsEq;
use vstd::prelude::*;

verus! {

/// `r` is `fa` mapped with `f` and then with `g`.
pub open spec fn mapped_twice<FA, B, C, F, G>(
    fa: FA,
    f: F,
    g: G,
    r: Target<Target<FA, B>, C>,
) -> bool where
    FA: Retarget<B>,
    Target<FA, B>: Retarget<C>,
    F: FnOnce(FA::Param) -> B,
    G: FnOnce(B) -> C,
 {
    exists|fb: Target<FA, B>| #[trigger] mapped(fa, f, fb) && mapped(fb, g, r)
}

/// `r` is `fa` mapped with the function that applies `f` and then `g`.
pub open spec fn mapped_composed<FA, B, C, F, G>(
    fa: FA,
    f: F,
    g: G,
    r: Target<FA, C>,
) -> bool where FA: Retarget<C>, F: FnOnce(FA::Param) -> B, G: FnOnce(B) -> C {
    &&& r.shape() == fa.shape()
    &&& r.items().len() == fa.items().len()
    &&& forall|i: int|
        0 <= i < fa.items().len() ==> then_ensures(f, g, fa.items()[i], #[trigger] r.items()[i])
}

/// `c` is what `g` may return for something that `f` may return for `a`.
pub open spec fn then_ensures<A, B, C, F, G>(f: F, g: G, a: A, c: C) -> bool where
    F: FnOnce(A) -> B,
    G: FnOnce(B) -> C,
 {
    exists|b: B| f.ensures((a,), b) && g.ensures((b,), c)
}

/// `g` may be called on whatever `f` returns, and `f` on every item of `fa`
/// and of its clones.
pub open spec fn composable_on_items<FA, B, C, F, G>(fa: FA, f: F, g: G) -> bool where
    FA: Higher + Clone,
    F: FnOnce(FA::Param) -> B,
    G: FnOnce(B) -> C,
 {
    &&& forall|c: FA| #[trigger] cloned(fa, c) ==> callable_on_items(c, f)
    &&& forall|a: FA::Param, b: B| #[trigger] f.ensures((a,), b) ==> g.requires((b,))
}

/// Identity: the left side is a clone of `fa`, the right side is `fa` mapped
/// with the identity function, which is the same as `fa`.
pub fn covariant_identity<FA>(fa: FA) -> (r: IsEq<FA>) where
    FA: Functor<<FA as Higher>::Param> + Retarget<<FA as Higher>::Param, Target = FA> + Clone,

    ensures
        cloned(fa, r.lhs),
        same(r.rhs, fa),
{
    let lhs = fa.clone();
    let rhs = fa.map(id);
    proof {
        lemma_map_identity(fa, id::<FA::Param>, rhs);
    }
    IsEq::equal_under_law(lhs, rhs)
}

/// Composition: the left side is a clone of `fa` mapped with `f` and then
/// with `g`, the right side is `fa` mapped with `g` after `f`.
pub fn covariant_composition<FA, B, C, F, G>(fa: FA, f: F, g: G) -> (r: IsEq<
    Target<FA, C>,
>) where
    FA: Functor<B> + Functor<C> + Clone,
    Target<FA, B>: Functor<C> + Retarget<C, Target = Target<FA, C>>,
    F: Fn(FA::Param) -> B,
    G: Fn(B) -> C,

    requires
        composable_on_items(fa, f, g),
    ensures
        exists|c: FA| #[trigger] cloned(fa, c) && mapped_twice(c, f, g, r.lhs),
        mapped_composed(fa, f, g, r.rhs),
{
    let c = fa.clone();
    assert(cloned(fa, c));
    let fb = <FA as Functor<B>>::map(
        c,
        |a: FA::Param| -> (b: B)
            requires
                f.requires((a,))
            ensures
                f.ensures((a,), b)
            { f(a) },
    );
    let lhs = fb.map(
        |b: B| -> (x: C)
            requires
                g.requires((b,))
            ensures
                g.ensures((b,), x)
            { g(b) },
    );
    proof {
        assert(mapped(c, f, fb) && mapped(fb, g, lhs));
        assert(cloned(fa, fa));
    }
    let rhs = <FA as Functor<C>>::map(
        fa,
        |a: FA::Param| -> (x: C)
            requires
                f.requires((a,)),
                forall|b: B| f.ensures((a,), b) ==> g.requires((b,))
            ensures
                then_ensures(f, g, a, x)
            {
                let b = f(a);
                g(b)
            },
    );
    IsEq::equal_under_law(lhs, rhs)
}

/// Identity, through `lift`: the left side is a clone of `fa`, the right
/// side is what the lifted identity function gives for `fa`, which is the
/// same as `fa`.
pub fn lift_identity<FA>(fa: FA) -> (r: IsEq<FA>) where
    FA: Functor<<FA as Higher>::Param> + Retarget<<FA as Higher>::Param, Target = FA> + Clone,

    ensures
        cloned(fa, r.lhs),
        same(r.rhs, fa),
{
    let lhs = fa.clone();
    let lifted = lift::<FA, FA::Param, _>(id);
    let rhs = lifted(fa);
    proof {
        lemma_map_identity(fa, id::<FA::Param>, rhs);
    }
    IsEq::equal_under_law(lhs, rhs)
}

/// Composition, through `lift`: the left side is what the lifted `g` gives
/// for what the lifted `f` gives for a clone of `fa`, the right side is
/// what the lifted `g` after `f` gives for `fa`.
pub fn lift_composition<FA, B, C, F, G>(fa: FA, f: F, g: G) -> (r: IsEq<
    Target<FA, C>,
>) where
    FA: Functor<B> + Functor<C> + Clone,
    Target<FA, B>: Functor<C> + Retarget<C, Target = Target<FA, C>>,
    F: Fn(FA::Param) -> B,
    G: Fn(B) -> C,

    requires
        composable_on_items(fa, f, g),
    ensures
        exists|c: FA| #[trigger] cloned(fa, c) && mapped_twice(c, f, g, r.lhs),
        mapped_composed(fa, f, g, r.rhs),
{
    let c = fa.clone();
    assert(cloned(fa, c));
    let lift_f = lift::<FA, B, _>(
        |a: FA::Param| -> (b: B)
            requires
                f.requires((a,))
            ensures
                f.ensures((a,), b)
            { f(a) },
    );
    let lift_g = lift::<Target<FA, B>, C, _>(
        |b: B| -> (x: C)
            requires
                g.requires((b,))
            ensures
                g.ensures((b,), x)
            { g(b) },
    );
    let fb = lift_f(c);
    let lhs = lift_g(fb);
    proof {
        assert(mapped(c, f, fb) && mapped(fb, g, lhs));
        assert(cloned(fa, fa));
    }
    let lift_gf = lift::<FA, C, _>(
        |a: FA::Param| -> (x: C)
            requires
                f.requires((a,)),
                forall|b: B| f.ensures((a,), b) ==> g.requires((b,))
            ensures
                then_ensures(f, g, a, x)
            {
                let b = f(a);
                g(b)
            },
    );
    let rhs = lift_gf(fa);
    IsEq::equal_under_law(lhs, rhs)
}

} // verus!
