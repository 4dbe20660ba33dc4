//! The two sides of the laws of contravariant functors.
use crate::combinator::id;
use crate::contravariant::{
    contramapped, lemma_contramap_identity, lift_contravariant, Contravariant,
};
use crate::higher::{Higher, Retarget, same, Target};
use crate::laws::functor_laws::then_ensures;
use crate::laws::is_eq::IsEq;
use vstd::prelude::*;

verus! {

/// `r` is `fa` under `contramap` with `f` and then with `g`.
pub open spec fn contramapped_twice<FA, B, C, F, G>(
    fa: FA,
    f: F,
    g: G,
    r: Target<Target<FA, B>, C>,
) -> bool where
    FA: Retarget<B>,
    Target<FA, B>: Retarget<C>,
    F: FnOnce(B) -> FA::Param,
    G: FnOnce(C) -> B,
 {
    exists|fb: Target<FA, B>| #[trigger]
        contramapped(fa, f, fb) && contramapped(fb, g, r)
}

/// `r` is `fa` under `contramap` with the function that applies `g` and
/// then `f`.
pub open spec fn contramapped_composed<FA, B, C, F, G>(
    fa: FA,
    f: F,
    g: G,
    r: Target<FA, C>,
) -> bool where FA: Retarget<C>, F: FnOnce(B) -> FA::Param, G: FnOnce(C) -> B {
    &&& r.shape() == fa.shape()
    &&& r.items().len() == fa.items().len()
    &&& forall|i: int|
        0 <= i < fa.items().len() ==> then_ensures(g, f, #[trigger] r.items()[i], fa.items()[i])
}

/// Identity: the left side is a clone of `fa`, the right side is `fa` under
/// `contramap` with the identity function, which is the same as `fa`.
pub fn contravariant_identity<FA>(fa: FA) -> (r: IsEq<FA>) where
    FA: Contravariant<<FA as Higher>::Param> + Retarget<<FA as Higher>::Param, Target = FA> + Clone,

    ensures
        cloned(fa, r.lhs),
        same(r.rhs, fa),
{
    let lhs = fa.clone();
    let rhs = fa.contramap(id);
    proof {
        lemma_contramap_identity(fa, id::<FA::Param>, rhs);
    }
    IsEq::equal_under_law(lhs, rhs)
}

/// Composition: the left side is a clone of `fa` under `contramap` with `f`
/// and then with `g`, the right side is `fa` under `contramap` with `f`
/// after `g`.
pub fn contravariant_composition<FA, B, C, F, G>(fa: FA, f: F, g: G) -> (r: IsEq<
    Target<FA, C>,
>) where
    FA: Contravariant<B> + Contravariant<C> + Clone,
    Target<FA, B>: Contravariant<C> + Retarget<
        C,
        Target = Target<FA, C>,
    >,
    F: Fn(B) -> FA::Param,
    G: Fn(C) -> B,

    ensures
        exists|c: FA| #[trigger] cloned(fa, c) && contramapped_twice(c, f, g, r.lhs),
        contramapped_composed(fa, f, g, r.rhs),
{
    let c = fa.clone();
    assert(cloned(fa, c));
    let fb = <FA as Contravariant<B>>::contramap(
        c,
        |b: B| -> (a: FA::Param)
            requires
                f.requires((b,))
            ensures
                f.ensures((b,), a)
            { f(b) },
    );
    let lhs = fb.contramap(
        |x: C| -> (b: B)
            requires
                g.requires((x,))
            ensures
                g.ensures((x,), b)
            { g(x) },
    );
    proof {
        assert(contramapped(c, f, fb) && contramapped(fb, g, lhs));
    }
    let rhs = <FA as Contravariant<C>>::contramap(
        fa,
        |x: C| -> (a: FA::Param)
            requires
                g.requires((x,)),
                forall|b: B| g.ensures((x,), b) ==> f.requires((b,))
            ensures
                then_ensures(g, f, x, a)
            {
                let b = g(x);
                f(b)
            },
    );
    IsEq::equal_under_law(lhs, rhs)
}

/// Identity, through `lift_contravariant`: the left side is a clone of
/// `fa`, the right side is what the lifted identity function gives for `fa`,
/// which is the same as `fa`.
pub fn lift_contravariant_identity<FA>(fa: FA) -> (r: IsEq<FA>) where
    FA: Contravariant<<FA as Higher>::Param> + Retarget<<FA as Higher>::Param, Target = FA> + Clone,

    ensures
        cloned(fa, r.lhs),
        same(r.rhs, fa),
{
    let lhs = fa.clone();
    let lifted = lift_contravariant::<FA, FA::Param, _>(id);
    let rhs = lifted(fa);
    proof {
        lemma_contramap_identity(fa, id::<FA::Param>, rhs);
    }
    IsEq::equal_under_law(lhs, rhs)
}

/// Composition, through `lift_contravariant`: the left side is what the
/// lifted `g` gives for what the lifted `f` gives for a clone of `fa`, the
/// right side is what the lifted `f` after `g` gives for `fa`.
pub fn lift_contravariant_composition<FA, B, C, F, G>(fa: FA, f: F, g: G) -> (r: IsEq<
    Target<FA, C>,
>) where
    FA: Contravariant<B> + Contravariant<C> + Clone,
    Target<FA, B>: Contravariant<C> + Retarget<
        C,
        Target = Target<FA, C>,
    >,
    F: Fn(B) -> FA::Param,
    G: Fn(C) -> B,

    ensures
        exists|c: FA| #[trigger] cloned(fa, c) && contramapped_twice(c, f, g, r.lhs),
        contramapped_composed(fa, f, g, r.rhs),
{
    let c = fa.clone();
    assert(cloned(fa, c));
    let lift_f = lift_contravariant::<FA, B, _>(
        |b: B| -> (a: FA::Param)
            requires
                f.requires((b,))
            ensures
                f.ensures((b,), a)
            { f(b) },
    );
    let lift_g = lift_contravariant::<Target<FA, B>, C, _>(
        |x: C| -> (b: B)
            requires
                g.requires((x,))
            ensures
                g.ensures((x,), b)
            { g(x) },
    );
    let fb = lift_f(c);
    let lhs = lift_g(fb);
    proof {
        assert(contramapped(c, f, fb) && contramapped(fb, g, lhs));
    }
    let lift_fg = lift_contravariant::<FA, C, _>(
        |x: C| -> (a: FA::Param)
            requires
                g.requires((x,)),
                forall|b: B| g.ensures((x,), b) ==> f.requires((b,))
            ensures
                then_ensures(g, f, x, a)
            {
                let b = g(x);
                f(b)
            },
    );
    let rhs = lift_fg(fa);
    IsEq::equal_under_law(lhs, rhs)
}

} // verus!
