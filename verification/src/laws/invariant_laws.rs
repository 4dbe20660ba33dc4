//! The two sides of the laws of invariant functors.
use crate::combinator::id;
use crate::functor::{lemma_map_identity, mapped};
use crate::higher::{Higher, Retarget, same, Target};
use crate::invariant_functor::Invariant;
use crate::laws::functor_laws::{composable_on_items, mapped_composed, mapped_twice, then_ensures};
use crate::laws::is_eq::IsEq;
use vstd::prelude::*;

verus! {

/// Identity: the left side is a clone of `fa`, the right side is `fa` under
/// `imap` with two identity functions, which is the same as `fa`.
pub fn invariant_identity<FA>(fa: FA) -> (r: IsEq<FA>) where
    FA: Invariant<<FA as Higher>::Param> + Retarget<<FA as Higher>::Param, Target = FA> + Clone,

    ensures
        cloned(fa, r.lhs),
        same(r.rhs, fa),
{
    let lhs = fa.clone();
    let rhs = fa.imap(id, id);
    proof {
        lemma_map_identity(fa, id::<FA::Param>, rhs);
    }
    IsEq::equal_under_law(lhs, rhs)
}

/// Composition: the left side is a clone of `fa` under `imap` with
/// `(f1, f2)` and then with `(g1, g2)`, the right side is `fa` under one
/// `imap` with `g1` after `f1` and `f2` after `g2`.
pub fn invariant_composition<FA, B, C, F1, F2, G1, G2>(fa: FA, f1: F1, f2: F2, g1: G1, g2: G2) -> (r:
    IsEq<Target<FA, C>>) where
    FA: Invariant<B> + Invariant<C> + Clone,
    Target<FA, B>: Invariant<C> + Retarget<C, Target = Target<FA, C>>,
    F1: Fn(FA::Param) -> B,
    F2: Fn(B) -> FA::Param,
    G1: Fn(B) -> C,
    G2: Fn(C) -> B,

    requires
        composable_on_items(fa, f1, g1),
    ensures
        exists|c: FA| #[trigger] cloned(fa, c) && mapped_twice(c, f1, g1, r.lhs),
        mapped_composed(fa, f1, g1, r.rhs),
{
    let c = fa.clone();
    assert(cloned(fa, c));
    let fb = <FA as Invariant<B>>::imap(
        c,
        |a: FA::Param| -> (b: B)
            requires
                f1.requires((a,))
            ensures
                f1.ensures((a,), b)
            { f1(a) },
        |b: B| -> (a: FA::Param)
            requires
                f2.requires((b,))
            { f2(b) },
    );
    let lhs = fb.imap(
        |b: B| -> (x: C)
            requires
                g1.requires((b,))
            ensures
                g1.ensures((b,), x)
            { g1(b) },
        |x: C| -> (b: B)
            requires
                g2.requires((x,))
            { g2(x) },
    );
    proof {
        assert(mapped(c, f1, fb) && mapped(fb, g1, lhs));
        assert(cloned(fa, fa));
    }
    let rhs = <FA as Invariant<C>>::imap(
        fa,
        |a: FA::Param| -> (x: C)
            requires
                f1.requires((a,)),
                forall|b: B| f1.ensures((a,), b) ==> g1.requires((b,))
            ensures
                then_ensures(f1, g1, a, x)
            {
                let b = f1(a);
                g1(b)
            },
        |x: C| -> (a: FA::Param)
            requires
                g2.requires((x,)),
                forall|b: B| g2.ensures((x,), b) ==> f2.requires((b,))
            {
                let b = g2(x);
                f2(b)
            },
    );
    IsEq::equal_under_law(lhs, rhs)
}

} // verus!
