//! The two sides of the laws of `FlatMap`.
use crate::apply::Apply;
use crate::flatmap::{flat_mapped, result_paired_with, FlatMap, FlatMapOps};
use crate::functor::{callable_on_items, mapped, Functor};
use crate::higher::{Higher, Retarget, Target};
use crate::laws::is_eq::IsEq;
use crate::monad::bound_after;
use vstd::prelude::*;

verus! {

/// `r` is what `fa.flat_map(h)` may give, where `h` returns
/// `f(x).flat_map(g)`.
pub open spec fn flat_mapped_nested<FA, B, C, F, G>(
    fa: FA,
    f: F,
    g: G,
    r: Target<FA, C>,
) -> bool where
    FA: FlatMap<C> + Retarget<B>,
    Target<FA, B>: FlatMap<C> + Retarget<C, Target = Target<FA, C>>,
    F: FnOnce(FA::Param) -> Target<FA, B>,
    G: FnOnce(B) -> Target<FA, C>,
 {
    exists|parts: Seq<Target<FA, C>>|
        {
            &&& parts.len() == fa.items().len()
            &&& forall|i: int|
                0 <= i < parts.len() ==> bound_after(f, g, fa.items()[i], #[trigger] parts[i])
            &&& #[trigger] <FA as FlatMap<C>>::joined(fa, parts, r)
        }
}

/// `r` is what `fa.flat_map(f).flat_map(g)` may give.
pub open spec fn flat_mapped_twice<FA, B, C, F, G>(
    fa: FA,
    f: F,
    g: G,
    r: Target<FA, C>,
) -> bool where
    FA: FlatMap<B> + Retarget<C>,
    Target<FA, B>: FlatMap<C> + Retarget<C, Target = Target<FA, C>>,
    F: FnOnce(FA::Param) -> Target<FA, B>,
    G: FnOnce(B) -> Target<FA, C>,
 {
    exists|mb: Target<FA, B>| #[trigger]
        flat_mapped::<FA, B, F>(fa, f, mb) && flat_mapped(mb, g, r)
}

/// Associativity: the left side is a clone of `fa` under `flat_map` with
/// the function that returns `f(x).flat_map(g)`, the right side is `fa`
/// under `flat_map` with `f` and then with `g`.
pub fn flat_map_associativity<FA, B, C, F, G>(fa: FA, f: F, g: G) -> (r: IsEq<
    Target<FA, C>,
>) where
    FA: FlatMap<B> + FlatMap<C> + Clone,
    Target<FA, B>: FlatMap<C> + Retarget<C, Target = Target<FA, C>>,
    F: Fn(FA::Param) -> Target<FA, B>,
    G: Fn(B) -> Target<FA, C>,

    requires
        forall|c: FA| #[trigger] cloned(fa, c) ==> callable_on_items(c, f),
        forall|a: FA::Param, fb: Target<FA, B>| #[trigger]
            f.ensures((a,), fb) ==> callable_on_items(fb, g),
        forall|mb: Target<FA, B>| #[trigger]
            flat_mapped::<FA, B, F>(fa, f, mb) ==> callable_on_items(mb, g),
    ensures
        exists|c: FA| #[trigger] cloned(fa, c) && flat_mapped_nested(c, f, g, r.lhs),
        flat_mapped_twice(fa, f, g, r.rhs),
{
    let c = fa.clone();
    assert(cloned(fa, c));
    assert(cloned(fa, fa));
    let lhs = <FA as FlatMap<C>>::flat_map(
        c,
        |a: FA::Param| -> (out: Target<FA, C>)
            requires
                f.requires((a,)),
                forall|fb: Target<FA, B>| #[trigger]
                    f.ensures((a,), fb) ==> callable_on_items(fb, g)
            ensures
                bound_after(f, g, a, out)
            {
                let fb = f(a);
                let out = fb.flat_map(
                    |b: B| -> (x: Target<FA, C>)
                        requires
                            g.requires((b,))
                        ensures
                            g.ensures((b,), x)
                        { g(b) },
                );
                proof {
                    assert(flat_mapped(fb, g, out));
                    assert(f.ensures((a,), fb) && flat_mapped(fb, g, out));
                }
                out
            },
    );
    proof {
        assert(flat_mapped_nested(c, f, g, lhs));
    }
    let mb = <FA as FlatMap<B>>::flat_map(
        fa,
        |a: FA::Param| -> (fb: Target<FA, B>)
            requires
                f.requires((a,))
            ensures
                f.ensures((a,), fb)
            { f(a) },
    );
    assert(flat_mapped::<FA, B, F>(fa, f, mb));
    let rhs = mb.flat_map(
        |b: B| -> (x: Target<FA, C>)
            requires
                g.requires((b,))
            ensures
                g.ensures((b,), x)
            { g(b) },
    );
    proof {
        assert(flat_mapped::<FA, B, F>(fa, f, mb));
        assert(flat_mapped(mb, g, rhs));
    }
    IsEq::equal_under_law(lhs, rhs)
}

/// `part` is a clone of `fa` mapped with `f`.
pub open spec fn clone_mapped<FA, B, F>(fa: FA, f: F, part: Target<FA, B>) -> bool where
    FA: Retarget<B> + Clone,
    F: FnOnce(FA::Param) -> B,
 {
    exists|ca: FA| #[trigger] cloned(fa, ca) && mapped(ca, f, part)
}

/// `r` is what `ff.flat_map(h)` may give, where `h` returns a clone of `fa`
/// mapped with its argument.
pub open spec fn flat_mapped_over<FF, A, B, F>(
    ff: FF,
    fa: Target<FF, A>,
    r: Target<FF, B>,
) -> bool where
    FF: Higher<Param = F> + FlatMap<B> + Retarget<A>,
    Target<FF, A>: Retarget<B, Target = Target<FF, B>> + Clone,
    F: FnOnce(A) -> B,
 {
    exists|parts: Seq<Target<FF, B>>|
        {
            &&& parts.len() == ff.items().len()
            &&& forall|i: int|
                0 <= i < parts.len() ==> clone_mapped(fa, ff.items()[i], #[trigger] parts[i])
            &&& #[trigger] ff.joined(parts, r)
        }
}

/// `flat_map` and `ap`: the left side is a clone of `ff` under `flat_map`
/// with the function that maps a clone of `fa` with its argument, the right
/// side is `ff` applied to `fa`.
pub fn flat_map_consistent_apply<FF, A, B, F>(fa: Target<FF, A>, ff: FF) -> (r: IsEq<
    Target<FF, B>,
>) where
    F: Fn(A) -> B,
    FF: Higher<Param = F> + FlatMap<B> + Apply<A, B> + Clone,
    Target<FF, A>: Functor<B> + Retarget<
        B,
        Target = Target<FF, B>,
    > + Clone,

    requires
        forall|cf: FF, ca: Target<FF, A>, i: int| #[trigger]
            cloned(ff, cf) && #[trigger] cloned(fa, ca) && 0 <= i < cf.items().len()
                ==> callable_on_items(ca, #[trigger] cf.items()[i]),
        ff.ap_requires(fa),
    ensures
        exists|cf: FF| #[trigger] cloned(ff, cf) && flat_mapped_over(cf, fa, r.lhs),
        ff.ap_ensures(fa, r.rhs),
{
    let cf = ff.clone();
    assert(cloned(ff, cf));
    let lhs = cf.flat_map(
        |f: F| -> (part: Target<FF, B>)
            requires
                forall|ca: Target<FF, A>| #[trigger]
                    cloned(fa, ca) ==> callable_on_items(ca, f)
            ensures
                clone_mapped(fa, f, part)
            {
                let ca = fa.clone();
                assert(cloned(fa, ca));
                let part = ca.map(
                    |a: A| -> (b: B)
                        requires
                            f.requires((a,))
                        ensures
                            f.ensures((a,), b)
                        { f(a) },
                );
                proof {
                    assert(cloned(fa, ca) && mapped(ca, f, part));
                }
                part
            },
    );
    proof {
        assert(flat_mapped_over(cf, fa, lhs));
    }
    let rhs = ff.ap(fa);
    IsEq::equal_under_law(lhs, rhs)
}

/// `r` is what `fa.m_product(f)` may give.
pub open spec fn m_product_ensures<FA, B, F>(
    fa: FA,
    f: F,
    r: Target<FA, (FA::Param, B)>,
) -> bool where
    FA: FlatMap<(<FA as Higher>::Param, B)> + Retarget<B>,
    Target<FA, B>: Retarget<
        (<FA as Higher>::Param, B),
        Target = Target<FA, (<FA as Higher>::Param, B)>,
    >,
    F: FnOnce(FA::Param) -> Target<FA, B>,
 {
    exists|parts: Seq<Target<FA, (FA::Param, B)>>|
        {
            &&& parts.len() == fa.items().len()
            &&& forall|i: int|
                0 <= i < parts.len() ==> result_paired_with(f, fa.items()[i], #[trigger] parts[i])
            &&& #[trigger] fa.joined(parts, r)
        }
}

/// `m_product`: the left side is `fa.m_product(f)`, the right side is a
/// clone of `fa` under `flat_map` with the function that pairs its argument
/// with every item of what `f` returns for it.
pub fn m_product_consistency<FA, B, F>(fa: FA, f: F) -> (r: IsEq<
    Target<FA, (FA::Param, B)>,
>) where
    FA: FlatMap<(<FA as Higher>::Param, B)> + Retarget<B> + Clone,
    FA::Param: Copy,
    F: Fn(FA::Param) -> Target<FA, B>,
    Target<FA, B>: Functor<(<FA as Higher>::Param, B)> + Retarget<
        (<FA as Higher>::Param, B),
        Target = Target<FA, (<FA as Higher>::Param, B)>,
    >,

    requires
        forall|c: FA| #[trigger] cloned(fa, c) ==> callable_on_items(c, f),
    ensures
        m_product_ensures(fa, f, r.lhs),
        exists|c: FA| #[trigger] cloned(fa, c) && m_product_ensures(c, f, r.rhs),
{
    let c = fa.clone();
    assert(cloned(fa, c));
    assert(cloned(fa, fa));
    let rhs = c.flat_map(
        |a: FA::Param| -> (p: Target<FA, (FA::Param, B)>)
            requires
                f.requires((a,))
            ensures
                result_paired_with(f, a, p)
            {
                let fb = f(a);
                let p = fb.map(
                    |b: B| -> (x: (FA::Param, B))
                        ensures
                            x == (a, b)
                        { (a, b) },
                );
                proof {
                    assert(f.ensures((a,), fb) && crate::flatmap::paired_with(a, fb, p));
                }
                p
            },
    );
    proof {
        assert(m_product_ensures(c, f, rhs));
    }
    let lhs = fa.m_product(f);
    IsEq::equal_under_law(lhs, rhs)
}

} // verus!
