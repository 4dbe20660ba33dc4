//! The two sides of the laws of `Apply`.
use crate::functor::Functor;
use crate::higher::{Higher, Target};
use crate::laws::is_eq::IsEq;
use crate::map_n::{
    callable_on_pairs, lemma_product_l_consistency, lemma_product_r_consistency, map2_ensures,
    mapped_pairs, product_l_ensures, product_r_ensures, MapN,
};
use crate::semigroupal::Semigroupal;
use vstd::prelude::*;

verus! {

/// Every clone of `fa` can be paired with every clone of `fb`.
pub open spec fn clones_can_pair<FA, B>(fa: FA, fb: Target<FA, B>) -> bool where
    FA: Semigroupal<B> + Clone,
    Target<FA, B>: Clone,
 {
    forall|ca: FA, cb: Target<FA, B>| #[trigger]
        cloned(fa, ca) && #[trigger] cloned(fb, cb) ==> ca.product_requires(cb)
}

/// `map2` and `product`: the left side is the product of clones of `fa` and
/// `fb`, mapped with `f` on the two parts of each pair; the right side is
/// `fa.map2(fb, f)`.
pub fn map2_product_consistency<FA, B, Z, F>(fa: FA, fb: Target<FA, B>, f: F) -> (r:
    IsEq<Target<Target<FA, (FA::Param, B)>, Z>>) where
    FA: Semigroupal<B> + Clone,
    Target<FA, B>: Clone,
    Target<FA, (<FA as Higher>::Param, B)>: Functor<Z>,
    F: Fn(FA::Param, B) -> Z,

    requires
        clones_can_pair(fa, fb),
        forall|ca: FA, cb: Target<FA, B>, p: Target<FA, (FA::Param, B)>|
            cloned(fa, ca) && cloned(fb, cb) && #[trigger] ca.product_ensures(cb, p)
                ==> callable_on_pairs(p, f),
    ensures
        exists|ca: FA, cb: Target<FA, B>|
            cloned(fa, ca) && cloned(fb, cb) && #[trigger] map2_ensures(ca, cb, f, r.lhs),
        map2_ensures(fa, fb, f, r.rhs),
{
    let ca = fa.clone();
    let cb = fb.clone();
    assert(cloned(fa, ca) && cloned(fb, cb));
    let p = ca.product(cb);
    let lhs = p.map(
        |x: (FA::Param, B)| -> (z: Z)
            requires
                f.requires((x.0, x.1))
            ensures
                f.ensures((x.0, x.1), z)
            { f(x.0, x.1) },
    );
    proof {
        assert(ca.product_ensures(cb, p) && mapped_pairs(p, f, lhs));
        assert(cloned(fa, ca) && cloned(fb, cb) && map2_ensures(ca, cb, f, lhs));
        assert(cloned(fa, fa) && cloned(fb, fb));
    }
    let rhs = fa.map2(fb, f);
    IsEq::equal_under_law(lhs, rhs)
}

/// `product_r` and `map2`: the left side is `product_r` of clones of `fa`
/// and `fb`; the right side is `fa.map2(fb, f)` with `f` returning its
/// second argument, which is what `product_r` gives.
pub fn product_r_consistency<FA, B>(fa: FA, fb: Target<FA, B>) -> (r: IsEq<
    Target<Target<FA, (FA::Param, B)>, B>,
>) where
    FA: Semigroupal<B> + Clone,
    Target<FA, B>: Clone,
    Target<FA, (<FA as Higher>::Param, B)>: Functor<B>,

    requires
        clones_can_pair(fa, fb),
    ensures
        exists|ca: FA, cb: Target<FA, B>|
            cloned(fa, ca) && cloned(fb, cb) && #[trigger] product_r_ensures(ca, cb, r.lhs),
        product_r_ensures(fa, fb, r.rhs),
{
    let ca = fa.clone();
    let cb = fb.clone();
    assert(cloned(fa, ca) && cloned(fb, cb));
    let lhs = ca.product_r(cb);
    proof {
        assert(cloned(fa, ca) && cloned(fb, cb) && product_r_ensures(ca, cb, lhs));
        assert(cloned(fa, fa) && cloned(fb, fb));
    }
    let second = |a: FA::Param, b: B| -> (z: B)
        ensures
            z == b
        { b };
    let rhs = fa.map2(fb, second);
    proof {
        lemma_product_r_consistency(fa, fb, second, rhs);
    }
    IsEq::equal_under_law(lhs, rhs)
}

/// `product_l` and `map2`: the left side is `product_l` of clones of `fa`
/// and `fb`; the right side is `fa.map2(fb, f)` with `f` returning its first
/// argument, which is what `product_l` gives.
pub fn product_l_consistency<FA, B>(fa: FA, fb: Target<FA, B>) -> (r: IsEq<
    Target<Target<FA, (FA::Param, B)>, FA::Param>,
>) where
    FA: Semigroupal<B> + Clone,
    Target<FA, B>: Clone,
    Target<FA, (<FA as Higher>::Param, B)>: Functor<<FA as Higher>::Param>,

    requires
        clones_can_pair(fa, fb),
    ensures
        exists|ca: FA, cb: Target<FA, B>|
            cloned(fa, ca) && cloned(fb, cb) && #[trigger] product_l_ensures(ca, cb, r.lhs),
        product_l_ensures(fa, fb, r.rhs),
{
    let ca = fa.clone();
    let cb = fb.clone();
    assert(cloned(fa, ca) && cloned(fb, cb));
    let lhs = ca.product_l(cb);
    proof {
        assert(cloned(fa, ca) && cloned(fb, cb) && product_l_ensures(ca, cb, lhs));
        assert(cloned(fa, fa) && cloned(fb, fb));
    }
    let first = |a: FA::Param, b: B| -> (z: FA::Param)
        ensures
            z == a
        { a };
    let rhs = fa.map2(fb, first);
    proof {
        lemma_product_l_consistency(fa, fb, first, rhs);
    }
    IsEq::equal_under_law(lhs, rhs)
}

} // verus!
