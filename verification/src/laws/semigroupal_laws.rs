//! The two sides of the law of semigroupals.
use crate::higher::{Higher, Retarget, Target};
use crate::invariant_functor::Invariant;
use crate::laws::is_eq::IsEq;
use crate::semigroupal::Semigroupal;
use vstd::prelude::*;

verus! {

/// `abc` is the product of `fa` and `fb`, paired with `fc`.
pub open spec fn paired_from_left<FA, B, C>(
    fa: FA,
    fb: Target<FA, B>,
    fc: Target<Target<FA, (FA::Param, B)>, C>,
    abc: Target<Target<FA, (FA::Param, B)>, ((FA::Param, B), C)>,
) -> bool where
    FA: Semigroupal<B>,
    Target<FA, (<FA as Higher>::Param, B)>: Semigroupal<C> + Retarget<
        ((<FA as Higher>::Param, B), C),
    >,
 {
    exists|ab: Target<FA, (FA::Param, B)>| #[trigger]
        fa.product_ensures(fb, ab) && ab.product_ensures(fc, abc)
}

/// `abc` is `fa` paired with the product of `fb` and `fc`.
pub open spec fn paired_from_right<FA, B, C>(
    fa: FA,
    fb: Target<FA, B>,
    fc: Target<Target<FA, B>, C>,
    abc: Target<FA, (FA::Param, (B, C))>,
) -> bool where
    FA: Semigroupal<B> + Semigroupal<(B, C)>,
    Target<FA, B>: Semigroupal<C> + Retarget<
        (B, C),
        Target = Target<FA, (B, C)>,
    >,
 {
    exists|bc: Target<FA, (B, C)>| #[trigger]
        fb.product_ensures(fc, bc) && <FA as Semigroupal<(B, C)>>::product_ensures(fa, bc, abc)
}

/// `r` is `abc` with every item `((a, b), c)` turned into `(a, b, c)`.
pub open spec fn flattened_from_left<L, A, B, C>(
    abc: L,
    r: Target<L, (A, B, C)>,
) -> bool where L: Higher<Param = ((A, B), C)> + Retarget<(A, B, C)> {
    &&& r.shape() == abc.shape()
    &&& r.items().len() == abc.items().len()
    &&& forall|i: int|
        0 <= i < abc.items().len() ==> #[trigger] r.items()[i] == (
            abc.items()[i].0.0,
            abc.items()[i].0.1,
            abc.items()[i].1,
        )
}

/// `r` is `abc` with every item `(a, (b, c))` turned into `(a, b, c)`.
pub open spec fn flattened_from_right<R, A, B, C>(
    abc: R,
    r: Target<R, (A, B, C)>,
) -> bool where R: Higher<Param = (A, (B, C))> + Retarget<(A, B, C)> {
    &&& r.shape() == abc.shape()
    &&& r.items().len() == abc.items().len()
    &&& forall|i: int|
        0 <= i < abc.items().len() ==> #[trigger] r.items()[i] == (
            abc.items()[i].0,
            abc.items()[i].1.0,
            abc.items()[i].1.1,
        )
}

/// The clones of the three containers can be paired from the left, and the
/// containers themselves from the right.
pub open spec fn can_pair_both_ways<FA, B, C>(
    fa: FA,
    fb: Target<FA, B>,
    fc: Target<FA, C>,
) -> bool where
    FA: Semigroupal<B> + Semigroupal<(B, C)> + Retarget<C> + Clone,
    Target<FA, B>: Semigroupal<C> + Retarget<
        C,
        Target = Target<FA, C>,
    > + Retarget<(B, C), Target = Target<FA, (B, C)>> + Clone,
    Target<FA, C>: Clone,
    Target<FA, (<FA as Higher>::Param, B)>: Semigroupal<C> + Retarget<
        C,
        Target = Target<FA, C>,
    >,
 {
    &&& forall|ca: FA, cb: Target<FA, B>| #[trigger]
        cloned(fa, ca) && #[trigger] cloned(fb, cb) ==> <FA as Semigroupal<B>>::product_requires(
            ca,
            cb,
        )
    &&& forall|
        ca: FA,
        cb: Target<FA, B>,
        cc: Target<FA, C>,
        ab: Target<FA, (FA::Param, B)>,
    |
        cloned(fa, ca) && cloned(fb, cb) && #[trigger] cloned(fc, cc) && #[trigger] <FA as Semigroupal<
            B,
        >>::product_ensures(ca, cb, ab) ==> ab.product_requires(cc)
    &&& fb.product_requires(fc)
    &&& forall|bc: Target<FA, (B, C)>| #[trigger]
        fb.product_ensures(fc, bc) ==> <FA as Semigroupal<(B, C)>>::product_requires(fa, bc)
}

/// Associativity: the left side is the clones paired from the left, the
/// right side is the containers paired from the right, both with their
/// nested pairs turned into triples.
pub fn semigroupal_associativity<FA, B, C>(
    fa: FA,
    fb: Target<FA, B>,
    fc: Target<FA, C>,
) -> (r: IsEq<Target<FA, (FA::Param, B, C)>>) where
    FA: Semigroupal<B> + Semigroupal<(B, C)> + Retarget<C> + Retarget<
        (<FA as Higher>::Param, B, C),
    > + Clone,
    Target<FA, B>: Semigroupal<C> + Retarget<
        C,
        Target = Target<FA, C>,
    > + Retarget<(B, C), Target = Target<FA, (B, C)>> + Clone,
    Target<FA, C>: Clone,
    Target<FA, (<FA as Higher>::Param, B)>: Semigroupal<C> + Retarget<
        C,
        Target = Target<FA, C>,
    > + Retarget<((<FA as Higher>::Param, B), C)>,
    Target<Target<FA, (<FA as Higher>::Param, B)>, ((<FA as Higher>::Param, B), C)>: Invariant<
        (<FA as Higher>::Param, B, C),
    > + Retarget<
        (<FA as Higher>::Param, B, C),
        Target = Target<FA, (<FA as Higher>::Param, B, C)>,
    >,
    Target<FA, (<FA as Higher>::Param, (B, C))>: Invariant<
        (<FA as Higher>::Param, B, C),
    > + Retarget<
        (<FA as Higher>::Param, B, C),
        Target = Target<FA, (<FA as Higher>::Param, B, C)>,
    >,

    requires
        can_pair_both_ways(fa, fb, fc),
    ensures
        exists|
            ca: FA,
            cb: Target<FA, B>,
            cc: Target<FA, C>,
            abc: Target<Target<FA, (FA::Param, B)>, ((FA::Param, B), C)>,
        |
            {
                &&& cloned(fa, ca)
                &&& cloned(fb, cb)
                &&& cloned(fc, cc)
                &&& #[trigger] paired_from_left::<FA, B, C>(ca, cb, cc, abc)
                &&& flattened_from_left(abc, r.lhs)
            },
        exists|abc: Target<FA, (FA::Param, (B, C))>| #[trigger]
            paired_from_right::<FA, B, C>(fa, fb, fc, abc) && flattened_from_right(abc, r.rhs),
{
    let ca = fa.clone();
    let cb = fb.clone();
    let cc = fc.clone();
    assert(cloned(fa, ca) && cloned(fb, cb) && cloned(fc, cc));
    let ab = <FA as Semigroupal<B>>::product(ca, cb);
    let abc_left = ab.product(cc);
    let lhs = abc_left.imap(
        |x: ((FA::Param, B), C)| -> (y: (FA::Param, B, C))
            ensures
                y == (x.0.0, x.0.1, x.1)
            { (x.0.0, x.0.1, x.1) },
        |y: (FA::Param, B, C)| -> (x: ((FA::Param, B), C)) { ((y.0, y.1), y.2) },
    );
    proof {
        assert(<FA as Semigroupal<B>>::product_ensures(ca, cb, ab) && ab.product_ensures(
            cc,
            abc_left,
        ));
        assert(paired_from_left::<FA, B, C>(ca, cb, cc, abc_left) && flattened_from_left(
            abc_left,
            lhs,
        ));
    }
    let bc = fb.product(fc);
    let abc_right = <FA as Semigroupal<(B, C)>>::product(fa, bc);
    let rhs = abc_right.imap(
        |x: (FA::Param, (B, C))| -> (y: (FA::Param, B, C))
            ensures
                y == (x.0, x.1.0, x.1.1)
            { (x.0, x.1.0, x.1.1) },
        |y: (FA::Param, B, C)| -> (x: (FA::Param, (B, C))) { (y.0, (y.1, y.2)) },
    );
    proof {
        assert(fb.product_ensures(fc, bc) && <FA as Semigroupal<(B, C)>>::product_ensures(
            fa,
            bc,
            abc_right,
        ));
        assert(paired_from_right::<FA, B, C>(fa, fb, fc, abc_right) && flattened_from_right(
            abc_right,
            rhs,
        ));
    }
    IsEq::equal_under_law(lhs, rhs)
}

} // verus!
