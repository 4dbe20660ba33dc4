//! The two sides of the bifunctor laws.
use crate::bifunctor::{bimapped, callable_on_slots, lemma_bimap_identity, Bifunctor};
use crate::combinator::id;
use crate::higher::{same2, Higher2, Retarget2};
use crate::laws::functor_laws::then_ensures;
use crate::laws::is_eq::IsEq;
use vstd::prelude::*;

verus! {

/// `r` is `fax` under `bimap` with `(f1, g1)` and then with `(f2, g2)`.
pub open spec fn bimapped_twice<FAX, B, Y, C, Z, F1, G1, F2, G2>(
    fax: FAX,
    f1: F1,
    g1: G1,
    f2: F2,
    g2: G2,
    r: <<FAX as Retarget2<B, Y>>::Target as Retarget2<C, Z>>::Target,
) -> bool where
    FAX: Retarget2<B, Y>,
    <FAX as Retarget2<B, Y>>::Target: Retarget2<C, Z>,
    F1: FnOnce(FAX::Param1) -> B,
    G1: FnOnce(FAX::Param2) -> Y,
    F2: FnOnce(B) -> C,
    G2: FnOnce(Y) -> Z,
 {
    exists|fby: <FAX as Retarget2<B, Y>>::Target| #[trigger]
        bimapped(fax, f1, g1, fby) && bimapped(fby, f2, g2, r)
}

/// `r` is `fax` under `bimap` with `f2` after `f1` and `g2` after `g1`.
pub open spec fn bimapped_composed<FAX, B, Y, C, Z, F1, G1, F2, G2>(
    fax: FAX,
    f1: F1,
    g1: G1,
    f2: F2,
    g2: G2,
    r: <FAX as Retarget2<C, Z>>::Target,
) -> bool where
    FAX: Retarget2<C, Z>,
    F1: FnOnce(FAX::Param1) -> B,
    G1: FnOnce(FAX::Param2) -> Y,
    F2: FnOnce(B) -> C,
    G2: FnOnce(Y) -> Z,
 {
    &&& r.shape2() == fax.shape2()
    &&& r.firsts().len() == fax.firsts().len()
    &&& r.seconds().len() == fax.seconds().len()
    &&& forall|i: int|
        0 <= i < fax.firsts().len() ==> then_ensures(f1, f2, fax.firsts()[i], #[trigger] r.firsts()[i])
    &&& forall|i: int|
        0 <= i < fax.seconds().len() ==> then_ensures(
            g1,
            g2,
            fax.seconds()[i],
            #[trigger] r.seconds()[i],
        )
}

/// Identity: the left side is a clone of `fab`, the right side is `fab`
/// under `bimap` with two identity functions, which is the same as `fab`.
pub fn bifunctor_identity<FAB>(fab: FAB) -> (r: IsEq<FAB>) where
    FAB: Bifunctor<<FAB as Higher2>::Param1, <FAB as Higher2>::Param2> + Retarget2<
        <FAB as Higher2>::Param1,
        <FAB as Higher2>::Param2,
        Target = FAB,
    > + Clone,

    ensures
        cloned(fab, r.lhs),
        same2(r.rhs, fab),
{
    let lhs = fab.clone();
    let rhs = fab.bimap(id, id);
    proof {
        lemma_bimap_identity(fab, id::<FAB::Param1>, id::<FAB::Param2>, rhs);
    }
    IsEq::equal_under_law(lhs, rhs)
}

/// Composition: the left side is a clone of `fax` under `bimap` with
/// `(f1, g1)` and then with `(f2, g2)`, the right side is `fax` under one
/// `bimap` with `f2` after `f1` and `g2` after `g1`.
pub fn bifunctor_composition<FAX, B, Y, C, Z, F1, F2, G1, G2>(
    fax: FAX,
    f1: F1,
    f2: F2,
    g1: G1,
    g2: G2,
) -> (r: IsEq<<FAX as Retarget2<C, Z>>::Target>) where
    FAX: Bifunctor<B, Y> + Bifunctor<C, Z> + Clone,
    <FAX as Retarget2<B, Y>>::Target: Bifunctor<C, Z> + Retarget2<
        C,
        Z,
        Target = <FAX as Retarget2<C, Z>>::Target,
    >,
    F1: Fn(FAX::Param1) -> B,
    F2: Fn(B) -> C,
    G1: Fn(FAX::Param2) -> Y,
    G2: Fn(Y) -> Z,

    requires
        forall|c: FAX| #[trigger] cloned(fax, c) ==> callable_on_slots(c, f1, g1),
        forall|a: FAX::Param1, b: B| #[trigger] f1.ensures((a,), b) ==> f2.requires((b,)),
        forall|a: FAX::Param2, b: Y| #[trigger] g1.ensures((a,), b) ==> g2.requires((b,)),
    ensures
        exists|c: FAX| #[trigger] cloned(fax, c) && bimapped_twice(c, f1, g1, f2, g2, r.lhs),
        bimapped_composed(fax, f1, g1, f2, g2, r.rhs),
{
    let c = fax.clone();
    assert(cloned(fax, c));
    let fby = <FAX as Bifunctor<B, Y>>::bimap(
        c,
        |a: FAX::Param1| -> (b: B)
            requires
                f1.requires((a,))
            ensures
                f1.ensures((a,), b)
            { f1(a) },
        |a: FAX::Param2| -> (b: Y)
            requires
                g1.requires((a,))
            ensures
                g1.ensures((a,), b)
            { g1(a) },
    );
    let lhs = fby.bimap(
        |b: B| -> (x: C)
            requires
                f2.requires((b,))
            ensures
                f2.ensures((b,), x)
            { f2(b) },
        |b: Y| -> (x: Z)
            requires
                g2.requires((b,))
            ensures
                g2.ensures((b,), x)
            { g2(b) },
    );
    proof {
        assert(bimapped(c, f1, g1, fby) && bimapped(fby, f2, g2, lhs));
        assert(cloned(fax, fax));
    }
    let rhs = <FAX as Bifunctor<C, Z>>::bimap(
        fax,
        |a: FAX::Param1| -> (x: C)
            requires
                f1.requires((a,)),
                forall|b: B| f1.ensures((a,), b) ==> f2.requires((b,))
            ensures
                then_ensures(f1, f2, a, x)
            {
                let b = f1(a);
                f2(b)
            },
        |a: FAX::Param2| -> (x: Z)
            requires
                g1.requires((a,)),
                forall|b: Y| g1.ensures((a,), b) ==> g2.requires((b,))
            ensures
                then_ensures(g1, g2, a, x)
            {
                let b = g1(a);
                g2(b)
            },
    );
    IsEq::equal_under_law(lhs, rhs)
}

} // verus!
