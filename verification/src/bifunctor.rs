//! Bifunctors: containers with two kinds of slots, each transformed by a
//! function of its own.
use crate::higher::{same2, Higher2, Retarget2};
use vstd::prelude::*;

verus! {

/// `f` may be called on everything in the first slots of `fab`, and `g` on
/// everything in its second slots.
pub open spec fn callable_on_slots<FAB, C, D, F, G>(fab: FAB, f: F, g: G) -> bool where
    FAB: Higher2,
    F: FnOnce(FAB::Param1) -> C,
    G: FnOnce(FAB::Param2) -> D,
 {
    &&& forall|i: int| 0 <= i < fab.firsts().len() ==> f.requires((#[trigger] fab.firsts()[i],))
    &&& forall|i: int| 0 <= i < fab.seconds().len() ==> g.requires((#[trigger] fab.seconds()[i],))
}

/// `r` has the shape of `fab`; its first slots hold what `f` may return for
/// the first slots of `fab`, its second slots what `g` may return for the
/// second slots.
pub open spec fn bimapped<FAB, C, D, F, G>(fab: FAB, f: F, g: G, r: FAB::Target) -> bool where
    FAB: Retarget2<C, D>,
    F: FnOnce(FAB::Param1) -> C,
    G: FnOnce(FAB::Param2) -> D,
 {
    &&& r.shape2() == fab.shape2()
    &&& r.firsts().len() == fab.firsts().len()
    &&& r.seconds().len() == fab.seconds().len()
    &&& forall|i: int|
        0 <= i < fab.firsts().len() ==> f.ensures((fab.firsts()[i],), #[trigger] r.firsts()[i])
    &&& forall|i: int|
        0 <= i < fab.seconds().len() ==> g.ensures((fab.seconds()[i],), #[trigger] r.seconds()[i])
}

/// A functor in both of its two type parameters.
pub trait Bifunctor<C, D>: Retarget2<C, D> {
    /// Transforms `F<A, B>` into `F<C, D>`, applying `f` to what the first
    /// slots hold and `g` to what the second slots hold.
    fn bimap<F, G>(self, f: F, g: G) -> (r: Self::Target) where
        F: FnMut(Self::Param1) -> C,
        G: FnMut(Self::Param2) -> D,

        requires
            callable_on_slots(self, f, g),
        ensures
            bimapped(self, f, g, r),
    ;
}

impl<A, B, C, D> Bifunctor<C, D> for Result<A, B> {
    fn bimap<F, G>(self, mut f: F, mut g: G) -> (r: Result<C, D>) where
        F: FnMut(A) -> C,
        G: FnMut(B) -> D,
     {
        match self {
            Ok(x) => {
                assert(self.firsts()[0] == x);
                let c = f(x);
                let r = Ok(c);
                assert(r.firsts()[0] == c);
                r
            },
            Err(e) => {
                assert(self.seconds()[0] == e);
                let d = g(e);
                let r = Err(d);
                assert(r.seconds()[0] == d);
                r
            },
        }
    }
}

impl<A, B, C, D> Bifunctor<C, D> for (A, B) {
    fn bimap<F, G>(self, mut f: F, mut g: G) -> (r: (C, D)) where
        F: FnMut(A) -> C,
        G: FnMut(B) -> D,
     {
        assert(self.firsts()[0] == self.0);
        assert(self.seconds()[0] == self.1);
        let c = f(self.0);
        let d = g(self.1);
        let r = (c, d);
        assert(r.firsts()[0] == c);
        assert(r.seconds()[0] == d);
        assert(r.shape2() == self.shape2());
        r
    }
}

/// Identity: `bimap` with two functions that return their argument changes
/// nothing.
pub proof fn lemma_bimap_identity<FAB, F, G>(fab: FAB, f: F, g: G, r: FAB) where
    FAB: Retarget2<<FAB as Higher2>::Param1, <FAB as Higher2>::Param2, Target = FAB>,
    F: FnOnce(FAB::Param1) -> FAB::Param1,
    G: FnOnce(FAB::Param2) -> FAB::Param2,

    requires
        bimapped(fab, f, g, r),
        forall|a: FAB::Param1, b: FAB::Param1| f.ensures((a,), b) ==> b == a,
        forall|a: FAB::Param2, b: FAB::Param2| g.ensures((a,), b) ==> b == a,
    ensures
        same2(r, fab),
{
    assert forall|i: int| 0 <= i < fab.firsts().len() implies r.firsts()[i] == fab.firsts()[i] by {
        assert(f.ensures((fab.firsts()[i],), r.firsts()[i]));
    }
    assert forall|i: int| 0 <= i < fab.seconds().len() implies r.seconds()[i]
        == fab.seconds()[i] by {
        assert(g.ensures((fab.seconds()[i],), r.seconds()[i]));
    }
}

/// Composition: `bimap` with `(f1, g1)` and then with `(f2, g2)` gives what
/// one `bimap` gives with `(hf, hg)`, where `hf` returns `f2(f1(x))` and `hg`
/// returns `g2(g1(x))`.
pub proof fn lemma_bimap_composition<FAX, B, Y, C, Z, F1, G1, F2, G2, HF, HG>(
    fax: FAX,
    f1: F1,
    g1: G1,
    sf1: spec_fn(FAX::Param1) -> B,
    sg1: spec_fn(FAX::Param2) -> Y,
    fby: <FAX as Retarget2<B, Y>>::Target,
    f2: F2,
    g2: G2,
    sf2: spec_fn(B) -> C,
    sg2: spec_fn(Y) -> Z,
    fcz: <<FAX as Retarget2<B, Y>>::Target as Retarget2<C, Z>>::Target,
    hf: HF,
    hg: HG,
    r: <FAX as Retarget2<C, Z>>::Target,
) where
    FAX: Retarget2<B, Y> + Retarget2<C, Z>,
    <FAX as Retarget2<B, Y>>::Target: Retarget2<C, Z, Target = <FAX as Retarget2<C, Z>>::Target>,
    F1: FnOnce(FAX::Param1) -> B,
    G1: FnOnce(FAX::Param2) -> Y,
    F2: FnOnce(B) -> C,
    G2: FnOnce(Y) -> Z,
    HF: FnOnce(FAX::Param1) -> C,
    HG: FnOnce(FAX::Param2) -> Z,

    requires
        bimapped(fax, f1, g1, fby),
        forall|a: FAX::Param1, b: B| f1.ensures((a,), b) ==> b == sf1(a),
        forall|a: FAX::Param2, b: Y| g1.ensures((a,), b) ==> b == sg1(a),
        bimapped(fby, f2, g2, fcz),
        forall|a: B, b: C| f2.ensures((a,), b) ==> b == sf2(a),
        forall|a: Y, b: Z| g2.ensures((a,), b) ==> b == sg2(a),
        bimapped(fax, hf, hg, r),
        forall|a: FAX::Param1, b: C| hf.ensures((a,), b) ==> b == sf2(sf1(a)),
        forall|a: FAX::Param2, b: Z| hg.ensures((a,), b) ==> b == sg2(sg1(a)),
    ensures
        same2(fcz, r),
{
    assert forall|i: int| 0 <= i < fax.firsts().len() implies fcz.firsts()[i] == r.firsts()[i] by {
        assert(f1.ensures((fax.firsts()[i],), fby.firsts()[i]));
        assert(f2.ensures((fby.firsts()[i],), fcz.firsts()[i]));
        assert(hf.ensures((fax.firsts()[i],), r.firsts()[i]));
    }
    assert forall|i: int| 0 <= i < fax.seconds().len() implies fcz.seconds()[i]
        == r.seconds()[i] by {
        assert(g1.ensures((fax.seconds()[i],), fby.seconds()[i]));
        assert(g2.ensures((fby.seconds()[i],), fcz.seconds()[i]));
        assert(hg.ensures((fax.seconds()[i],), r.seconds()[i]));
    }
}

} // verus!
