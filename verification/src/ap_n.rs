//! The `apN` family: applying functions of several arguments, held in a
//! container, to as many independent containers of values.
use crate::and_then::AndThen;
use crate::functor::Functor;
use crate::higher::{Higher, Retarget, Target};
use crate::semigroupal::Semigroupal;
use vstd::prelude::*;

verus! {

/// `f` may be called on the two parts of every item of every clone of
/// `p`.
pub open spec fn ap2_callable<P, A, B, Z, FN>(p: P, f: FN) -> bool where
    P: Higher<Param = (A, B)> + Clone,
    FN: FnOnce(A, B) -> Z,
 {
    forall|pc: P, i: int|
        cloned(p, pc) && 0 <= i < pc.items().len() ==> f.requires(
            (pc.items()[i].0, pc.items()[i].1),
        )
}

/// `part` is a clone of `p`, mapped with `f` on the two parts of each
/// item.
pub open spec fn ap2_part<P, A, B, Z, FN>(p: P, f: FN, part: Target<P, Z>) -> bool where
    P: Higher<Param = (A, B)> + Retarget<Z> + Clone,
    FN: FnOnce(A, B) -> Z,
 {
    exists|pc: P|
        {
            &&& #[trigger] cloned(p, pc)
            &&& part.shape() == pc.shape()
            &&& part.items().len() == pc.items().len()
            &&& forall|i: int|
                0 <= i < pc.items().len() ==> f.ensures(
                    (pc.items()[i].0, pc.items()[i].1),
                    #[trigger] part.items()[i],
                )
        }
}

/// `f` may be called on the three parts of every item of every clone of
/// `p`.
pub open spec fn ap3_callable<P, A, B, C, Z, FN>(p: P, f: FN) -> bool where
    P: Higher<Param = ((A, B), C)> + Clone,
    FN: FnOnce(A, B, C) -> Z,
 {
    forall|pc: P, i: int|
        cloned(p, pc) && 0 <= i < pc.items().len() ==> f.requires(
            (pc.items()[i].0.0, pc.items()[i].0.1, pc.items()[i].1),
        )
}

/// `part` is a clone of `p`, mapped with `f` on the three parts of each
/// item.
pub open spec fn ap3_part<P, A, B, C, Z, FN>(p: P, f: FN, part: Target<P, Z>) -> bool where
    P: Higher<Param = ((A, B), C)> + Retarget<Z> + Clone,
    FN: FnOnce(A, B, C) -> Z,
 {
    exists|pc: P|
        {
            &&& #[trigger] cloned(p, pc)
            &&& part.shape() == pc.shape()
            &&& part.items().len() == pc.items().len()
            &&& forall|i: int|
                0 <= i < pc.items().len() ==> f.ensures(
                    (pc.items()[i].0.0, pc.items()[i].0.1, pc.items()[i].1),
                    #[trigger] part.items()[i],
                )
        }
}

/// `f` may be called on the four parts of every item of every clone of
/// `p`.
pub open spec fn ap4_callable<P, A, B, C, D, Z, FN>(p: P, f: FN) -> bool where
    P: Higher<Param = (((A, B), C), D)> + Clone,
    FN: FnOnce(A, B, C, D) -> Z,
 {
    forall|pc: P, i: int|
        cloned(p, pc) && 0 <= i < pc.items().len() ==> f.requires(
            (pc.items()[i].0.0.0, pc.items()[i].0.0.1, pc.items()[i].0.1, pc.items()[i].1),
        )
}

/// `part` is a clone of `p`, mapped with `f` on the four parts of each
/// item.
pub open spec fn ap4_part<P, A, B, C, D, Z, FN>(p: P, f: FN, part: Target<P, Z>) -> bool where
    P: Higher<Param = (((A, B), C), D)> + Retarget<Z> + Clone,
    FN: FnOnce(A, B, C, D) -> Z,
 {
    exists|pc: P|
        {
            &&& #[trigger] cloned(p, pc)
            &&& part.shape() == pc.shape()
            &&& part.items().len() == pc.items().len()
            &&& forall|i: int|
                0 <= i < pc.items().len() ==> f.ensures(
                    (pc.items()[i].0.0.0, pc.items()[i].0.0.1, pc.items()[i].0.1, pc.items()[i].1),
                    #[trigger] part.items()[i],
                )
        }
}

/// `f` may be called on the five parts of every item of every clone of
/// `p`.
pub open spec fn ap5_callable<P, A, B, C, D, E, Z, FN>(p: P, f: FN) -> bool where
    P: Higher<Param = ((((A, B), C), D), E)> + Clone,
    FN: FnOnce(A, B, C, D, E) -> Z,
 {
    forall|pc: P, i: int|
        cloned(p, pc) && 0 <= i < pc.items().len() ==> f.requires(
            (pc.items()[i].0.0.0.0, pc.items()[i].0.0.0.1, pc.items()[i].0.0.1, pc.items()[i].0.1, pc.items()[i].1),
        )
}

/// `part` is a clone of `p`, mapped with `f` on the five parts of each
/// item.
pub open spec fn ap5_part<P, A, B, C, D, E, Z, FN>(p: P, f: FN, part: Target<P, Z>) -> bool where
    P: Higher<Param = ((((A, B), C), D), E)> + Retarget<Z> + Clone,
    FN: FnOnce(A, B, C, D, E) -> Z,
 {
    exists|pc: P|
        {
            &&& #[trigger] cloned(p, pc)
            &&& part.shape() == pc.shape()
            &&& part.items().len() == pc.items().len()
            &&& forall|i: int|
                0 <= i < pc.items().len() ==> f.ensures(
                    (pc.items()[i].0.0.0.0, pc.items()[i].0.0.0.1, pc.items()[i].0.0.1, pc.items()[i].0.1, pc.items()[i].1),
                    #[trigger] part.items()[i],
                )
        }
}

/// `f` may be called on the six parts of every item of every clone of
/// `p`.
pub open spec fn ap6_callable<P, A, B, C, D, E, F, Z, FN>(p: P, f: FN) -> bool where
    P: Higher<Param = (((((A, B), C), D), E), F)> + Clone,
    FN: FnOnce(A, B, C, D, E, F) -> Z,
 {
    forall|pc: P, i: int|
        cloned(p, pc) && 0 <= i < pc.items().len() ==> f.requires(
            (pc.items()[i].0.0.0.0.0, pc.items()[i].0.0.0.0.1, pc.items()[i].0.0.0.1, pc.items()[i].0.0.1, pc.items()[i].0.1, pc.items()[i].1),
        )
}

/// `part` is a clone of `p`, mapped with `f` on the six parts of each
/// item.
pub open spec fn ap6_part<P, A, B, C, D, E, F, Z, FN>(p: P, f: FN, part: Target<P, Z>) -> bool where
    P: Higher<Param = (((((A, B), C), D), E), F)> + Retarget<Z> + Clone,
    FN: FnOnce(A, B, C, D, E, F) -> Z,
 {
    exists|pc: P|
        {
            &&& #[trigger] cloned(p, pc)
            &&& part.shape() == pc.shape()
            &&& part.items().len() == pc.items().len()
            &&& forall|i: int|
                0 <= i < pc.items().len() ==> f.ensures(
                    (pc.items()[i].0.0.0.0.0, pc.items()[i].0.0.0.0.1, pc.items()[i].0.0.0.1, pc.items()[i].0.0.1, pc.items()[i].0.1, pc.items()[i].1),
                    #[trigger] part.items()[i],
                )
        }
}

/// `f` may be called on the seven parts of every item of every clone of
/// `p`.
pub open spec fn ap7_callable<P, A, B, C, D, E, F, G, Z, FN>(p: P, f: FN) -> bool where
    P: Higher<Param = ((((((A, B), C), D), E), F), G)> + Clone,
    FN: FnOnce(A, B, C, D, E, F, G) -> Z,
 {
    forall|pc: P, i: int|
        cloned(p, pc) && 0 <= i < pc.items().len() ==> f.requires(
            (pc.items()[i].0.0.0.0.0.0, pc.items()[i].0.0.0.0.0.1, pc.items()[i].0.0.0.0.1, pc.items()[i].0.0.0.1, pc.items()[i].0.0.1, pc.items()[i].0.1, pc.items()[i].1),
        )
}

/// `part` is a clone of `p`, mapped with `f` on the seven parts of each
/// item.
pub open spec fn ap7_part<P, A, B, C, D, E, F, G, Z, FN>(p: P, f: FN, part: Target<P, Z>) -> bool where
    P: Higher<Param = ((((((A, B), C), D), E), F), G)> + Retarget<Z> + Clone,
    FN: FnOnce(A, B, C, D, E, F, G) -> Z,
 {
    exists|pc: P|
        {
            &&& #[trigger] cloned(p, pc)
            &&& part.shape() == pc.shape()
            &&& part.items().len() == pc.items().len()
            &&& forall|i: int|
                0 <= i < pc.items().len() ==> f.ensures(
                    (pc.items()[i].0.0.0.0.0.0, pc.items()[i].0.0.0.0.0.1, pc.items()[i].0.0.0.0.1, pc.items()[i].0.0.0.1, pc.items()[i].0.0.1, pc.items()[i].0.1, pc.items()[i].1),
                    #[trigger] part.items()[i],
                )
        }
}

/// `f` may be called on the eight parts of every item of every clone of
/// `p`.
pub open spec fn ap8_callable<P, A, B, C, D, E, F, G, H, Z, FN>(p: P, f: FN) -> bool where
    P: Higher<Param = (((((((A, B), C), D), E), F), G), H)> + Clone,
    FN: FnOnce(A, B, C, D, E, F, G, H) -> Z,
 {
    forall|pc: P, i: int|
        cloned(p, pc) && 0 <= i < pc.items().len() ==> f.requires(
            (pc.items()[i].0.0.0.0.0.0.0, pc.items()[i].0.0.0.0.0.0.1, pc.items()[i].0.0.0.0.0.1, pc.items()[i].0.0.0.0.1, pc.items()[i].0.0.0.1, pc.items()[i].0.0.1, pc.items()[i].0.1, pc.items()[i].1),
        )
}

/// `part` is a clone of `p`, mapped with `f` on the eight parts of each
/// item.
pub open spec fn ap8_part<P, A, B, C, D, E, F, G, H, Z, FN>(p: P, f: FN, part: Target<P, Z>) -> bool where
    P: Higher<Param = (((((((A, B), C), D), E), F), G), H)> + Retarget<Z> + Clone,
    FN: FnOnce(A, B, C, D, E, F, G, H) -> Z,
 {
    exists|pc: P|
        {
            &&& #[trigger] cloned(p, pc)
            &&& part.shape() == pc.shape()
            &&& part.items().len() == pc.items().len()
            &&& forall|i: int|
                0 <= i < pc.items().len() ==> f.ensures(
                    (pc.items()[i].0.0.0.0.0.0.0, pc.items()[i].0.0.0.0.0.0.1, pc.items()[i].0.0.0.0.0.1, pc.items()[i].0.0.0.0.1, pc.items()[i].0.0.0.1, pc.items()[i].0.0.1, pc.items()[i].0.1, pc.items()[i].1),
                    #[trigger] part.items()[i],
                )
        }
}

/// `f` may be called on the nine parts of every item of every clone of
/// `p`.
pub open spec fn ap9_callable<P, A, B, C, D, E, F, G, H, I, Z, FN>(p: P, f: FN) -> bool where
    P: Higher<Param = ((((((((A, B), C), D), E), F), G), H), I)> + Clone,
    FN: FnOnce(A, B, C, D, E, F, G, H, I) -> Z,
 {
    forall|pc: P, i: int|
        cloned(p, pc) && 0 <= i < pc.items().len() ==> f.requires(
            (pc.items()[i].0.0.0.0.0.0.0.0, pc.items()[i].0.0.0.0.0.0.0.1, pc.items()[i].0.0.0.0.0.0.1, pc.items()[i].0.0.0.0.0.1, pc.items()[i].0.0.0.0.1, pc.items()[i].0.0.0.1, pc.items()[i].0.0.1, pc.items()[i].0.1, pc.items()[i].1),
        )
}

/// `part` is a clone of `p`, mapped with `f` on the nine parts of each
/// item.
pub open spec fn ap9_part<P, A, B, C, D, E, F, G, H, I, Z, FN>(p: P, f: FN, part: Target<P, Z>) -> bool where
    P: Higher<Param = ((((((((A, B), C), D), E), F), G), H), I)> + Retarget<Z> + Clone,
    FN: FnOnce(A, B, C, D, E, F, G, H, I) -> Z,
 {
    exists|pc: P|
        {
            &&& #[trigger] cloned(p, pc)
            &&& part.shape() == pc.shape()
            &&& part.items().len() == pc.items().len()
            &&& forall|i: int|
                0 <= i < pc.items().len() ==> f.ensures(
                    (pc.items()[i].0.0.0.0.0.0.0.0, pc.items()[i].0.0.0.0.0.0.0.1, pc.items()[i].0.0.0.0.0.0.1, pc.items()[i].0.0.0.0.0.1, pc.items()[i].0.0.0.0.1, pc.items()[i].0.0.0.1, pc.items()[i].0.0.1, pc.items()[i].0.1, pc.items()[i].1),
                    #[trigger] part.items()[i],
                )
        }
}

/// `f` may be called on the ten parts of every item of every clone of
/// `p`.
pub open spec fn ap10_callable<P, A, B, C, D, E, F, G, H, I, J, Z, FN>(p: P, f: FN) -> bool where
    P: Higher<Param = (((((((((A, B), C), D), E), F), G), H), I), J)> + Clone,
    FN: FnOnce(A, B, C, D, E, F, G, H, I, J) -> Z,
 {
    forall|pc: P, i: int|
        cloned(p, pc) && 0 <= i < pc.items().len() ==> f.requires(
            (pc.items()[i].0.0.0.0.0.0.0.0.0, pc.items()[i].0.0.0.0.0.0.0.0.1, pc.items()[i].0.0.0.0.0.0.0.1, pc.items()[i].0.0.0.0.0.0.1, pc.items()[i].0.0.0.0.0.1, pc.items()[i].0.0.0.0.1, pc.items()[i].0.0.0.1, pc.items()[i].0.0.1, pc.items()[i].0.1, pc.items()[i].1),
        )
}

/// `part` is a clone of `p`, mapped with `f` on the ten parts of each
/// item.
pub open spec fn ap10_part<P, A, B, C, D, E, F, G, H, I, J, Z, FN>(p: P, f: FN, part: Target<P, Z>) -> bool where
    P: Higher<Param = (((((((((A, B), C), D), E), F), G), H), I), J)> + Retarget<Z> + Clone,
    FN: FnOnce(A, B, C, D, E, F, G, H, I, J) -> Z,
 {
    exists|pc: P|
        {
            &&& #[trigger] cloned(p, pc)
            &&& part.shape() == pc.shape()
            &&& part.items().len() == pc.items().len()
            &&& forall|i: int|
                0 <= i < pc.items().len() ==> f.ensures(
                    (pc.items()[i].0.0.0.0.0.0.0.0.0, pc.items()[i].0.0.0.0.0.0.0.0.1, pc.items()[i].0.0.0.0.0.0.0.1, pc.items()[i].0.0.0.0.0.0.1, pc.items()[i].0.0.0.0.0.1, pc.items()[i].0.0.0.0.1, pc.items()[i].0.0.0.1, pc.items()[i].0.0.1, pc.items()[i].0.1, pc.items()[i].1),
                    #[trigger] part.items()[i],
                )
        }
}

/// `f` may be called on the eleven parts of every item of every clone of
/// `p`.
pub open spec fn ap11_callable<P, A, B, C, D, E, F, G, H, I, J, K, Z, FN>(p: P, f: FN) -> bool where
    P: Higher<Param = ((((((((((A, B), C), D), E), F), G), H), I), J), K)> + Clone,
    FN: FnOnce(A, B, C, D, E, F, G, H, I, J, K) -> Z,
 {
    forall|pc: P, i: int|
        cloned(p, pc) && 0 <= i < pc.items().len() ==> f.requires(
            (pc.items()[i].0.0.0.0.0.0.0.0.0.0, pc.items()[i].0.0.0.0.0.0.0.0.0.1, pc.items()[i].0.0.0.0.0.0.0.0.1, pc.items()[i].0.0.0.0.0.0.0.1, pc.items()[i].0.0.0.0.0.0.1, pc.items()[i].0.0.0.0.0.1, pc.items()[i].0.0.0.0.1, pc.items()[i].0.0.0.1, pc.items()[i].0.0.1, pc.items()[i].0.1, pc.items()[i].1),
        )
}

/// `part` is a clone of `p`, mapped with `f` on the eleven parts of each
/// item.
pub open spec fn ap11_part<P, A, B, C, D, E, F, G, H, I, J, K, Z, FN>(p: P, f: FN, part: Target<P, Z>) -> bool where
    P: Higher<Param = ((((((((((A, B), C), D), E), F), G), H), I), J), K)> + Retarget<Z> + Clone,
    FN: FnOnce(A, B, C, D, E, F, G, H, I, J, K) -> Z,
 {
    exists|pc: P|
        {
            &&& #[trigger] cloned(p, pc)
            &&& part.shape() == pc.shape()
            &&& part.items().len() == pc.items().len()
            &&& forall|i: int|
                0 <= i < pc.items().len() ==> f.ensures(
                    (pc.items()[i].0.0.0.0.0.0.0.0.0.0, pc.items()[i].0.0.0.0.0.0.0.0.0.1, pc.items()[i].0.0.0.0.0.0.0.0.1, pc.items()[i].0.0.0.0.0.0.0.1, pc.items()[i].0.0.0.0.0.0.1, pc.items()[i].0.0.0.0.0.1, pc.items()[i].0.0.0.0.1, pc.items()[i].0.0.0.1, pc.items()[i].0.0.1, pc.items()[i].0.1, pc.items()[i].1),
                    #[trigger] part.items()[i],
                )
        }
}

/// `f` may be called on the twelve parts of every item of every clone of
/// `p`.
pub open spec fn ap12_callable<P, A, B, C, D, E, F, G, H, I, J, K, L, Z, FN>(p: P, f: FN) -> bool where
    P: Higher<Param = (((((((((((A, B), C), D), E), F), G), H), I), J), K), L)> + Clone,
    FN: FnOnce(A, B, C, D, E, F, G, H, I, J, K, L) -> Z,
 {
    forall|pc: P, i: int|
        cloned(p, pc) && 0 <= i < pc.items().len() ==> f.requires(
            (pc.items()[i].0.0.0.0.0.0.0.0.0.0.0, pc.items()[i].0.0.0.0.0.0.0.0.0.0.1, pc.items()[i].0.0.0.0.0.0.0.0.0.1, pc.items()[i].0.0.0.0.0.0.0.0.1, pc.items()[i].0.0.0.0.0.0.0.1, pc.items()[i].0.0.0.0.0.0.1, pc.items()[i].0.0.0.0.0.1, pc.items()[i].0.0.0.0.1, pc.items()[i].0.0.0.1, pc.items()[i].0.0.1, pc.items()[i].0.1, pc.items()[i].1),
        )
}

/// `part` is a clone of `p`, mapped with `f` on the twelve parts of each
/// item.
pub open spec fn ap12_part<P, A, B, C, D, E, F, G, H, I, J, K, L, Z, FN>(p: P, f: FN, part: Target<P, Z>) -> bool where
    P: Higher<Param = (((((((((((A, B), C), D), E), F), G), H), I), J), K), L)> + Retarget<Z> + Clone,
    FN: FnOnce(A, B, C, D, E, F, G, H, I, J, K, L) -> Z,
 {
    exists|pc: P|
        {
            &&& #[trigger] cloned(p, pc)
            &&& part.shape() == pc.shape()
            &&& part.items().len() == pc.items().len()
            &&& forall|i: int|
                0 <= i < pc.items().len() ==> f.ensures(
                    (pc.items()[i].0.0.0.0.0.0.0.0.0.0.0, pc.items()[i].0.0.0.0.0.0.0.0.0.0.1, pc.items()[i].0.0.0.0.0.0.0.0.0.1, pc.items()[i].0.0.0.0.0.0.0.0.1, pc.items()[i].0.0.0.0.0.0.0.1, pc.items()[i].0.0.0.0.0.0.1, pc.items()[i].0.0.0.0.0.1, pc.items()[i].0.0.0.0.1, pc.items()[i].0.0.0.1, pc.items()[i].0.0.1, pc.items()[i].0.1, pc.items()[i].1),
                    #[trigger] part.items()[i],
                )
        }
}

/// The `apN` methods, for every container whose items are functions. Each
/// one pairs the containers of values up from the left with
/// [`Semigroupal::product`], and then, for every function of `self`, maps a
/// clone of the nested pairs with it.
pub trait ApN<Z>: Higher {
    /// Applies functions of two arguments, held in `self`, to two
    /// containers of values.
    fn ap2<A, B>(self, fa: Target<Self, A>, fb: Target<Self, B>) -> (r: Target<Self, Z>) where
        Self::Param: Fn(A, B) -> Z,
        Self: AndThen<Z> + Retarget<A> + Retarget<B>,
        Target<Self, A>: Semigroupal<B>
            + Retarget<B, Target = Target<Self, B>>
            + Retarget<(A, B)>,
        Target<Target<Self, A>, (A, B)>: Functor<Z> + Retarget<Z, Target = Target<Self, Z>> + Clone,

        requires
            fa.product_requires(fb),
            forall|t2: Target<Target<Self, A>, (A, B)>, i: int|
                fa.product_ensures(fb, t2)
                && 0 <= i < self.items().len()
                ==> ap2_callable(t2, self.items()[i]),
        ensures
            exists|t2: Target<Target<Self, A>, (A, B)>, parts: Seq<Target<Self, Z>>|
                {
                    &&& #[trigger] fa.product_ensures(fb, t2)
                    &&& parts.len() == self.items().len()
                    &&& forall|i: int|
                        0 <= i < parts.len() ==> ap2_part(t2, self.items()[i], #[trigger] parts[i])
                    &&& #[trigger] self.then_joined(parts, r)
                },
    {
        let t2 = fa.product(fb);
        let r = self.and_then(
            |f: Self::Param| -> (part: Target<Self, Z>)
                requires
                    ap2_callable(t2, f)
                ensures
                    ap2_part(t2, f, part)
                {
                    let pc = t2.clone();
                    proof {
                        assert(cloned(t2, pc));
                    }
                    let part = pc.map(
                        |x: (A, B)| -> (z: Z)
                            requires
                                f.requires((x.0, x.1))
                            ensures
                                f.ensures((x.0, x.1), z)
                            { f(x.0, x.1) },
                    );
                    proof {
                        assert(cloned(t2, pc) && part.shape() == pc.shape());
                    }
                    part
                },
        );
        proof {
            let parts = choose|parts: Seq<Target<Self, Z>>|
                {
                    &&& parts.len() == self.items().len()
                    &&& forall|i: int|
                        0 <= i < parts.len() ==> ap2_part(t2, self.items()[i], #[trigger] parts[i])
                    &&& #[trigger] self.then_joined(parts, r)
                };
            assert(
                fa.product_ensures(fb, t2)
                && self.then_joined(parts, r)
            );
        }
        r
    }

    /// Applies functions of three arguments, held in `self`, to three
    /// containers of values.
    fn ap3<A, B, C>(
        self,
        fa: Target<Self, A>,
        fb: Target<Self, B>,
        fc: Target<Self, C>,
    ) -> (r: Target<Self, Z>) where
        Self::Param: Fn(A, B, C) -> Z,
        Self: AndThen<Z> + Retarget<A> + Retarget<B> + Retarget<C>,
        Target<Self, A>: Semigroupal<B>
            + Retarget<B, Target = Target<Self, B>>
            + Retarget<(A, B)>,
        Target<Target<Self, A>, (A, B)>: Semigroupal<C>
            + Retarget<C, Target = Target<Self, C>>
            + Retarget<((A, B), C)>,
        Target<Target<Target<Self, A>, (A, B)>, ((A, B), C)>: Functor<Z> + Retarget<Z, Target = Target<Self, Z>> + Clone,

        requires
            fa.product_requires(fb),
            forall|t2: Target<Target<Self, A>, (A, B)>|
                fa.product_ensures(fb, t2)
                ==> t2.product_requires(fc),
            forall|
                t2: Target<Target<Self, A>, (A, B)>,
                t3: Target<Target<Target<Self, A>, (A, B)>, ((A, B), C)>,
                i: int,
            |
                fa.product_ensures(fb, t2)
                && t2.product_ensures(fc, t3)
                && 0 <= i < self.items().len()
                ==> ap3_callable(t3, self.items()[i]),
        ensures
            exists|
                t2: Target<Target<Self, A>, (A, B)>,
                t3: Target<Target<Target<Self, A>, (A, B)>, ((A, B), C)>,
                parts: Seq<Target<Self, Z>>,
            |
                {
                    &&& #[trigger] fa.product_ensures(fb, t2)
                    &&& #[trigger] t2.product_ensures(fc, t3)
                    &&& parts.len() == self.items().len()
                    &&& forall|i: int|
                        0 <= i < parts.len() ==> ap3_part(t3, self.items()[i], #[trigger] parts[i])
                    &&& #[trigger] self.then_joined(parts, r)
                },
    {
        let t2 = fa.product(fb);
        let t3 = t2.product(fc);
        let r = self.and_then(
            |f: Self::Param| -> (part: Target<Self, Z>)
                requires
                    ap3_callable(t3, f)
                ensures
                    ap3_part(t3, f, part)
                {
                    let pc = t3.clone();
                    proof {
                        assert(cloned(t3, pc));
                    }
                    let part = pc.map(
                        |x: ((A, B), C)| -> (z: Z)
                            requires
                                f.requires((x.0.0, x.0.1, x.1))
                            ensures
                                f.ensures((x.0.0, x.0.1, x.1), z)
                            { f(x.0.0, x.0.1, x.1) },
                    );
                    proof {
                        assert(cloned(t3, pc) && part.shape() == pc.shape());
                    }
                    part
                },
        );
        proof {
            let parts = choose|parts: Seq<Target<Self, Z>>|
                {
                    &&& parts.len() == self.items().len()
                    &&& forall|i: int|
                        0 <= i < parts.len() ==> ap3_part(t3, self.items()[i], #[trigger] parts[i])
                    &&& #[trigger] self.then_joined(parts, r)
                };
            assert(
                fa.product_ensures(fb, t2)
                && t2.product_ensures(fc, t3)
                && self.then_joined(parts, r)
            );
        }
        r
    }

    /// Applies functions of four arguments, held in `self`, to four
    /// containers of values.
    fn ap4<A, B, C, D>(
        self,
        fa: Target<Self, A>,
        fb: Target<Self, B>,
        fc: Target<Self, C>,
        fd: Target<Self, D>,
    ) -> (r: Target<Self, Z>) where
        Self::Param: Fn(A, B, C, D) -> Z,
        Self: AndThen<Z> + Retarget<A> + Retarget<B> + Retarget<C> + Retarget<D>,
        Target<Self, A>: Semigroupal<B>
            + Retarget<B, Target = Target<Self, B>>
            + Retarget<(A, B)>,
        Target<Target<Self, A>, (A, B)>: Semigroupal<C>
            + Retarget<C, Target = Target<Self, C>>
            + Retarget<((A, B), C)>,
        Target<Target<Target<Self, A>, (A, B)>, ((A, B), C)>: Semigroupal<D>
            + Retarget<D, Target = Target<Self, D>>
            + Retarget<(((A, B), C), D)>,
        Target<Target<Target<Target<Self, A>, (A, B)>, ((A, B), C)>, (((A, B), C), D)>: Functor<Z> + Retarget<Z, Target = Target<Self, Z>> + Clone,

        requires
            fa.product_requires(fb),
            forall|t2: Target<Target<Self, A>, (A, B)>|
                fa.product_ensures(fb, t2)
                ==> t2.product_requires(fc),
            forall|
                t2: Target<Target<Self, A>, (A, B)>,
                t3: Target<Target<Target<Self, A>, (A, B)>, ((A, B), C)>,
            |
                fa.product_ensures(fb, t2)
                && t2.product_ensures(fc, t3)
                ==> t3.product_requires(fd),
            forall|
                t2: Target<Target<Self, A>, (A, B)>,
                t3: Target<Target<Target<Self, A>, (A, B)>, ((A, B), C)>,
                t4: Target<Target<Target<Target<Self, A>, (A, B)>, ((A, B), C)>, (((A, B), C), D)>,
                i: int,
            |
                fa.product_ensures(fb, t2)
                && t2.product_ensures(fc, t3)
                && t3.product_ensures(fd, t4)
                && 0 <= i < self.items().len()
                ==> ap4_callable(t4, self.items()[i]),
        ensures
            exists|
                t2: Target<Target<Self, A>, (A, B)>,
                t3: Target<Target<Target<Self, A>, (A, B)>, ((A, B), C)>,
                t4: Target<Target<Target<Target<Self, A>, (A, B)>, ((A, B), C)>, (((A, B), C), D)>,
                parts: Seq<Target<Self, Z>>,
            |
                {
                    &&& #[trigger] fa.product_ensures(fb, t2)
                    &&& #[trigger] t2.product_ensures(fc, t3)
                    &&& #[trigger] t3.product_ensures(fd, t4)
                    &&& parts.len() == self.items().len()
                    &&& forall|i: int|
                        0 <= i < parts.len() ==> ap4_part(t4, self.items()[i], #[trigger] parts[i])
                    &&& #[trigger] self.then_joined(parts, r)
                },
    {
        let t2 = fa.product(fb);
        let t3 = t2.product(fc);
        let t4 = t3.product(fd);
        let r = self.and_then(
            |f: Self::Param| -> (part: Target<Self, Z>)
                requires
                    ap4_callable(t4, f)
                ensures
                    ap4_part(t4, f, part)
                {
                    let pc = t4.clone();
                    proof {
                        assert(cloned(t4, pc));
                    }
                    let part = pc.map(
                        |x: (((A, B), C), D)| -> (z: Z)
                            requires
                                f.requires((x.0.0.0, x.0.0.1, x.0.1, x.1))
                            ensures
                                f.ensures((x.0.0.0, x.0.0.1, x.0.1, x.1), z)
                            { f(x.0.0.0, x.0.0.1, x.0.1, x.1) },
                    );
                    proof {
                        assert(cloned(t4, pc) && part.shape() == pc.shape());
                    }
                    part
                },
        );
        proof {
            let parts = choose|parts: Seq<Target<Self, Z>>|
                {
                    &&& parts.len() == self.items().len()
                    &&& forall|i: int|
                        0 <= i < parts.len() ==> ap4_part(t4, self.items()[i], #[trigger] parts[i])
                    &&& #[trigger] self.then_joined(parts, r)
                };
            assert(
                fa.product_ensures(fb, t2)
                && t2.product_ensures(fc, t3)
                && t3.product_ensures(fd, t4)
                && self.then_joined(parts, r)
            );
        }
        r
    }

    /// Applies functions of five arguments, held in `self`, to five
    /// containers of values.
    fn ap5<A, B, C, D, E>(
        self,
        fa: Target<Self, A>,
        fb: Target<Self, B>,
        fc: Target<Self, C>,
        fd: Target<Self, D>,
        fe: Target<Self, E>,
    ) -> (r: Target<Self, Z>) where
        Self::Param: Fn(A, B, C, D, E) -> Z,
        Self: AndThen<Z> + Retarget<A> + Retarget<B> + Retarget<C> + Retarget<D> + Retarget<E>,
        Target<Self, A>: Semigroupal<B>
            + Retarget<B, Target = Target<Self, B>>
            + Retarget<(A, B)>,
        Target<Target<Self, A>, (A, B)>: Semigroupal<C>
            + Retarget<C, Target = Target<Self, C>>
            + Retarget<((A, B), C)>,
        Target<Target<Target<Self, A>, (A, B)>, ((A, B), C)>: Semigroupal<D>
            + Retarget<D, Target = Target<Self, D>>
            + Retarget<(((A, B), C), D)>,
        Target<Target<Target<Target<Self, A>, (A, B)>, ((A, B), C)>, (((A, B), C), D)>: Semigroupal<E>
            + Retarget<E, Target = Target<Self, E>>
            + Retarget<((((A, B), C), D), E)>,
        Target<Target<Target<Target<Target<Self, A>, (A, B)>, ((A, B), C)>, (((A, B), C), D)>, ((((A, B), C), D), E)>: Functor<Z> + Retarget<Z, Target = Target<Self, Z>> + Clone,

        requires
            fa.product_requires(fb),
            forall|t2: Target<Target<Self, A>, (A, B)>|
                fa.product_ensures(fb, t2)
                ==> t2.product_requires(fc),
            forall|
                t2: Target<Target<Self, A>, (A, B)>,
                t3: Target<Target<Target<Self, A>, (A, B)>, ((A, B), C)>,
            |
                fa.product_ensures(fb, t2)
                && t2.product_ensures(fc, t3)
                ==> t3.product_requires(fd),
            forall|
                t2: Target<Target<Self, A>, (A, B)>,
                t3: Target<Target<Target<Self, A>, (A, B)>, ((A, B), C)>,
                t4: Target<Target<Target<Target<Self, A>, (A, B)>, ((A, B), C)>, (((A, B), C), D)>,
            |
                fa.product_ensures(fb, t2)
                && t2.product_ensures(fc, t3)
                && t3.product_ensures(fd, t4)
                ==> t4.product_requires(fe),
            forall|
                t2: Target<Target<Self, A>, (A, B)>,
                t3: Target<Target<Target<Self, A>, (A, B)>, ((A, B), C)>,
                t4: Target<Target<Target<Target<Self, A>, (A, B)>, ((A, B), C)>, (((A, B), C), D)>,
                t5: Target<Target<Target<Target<Target<Self, A>, (A, B)>, ((A, B), C)>, (((A, B), C), D)>, ((((A, B), C), D), E)>,
                i: int,
            |
                fa.product_ensures(fb, t2)
                && t2.product_ensures(fc, t3)
                && t3.product_ensures(fd, t4)
                && t4.product_ensures(fe, t5)
                && 0 <= i < self.items().len()
                ==> ap5_callable(t5, self.items()[i]),
        ensures
            exists|
                t2: Target<Target<Self, A>, (A, B)>,
                t3: Target<Target<Target<Self, A>, (A, B)>, ((A, B), C)>,
                t4: Target<Target<Target<Target<Self, A>, (A, B)>, ((A, B), C)>, (((A, B), C), D)>,
                t5: Target<Target<Target<Target<Target<Self, A>, (A, B)>, ((A, B), C)>, (((A, B), C), D)>, ((((A, B), C), D), E)>,
                parts: Seq<Target<Self, Z>>,
            |
                {
                    &&& #[trigger] fa.product_ensures(fb, t2)
                    &&& #[trigger] t2.product_ensures(fc, t3)
                    &&& #[trigger] t3.product_ensures(fd, t4)
                    &&& #[trigger] t4.product_ensures(fe, t5)
                    &&& parts.len() == self.items().len()
                    &&& forall|i: int|
                        0 <= i < parts.len() ==> ap5_part(t5, self.items()[i], #[trigger] parts[i])
                    &&& #[trigger] self.then_joined(parts, r)
                },
    {
        let t2 = fa.product(fb);
        let t3 = t2.product(fc);
        let t4 = t3.product(fd);
        let t5 = t4.product(fe);
        let r = self.and_then(
            |f: Self::Param| -> (part: Target<Self, Z>)
                requires
                    ap5_callable(t5, f)
                ensures
                    ap5_part(t5, f, part)
                {
                    let pc = t5.clone();
                    proof {
                        assert(cloned(t5, pc));
                    }
                    let part = pc.map(
                        |x: ((((A, B), C), D), E)| -> (z: Z)
                            requires
                                f.requires((x.0.0.0.0, x.0.0.0.1, x.0.0.1, x.0.1, x.1))
                            ensures
                                f.ensures((x.0.0.0.0, x.0.0.0.1, x.0.0.1, x.0.1, x.1), z)
                            { f(x.0.0.0.0, x.0.0.0.1, x.0.0.1, x.0.1, x.1) },
                    );
                    proof {
                        assert(cloned(t5, pc) && part.shape() == pc.shape());
                    }
                    part
                },
        );
        proof {
            let parts = choose|parts: Seq<Target<Self, Z>>|
                {
                    &&& parts.len() == self.items().len()
                    &&& forall|i: int|
                        0 <= i < parts.len() ==> ap5_part(t5, self.items()[i], #[trigger] parts[i])
                    &&& #[trigger] self.then_joined(parts, r)
                };
            assert(
                fa.product_ensures(fb, t2)
                && t2.product_ensures(fc, t3)
                && t3.product_ensures(fd, t4)
                && t4.product_ensures(fe, t5)
                && self.then_joined(parts, r)
            );
        }
        r
    }

    /// Applies functions of six arguments, held in `self`, to six
    /// containers of values.
    fn ap6<A, B, C, D, E, F>(
        self,
        fa: Target<Self, A>,
        fb: Target<Self, B>,
        fc: Target<Self, C>,
        fd: Target<Self, D>,
        fe: Target<Self, E>,
        ff: Target<Self, F>,
    ) -> (r: Target<Self, Z>) where
        Self::Param: Fn(A, B, C, D, E, F) -> Z,
        Self: AndThen<Z> + Retarget<A> + Retarget<B> + Retarget<C> + Retarget<D> + Retarget<E> + Retarget<F>,
        Target<Self, A>: Semigroupal<B>
            + Retarget<B, Target = Target<Self, B>>
            + Retarget<(A, B)>,
        Target<Target<Self, A>, (A, B)>: Semigroupal<C>
            + Retarget<C, Target = Target<Self, C>>
            + Retarget<((A, B), C)>,
        Target<Target<Target<Self, A>, (A, B)>, ((A, B), C)>: Semigroupal<D>
            + Retarget<D, Target = Target<Self, D>>
            + Retarget<(((A, B), C), D)>,
        Target<Target<Target<Target<Self, A>, (A, B)>, ((A, B), C)>, (((A, B), C), D)>: Semigroupal<E>
            + Retarget<E, Target = Target<Self, E>>
            + Retarget<((((A, B), C), D), E)>,
        Target<Target<Target<Target<Target<Self, A>, (A, B)>, ((A, B), C)>, (((A, B), C), D)>, ((((A, B), C), D), E)>: Semigroupal<F>
            + Retarget<F, Target = Target<Self, F>>
            + Retarget<(((((A, B), C), D), E), F)>,
        Target<Target<Target<Target<Target<Target<Self, A>, (A, B)>, ((A, B), C)>, (((A, B), C), D)>, ((((A, B), C), D), E)>, (((((A, B), C), D), E), F)>: Functor<Z> + Retarget<Z, Target = Target<Self, Z>> + Clone,

        requires
            fa.product_requires(fb),
            forall|t2: Target<Target<Self, A>, (A, B)>|
                fa.product_ensures(fb, t2)
                ==> t2.product_requires(fc),
            forall|
                t2: Target<Target<Self, A>, (A, B)>,
                t3: Target<Target<Target<Self, A>, (A, B)>, ((A, B), C)>,
            |
                fa.product_ensures(fb, t2)
                && t2.product_ensures(fc, t3)
                ==> t3.product_requires(fd),
            forall|
                t2: Target<Target<Self, A>, (A, B)>,
                t3: Target<Target<Target<Self, A>, (A, B)>, ((A, B), C)>,
                t4: Target<Target<Target<Target<Self, A>, (A, B)>, ((A, B), C)>, (((A, B), C), D)>,
            |
                fa.product_ensures(fb, t2)
                && t2.product_ensures(fc, t3)
                && t3.product_ensures(fd, t4)
                ==> t4.product_requires(fe),
            forall|
                t2: Target<Target<Self, A>, (A, B)>,
                t3: Target<Target<Target<Self, A>, (A, B)>, ((A, B), C)>,
                t4: Target<Target<Target<Target<Self, A>, (A, B)>, ((A, B), C)>, (((A, B), C), D)>,
                t5: Target<Target<Target<Target<Target<Self, A>, (A, B)>, ((A, B), C)>, (((A, B), C), D)>, ((((A, B), C), D), E)>,
            |
                fa.product_ensures(fb, t2)
                && t2.product_ensures(fc, t3)
                && t3.product_ensures(fd, t4)
                && t4.product_ensures(fe, t5)
                ==> t5.product_requires(ff),
            forall|
                t2: Target<Target<Self, A>, (A, B)>,
                t3: Target<Target<Target<Self, A>, (A, B)>, ((A, B), C)>,
                t4: Target<Target<Target<Target<Self, A>, (A, B)>, ((A, B), C)>, (((A, B), C), D)>,
                t5: Target<Target<Target<Target<Target<Self, A>, (A, B)>, ((A, B), C)>, (((A, B), C), D)>, ((((A, B), C), D), E)>,
                t6: Target<Target<Target<Target<Target<Target<Self, A>, (A, B)>, ((A, B), C)>, (((A, B), C), D)>, ((((A, B), C), D), E)>, (((((A, B), C), D), E), F)>,
                i: int,
            |
                fa.product_ensures(fb, t2)
                && t2.product_ensures(fc, t3)
                && t3.product_ensures(fd, t4)
                && t4.product_ensures(fe, t5)
                && t5.product_ensures(ff, t6)
                && 0 <= i < self.items().len()
                ==> ap6_callable(t6, self.items()[i]),
        ensures
            exists|
                t2: Target<Target<Self, A>, (A, B)>,
                t3: Target<Target<Target<Self, A>, (A, B)>, ((A, B), C)>,
                t4: Target<Target<Target<Target<Self, A>, (A, B)>, ((A, B), C)>, (((A, B), C), D)>,
                t5: Target<Target<Target<Target<Target<Self, A>, (A, B)>, ((A, B), C)>, (((A, B), C), D)>, ((((A, B), C), D), E)>,
                t6: Target<Target<Target<Target<Target<Target<Self, A>, (A, B)>, ((A, B), C)>, (((A, B), C), D)>, ((((A, B), C), D), E)>, (((((A, B), C), D), E), F)>,
                parts: Seq<Target<Self, Z>>,
            |
                {
                    &&& #[trigger] fa.product_ensures(fb, t2)
                    &&& #[trigger] t2.product_ensures(fc, t3)
                    &&& #[trigger] t3.product_ensures(fd, t4)
                    &&& #[trigger] t4.product_ensures(fe, t5)
                    &&& #[trigger] t5.product_ensures(ff, t6)
                    &&& parts.len() == self.items().len()
                    &&& forall|i: int|
                        0 <= i < parts.len() ==> ap6_part(t6, self.items()[i], #[trigger] parts[i])
                    &&& #[trigger] self.then_joined(parts, r)
                },
    {
        let t2 = fa.product(fb);
        let t3 = t2.product(fc);
        let t4 = t3.product(fd);
        let t5 = t4.product(fe);
        let t6 = t5.product(ff);
        let r = self.and_then(
            |f: Self::Param| -> (part: Target<Self, Z>)
                requires
                    ap6_callable(t6, f)
                ensures
                    ap6_part(t6, f, part)
                {
                    let pc = t6.clone();
                    proof {
                        assert(cloned(t6, pc));
                    }
                    let part = pc.map(
                        |x: (((((A, B), C), D), E), F)| -> (z: Z)
                            requires
                                f.requires((x.0.0.0.0.0, x.0.0.0.0.1, x.0.0.0.1, x.0.0.1, x.0.1, x.1))
                            ensures
                                f.ensures((x.0.0.0.0.0, x.0.0.0.0.1, x.0.0.0.1, x.0.0.1, x.0.1, x.1), z)
                            { f(x.0.0.0.0.0, x.0.0.0.0.1, x.0.0.0.1, x.0.0.1, x.0.1, x.1) },
                    );
                    proof {
                        assert(cloned(t6, pc) && part.shape() == pc.shape());
                    }
                    part
                },
        );
        proof {
            let parts = choose|parts: Seq<Target<Self, Z>>|
                {
                    &&& parts.len() == self.items().len()
                    &&& forall|i: int|
                        0 <= i < parts.len() ==> ap6_part(t6, self.items()[i], #[trigger] parts[i])
                    &&& #[trigger] self.then_joined(parts, r)
                };
            assert(
                fa.product_ensures(fb, t2)
                && t2.product_ensures(fc, t3)
                && t3.product_ensures(fd, t4)
                && t4.product_ensures(fe, t5)
                && t5.product_ensures(ff, t6)
                && self.then_joined(parts, r)
            );
        }
        r
    }

    /// Applies functions of seven arguments, held in `self`, to seven
    /// containers of values.
    fn ap7<A, B, C, D, E, F, G>(
        self,
        fa: Target<Self, A>,
        fb: Target<Self, B>,
        fc: Target<Self, C>,
        fd: Target<Self, D>,
        fe: Target<Self, E>,
        ff: Target<Self, F>,
        fg: Target<Self, G>,
    ) -> (r: Target<Self, Z>) where
        Self::Param: Fn(A, B, C, D, E, F, G) -> Z,
        Self: AndThen<Z> + Retarget<A> + Retarget<B> + Retarget<C> + Retarget<D> + Retarget<E> + Retarget<F> + Retarget<G>,
        Target<Self, A>: Semigroupal<B>
            + Retarget<B, Target = Target<Self, B>>
            + Retarget<(A, B)>,
        Target<Target<Self, A>, (A, B)>: Semigroupal<C>
            + Retarget<C, Target = Target<Self, C>>
            + Retarget<((A, B), C)>,
        Target<Target<Target<Self, A>, (A, B)>, ((A, B), C)>: Semigroupal<D>
            + Retarget<D, Target = Target<Self, D>>
            + Retarget<(((A, B), C), D)>,
        Target<Target<Target<Target<Self, A>, (A, B)>, ((A, B), C)>, (((A, B), C), D)>: Semigroupal<E>
            + Retarget<E, Target = Target<Self, E>>
            + Retarget<((((A, B), C), D), E)>,
        Target<Target<Target<Target<Target<Self, A>, (A, B)>, ((A, B), C)>, (((A, B), C), D)>, ((((A, B), C), D), E)>: Semigroupal<F>
            + Retarget<F, Target = Target<Self, F>>
            + Retarget<(((((A, B), C), D), E), F)>,
        Target<Target<Target<Target<Target<Target<Self, A>, (A, B)>, ((A, B), C)>, (((A, B), C), D)>, ((((A, B), C), D), E)>, (((((A, B), C), D), E), F)>: Semigroupal<G>
            + Retarget<G, Target = Target<Self, G>>
            + Retarget<((((((A, B), C), D), E), F), G)>,
        Target<Target<Target<Target<Target<Target<Target<Self, A>, (A, B)>, ((A, B), C)>, (((A, B), C), D)>, ((((A, B), C), D), E)>, (((((A, B), C), D), E), F)>, ((((((A, B), C), D), E), F), G)>: Functor<Z> + Retarget<Z, Target = Target<Self, Z>> + Clone,

        requires
            fa.product_requires(fb),
            forall|t2: Target<Target<Self, A>, (A, B)>|
                fa.product_ensures(fb, t2)
                ==> t2.product_requires(fc),
            forall|
                t2: Target<Target<Self, A>, (A, B)>,
                t3: Target<Target<Target<Self, A>, (A, B)>, ((A, B), C)>,
            |
                fa.product_ensures(fb, t2)
                && t2.product_ensures(fc, t3)
                ==> t3.product_requires(fd),
            forall|
                t2: Target<Target<Self, A>, (A, B)>,
                t3: Target<Target<Target<Self, A>, (A, B)>, ((A, B), C)>,
                t4: Target<Target<Target<Target<Self, A>, (A, B)>, ((A, B), C)>, (((A, B), C), D)>,
            |
                fa.product_ensures(fb, t2)
                && t2.product_ensures(fc, t3)
                && t3.product_ensures(fd, t4)
                ==> t4.product_requires(fe),
            forall|
                t2: Target<Target<Self, A>, (A, B)>,
                t3: Target<Target<Target<Self, A>, (A, B)>, ((A, B), C)>,
                t4: Target<Target<Target<Target<Self, A>, (A, B)>, ((A, B), C)>, (((A, B), C), D)>,
                t5: Target<Target<Target<Target<Target<Self, A>, (A, B)>, ((A, B), C)>, (((A, B), C), D)>, ((((A, B), C), D), E)>,
            |
                fa.product_ensures(fb, t2)
                && t2.product_ensures(fc, t3)
                && t3.product_ensures(fd, t4)
                && t4.product_ensures(fe, t5)
                ==> t5.product_requires(ff),
            forall|
                t2: Target<Target<Self, A>, (A, B)>,
                t3: Target<Target<Target<Self, A>, (A, B)>, ((A, B), C)>,
                t4: Target<Target<Target<Target<Self, A>, (A, B)>, ((A, B), C)>, (((A, B), C), D)>,
                t5: Target<Target<Target<Target<Target<Self, A>, (A, B)>, ((A, B), C)>, (((A, B), C), D)>, ((((A, B), C), D), E)>,
                t6: Target<Target<Target<Target<Target<Target<Self, A>, (A, B)>, ((A, B), C)>, (((A, B), C), D)>, ((((A, B), C), D), E)>, (((((A, B), C), D), E), F)>,
            |
                fa.product_ensures(fb, t2)
                && t2.product_ensures(fc, t3)
                && t3.product_ensures(fd, t4)
                && t4.product_ensures(fe, t5)
                && t5.product_ensures(ff, t6)
                ==> t6.product_requires(fg),
            forall|
                t2: Target<Target<Self, A>, (A, B)>,
                t3: Target<Target<Target<Self, A>, (A, B)>, ((A, B), C)>,
                t4: Target<Target<Target<Target<Self, A>, (A, B)>, ((A, B), C)>, (((A, B), C), D)>,
                t5: Target<Target<Target<Target<Target<Self, A>, (A, B)>, ((A, B), C)>, (((A, B), C), D)>, ((((A, B), C), D), E)>,
                t6: Target<Target<Target<Target<Target<Target<Self, A>, (A, B)>, ((A, B), C)>, (((A, B), C), D)>, ((((A, B), C), D), E)>, (((((A, B), C), D), E), F)>,
                t7: Target<Target<Target<Target<Target<Target<Target<Self, A>, (A, B)>, ((A, B), C)>, (((A, B), C), D)>, ((((A, B), C), D), E)>, (((((A, B), C), D), E), F)>, ((((((A, B), C), D), E), F), G)>,
                i: int,
            |
                fa.product_ensures(fb, t2)
                && t2.product_ensures(fc, t3)
                && t3.product_ensures(fd, t4)
                && t4.product_ensures(fe, t5)
                && t5.product_ensures(ff, t6)
                && t6.product_ensures(fg, t7)
                && 0 <= i < self.items().len()
                ==> ap7_callable(t7, self.items()[i]),
        ensures
            exists|
                t2: Target<Target<Self, A>, (A, B)>,
                t3: Target<Target<Target<Self, A>, (A, B)>, ((A, B), C)>,
                t4: Target<Target<Target<Target<Self, A>, (A, B)>, ((A, B), C)>, (((A, B), C), D)>,
                t5: Target<Target<Target<Target<Target<Self, A>, (A, B)>, ((A, B), C)>, (((A, B), C), D)>, ((((A, B), C), D), E)>,
                t6: Target<Target<Target<Target<Target<Target<Self, A>, (A, B)>, ((A, B), C)>, (((A, B), C), D)>, ((((A, B), C), D), E)>, (((((A, B), C), D), E), F)>,
                t7: Target<Target<Target<Target<Target<Target<Target<Self, A>, (A, B)>, ((A, B), C)>, (((A, B), C), D)>, ((((A, B), C), D), E)>, (((((A, B), C), D), E), F)>, ((((((A, B), C), D), E), F), G)>,
                parts: Seq<Target<Self, Z>>,
            |
                {
                    &&& #[trigger] fa.product_ensures(fb, t2)
                    &&& #[trigger] t2.product_ensures(fc, t3)
                    &&& #[trigger] t3.product_ensures(fd, t4)
                    &&& #[trigger] t4.product_ensures(fe, t5)
                    &&& #[trigger] t5.product_ensures(ff, t6)
                    &&& #[trigger] t6.product_ensures(fg, t7)
                    &&& parts.len() == self.items().len()
                    &&& forall|i: int|
                        0 <= i < parts.len() ==> ap7_part(t7, self.items()[i], #[trigger] parts[i])
                    &&& #[trigger] self.then_joined(parts, r)
                },
    {
        let t2 = fa.product(fb);
        let t3 = t2.product(fc);
        let t4 = t3.product(fd);
        let t5 = t4.product(fe);
        let t6 = t5.product(ff);
        let t7 = t6.product(fg);
        let r = self.and_then(
            |f: Self::Param| -> (part: Target<Self, Z>)
                requires
                    ap7_callable(t7, f)
                ensures
                    ap7_part(t7, f, part)
                {
                    let pc = t7.clone();
                    proof {
                        assert(cloned(t7, pc));
                    }
                    let part = pc.map(
                        |x: ((((((A, B), C), D), E), F), G)| -> (z: Z)
                            requires
                                f.requires((x.0.0.0.0.0.0, x.0.0.0.0.0.1, x.0.0.0.0.1, x.0.0.0.1, x.0.0.1, x.0.1, x.1))
                            ensures
                                f.ensures((x.0.0.0.0.0.0, x.0.0.0.0.0.1, x.0.0.0.0.1, x.0.0.0.1, x.0.0.1, x.0.1, x.1), z)
                            { f(x.0.0.0.0.0.0, x.0.0.0.0.0.1, x.0.0.0.0.1, x.0.0.0.1, x.0.0.1, x.0.1, x.1) },
                    );
                    proof {
                        assert(cloned(t7, pc) && part.shape() == pc.shape());
                    }
                    part
                },
        );
        proof {
            let parts = choose|parts: Seq<Target<Self, Z>>|
                {
                    &&& parts.len() == self.items().len()
                    &&& forall|i: int|
                        0 <= i < parts.len() ==> ap7_part(t7, self.items()[i], #[trigger] parts[i])
                    &&& #[trigger] self.then_joined(parts, r)
                };
            assert(
                fa.product_ensures(fb, t2)
                && t2.product_ensures(fc, t3)
                && t3.product_ensures(fd, t4)
                && t4.product_ensures(fe, t5)
                && t5.product_ensures(ff, t6)
                && t6.product_ensures(fg, t7)
                && self.then_joined(parts, r)
            );
        }
        r
    }

    /// Applies functions of eight arguments, held in `self`, to eight
    /// containers of values.
    fn ap8<A, B, C, D, E, F, G, H>(
        self,
        fa: Target<Self, A>,
        fb: Target<Self, B>,
        fc: Target<Self, C>,
        fd: Target<Self, D>,
        fe: Target<Self, E>,
        ff: Target<Self, F>,
        fg: Target<Self, G>,
        fh: Target<Self, H>,
    ) -> (r: Target<Self, Z>) where
        Self::Param: Fn(A, B, C, D, E, F, G, H) -> Z,
        Self: AndThen<Z> + Retarget<A> + Retarget<B> + Retarget<C> + Retarget<D> + Retarget<E> + Retarget<F> + Retarget<G> + Retarget<H>,
        Target<Self, A>: Semigroupal<B>
            + Retarget<B, Target = Target<Self, B>>
            + Retarget<(A, B)>,
        Target<Target<Self, A>, (A, B)>: Semigroupal<C>
            + Retarget<C, Target = Target<Self, C>>
            + Retarget<((A, B), C)>,
        Target<Target<Target<Self, A>, (A, B)>, ((A, B), C)>: Semigroupal<D>
            + Retarget<D, Target = Target<Self, D>>
            + Retarget<(((A, B), C), D)>,
        Target<Target<Target<Target<Self, A>, (A, B)>, ((A, B), C)>, (((A, B), C), D)>: Semigroupal<E>
            + Retarget<E, Target = Target<Self, E>>
            + Retarget<((((A, B), C), D), E)>,
        Target<Target<Target<Target<Target<Self, A>, (A, B)>, ((A, B), C)>, (((A, B), C), D)>, ((((A, B), C), D), E)>: Semigroupal<F>
            + Retarget<F, Target = Target<Self, F>>
            + Retarget<(((((A, B), C), D), E), F)>,
        Target<Target<Target<Target<Target<Target<Self, A>, (A, B)>, ((A, B), C)>, (((A, B), C), D)>, ((((A, B), C), D), E)>, (((((A, B), C), D), E), F)>: Semigroupal<G>
            + Retarget<G, Target = Target<Self, G>>
            + Retarget<((((((A, B), C), D), E), F), G)>,
        Target<Target<Target<Target<Target<Target<Target<Self, A>, (A, B)>, ((A, B), C)>, (((A, B), C), D)>, ((((A, B), C), D), E)>, (((((A, B), C), D), E), F)>, ((((((A, B), C), D), E), F), G)>: Semigroupal<H>
            + Retarget<H, Target = Target<Self, H>>
            + Retarget<(((((((A, B), C), D), E), F), G), H)>,
        Target<Target<Target<Target<Target<Target<Target<Target<Self, A>, (A, B)>, ((A, B), C)>, (((A, B), C), D)>, ((((A, B), C), D), E)>, (((((A, B), C), D), E), F)>, ((((((A, B), C), D), E), F), G)>, (((((((A, B), C), D), E), F), G), H)>: Functor<Z> + Retarget<Z, Target = Target<Self, Z>> + Clone,

        requires
            fa.product_requires(fb),
            forall|t2: Target<Target<Self, A>, (A, B)>|
                fa.product_ensures(fb, t2)
                ==> t2.product_requires(fc),
            forall|
                t2: Target<Target<Self, A>, (A, B)>,
                t3: Target<Target<Target<Self, A>, (A, B)>, ((A, B), C)>,
            |
                fa.product_ensures(fb, t2)
                && t2.product_ensures(fc, t3)
                ==> t3.product_requires(fd),
            forall|
                t2: Target<Target<Self, A>, (A, B)>,
                t3: Target<Target<Target<Self, A>, (A, B)>, ((A, B), C)>,
                t4: Target<Target<Target<Target<Self, A>, (A, B)>, ((A, B), C)>, (((A, B), C), D)>,
            |
                fa.product_ensures(fb, t2)
                && t2.product_ensures(fc, t3)
                && t3.product_ensures(fd, t4)
                ==> t4.product_requires(fe),
            forall|
                t2: Target<Target<Self, A>, (A, B)>,
                t3: Target<Target<Target<Self, A>, (A, B)>, ((A, B), C)>,
                t4: Target<Target<Target<Target<Self, A>, (A, B)>, ((A, B), C)>, (((A, B), C), D)>,
                t5: Target<Target<Target<Target<Target<Self, A>, (A, B)>, ((A, B), C)>, (((A, B), C), D)>, ((((A, B), C), D), E)>,
            |
                fa.product_ensures(fb, t2)
                && t2.product_ensures(fc, t3)
                && t3.product_ensures(fd, t4)
                && t4.product_ensures(fe, t5)
                ==> t5.product_requires(ff),
            forall|
                t2: Target<Target<Self, A>, (A, B)>,
                t3: Target<Target<Target<Self, A>, (A, B)>, ((A, B), C)>,
                t4: Target<Target<Target<Target<Self, A>, (A, B)>, ((A, B), C)>, (((A, B), C), D)>,
                t5: Target<Target<Target<Target<Target<Self, A>, (A, B)>, ((A, B), C)>, (((A, B), C), D)>, ((((A, B), C), D), E)>,
                t6: Target<Target<Target<Target<Target<Target<Self, A>, (A, B)>, ((A, B), C)>, (((A, B), C), D)>, ((((A, B), C), D), E)>, (((((A, B), C), D), E), F)>,
            |
                fa.product_ensures(fb, t2)
                && t2.product_ensures(fc, t3)
                && t3.product_ensures(fd, t4)
                && t4.product_ensures(fe, t5)
                && t5.product_ensures(ff, t6)
                ==> t6.product_requires(fg),
            forall|
                t2: Target<Target<Self, A>, (A, B)>,
                t3: Target<Target<Target<Self, A>, (A, B)>, ((A, B), C)>,
                t4: Target<Target<Target<Target<Self, A>, (A, B)>, ((A, B), C)>, (((A, B), C), D)>,
                t5: Target<Target<Target<Target<Target<Self, A>, (A, B)>, ((A, B), C)>, (((A, B), C), D)>, ((((A, B), C), D), E)>,
                t6: Target<Target<Target<Target<Target<Target<Self, A>, (A, B)>, ((A, B), C)>, (((A, B), C), D)>, ((((A, B), C), D), E)>, (((((A, B), C), D), E), F)>,
                t7: Target<Target<Target<Target<Target<Target<Target<Self, A>, (A, B)>, ((A, B), C)>, (((A, B), C), D)>, ((((A, B), C), D), E)>, (((((A, B), C), D), E), F)>, ((((((A, B), C), D), E), F), G)>,
            |
                fa.product_ensures(fb, t2)
                && t2.product_ensures(fc, t3)
                && t3.product_ensures(fd, t4)
                && t4.product_ensures(fe, t5)
                && t5.product_ensures(ff, t6)
                && t6.product_ensures(fg, t7)
                ==> t7.product_requires(fh),
            forall|
                t2: Target<Target<Self, A>, (A, B)>,
                t3: Target<Target<Target<Self, A>, (A, B)>, ((A, B), C)>,
                t4: Target<Target<Target<Target<Self, A>, (A, B)>, ((A, B), C)>, (((A, B), C), D)>,
                t5: Target<Target<Target<Target<Target<Self, A>, (A, B)>, ((A, B), C)>, (((A, B), C), D)>, ((((A, B), C), D), E)>,
                t6: Target<Target<Target<Target<Target<Target<Self, A>, (A, B)>, ((A, B), C)>, (((A, B), C), D)>, ((((A, B), C), D), E)>, (((((A, B), C), D), E), F)>,
                t7: Target<Target<Target<Target<Target<Target<Target<Self, A>, (A, B)>, ((A, B), C)>, (((A, B), C), D)>, ((((A, B), C), D), E)>, (((((A, B), C), D), E), F)>, ((((((A, B), C), D), E), F), G)>,
                t8: Target<Target<Target<Target<Target<Target<Target<Target<Self, A>, (A, B)>, ((A, B), C)>, (((A, B), C), D)>, ((((A, B), C), D), E)>, (((((A, B), C), D), E), F)>, ((((((A, B), C), D), E), F), G)>, (((((((A, B), C), D), E), F), G), H)>,
                i: int,
            |
                fa.product_ensures(fb, t2)
                && t2.product_ensures(fc, t3)
                && t3.product_ensures(fd, t4)
                && t4.product_ensures(fe, t5)
                && t5.product_ensures(ff, t6)
                && t6.product_ensures(fg, t7)
                && t7.product_ensures(fh, t8)
                && 0 <= i < self.items().len()
                ==> ap8_callable(t8, self.items()[i]),
        ensures
            exists|
                t2: Target<Target<Self, A>, (A, B)>,
                t3: Target<Target<Target<Self, A>, (A, B)>, ((A, B), C)>,
                t4: Target<Target<Target<Target<Self, A>, (A, B)>, ((A, B), C)>, (((A, B), C), D)>,
                t5: Target<Target<Target<Target<Target<Self, A>, (A, B)>, ((A, B), C)>, (((A, B), C), D)>, ((((A, B), C), D), E)>,
                t6: Target<Target<Target<Target<Target<Target<Self, A>, (A, B)>, ((A, B), C)>, (((A, B), C), D)>, ((((A, B), C), D), E)>, (((((A, B), C), D), E), F)>,
                t7: Target<Target<Target<Target<Target<Target<Target<Self, A>, (A, B)>, ((A, B), C)>, (((A, B), C), D)>, ((((A, B), C), D), E)>, (((((A, B), C), D), E), F)>, ((((((A, B), C), D), E), F), G)>,
                t8: Target<Target<Target<Target<Target<Target<Target<Target<Self, A>, (A, B)>, ((A, B), C)>, (((A, B), C), D)>, ((((A, B), C), D), E)>, (((((A, B), C), D), E), F)>, ((((((A, B), C), D), E), F), G)>, (((((((A, B), C), D), E), F), G), H)>,
                parts: Seq<Target<Self, Z>>,
            |
                {
                    &&& #[trigger] fa.product_ensures(fb, t2)
                    &&& #[trigger] t2.product_ensures(fc, t3)
                    &&& #[trigger] t3.product_ensures(fd, t4)
                    &&& #[trigger] t4.product_ensures(fe, t5)
                    &&& #[trigger] t5.product_ensures(ff, t6)
                    &&& #[trigger] t6.product_ensures(fg, t7)
                    &&& #[trigger] t7.product_ensures(fh, t8)
                    &&& parts.len() == self.items().len()
                    &&& forall|i: int|
                        0 <= i < parts.len() ==> ap8_part(t8, self.items()[i], #[trigger] parts[i])
                    &&& #[trigger] self.then_joined(parts, r)
                },
    {
        let t2 = fa.product(fb);
        let t3 = t2.product(fc);
        let t4 = t3.product(fd);
        let t5 = t4.product(fe);
        let t6 = t5.product(ff);
        let t7 = t6.product(fg);
        let t8 = t7.product(fh);
        let r = self.and_then(
            |f: Self::Param| -> (part: Target<Self, Z>)
                requires
                    ap8_callable(t8, f)
                ensures
                    ap8_part(t8, f, part)
                {
                    let pc = t8.clone();
                    proof {
                        assert(cloned(t8, pc));
                    }
                    let part = pc.map(
                        |x: (((((((A, B), C), D), E), F), G), H)| -> (z: Z)
                            requires
                                f.requires((x.0.0.0.0.0.0.0, x.0.0.0.0.0.0.1, x.0.0.0.0.0.1, x.0.0.0.0.1, x.0.0.0.1, x.0.0.1, x.0.1, x.1))
                            ensures
                                f.ensures((x.0.0.0.0.0.0.0, x.0.0.0.0.0.0.1, x.0.0.0.0.0.1, x.0.0.0.0.1, x.0.0.0.1, x.0.0.1, x.0.1, x.1), z)
                            { f(x.0.0.0.0.0.0.0, x.0.0.0.0.0.0.1, x.0.0.0.0.0.1, x.0.0.0.0.1, x.0.0.0.1, x.0.0.1, x.0.1, x.1) },
                    );
                    proof {
                        assert(cloned(t8, pc) && part.shape() == pc.shape());
                    }
                    part
                },
        );
        proof {
            let parts = choose|parts: Seq<Target<Self, Z>>|
                {
                    &&& parts.len() == self.items().len()
                    &&& forall|i: int|
                        0 <= i < parts.len() ==> ap8_part(t8, self.items()[i], #[trigger] parts[i])
                    &&& #[trigger] self.then_joined(parts, r)
                };
            assert(
                fa.product_ensures(fb, t2)
                && t2.product_ensures(fc, t3)
                && t3.product_ensures(fd, t4)
                && t4.product_ensures(fe, t5)
                && t5.product_ensures(ff, t6)
                && t6.product_ensures(fg, t7)
                && t7.product_ensures(fh, t8)
                && self.then_joined(parts, r)
            );
        }
        r
    }

    /// Applies functions of nine arguments, held in `self`, to nine
    /// containers of values.
    fn ap9<A, B, C, D, E, F, G, H, I>(
        self,
        fa: Target<Self, A>,
        fb: Target<Self, B>,
        fc: Target<Self, C>,
        fd: Target<Self, D>,
        fe: Target<Self, E>,
        ff: Target<Self, F>,
        fg: Target<Self, G>,
        fh: Target<Self, H>,
        fi: Target<Self, I>,
    ) -> (r: Target<Self, Z>) where
        Self::Param: Fn(A, B, C, D, E, F, G, H, I) -> Z,
        Self: AndThen<Z> + Retarget<A> + Retarget<B> + Retarget<C> + Retarget<D> + Retarget<E> + Retarget<F> + Retarget<G> + Retarget<H> + Retarget<I>,
        Target<Self, A>: Semigroupal<B>
            + Retarget<B, Target = Target<Self, B>>
            + Retarget<(A, B)>,
        Target<Target<Self, A>, (A, B)>: Semigroupal<C>
            + Retarget<C, Target = Target<Self, C>>
            + Retarget<((A, B), C)>,
        Target<Target<Target<Self, A>, (A, B)>, ((A, B), C)>: Semigroupal<D>
            + Retarget<D, Target = Target<Self, D>>
            + Retarget<(((A, B), C), D)>,
        Target<Target<Target<Target<Self, A>, (A, B)>, ((A, B), C)>, (((A, B), C), D)>: Semigroupal<E>
            + Retarget<E, Target = Target<Self, E>>
            + Retarget<((((A, B), C), D), E)>,
        Target<Target<Target<Target<Target<Self, A>, (A, B)>, ((A, B), C)>, (((A, B), C), D)>, ((((A, B), C), D), E)>: Semigroupal<F>
            + Retarget<F, Target = Target<Self, F>>
            + Retarget<(((((A, B), C), D), E), F)>,
        Target<Target<Target<Target<Target<Target<Self, A>, (A, B)>, ((A, B), C)>, (((A, B), C), D)>, ((((A, B), C), D), E)>, (((((A, B), C), D), E), F)>: Semigroupal<G>
            + Retarget<G, Target = Target<Self, G>>
            + Retarget<((((((A, B), C), D), E), F), G)>,
        Target<Target<Target<Target<Target<Target<Target<Self, A>, (A, B)>, ((A, B), C)>, (((A, B), C), D)>, ((((A, B), C), D), E)>, (((((A, B), C), D), E), F)>, ((((((A, B), C), D), E), F), G)>: Semigroupal<H>
            + Retarget<H, Target = Target<Self, H>>
            + Retarget<(((((((A, B), C), D), E), F), G), H)>,
        Target<Target<Target<Target<Target<Target<Target<Target<Self, A>, (A, B)>, ((A, B), C)>, (((A, B), C), D)>, ((((A, B), C), D), E)>, (((((A, B), C), D), E), F)>, ((((((A, B), C), D), E), F), G)>, (((((((A, B), C), D), E), F), G), H)>: Semigroupal<I>
            + Retarget<I, Target = Target<Self, I>>
            + Retarget<((((((((A, B), C), D), E), F), G), H), I)>,
        Target<Target<Target<Target<Target<Target<Target<Target<Target<Self, A>, (A, B)>, ((A, B), C)>, (((A, B), C), D)>, ((((A, B), C), D), E)>, (((((A, B), C), D), E), F)>, ((((((A, B), C), D), E), F), G)>, (((((((A, B), C), D), E), F), G), H)>, ((((((((A, B), C), D), E), F), G), H), I)>: Functor<Z> + Retarget<Z, Target = Target<Self, Z>> + Clone,

        requires
            fa.product_requires(fb),
            forall|t2: Target<Target<Self, A>, (A, B)>|
                fa.product_ensures(fb, t2)
                ==> t2.product_requires(fc),
            forall|
                t2: Target<Target<Self, A>, (A, B)>,
                t3: Target<Target<Target<Self, A>, (A, B)>, ((A, B), C)>,
            |
                fa.product_ensures(fb, t2)
                && t2.product_ensures(fc, t3)
                ==> t3.product_requires(fd),
            forall|
                t2: Target<Target<Self, A>, (A, B)>,
                t3: Target<Target<Target<Self, A>, (A, B)>, ((A, B), C)>,
                t4: Target<Target<Target<Target<Self, A>, (A, B)>, ((A, B), C)>, (((A, B), C), D)>,
            |
                fa.product_ensures(fb, t2)
                && t2.product_ensures(fc, t3)
                && t3.product_ensures(fd, t4)
                ==> t4.product_requires(fe),
            forall|
                t2: Target<Target<Self, A>, (A, B)>,
                t3: Target<Target<Target<Self, A>, (A, B)>, ((A, B), C)>,
                t4: Target<Target<Target<Target<Self, A>, (A, B)>, ((A, B), C)>, (((A, B), C), D)>,
                t5: Target<Target<Target<Target<Target<Self, A>, (A, B)>, ((A, B), C)>, (((A, B), C), D)>, ((((A, B), C), D), E)>,
            |
                fa.product_ensures(fb, t2)
                && t2.product_ensures(fc, t3)
                && t3.product_ensures(fd, t4)
                && t4.product_ensures(fe, t5)
                ==> t5.product_requires(ff),
            forall|
                t2: Target<Target<Self, A>, (A, B)>,
                t3: Target<Target<Target<Self, A>, (A, B)>, ((A, B), C)>,
                t4: Target<Target<Target<Target<Self, A>, (A, B)>, ((A, B), C)>, (((A, B), C), D)>,
                t5: Target<Target<Target<Target<Target<Self, A>, (A, B)>, ((A, B), C)>, (((A, B), C), D)>, ((((A, B), C), D), E)>,
                t6: Target<Target<Target<Target<Target<Target<Self, A>, (A, B)>, ((A, B), C)>, (((A, B), C), D)>, ((((A, B), C), D), E)>, (((((A, B), C), D), E), F)>,
            |
                fa.product_ensures(fb, t2)
                && t2.product_ensures(fc, t3)
                && t3.product_ensures(fd, t4)
                && t4.product_ensures(fe, t5)
                && t5.product_ensures(ff, t6)
                ==> t6.product_requires(fg),
            forall|
                t2: Target<Target<Self, A>, (A, B)>,
                t3: Target<Target<Target<Self, A>, (A, B)>, ((A, B), C)>,
                t4: Target<Target<Target<Target<Self, A>, (A, B)>, ((A, B), C)>, (((A, B), C), D)>,
                t5: Target<Target<Target<Target<Target<Self, A>, (A, B)>, ((A, B), C)>, (((A, B), C), D)>, ((((A, B), C), D), E)>,
                t6: Target<Target<Target<Target<Target<Target<Self, A>, (A, B)>, ((A, B), C)>, (((A, B), C), D)>, ((((A, B), C), D), E)>, (((((A, B), C), D), E), F)>,
                t7: Target<Target<Target<Target<Target<Target<Target<Self, A>, (A, B)>, ((A, B), C)>, (((A, B), C), D)>, ((((A, B), C), D), E)>, (((((A, B), C), D), E), F)>, ((((((A, B), C), D), E), F), G)>,
            |
                fa.product_ensures(fb, t2)
                && t2.product_ensures(fc, t3)
                && t3.product_ensures(fd, t4)
                && t4.product_ensures(fe, t5)
                && t5.product_ensures(ff, t6)
                && t6.product_ensures(fg, t7)
                ==> t7.product_requires(fh),
            forall|
                t2: Target<Target<Self, A>, (A, B)>,
                t3: Target<Target<Target<Self, A>, (A, B)>, ((A, B), C)>,
                t4: Target<Target<Target<Target<Self, A>, (A, B)>, ((A, B), C)>, (((A, B), C), D)>,
                t5: Target<Target<Target<Target<Target<Self, A>, (A, B)>, ((A, B), C)>, (((A, B), C), D)>, ((((A, B), C), D), E)>,
                t6: Target<Target<Target<Target<Target<Target<Self, A>, (A, B)>, ((A, B), C)>, (((A, B), C), D)>, ((((A, B), C), D), E)>, (((((A, B), C), D), E), F)>,
                t7: Target<Target<Target<Target<Target<Target<Target<Self, A>, (A, B)>, ((A, B), C)>, (((A, B), C), D)>, ((((A, B), C), D), E)>, (((((A, B), C), D), E), F)>, ((((((A, B), C), D), E), F), G)>,
                t8: Target<Target<Target<Target<Target<Target<Target<Target<Self, A>, (A, B)>, ((A, B), C)>, (((A, B), C), D)>, ((((A, B), C), D), E)>, (((((A, B), C), D), E), F)>, ((((((A, B), C), D), E), F), G)>, (((((((A, B), C), D), E), F), G), H)>,
            |
                fa.product_ensures(fb, t2)
                && t2.product_ensures(fc, t3)
                && t3.product_ensures(fd, t4)
                && t4.product_ensures(fe, t5)
                && t5.product_ensures(ff, t6)
                && t6.product_ensures(fg, t7)
                && t7.product_ensures(fh, t8)
                ==> t8.product_requires(fi),
            forall|
                t2: Target<Target<Self, A>, (A, B)>,
                t3: Target<Target<Target<Self, A>, (A, B)>, ((A, B), C)>,
                t4: Target<Target<Target<Target<Self, A>, (A, B)>, ((A, B), C)>, (((A, B), C), D)>,
                t5: Target<Target<Target<Target<Target<Self, A>, (A, B)>, ((A, B), C)>, (((A, B), C), D)>, ((((A, B), C), D), E)>,
                t6: Target<Target<Target<Target<Target<Target<Self, A>, (A, B)>, ((A, B), C)>, (((A, B), C), D)>, ((((A, B), C), D), E)>, (((((A, B), C), D), E), F)>,
                t7: Target<Target<Target<Target<Target<Target<Target<Self, A>, (A, B)>, ((A, B), C)>, (((A, B), C), D)>, ((((A, B), C), D), E)>, (((((A, B), C), D), E), F)>, ((((((A, B), C), D), E), F), G)>,
                t8: Target<Target<Target<Target<Target<Target<Target<Target<Self, A>, (A, B)>, ((A, B), C)>, (((A, B), C), D)>, ((((A, B), C), D), E)>, (((((A, B), C), D), E), F)>, ((((((A, B), C), D), E), F), G)>, (((((((A, B), C), D), E), F), G), H)>,
                t9: Target<Target<Target<Target<Target<Target<Target<Target<Target<Self, A>, (A, B)>, ((A, B), C)>, (((A, B), C), D)>, ((((A, B), C), D), E)>, (((((A, B), C), D), E), F)>, ((((((A, B), C), D), E), F), G)>, (((((((A, B), C), D), E), F), G), H)>, ((((((((A, B), C), D), E), F), G), H), I)>,
                i: int,
            |
                fa.product_ensures(fb, t2)
                && t2.product_ensures(fc, t3)
                && t3.product_ensures(fd, t4)
                && t4.product_ensures(fe, t5)
                && t5.product_ensures(ff, t6)
                && t6.product_ensures(fg, t7)
                && t7.product_ensures(fh, t8)
                && t8.product_ensures(fi, t9)
                && 0 <= i < self.items().len()
                ==> ap9_callable(t9, self.items()[i]),
        ensures
            exists|
                t2: Target<Target<Self, A>, (A, B)>,
                t3: Target<Target<Target<Self, A>, (A, B)>, ((A, B), C)>,
                t4: Target<Target<Target<Target<Self, A>, (A, B)>, ((A, B), C)>, (((A, B), C), D)>,
                t5: Target<Target<Target<Target<Target<Self, A>, (A, B)>, ((A, B), C)>, (((A, B), C), D)>, ((((A, B), C), D), E)>,
                t6: Target<Target<Target<Target<Target<Target<Self, A>, (A, B)>, ((A, B), C)>, (((A, B), C), D)>, ((((A, B), C), D), E)>, (((((A, B), C), D), E), F)>,
                t7: Target<Target<Target<Target<Target<Target<Target<Self, A>, (A, B)>, ((A, B), C)>, (((A, B), C), D)>, ((((A, B), C), D), E)>, (((((A, B), C), D), E), F)>, ((((((A, B), C), D), E), F), G)>,
                t8: Target<Target<Target<Target<Target<Target<Target<Target<Self, A>, (A, B)>, ((A, B), C)>, (((A, B), C), D)>, ((((A, B), C), D), E)>, (((((A, B), C), D), E), F)>, ((((((A, B), C), D), E), F), G)>, (((((((A, B), C), D), E), F), G), H)>,
                t9: Target<Target<Target<Target<Target<Target<Target<Target<Target<Self, A>, (A, B)>, ((A, B), C)>, (((A, B), C), D)>, ((((A, B), C), D), E)>, (((((A, B), C), D), E), F)>, ((((((A, B), C), D), E), F), G)>, (((((((A, B), C), D), E), F), G), H)>, ((((((((A, B), C), D), E), F), G), H), I)>,
                parts: Seq<Target<Self, Z>>,
            |
                {
                    &&& #[trigger] fa.product_ensures(fb, t2)
                    &&& #[trigger] t2.product_ensures(fc, t3)
                    &&& #[trigger] t3.product_ensures(fd, t4)
                    &&& #[trigger] t4.product_ensures(fe, t5)
                    &&& #[trigger] t5.product_ensures(ff, t6)
                    &&& #[trigger] t6.product_ensures(fg, t7)
                    &&& #[trigger] t7.product_ensures(fh, t8)
                    &&& #[trigger] t8.product_ensures(fi, t9)
                    &&& parts.len() == self.items().len()
                    &&& forall|i: int|
                        0 <= i < parts.len() ==> ap9_part(t9, self.items()[i], #[trigger] parts[i])
                    &&& #[trigger] self.then_joined(parts, r)
                },
    {
        let t2 = fa.product(fb);
        let t3 = t2.product(fc);
        let t4 = t3.product(fd);
        let t5 = t4.product(fe);
        let t6 = t5.product(ff);
        let t7 = t6.product(fg);
        let t8 = t7.product(fh);
        let t9 = t8.product(fi);
        let r = self.and_then(
            |f: Self::Param| -> (part: Target<Self, Z>)
                requires
                    ap9_callable(t9, f)
                ensures
                    ap9_part(t9, f, part)
                {
                    let pc = t9.clone();
                    proof {
                        assert(cloned(t9, pc));
                    }
                    let part = pc.map(
                        |x: ((((((((A, B), C), D), E), F), G), H), I)| -> (z: Z)
                            requires
                                f.requires((x.0.0.0.0.0.0.0.0, x.0.0.0.0.0.0.0.1, x.0.0.0.0.0.0.1, x.0.0.0.0.0.1, x.0.0.0.0.1, x.0.0.0.1, x.0.0.1, x.0.1, x.1))
                            ensures
                                f.ensures((x.0.0.0.0.0.0.0.0, x.0.0.0.0.0.0.0.1, x.0.0.0.0.0.0.1, x.0.0.0.0.0.1, x.0.0.0.0.1, x.0.0.0.1, x.0.0.1, x.0.1, x.1), z)
                            { f(x.0.0.0.0.0.0.0.0, x.0.0.0.0.0.0.0.1, x.0.0.0.0.0.0.1, x.0.0.0.0.0.1, x.0.0.0.0.1, x.0.0.0.1, x.0.0.1, x.0.1, x.1) },
                    );
                    proof {
                        assert(cloned(t9, pc) && part.shape() == pc.shape());
                    }
                    part
                },
        );
        proof {
            let parts = choose|parts: Seq<Target<Self, Z>>|
                {
                    &&& parts.len() == self.items().len()
                    &&& forall|i: int|
                        0 <= i < parts.len() ==> ap9_part(t9, self.items()[i], #[trigger] parts[i])
                    &&& #[trigger] self.then_joined(parts, r)
                };
            assert(
                fa.product_ensures(fb, t2)
                && t2.product_ensures(fc, t3)
                && t3.product_ensures(fd, t4)
                && t4.product_ensures(fe, t5)
                && t5.product_ensures(ff, t6)
                && t6.product_ensures(fg, t7)
                && t7.product_ensures(fh, t8)
                && t8.product_ensures(fi, t9)
                && self.then_joined(parts, r)
            );
        }
        r
    }

    /// Applies functions of ten arguments, held in `self`, to ten
    /// containers of values.
    fn ap10<A, B, C, D, E, F, G, H, I, J>(
        self,
        fa: Target<Self, A>,
        fb: Target<Self, B>,
        fc: Target<Self, C>,
        fd: Target<Self, D>,
        fe: Target<Self, E>,
        ff: Target<Self, F>,
        fg: Target<Self, G>,
        fh: Target<Self, H>,
        fi: Target<Self, I>,
        fj: Target<Self, J>,
    ) -> (r: Target<Self, Z>) where
        Self::Param: Fn(A, B, C, D, E, F, G, H, I, J) -> Z,
        Self: AndThen<Z> + Retarget<A> + Retarget<B> + Retarget<C> + Retarget<D> + Retarget<E> + Retarget<F> + Retarget<G> + Retarget<H> + Retarget<I> + Retarget<J>,
        Target<Self, A>: Semigroupal<B>
            + Retarget<B, Target = Target<Self, B>>
            + Retarget<(A, B)>,
        Target<Target<Self, A>, (A, B)>: Semigroupal<C>
            + Retarget<C, Target = Target<Self, C>>
            + Retarget<((A, B), C)>,
        Target<Target<Target<Self, A>, (A, B)>, ((A, B), C)>: Semigroupal<D>
            + Retarget<D, Target = Target<Self, D>>
            + Retarget<(((A, B), C), D)>,
        Target<Target<Target<Target<Self, A>, (A, B)>, ((A, B), C)>, (((A, B), C), D)>: Semigroupal<E>
            + Retarget<E, Target = Target<Self, E>>
            + Retarget<((((A, B), C), D), E)>,
        Target<Target<Target<Target<Target<Self, A>, (A, B)>, ((A, B), C)>, (((A, B), C), D)>, ((((A, B), C), D), E)>: Semigroupal<F>
            + Retarget<F, Target = Target<Self, F>>
            + Retarget<(((((A, B), C), D), E), F)>,
        Target<Target<Target<Target<Target<Target<Self, A>, (A, B)>, ((A, B), C)>, (((A, B), C), D)>, ((((A, B), C), D), E)>, (((((A, B), C), D), E), F)>: Semigroupal<G>
            + Retarget<G, Target = Target<Self, G>>
            + Retarget<((((((A, B), C), D), E), F), G)>,
        Target<Target<Target<Target<Target<Target<Target<Self, A>, (A, B)>, ((A, B), C)>, (((A, B), C), D)>, ((((A, B), C), D), E)>, (((((A, B), C), D), E), F)>, ((((((A, B), C), D), E), F), G)>: Semigroupal<H>
            + Retarget<H, Target = Target<Self, H>>
            + Retarget<(((((((A, B), C), D), E), F), G), H)>,
        Target<Target<Target<Target<Target<Target<Target<Target<Self, A>, (A, B)>, ((A, B), C)>, (((A, B), C), D)>, ((((A, B), C), D), E)>, (((((A, B), C), D), E), F)>, ((((((A, B), C), D), E), F), G)>, (((((((A, B), C), D), E), F), G), H)>: Semigroupal<I>
            + Retarget<I, Target = Target<Self, I>>
            + Retarget<((((((((A, B), C), D), E), F), G), H), I)>,
        Target<Target<Target<Target<Target<Target<Target<Target<Target<Self, A>, (A, B)>, ((A, B), C)>, (((A, B), C), D)>, ((((A, B), C), D), E)>, (((((A, B), C), D), E), F)>, ((((((A, B), C), D), E), F), G)>, (((((((A, B), C), D), E), F), G), H)>, ((((((((A, B), C), D), E), F), G), H), I)>: Semigroupal<J>
            + Retarget<J, Target = Target<Self, J>>
            + Retarget<(((((((((A, B), C), D), E), F), G), H), I), J)>,
        Target<Target<Target<Target<Target<Target<Target<Target<Target<Target<Self, A>, (A, B)>, ((A, B), C)>, (((A, B), C), D)>, ((((A, B), C), D), E)>, (((((A, B), C), D), E), F)>, ((((((A, B), C), D), E), F), G)>, (((((((A, B), C), D), E), F), G), H)>, ((((((((A, B), C), D), E), F), G), H), I)>, (((((((((A, B), C), D), E), F), G), H), I), J)>: Functor<Z> + Retarget<Z, Target = Target<Self, Z>> + Clone,

        requires
            fa.product_requires(fb),
            forall|t2: Target<Target<Self, A>, (A, B)>|
                fa.product_ensures(fb, t2)
                ==> t2.product_requires(fc),
            forall|
                t2: Target<Target<Self, A>, (A, B)>,
                t3: Target<Target<Target<Self, A>, (A, B)>, ((A, B), C)>,
            |
                fa.product_ensures(fb, t2)
                && t2.product_ensures(fc, t3)
                ==> t3.product_requires(fd),
            forall|
                t2: Target<Target<Self, A>, (A, B)>,
                t3: Target<Target<Target<Self, A>, (A, B)>, ((A, B), C)>,
                t4: Target<Target<Target<Target<Self, A>, (A, B)>, ((A, B), C)>, (((A, B), C), D)>,
            |
                fa.product_ensures(fb, t2)
                && t2.product_ensures(fc, t3)
                && t3.product_ensures(fd, t4)
                ==> t4.product_requires(fe),
            forall|
                t2: Target<Target<Self, A>, (A, B)>,
                t3: Target<Target<Target<Self, A>, (A, B)>, ((A, B), C)>,
                t4: Target<Target<Target<Target<Self, A>, (A, B)>, ((A, B), C)>, (((A, B), C), D)>,
                t5: Target<Target<Target<Target<Target<Self, A>, (A, B)>, ((A, B), C)>, (((A, B), C), D)>, ((((A, B), C), D), E)>,
            |
                fa.product_ensures(fb, t2)
                && t2.product_ensures(fc, t3)
                && t3.product_ensures(fd, t4)
                && t4.product_ensures(fe, t5)
                ==> t5.product_requires(ff),
            forall|
                t2: Target<Target<Self, A>, (A, B)>,
                t3: Target<Target<Target<Self, A>, (A, B)>, ((A, B), C)>,
                t4: Target<Target<Target<Target<Self, A>, (A, B)>, ((A, B), C)>, (((A, B), C), D)>,
                t5: Target<Target<Target<Target<Target<Self, A>, (A, B)>, ((A, B), C)>, (((A, B), C), D)>, ((((A, B), C), D), E)>,
                t6: Target<Target<Target<Target<Target<Target<Self, A>, (A, B)>, ((A, B), C)>, (((A, B), C), D)>, ((((A, B), C), D), E)>, (((((A, B), C), D), E), F)>,
            |
                fa.product_ensures(fb, t2)
                && t2.product_ensures(fc, t3)
                && t3.product_ensures(fd, t4)
                && t4.product_ensures(fe, t5)
                && t5.product_ensures(ff, t6)
                ==> t6.product_requires(fg),
            forall|
                t2: Target<Target<Self, A>, (A, B)>,
                t3: Target<Target<Target<Self, A>, (A, B)>, ((A, B), C)>,
                t4: Target<Target<Target<Target<Self, A>, (A, B)>, ((A, B), C)>, (((A, B), C), D)>,
                t5: Target<Target<Target<Target<Target<Self, A>, (A, B)>, ((A, B), C)>, (((A, B), C), D)>, ((((A, B), C), D), E)>,
                t6: Target<Target<Target<Target<Target<Target<Self, A>, (A, B)>, ((A, B), C)>, (((A, B), C), D)>, ((((A, B), C), D), E)>, (((((A, B), C), D), E), F)>,
                t7: Target<Target<Target<Target<Target<Target<Target<Self, A>, (A, B)>, ((A, B), C)>, (((A, B), C), D)>, ((((A, B), C), D), E)>, (((((A, B), C), D), E), F)>, ((((((A, B), C), D), E), F), G)>,
            |
                fa.product_ensures(fb, t2)
                && t2.product_ensures(fc, t3)
                && t3.product_ensures(fd, t4)
                && t4.product_ensures(fe, t5)
                && t5.product_ensures(ff, t6)
                && t6.product_ensures(fg, t7)
                ==> t7.product_requires(fh),
            forall|
                t2: Target<Target<Self, A>, (A, B)>,
                t3: Target<Target<Target<Self, A>, (A, B)>, ((A, B), C)>,
                t4: Target<Target<Target<Target<Self, A>, (A, B)>, ((A, B), C)>, (((A, B), C), D)>,
                t5: Target<Target<Target<Target<Target<Self, A>, (A, B)>, ((A, B), C)>, (((A, B), C), D)>, ((((A, B), C), D), E)>,
                t6: Target<Target<Target<Target<Target<Target<Self, A>, (A, B)>, ((A, B), C)>, (((A, B), C), D)>, ((((A, B), C), D), E)>, (((((A, B), C), D), E), F)>,
                t7: Target<Target<Target<Target<Target<Target<Target<Self, A>, (A, B)>, ((A, B), C)>, (((A, B), C), D)>, ((((A, B), C), D), E)>, (((((A, B), C), D), E), F)>, ((((((A, B), C), D), E), F), G)>,
                t8: Target<Target<Target<Target<Target<Target<Target<Target<Self, A>, (A, B)>, ((A, B), C)>, (((A, B), C), D)>, ((((A, B), C), D), E)>, (((((A, B), C), D), E), F)>, ((((((A, B), C), D), E), F), G)>, (((((((A, B), C), D), E), F), G), H)>,
            |
                fa.product_ensures(fb, t2)
                && t2.product_ensures(fc, t3)
                && t3.product_ensures(fd, t4)
                && t4.product_ensures(fe, t5)
                && t5.product_ensures(ff, t6)
                && t6.product_ensures(fg, t7)
                && t7.product_ensures(fh, t8)
                ==> t8.product_requires(fi),
            forall|
                t2: Target<Target<Self, A>, (A, B)>,
                t3: Target<Target<Target<Self, A>, (A, B)>, ((A, B), C)>,
                t4: Target<Target<Target<Target<Self, A>, (A, B)>, ((A, B), C)>, (((A, B), C), D)>,
                t5: Target<Target<Target<Target<Target<Self, A>, (A, B)>, ((A, B), C)>, (((A, B), C), D)>, ((((A, B), C), D), E)>,
                t6: Target<Target<Target<Target<Target<Target<Self, A>, (A, B)>, ((A, B), C)>, (((A, B), C), D)>, ((((A, B), C), D), E)>, (((((A, B), C), D), E), F)>,
                t7: Target<Target<Target<Target<Target<Target<Target<Self, A>, (A, B)>, ((A, B), C)>, (((A, B), C), D)>, ((((A, B), C), D), E)>, (((((A, B), C), D), E), F)>, ((((((A, B), C), D), E), F), G)>,
                t8: Target<Target<Target<Target<Target<Target<Target<Target<Self, A>, (A, B)>, ((A, B), C)>, (((A, B), C), D)>, ((((A, B), C), D), E)>, (((((A, B), C), D), E), F)>, ((((((A, B), C), D), E), F), G)>, (((((((A, B), C), D), E), F), G), H)>,
                t9: Target<Target<Target<Target<Target<Target<Target<Target<Target<Self, A>, (A, B)>, ((A, B), C)>, (((A, B), C), D)>, ((((A, B), C), D), E)>, (((((A, B), C), D), E), F)>, ((((((A, B), C), D), E), F), G)>, (((((((A, B), C), D), E), F), G), H)>, ((((((((A, B), C), D), E), F), G), H), I)>,
            |
                fa.product_ensures(fb, t2)
                && t2.product_ensures(fc, t3)
                && t3.product_ensures(fd, t4)
                && t4.product_ensures(fe, t5)
                && t5.product_ensures(ff, t6)
                && t6.product_ensures(fg, t7)
                && t7.product_ensures(fh, t8)
                && t8.product_ensures(fi, t9)
                ==> t9.product_requires(fj),
            forall|
                t2: Target<Target<Self, A>, (A, B)>,
                t3: Target<Target<Target<Self, A>, (A, B)>, ((A, B), C)>,
                t4: Target<Target<Target<Target<Self, A>, (A, B)>, ((A, B), C)>, (((A, B), C), D)>,
                t5: Target<Target<Target<Target<Target<Self, A>, (A, B)>, ((A, B), C)>, (((A, B), C), D)>, ((((A, B), C), D), E)>,
                t6: Target<Target<Target<Target<Target<Target<Self, A>, (A, B)>, ((A, B), C)>, (((A, B), C), D)>, ((((A, B), C), D), E)>, (((((A, B), C), D), E), F)>,
                t7: Target<Target<Target<Target<Target<Target<Target<Self, A>, (A, B)>, ((A, B), C)>, (((A, B), C), D)>, ((((A, B), C), D), E)>, (((((A, B), C), D), E), F)>, ((((((A, B), C), D), E), F), G)>,
                t8: Target<Target<Target<Target<Target<Target<Target<Target<Self, A>, (A, B)>, ((A, B), C)>, (((A, B), C), D)>, ((((A, B), C), D), E)>, (((((A, B), C), D), E), F)>, ((((((A, B), C), D), E), F), G)>, (((((((A, B), C), D), E), F), G), H)>,
                t9: Target<Target<Target<Target<Target<Target<Target<Target<Target<Self, A>, (A, B)>, ((A, B), C)>, (((A, B), C), D)>, ((((A, B), C), D), E)>, (((((A, B), C), D), E), F)>, ((((((A, B), C), D), E), F), G)>, (((((((A, B), C), D), E), F), G), H)>, ((((((((A, B), C), D), E), F), G), H), I)>,
                t10: Target<Target<Target<Target<Target<Target<Target<Target<Target<Target<Self, A>, (A, B)>, ((A, B), C)>, (((A, B), C), D)>, ((((A, B), C), D), E)>, (((((A, B), C), D), E), F)>, ((((((A, B), C), D), E), F), G)>, (((((((A, B), C), D), E), F), G), H)>, ((((((((A, B), C), D), E), F), G), H), I)>, (((((((((A, B), C), D), E), F), G), H), I), J)>,
                i: int,
            |
                fa.product_ensures(fb, t2)
                && t2.product_ensures(fc, t3)
                && t3.product_ensures(fd, t4)
                && t4.product_ensures(fe, t5)
                && t5.product_ensures(ff, t6)
                && t6.product_ensures(fg, t7)
                && t7.product_ensures(fh, t8)
                && t8.product_ensures(fi, t9)
                && t9.product_ensures(fj, t10)
                && 0 <= i < self.items().len()
                ==> ap10_callable(t10, self.items()[i]),
        ensures
            exists|
                t2: Target<Target<Self, A>, (A, B)>,
                t3: Target<Target<Target<Self, A>, (A, B)>, ((A, B), C)>,
                t4: Target<Target<Target<Target<Self, A>, (A, B)>, ((A, B), C)>, (((A, B), C), D)>,
                t5: Target<Target<Target<Target<Target<Self, A>, (A, B)>, ((A, B), C)>, (((A, B), C), D)>, ((((A, B), C), D), E)>,
                t6: Target<Target<Target<Target<Target<Target<Self, A>, (A, B)>, ((A, B), C)>, (((A, B), C), D)>, ((((A, B), C), D), E)>, (((((A, B), C), D), E), F)>,
                t7: Target<Target<Target<Target<Target<Target<Target<Self, A>, (A, B)>, ((A, B), C)>, (((A, B), C), D)>, ((((A, B), C), D), E)>, (((((A, B), C), D), E), F)>, ((((((A, B), C), D), E), F), G)>,
                t8: Target<Target<Target<Target<Target<Target<Target<Target<Self, A>, (A, B)>, ((A, B), C)>, (((A, B), C), D)>, ((((A, B), C), D), E)>, (((((A, B), C), D), E), F)>, ((((((A, B), C), D), E), F), G)>, (((((((A, B), C), D), E), F), G), H)>,
                t9: Target<Target<Target<Target<Target<Target<Target<Target<Target<Self, A>, (A, B)>, ((A, B), C)>, (((A, B), C), D)>, ((((A, B), C), D), E)>, (((((A, B), C), D), E), F)>, ((((((A, B), C), D), E), F), G)>, (((((((A, B), C), D), E), F), G), H)>, ((((((((A, B), C), D), E), F), G), H), I)>,
                t10: Target<Target<Target<Target<Target<Target<Target<Target<Target<Target<Self, A>, (A, B)>, ((A, B), C)>, (((A, B), C), D)>, ((((A, B), C), D), E)>, (((((A, B), C), D), E), F)>, ((((((A, B), C), D), E), F), G)>, (((((((A, B), C), D), E), F), G), H)>, ((((((((A, B), C), D), E), F), G), H), I)>, (((((((((A, B), C), D), E), F), G), H), I), J)>,
                parts: Seq<Target<Self, Z>>,
            |
                {
                    &&& #[trigger] fa.product_ensures(fb, t2)
                    &&& #[trigger] t2.product_ensures(fc, t3)
                    &&& #[trigger] t3.product_ensures(fd, t4)
                    &&& #[trigger] t4.product_ensures(fe, t5)
                    &&& #[trigger] t5.product_ensures(ff, t6)
                    &&& #[trigger] t6.product_ensures(fg, t7)
                    &&& #[trigger] t7.product_ensures(fh, t8)
                    &&& #[trigger] t8.product_ensures(fi, t9)
                    &&& #[trigger] t9.product_ensures(fj, t10)
                    &&& parts.len() == self.items().len()
                    &&& forall|i: int|
                        0 <= i < parts.len() ==> ap10_part(t10, self.items()[i], #[trigger] parts[i])
                    &&& #[trigger] self.then_joined(parts, r)
                },
    {
        let t2 = fa.product(fb);
        let t3 = t2.product(fc);
        let t4 = t3.product(fd);
        let t5 = t4.product(fe);
        let t6 = t5.product(ff);
        let t7 = t6.product(fg);
        let t8 = t7.product(fh);
        let t9 = t8.product(fi);
        let t10 = t9.product(fj);
        let r = self.and_then(
            |f: Self::Param| -> (part: Target<Self, Z>)
                requires
                    ap10_callable(t10, f)
                ensures
                    ap10_part(t10, f, part)
                {
                    let pc = t10.clone();
                    proof {
                        assert(cloned(t10, pc));
                    }
                    let part = pc.map(
                        |x: (((((((((A, B), C), D), E), F), G), H), I), J)| -> (z: Z)
                            requires
                                f.requires((x.0.0.0.0.0.0.0.0.0, x.0.0.0.0.0.0.0.0.1, x.0.0.0.0.0.0.0.1, x.0.0.0.0.0.0.1, x.0.0.0.0.0.1, x.0.0.0.0.1, x.0.0.0.1, x.0.0.1, x.0.1, x.1))
                            ensures
                                f.ensures((x.0.0.0.0.0.0.0.0.0, x.0.0.0.0.0.0.0.0.1, x.0.0.0.0.0.0.0.1, x.0.0.0.0.0.0.1, x.0.0.0.0.0.1, x.0.0.0.0.1, x.0.0.0.1, x.0.0.1, x.0.1, x.1), z)
                            { f(x.0.0.0.0.0.0.0.0.0, x.0.0.0.0.0.0.0.0.1, x.0.0.0.0.0.0.0.1, x.0.0.0.0.0.0.1, x.0.0.0.0.0.1, x.0.0.0.0.1, x.0.0.0.1, x.0.0.1, x.0.1, x.1) },
                    );
                    proof {
                        assert(cloned(t10, pc) && part.shape() == pc.shape());
                    }
                    part
                },
        );
        proof {
            let parts = choose|parts: Seq<Target<Self, Z>>|
                {
                    &&& parts.len() == self.items().len()
                    &&& forall|i: int|
                        0 <= i < parts.len() ==> ap10_part(t10, self.items()[i], #[trigger] parts[i])
                    &&& #[trigger] self.then_joined(parts, r)
                };
            assert(
                fa.product_ensures(fb, t2)
                && t2.product_ensures(fc, t3)
                && t3.product_ensures(fd, t4)
                && t4.product_ensures(fe, t5)
                && t5.product_ensures(ff, t6)
                && t6.product_ensures(fg, t7)
                && t7.product_ensures(fh, t8)
                && t8.product_ensures(fi, t9)
                && t9.product_ensures(fj, t10)
                && self.then_joined(parts, r)
            );
        }
        r
    }

    /// Applies functions of eleven arguments, held in `self`, to eleven
    /// containers of values.
    fn ap11<A, B, C, D, E, F, G, H, I, J, K>(
        self,
        fa: Target<Self, A>,
        fb: Target<Self, B>,
        fc: Target<Self, C>,
        fd: Target<Self, D>,
        fe: Target<Self, E>,
        ff: Target<Self, F>,
        fg: Target<Self, G>,
        fh: Target<Self, H>,
        fi: Target<Self, I>,
        fj: Target<Self, J>,
        fk: Target<Self, K>,
    ) -> (r: Target<Self, Z>) where
        Self::Param: Fn(A, B, C, D, E, F, G, H, I, J, K) -> Z,
        Self: AndThen<Z> + Retarget<A> + Retarget<B> + Retarget<C> + Retarget<D> + Retarget<E> + Retarget<F> + Retarget<G> + Retarget<H> + Retarget<I> + Retarget<J> + Retarget<K>,
        Target<Self, A>: Semigroupal<B>
            + Retarget<B, Target = Target<Self, B>>
            + Retarget<(A, B)>,
        Target<Target<Self, A>, (A, B)>: Semigroupal<C>
            + Retarget<C, Target = Target<Self, C>>
            + Retarget<((A, B), C)>,
        Target<Target<Target<Self, A>, (A, B)>, ((A, B), C)>: Semigroupal<D>
            + Retarget<D, Target = Target<Self, D>>
            + Retarget<(((A, B), C), D)>,
        Target<Target<Target<Target<Self, A>, (A, B)>, ((A, B), C)>, (((A, B), C), D)>: Semigroupal<E>
            + Retarget<E, Target = Target<Self, E>>
            + Retarget<((((A, B), C), D), E)>,
        Target<Target<Target<Target<Target<Self, A>, (A, B)>, ((A, B), C)>, (((A, B), C), D)>, ((((A, B), C), D), E)>: Semigroupal<F>
            + Retarget<F, Target = Target<Self, F>>
            + Retarget<(((((A, B), C), D), E), F)>,
        Target<Target<Target<Target<Target<Target<Self, A>, (A, B)>, ((A, B), C)>, (((A, B), C), D)>, ((((A, B), C), D), E)>, (((((A, B), C), D), E), F)>: Semigroupal<G>
            + Retarget<G, Target = Target<Self, G>>
            + Retarget<((((((A, B), C), D), E), F), G)>,
        Target<Target<Target<Target<Target<Target<Target<Self, A>, (A, B)>, ((A, B), C)>, (((A, B), C), D)>, ((((A, B), C), D), E)>, (((((A, B), C), D), E), F)>, ((((((A, B), C), D), E), F), G)>: Semigroupal<H>
            + Retarget<H, Target = Target<Self, H>>
            + Retarget<(((((((A, B), C), D), E), F), G), H)>,
        Target<Target<Target<Target<Target<Target<Target<Target<Self, A>, (A, B)>, ((A, B), C)>, (((A, B), C), D)>, ((((A, B), C), D), E)>, (((((A, B), C), D), E), F)>, ((((((A, B), C), D), E), F), G)>, (((((((A, B), C), D), E), F), G), H)>: Semigroupal<I>
            + Retarget<I, Target = Target<Self, I>>
            + Retarget<((((((((A, B), C), D), E), F), G), H), I)>,
        Target<Target<Target<Target<Target<Target<Target<Target<Target<Self, A>, (A, B)>, ((A, B), C)>, (((A, B), C), D)>, ((((A, B), C), D), E)>, (((((A, B), C), D), E), F)>, ((((((A, B), C), D), E), F), G)>, (((((((A, B), C), D), E), F), G), H)>, ((((((((A, B), C), D), E), F), G), H), I)>: Semigroupal<J>
            + Retarget<J, Target = Target<Self, J>>
            + Retarget<(((((((((A, B), C), D), E), F), G), H), I), J)>,
        Target<Target<Target<Target<Target<Target<Target<Target<Target<Target<Self, A>, (A, B)>, ((A, B), C)>, (((A, B), C), D)>, ((((A, B), C), D), E)>, (((((A, B), C), D), E), F)>, ((((((A, B), C), D), E), F), G)>, (((((((A, B), C), D), E), F), G), H)>, ((((((((A, B), C), D), E), F), G), H), I)>, (((((((((A, B), C), D), E), F), G), H), I), J)>: Semigroupal<K>
            + Retarget<K, Target = Target<Self, K>>
            + Retarget<((((((((((A, B), C), D), E), F), G), H), I), J), K)>,
        Target<Target<Target<Target<Target<Target<Target<Target<Target<Target<Target<Self, A>, (A, B)>, ((A, B), C)>, (((A, B), C), D)>, ((((A, B), C), D), E)>, (((((A, B), C), D), E), F)>, ((((((A, B), C), D), E), F), G)>, (((((((A, B), C), D), E), F), G), H)>, ((((((((A, B), C), D), E), F), G), H), I)>, (((((((((A, B), C), D), E), F), G), H), I), J)>, ((((((((((A, B), C), D), E), F), G), H), I), J), K)>: Functor<Z> + Retarget<Z, Target = Target<Self, Z>> + Clone,

        requires
            fa.product_requires(fb),
            forall|t2: Target<Target<Self, A>, (A, B)>|
                fa.product_ensures(fb, t2)
                ==> t2.product_requires(fc),
            forall|
                t2: Target<Target<Self, A>, (A, B)>,
                t3: Target<Target<Target<Self, A>, (A, B)>, ((A, B), C)>,
            |
                fa.product_ensures(fb, t2)
                && t2.product_ensures(fc, t3)
                ==> t3.product_requires(fd),
            forall|
                t2: Target<Target<Self, A>, (A, B)>,
                t3: Target<Target<Target<Self, A>, (A, B)>, ((A, B), C)>,
                t4: Target<Target<Target<Target<Self, A>, (A, B)>, ((A, B), C)>, (((A, B), C), D)>,
            |
                fa.product_ensures(fb, t2)
                && t2.product_ensures(fc, t3)
                && t3.product_ensures(fd, t4)
                ==> t4.product_requires(fe),
            forall|
                t2: Target<Target<Self, A>, (A, B)>,
                t3: Target<Target<Target<Self, A>, (A, B)>, ((A, B), C)>,
                t4: Target<Target<Target<Target<Self, A>, (A, B)>, ((A, B), C)>, (((A, B), C), D)>,
                t5: Target<Target<Target<Target<Target<Self, A>, (A, B)>, ((A, B), C)>, (((A, B), C), D)>, ((((A, B), C), D), E)>,
            |
                fa.product_ensures(fb, t2)
                && t2.product_ensures(fc, t3)
                && t3.product_ensures(fd, t4)
                && t4.product_ensures(fe, t5)
                ==> t5.product_requires(ff),
            forall|
                t2: Target<Target<Self, A>, (A, B)>,
                t3: Target<Target<Target<Self, A>, (A, B)>, ((A, B), C)>,
                t4: Target<Target<Target<Target<Self, A>, (A, B)>, ((A, B), C)>, (((A, B), C), D)>,
                t5: Target<Target<Target<Target<Target<Self, A>, (A, B)>, ((A, B), C)>, (((A, B), C), D)>, ((((A, B), C), D), E)>,
                t6: Target<Target<Target<Target<Target<Target<Self, A>, (A, B)>, ((A, B), C)>, (((A, B), C), D)>, ((((A, B), C), D), E)>, (((((A, B), C), D), E), F)>,
            |
                fa.product_ensures(fb, t2)
                && t2.product_ensures(fc, t3)
                && t3.product_ensures(fd, t4)
                && t4.product_ensures(fe, t5)
                && t5.product_ensures(ff, t6)
                ==> t6.product_requires(fg),
            forall|
                t2: Target<Target<Self, A>, (A, B)>,
                t3: Target<Target<Target<Self, A>, (A, B)>, ((A, B), C)>,
                t4: Target<Target<Target<Target<Self, A>, (A, B)>, ((A, B), C)>, (((A, B), C), D)>,
                t5: Target<Target<Target<Target<Target<Self, A>, (A, B)>, ((A, B), C)>, (((A, B), C), D)>, ((((A, B), C), D), E)>,
                t6: Target<Target<Target<Target<Target<Target<Self, A>, (A, B)>, ((A, B), C)>, (((A, B), C), D)>, ((((A, B), C), D), E)>, (((((A, B), C), D), E), F)>,
                t7: Target<Target<Target<Target<Target<Target<Target<Self, A>, (A, B)>, ((A, B), C)>, (((A, B), C), D)>, ((((A, B), C), D), E)>, (((((A, B), C), D), E), F)>, ((((((A, B), C), D), E), F), G)>,
            |
                fa.product_ensures(fb, t2)
                && t2.product_ensures(fc, t3)
                && t3.product_ensures(fd, t4)
                && t4.product_ensures(fe, t5)
                && t5.product_ensures(ff, t6)
                && t6.product_ensures(fg, t7)
                ==> t7.product_requires(fh),
            forall|
                t2: Target<Target<Self, A>, (A, B)>,
                t3: Target<Target<Target<Self, A>, (A, B)>, ((A, B), C)>,
                t4: Target<Target<Target<Target<Self, A>, (A, B)>, ((A, B), C)>, (((A, B), C), D)>,
                t5: Target<Target<Target<Target<Target<Self, A>, (A, B)>, ((A, B), C)>, (((A, B), C), D)>, ((((A, B), C), D), E)>,
                t6: Target<Target<Target<Target<Target<Target<Self, A>, (A, B)>, ((A, B), C)>, (((A, B), C), D)>, ((((A, B), C), D), E)>, (((((A, B), C), D), E), F)>,
                t7: Target<Target<Target<Target<Target<Target<Target<Self, A>, (A, B)>, ((A, B), C)>, (((A, B), C), D)>, ((((A, B), C), D), E)>, (((((A, B), C), D), E), F)>, ((((((A, B), C), D), E), F), G)>,
                t8: Target<Target<Target<Target<Target<Target<Target<Target<Self, A>, (A, B)>, ((A, B), C)>, (((A, B), C), D)>, ((((A, B), C), D), E)>, (((((A, B), C), D), E), F)>, ((((((A, B), C), D), E), F), G)>, (((((((A, B), C), D), E), F), G), H)>,
            |
                fa.product_ensures(fb, t2)
                && t2.product_ensures(fc, t3)
                && t3.product_ensures(fd, t4)
                && t4.product_ensures(fe, t5)
                && t5.product_ensures(ff, t6)
                && t6.product_ensures(fg, t7)
                && t7.product_ensures(fh, t8)
                ==> t8.product_requires(fi),
            forall|
                t2: Target<Target<Self, A>, (A, B)>,
                t3: Target<Target<Target<Self, A>, (A, B)>, ((A, B), C)>,
                t4: Target<Target<Target<Target<Self, A>, (A, B)>, ((A, B), C)>, (((A, B), C), D)>,
                t5: Target<Target<Target<Target<Target<Self, A>, (A, B)>, ((A, B), C)>, (((A, B), C), D)>, ((((A, B), C), D), E)>,
                t6: Target<Target<Target<Target<Target<Target<Self, A>, (A, B)>, ((A, B), C)>, (((A, B), C), D)>, ((((A, B), C), D), E)>, (((((A, B), C), D), E), F)>,
                t7: Target<Target<Target<Target<Target<Target<Target<Self, A>, (A, B)>, ((A, B), C)>, (((A, B), C), D)>, ((((A, B), C), D), E)>, (((((A, B), C), D), E), F)>, ((((((A, B), C), D), E), F), G)>,
                t8: Target<Target<Target<Target<Target<Target<Target<Target<Self, A>, (A, B)>, ((A, B), C)>, (((A, B), C), D)>, ((((A, B), C), D), E)>, (((((A, B), C), D), E), F)>, ((((((A, B), C), D), E), F), G)>, (((((((A, B), C), D), E), F), G), H)>,
                t9: Target<Target<Target<Target<Target<Target<Target<Target<Target<Self, A>, (A, B)>, ((A, B), C)>, (((A, B), C), D)>, ((((A, B), C), D), E)>, (((((A, B), C), D), E), F)>, ((((((A, B), C), D), E), F), G)>, (((((((A, B), C), D), E), F), G), H)>, ((((((((A, B), C), D), E), F), G), H), I)>,
            |
                fa.product_ensures(fb, t2)
                && t2.product_ensures(fc, t3)
                && t3.product_ensures(fd, t4)
                && t4.product_ensures(fe, t5)
                && t5.product_ensures(ff, t6)
                && t6.product_ensures(fg, t7)
                && t7.product_ensures(fh, t8)
                && t8.product_ensures(fi, t9)
                ==> t9.product_requires(fj),
            forall|
                t2: Target<Target<Self, A>, (A, B)>,
                t3: Target<Target<Target<Self, A>, (A, B)>, ((A, B), C)>,
                t4: Target<Target<Target<Target<Self, A>, (A, B)>, ((A, B), C)>, (((A, B), C), D)>,
                t5: Target<Target<Target<Target<Target<Self, A>, (A, B)>, ((A, B), C)>, (((A, B), C), D)>, ((((A, B), C), D), E)>,
                t6: Target<Target<Target<Target<Target<Target<Self, A>, (A, B)>, ((A, B), C)>, (((A, B), C), D)>, ((((A, B), C), D), E)>, (((((A, B), C), D), E), F)>,
                t7: Target<Target<Target<Target<Target<Target<Target<Self, A>, (A, B)>, ((A, B), C)>, (((A, B), C), D)>, ((((A, B), C), D), E)>, (((((A, B), C), D), E), F)>, ((((((A, B), C), D), E), F), G)>,
                t8: Target<Target<Target<Target<Target<Target<Target<Target<Self, A>, (A, B)>, ((A, B), C)>, (((A, B), C), D)>, ((((A, B), C), D), E)>, (((((A, B), C), D), E), F)>, ((((((A, B), C), D), E), F), G)>, (((((((A, B), C), D), E), F), G), H)>,
                t9: Target<Target<Target<Target<Target<Target<Target<Target<Target<Self, A>, (A, B)>, ((A, B), C)>, (((A, B), C), D)>, ((((A, B), C), D), E)>, (((((A, B), C), D), E), F)>, ((((((A, B), C), D), E), F), G)>, (((((((A, B), C), D), E), F), G), H)>, ((((((((A, B), C), D), E), F), G), H), I)>,
                t10: Target<Target<Target<Target<Target<Target<Target<Target<Target<Target<Self, A>, (A, B)>, ((A, B), C)>, (((A, B), C), D)>, ((((A, B), C), D), E)>, (((((A, B), C), D), E), F)>, ((((((A, B), C), D), E), F), G)>, (((((((A, B), C), D), E), F), G), H)>, ((((((((A, B), C), D), E), F), G), H), I)>, (((((((((A, B), C), D), E), F), G), H), I), J)>,
            |
                fa.product_ensures(fb, t2)
                && t2.product_ensures(fc, t3)
                && t3.product_ensures(fd, t4)
                && t4.product_ensures(fe, t5)
                && t5.product_ensures(ff, t6)
                && t6.product_ensures(fg, t7)
                && t7.product_ensures(fh, t8)
                && t8.product_ensures(fi, t9)
                && t9.product_ensures(fj, t10)
                ==> t10.product_requires(fk),
            forall|
                t2: Target<Target<Self, A>, (A, B)>,
                t3: Target<Target<Target<Self, A>, (A, B)>, ((A, B), C)>,
                t4: Target<Target<Target<Target<Self, A>, (A, B)>, ((A, B), C)>, (((A, B), C), D)>,
                t5: Target<Target<Target<Target<Target<Self, A>, (A, B)>, ((A, B), C)>, (((A, B), C), D)>, ((((A, B), C), D), E)>,
                t6: Target<Target<Target<Target<Target<Target<Self, A>, (A, B)>, ((A, B), C)>, (((A, B), C), D)>, ((((A, B), C), D), E)>, (((((A, B), C), D), E), F)>,
                t7: Target<Target<Target<Target<Target<Target<Target<Self, A>, (A, B)>, ((A, B), C)>, (((A, B), C), D)>, ((((A, B), C), D), E)>, (((((A, B), C), D), E), F)>, ((((((A, B), C), D), E), F), G)>,
                t8: Target<Target<Target<Target<Target<Target<Target<Target<Self, A>, (A, B)>, ((A, B), C)>, (((A, B), C), D)>, ((((A, B), C), D), E)>, (((((A, B), C), D), E), F)>, ((((((A, B), C), D), E), F), G)>, (((((((A, B), C), D), E), F), G), H)>,
                t9: Target<Target<Target<Target<Target<Target<Target<Target<Target<Self, A>, (A, B)>, ((A, B), C)>, (((A, B), C), D)>, ((((A, B), C), D), E)>, (((((A, B), C), D), E), F)>, ((((((A, B), C), D), E), F), G)>, (((((((A, B), C), D), E), F), G), H)>, ((((((((A, B), C), D), E), F), G), H), I)>,
                t10: Target<Target<Target<Target<Target<Target<Target<Target<Target<Target<Self, A>, (A, B)>, ((A, B), C)>, (((A, B), C), D)>, ((((A, B), C), D), E)>, (((((A, B), C), D), E), F)>, ((((((A, B), C), D), E), F), G)>, (((((((A, B), C), D), E), F), G), H)>, ((((((((A, B), C), D), E), F), G), H), I)>, (((((((((A, B), C), D), E), F), G), H), I), J)>,
                t11: Target<Target<Target<Target<Target<Target<Target<Target<Target<Target<Target<Self, A>, (A, B)>, ((A, B), C)>, (((A, B), C), D)>, ((((A, B), C), D), E)>, (((((A, B), C), D), E), F)>, ((((((A, B), C), D), E), F), G)>, (((((((A, B), C), D), E), F), G), H)>, ((((((((A, B), C), D), E), F), G), H), I)>, (((((((((A, B), C), D), E), F), G), H), I), J)>, ((((((((((A, B), C), D), E), F), G), H), I), J), K)>,
                i: int,
            |
                fa.product_ensures(fb, t2)
                && t2.product_ensures(fc, t3)
                && t3.product_ensures(fd, t4)
                && t4.product_ensures(fe, t5)
                && t5.product_ensures(ff, t6)
                && t6.product_ensures(fg, t7)
                && t7.product_ensures(fh, t8)
                && t8.product_ensures(fi, t9)
                && t9.product_ensures(fj, t10)
                && t10.product_ensures(fk, t11)
                && 0 <= i < self.items().len()
                ==> ap11_callable(t11, self.items()[i]),
        ensures
            exists|
                t2: Target<Target<Self, A>, (A, B)>,
                t3: Target<Target<Target<Self, A>, (A, B)>, ((A, B), C)>,
                t4: Target<Target<Target<Target<Self, A>, (A, B)>, ((A, B), C)>, (((A, B), C), D)>,
                t5: Target<Target<Target<Target<Target<Self, A>, (A, B)>, ((A, B), C)>, (((A, B), C), D)>, ((((A, B), C), D), E)>,
                t6: Target<Target<Target<Target<Target<Target<Self, A>, (A, B)>, ((A, B), C)>, (((A, B), C), D)>, ((((A, B), C), D), E)>, (((((A, B), C), D), E), F)>,
                t7: Target<Target<Target<Target<Target<Target<Target<Self, A>, (A, B)>, ((A, B), C)>, (((A, B), C), D)>, ((((A, B), C), D), E)>, (((((A, B), C), D), E), F)>, ((((((A, B), C), D), E), F), G)>,
                t8: Target<Target<Target<Target<Target<Target<Target<Target<Self, A>, (A, B)>, ((A, B), C)>, (((A, B), C), D)>, ((((A, B), C), D), E)>, (((((A, B), C), D), E), F)>, ((((((A, B), C), D), E), F), G)>, (((((((A, B), C), D), E), F), G), H)>,
                t9: Target<Target<Target<Target<Target<Target<Target<Target<Target<Self, A>, (A, B)>, ((A, B), C)>, (((A, B), C), D)>, ((((A, B), C), D), E)>, (((((A, B), C), D), E), F)>, ((((((A, B), C), D), E), F), G)>, (((((((A, B), C), D), E), F), G), H)>, ((((((((A, B), C), D), E), F), G), H), I)>,
                t10: Target<Target<Target<Target<Target<Target<Target<Target<Target<Target<Self, A>, (A, B)>, ((A, B), C)>, (((A, B), C), D)>, ((((A, B), C), D), E)>, (((((A, B), C), D), E), F)>, ((((((A, B), C), D), E), F), G)>, (((((((A, B), C), D), E), F), G), H)>, ((((((((A, B), C), D), E), F), G), H), I)>, (((((((((A, B), C), D), E), F), G), H), I), J)>,
                t11: Target<Target<Target<Target<Target<Target<Target<Target<Target<Target<Target<Self, A>, (A, B)>, ((A, B), C)>, (((A, B), C), D)>, ((((A, B), C), D), E)>, (((((A, B), C), D), E), F)>, ((((((A, B), C), D), E), F), G)>, (((((((A, B), C), D), E), F), G), H)>, ((((((((A, B), C), D), E), F), G), H), I)>, (((((((((A, B), C), D), E), F), G), H), I), J)>, ((((((((((A, B), C), D), E), F), G), H), I), J), K)>,
                parts: Seq<Target<Self, Z>>,
            |
                {
                    &&& #[trigger] fa.product_ensures(fb, t2)
                    &&& #[trigger] t2.product_ensures(fc, t3)
                    &&& #[trigger] t3.product_ensures(fd, t4)
                    &&& #[trigger] t4.product_ensures(fe, t5)
                    &&& #[trigger] t5.product_ensures(ff, t6)
                    &&& #[trigger] t6.product_ensures(fg, t7)
                    &&& #[trigger] t7.product_ensures(fh, t8)
                    &&& #[trigger] t8.product_ensures(fi, t9)
                    &&& #[trigger] t9.product_ensures(fj, t10)
                    &&& #[trigger] t10.product_ensures(fk, t11)
                    &&& parts.len() == self.items().len()
                    &&& forall|i: int|
                        0 <= i < parts.len() ==> ap11_part(t11, self.items()[i], #[trigger] parts[i])
                    &&& #[trigger] self.then_joined(parts, r)
                },
    {
        let t2 = fa.product(fb);
        let t3 = t2.product(fc);
        let t4 = t3.product(fd);
        let t5 = t4.product(fe);
        let t6 = t5.product(ff);
        let t7 = t6.product(fg);
        let t8 = t7.product(fh);
        let t9 = t8.product(fi);
        let t10 = t9.product(fj);
        let t11 = t10.product(fk);
        let r = self.and_then(
            |f: Self::Param| -> (part: Target<Self, Z>)
                requires
                    ap11_callable(t11, f)
                ensures
                    ap11_part(t11, f, part)
                {
                    let pc = t11.clone();
                    proof {
                        assert(cloned(t11, pc));
                    }
                    let part = pc.map(
                        |x: ((((((((((A, B), C), D), E), F), G), H), I), J), K)| -> (z: Z)
                            requires
                                f.requires((x.0.0.0.0.0.0.0.0.0.0, x.0.0.0.0.0.0.0.0.0.1, x.0.0.0.0.0.0.0.0.1, x.0.0.0.0.0.0.0.1, x.0.0.0.0.0.0.1, x.0.0.0.0.0.1, x.0.0.0.0.1, x.0.0.0.1, x.0.0.1, x.0.1, x.1))
                            ensures
                                f.ensures((x.0.0.0.0.0.0.0.0.0.0, x.0.0.0.0.0.0.0.0.0.1, x.0.0.0.0.0.0.0.0.1, x.0.0.0.0.0.0.0.1, x.0.0.0.0.0.0.1, x.0.0.0.0.0.1, x.0.0.0.0.1, x.0.0.0.1, x.0.0.1, x.0.1, x.1), z)
                            { f(x.0.0.0.0.0.0.0.0.0.0, x.0.0.0.0.0.0.0.0.0.1, x.0.0.0.0.0.0.0.0.1, x.0.0.0.0.0.0.0.1, x.0.0.0.0.0.0.1, x.0.0.0.0.0.1, x.0.0.0.0.1, x.0.0.0.1, x.0.0.1, x.0.1, x.1) },
                    );
                    proof {
                        assert(cloned(t11, pc) && part.shape() == pc.shape());
                    }
                    part
                },
        );
        proof {
            let parts = choose|parts: Seq<Target<Self, Z>>|
                {
                    &&& parts.len() == self.items().len()
                    &&& forall|i: int|
                        0 <= i < parts.len() ==> ap11_part(t11, self.items()[i], #[trigger] parts[i])
                    &&& #[trigger] self.then_joined(parts, r)
                };
            assert(
                fa.product_ensures(fb, t2)
                && t2.product_ensures(fc, t3)
                && t3.product_ensures(fd, t4)
                && t4.product_ensures(fe, t5)
                && t5.product_ensures(ff, t6)
                && t6.product_ensures(fg, t7)
                && t7.product_ensures(fh, t8)
                && t8.product_ensures(fi, t9)
                && t9.product_ensures(fj, t10)
                && t10.product_ensures(fk, t11)
                && self.then_joined(parts, r)
            );
        }
        r
    }

    /// Applies functions of twelve arguments, held in `self`, to twelve
    /// containers of values.
    fn ap12<A, B, C, D, E, F, G, H, I, J, K, L>(
        self,
        fa: Target<Self, A>,
        fb: Target<Self, B>,
        fc: Target<Self, C>,
        fd: Target<Self, D>,
        fe: Target<Self, E>,
        ff: Target<Self, F>,
        fg: Target<Self, G>,
        fh: Target<Self, H>,
        fi: Target<Self, I>,
        fj: Target<Self, J>,
        fk: Target<Self, K>,
        fl: Target<Self, L>,
    ) -> (r: Target<Self, Z>) where
        Self::Param: Fn(A, B, C, D, E, F, G, H, I, J, K, L) -> Z,
        Self: AndThen<Z> + Retarget<A> + Retarget<B> + Retarget<C> + Retarget<D> + Retarget<E> + Retarget<F> + Retarget<G> + Retarget<H> + Retarget<I> + Retarget<J> + Retarget<K> + Retarget<L>,
        Target<Self, A>: Semigroupal<B>
            + Retarget<B, Target = Target<Self, B>>
            + Retarget<(A, B)>,
        Target<Target<Self, A>, (A, B)>: Semigroupal<C>
            + Retarget<C, Target = Target<Self, C>>
            + Retarget<((A, B), C)>,
        Target<Target<Target<Self, A>, (A, B)>, ((A, B), C)>: Semigroupal<D>
            + Retarget<D, Target = Target<Self, D>>
            + Retarget<(((A, B), C), D)>,
        Target<Target<Target<Target<Self, A>, (A, B)>, ((A, B), C)>, (((A, B), C), D)>: Semigroupal<E>
            + Retarget<E, Target = Target<Self, E>>
            + Retarget<((((A, B), C), D), E)>,
        Target<Target<Target<Target<Target<Self, A>, (A, B)>, ((A, B), C)>, (((A, B), C), D)>, ((((A, B), C), D), E)>: Semigroupal<F>
            + Retarget<F, Target = Target<Self, F>>
            + Retarget<(((((A, B), C), D), E), F)>,
        Target<Target<Target<Target<Target<Target<Self, A>, (A, B)>, ((A, B), C)>, (((A, B), C), D)>, ((((A, B), C), D), E)>, (((((A, B), C), D), E), F)>: Semigroupal<G>
            + Retarget<G, Target = Target<Self, G>>
            + Retarget<((((((A, B), C), D), E), F), G)>,
        Target<Target<Target<Target<Target<Target<Target<Self, A>, (A, B)>, ((A, B), C)>, (((A, B), C), D)>, ((((A, B), C), D), E)>, (((((A, B), C), D), E), F)>, ((((((A, B), C), D), E), F), G)>: Semigroupal<H>
            + Retarget<H, Target = Target<Self, H>>
            + Retarget<(((((((A, B), C), D), E), F), G), H)>,
        Target<Target<Target<Target<Target<Target<Target<Target<Self, A>, (A, B)>, ((A, B), C)>, (((A, B), C), D)>, ((((A, B), C), D), E)>, (((((A, B), C), D), E), F)>, ((((((A, B), C), D), E), F), G)>, (((((((A, B), C), D), E), F), G), H)>: Semigroupal<I>
            + Retarget<I, Target = Target<Self, I>>
            + Retarget<((((((((A, B), C), D), E), F), G), H), I)>,
        Target<Target<Target<Target<Target<Target<Target<Target<Target<Self, A>, (A, B)>, ((A, B), C)>, (((A, B), C), D)>, ((((A, B), C), D), E)>, (((((A, B), C), D), E), F)>, ((((((A, B), C), D), E), F), G)>, (((((((A, B), C), D), E), F), G), H)>, ((((((((A, B), C), D), E), F), G), H), I)>: Semigroupal<J>
            + Retarget<J, Target = Target<Self, J>>
            + Retarget<(((((((((A, B), C), D), E), F), G), H), I), J)>,
        Target<Target<Target<Target<Target<Target<Target<Target<Target<Target<Self, A>, (A, B)>, ((A, B), C)>, (((A, B), C), D)>, ((((A, B), C), D), E)>, (((((A, B), C), D), E), F)>, ((((((A, B), C), D), E), F), G)>, (((((((A, B), C), D), E), F), G), H)>, ((((((((A, B), C), D), E), F), G), H), I)>, (((((((((A, B), C), D), E), F), G), H), I), J)>: Semigroupal<K>
            + Retarget<K, Target = Target<Self, K>>
            + Retarget<((((((((((A, B), C), D), E), F), G), H), I), J), K)>,
        Target<Target<Target<Target<Target<Target<Target<Target<Target<Target<Target<Self, A>, (A, B)>, ((A, B), C)>, (((A, B), C), D)>, ((((A, B), C), D), E)>, (((((A, B), C), D), E), F)>, ((((((A, B), C), D), E), F), G)>, (((((((A, B), C), D), E), F), G), H)>, ((((((((A, B), C), D), E), F), G), H), I)>, (((((((((A, B), C), D), E), F), G), H), I), J)>, ((((((((((A, B), C), D), E), F), G), H), I), J), K)>: Semigroupal<L>
            + Retarget<L, Target = Target<Self, L>>
            + Retarget<(((((((((((A, B), C), D), E), F), G), H), I), J), K), L)>,
        Target<Target<Target<Target<Target<Target<Target<Target<Target<Target<Target<Target<Self, A>, (A, B)>, ((A, B), C)>, (((A, B), C), D)>, ((((A, B), C), D), E)>, (((((A, B), C), D), E), F)>, ((((((A, B), C), D), E), F), G)>, (((((((A, B), C), D), E), F), G), H)>, ((((((((A, B), C), D), E), F), G), H), I)>, (((((((((A, B), C), D), E), F), G), H), I), J)>, ((((((((((A, B), C), D), E), F), G), H), I), J), K)>, (((((((((((A, B), C), D), E), F), G), H), I), J), K), L)>: Functor<Z> + Retarget<Z, Target = Target<Self, Z>> + Clone,

        requires
            fa.product_requires(fb),
            forall|t2: Target<Target<Self, A>, (A, B)>|
                fa.product_ensures(fb, t2)
                ==> t2.product_requires(fc),
            forall|
                t2: Target<Target<Self, A>, (A, B)>,
                t3: Target<Target<Target<Self, A>, (A, B)>, ((A, B), C)>,
            |
                fa.product_ensures(fb, t2)
                && t2.product_ensures(fc, t3)
                ==> t3.product_requires(fd),
            forall|
                t2: Target<Target<Self, A>, (A, B)>,
                t3: Target<Target<Target<Self, A>, (A, B)>, ((A, B), C)>,
                t4: Target<Target<Target<Target<Self, A>, (A, B)>, ((A, B), C)>, (((A, B), C), D)>,
            |
                fa.product_ensures(fb, t2)
                && t2.product_ensures(fc, t3)
                && t3.product_ensures(fd, t4)
                ==> t4.product_requires(fe),
            forall|
                t2: Target<Target<Self, A>, (A, B)>,
                t3: Target<Target<Target<Self, A>, (A, B)>, ((A, B), C)>,
                t4: Target<Target<Target<Target<Self, A>, (A, B)>, ((A, B), C)>, (((A, B), C), D)>,
                t5: Target<Target<Target<Target<Target<Self, A>, (A, B)>, ((A, B), C)>, (((A, B), C), D)>, ((((A, B), C), D), E)>,
            |
                fa.product_ensures(fb, t2)
                && t2.product_ensures(fc, t3)
                && t3.product_ensures(fd, t4)
                && t4.product_ensures(fe, t5)
                ==> t5.product_requires(ff),
            forall|
                t2: Target<Target<Self, A>, (A, B)>,
                t3: Target<Target<Target<Self, A>, (A, B)>, ((A, B), C)>,
                t4: Target<Target<Target<Target<Self, A>, (A, B)>, ((A, B), C)>, (((A, B), C), D)>,
                t5: Target<Target<Target<Target<Target<Self, A>, (A, B)>, ((A, B), C)>, (((A, B), C), D)>, ((((A, B), C), D), E)>,
                t6: Target<Target<Target<Target<Target<Target<Self, A>, (A, B)>, ((A, B), C)>, (((A, B), C), D)>, ((((A, B), C), D), E)>, (((((A, B), C), D), E), F)>,
            |
                fa.product_ensures(fb, t2)
                && t2.product_ensures(fc, t3)
                && t3.product_ensures(fd, t4)
                && t4.product_ensures(fe, t5)
                && t5.product_ensures(ff, t6)
                ==> t6.product_requires(fg),
            forall|
                t2: Target<Target<Self, A>, (A, B)>,
                t3: Target<Target<Target<Self, A>, (A, B)>, ((A, B), C)>,
                t4: Target<Target<Target<Target<Self, A>, (A, B)>, ((A, B), C)>, (((A, B), C), D)>,
                t5: Target<Target<Target<Target<Target<Self, A>, (A, B)>, ((A, B), C)>, (((A, B), C), D)>, ((((A, B), C), D), E)>,
                t6: Target<Target<Target<Target<Target<Target<Self, A>, (A, B)>, ((A, B), C)>, (((A, B), C), D)>, ((((A, B), C), D), E)>, (((((A, B), C), D), E), F)>,
                t7: Target<Target<Target<Target<Target<Target<Target<Self, A>, (A, B)>, ((A, B), C)>, (((A, B), C), D)>, ((((A, B), C), D), E)>, (((((A, B), C), D), E), F)>, ((((((A, B), C), D), E), F), G)>,
            |
                fa.product_ensures(fb, t2)
                && t2.product_ensures(fc, t3)
                && t3.product_ensures(fd, t4)
                && t4.product_ensures(fe, t5)
                && t5.product_ensures(ff, t6)
                && t6.product_ensures(fg, t7)
                ==> t7.product_requires(fh),
            forall|
                t2: Target<Target<Self, A>, (A, B)>,
                t3: Target<Target<Target<Self, A>, (A, B)>, ((A, B), C)>,
                t4: Target<Target<Target<Target<Self, A>, (A, B)>, ((A, B), C)>, (((A, B), C), D)>,
                t5: Target<Target<Target<Target<Target<Self, A>, (A, B)>, ((A, B), C)>, (((A, B), C), D)>, ((((A, B), C), D), E)>,
                t6: Target<Target<Target<Target<Target<Target<Self, A>, (A, B)>, ((A, B), C)>, (((A, B), C), D)>, ((((A, B), C), D), E)>, (((((A, B), C), D), E), F)>,
                t7: Target<Target<Target<Target<Target<Target<Target<Self, A>, (A, B)>, ((A, B), C)>, (((A, B), C), D)>, ((((A, B), C), D), E)>, (((((A, B), C), D), E), F)>, ((((((A, B), C), D), E), F), G)>,
                t8: Target<Target<Target<Target<Target<Target<Target<Target<Self, A>, (A, B)>, ((A, B), C)>, (((A, B), C), D)>, ((((A, B), C), D), E)>, (((((A, B), C), D), E), F)>, ((((((A, B), C), D), E), F), G)>, (((((((A, B), C), D), E), F), G), H)>,
            |
                fa.product_ensures(fb, t2)
                && t2.product_ensures(fc, t3)
                && t3.product_ensures(fd, t4)
                && t4.product_ensures(fe, t5)
                && t5.product_ensures(ff, t6)
                && t6.product_ensures(fg, t7)
                && t7.product_ensures(fh, t8)
                ==> t8.product_requires(fi),
            forall|
                t2: Target<Target<Self, A>, (A, B)>,
                t3: Target<Target<Target<Self, A>, (A, B)>, ((A, B), C)>,
                t4: Target<Target<Target<Target<Self, A>, (A, B)>, ((A, B), C)>, (((A, B), C), D)>,
                t5: Target<Target<Target<Target<Target<Self, A>, (A, B)>, ((A, B), C)>, (((A, B), C), D)>, ((((A, B), C), D), E)>,
                t6: Target<Target<Target<Target<Target<Target<Self, A>, (A, B)>, ((A, B), C)>, (((A, B), C), D)>, ((((A, B), C), D), E)>, (((((A, B), C), D), E), F)>,
                t7: Target<Target<Target<Target<Target<Target<Target<Self, A>, (A, B)>, ((A, B), C)>, (((A, B), C), D)>, ((((A, B), C), D), E)>, (((((A, B), C), D), E), F)>, ((((((A, B), C), D), E), F), G)>,
                t8: Target<Target<Target<Target<Target<Target<Target<Target<Self, A>, (A, B)>, ((A, B), C)>, (((A, B), C), D)>, ((((A, B), C), D), E)>, (((((A, B), C), D), E), F)>, ((((((A, B), C), D), E), F), G)>, (((((((A, B), C), D), E), F), G), H)>,
                t9: Target<Target<Target<Target<Target<Target<Target<Target<Target<Self, A>, (A, B)>, ((A, B), C)>, (((A, B), C), D)>, ((((A, B), C), D), E)>, (((((A, B), C), D), E), F)>, ((((((A, B), C), D), E), F), G)>, (((((((A, B), C), D), E), F), G), H)>, ((((((((A, B), C), D), E), F), G), H), I)>,
            |
                fa.product_ensures(fb, t2)
                && t2.product_ensures(fc, t3)
                && t3.product_ensures(fd, t4)
                && t4.product_ensures(fe, t5)
                && t5.product_ensures(ff, t6)
                && t6.product_ensures(fg, t7)
                && t7.product_ensures(fh, t8)
                && t8.product_ensures(fi, t9)
                ==> t9.product_requires(fj),
            forall|
                t2: Target<Target<Self, A>, (A, B)>,
                t3: Target<Target<Target<Self, A>, (A, B)>, ((A, B), C)>,
                t4: Target<Target<Target<Target<Self, A>, (A, B)>, ((A, B), C)>, (((A, B), C), D)>,
                t5: Target<Target<Target<Target<Target<Self, A>, (A, B)>, ((A, B), C)>, (((A, B), C), D)>, ((((A, B), C), D), E)>,
                t6: Target<Target<Target<Target<Target<Target<Self, A>, (A, B)>, ((A, B), C)>, (((A, B), C), D)>, ((((A, B), C), D), E)>, (((((A, B), C), D), E), F)>,
                t7: Target<Target<Target<Target<Target<Target<Target<Self, A>, (A, B)>, ((A, B), C)>, (((A, B), C), D)>, ((((A, B), C), D), E)>, (((((A, B), C), D), E), F)>, ((((((A, B), C), D), E), F), G)>,
                t8: Target<Target<Target<Target<Target<Target<Target<Target<Self, A>, (A, B)>, ((A, B), C)>, (((A, B), C), D)>, ((((A, B), C), D), E)>, (((((A, B), C), D), E), F)>, ((((((A, B), C), D), E), F), G)>, (((((((A, B), C), D), E), F), G), H)>,
                t9: Target<Target<Target<Target<Target<Target<Target<Target<Target<Self, A>, (A, B)>, ((A, B), C)>, (((A, B), C), D)>, ((((A, B), C), D), E)>, (((((A, B), C), D), E), F)>, ((((((A, B), C), D), E), F), G)>, (((((((A, B), C), D), E), F), G), H)>, ((((((((A, B), C), D), E), F), G), H), I)>,
                t10: Target<Target<Target<Target<Target<Target<Target<Target<Target<Target<Self, A>, (A, B)>, ((A, B), C)>, (((A, B), C), D)>, ((((A, B), C), D), E)>, (((((A, B), C), D), E), F)>, ((((((A, B), C), D), E), F), G)>, (((((((A, B), C), D), E), F), G), H)>, ((((((((A, B), C), D), E), F), G), H), I)>, (((((((((A, B), C), D), E), F), G), H), I), J)>,
            |
                fa.product_ensures(fb, t2)
                && t2.product_ensures(fc, t3)
                && t3.product_ensures(fd, t4)
                && t4.product_ensures(fe, t5)
                && t5.product_ensures(ff, t6)
                && t6.product_ensures(fg, t7)
                && t7.product_ensures(fh, t8)
                && t8.product_ensures(fi, t9)
                && t9.product_ensures(fj, t10)
                ==> t10.product_requires(fk),
            forall|
                t2: Target<Target<Self, A>, (A, B)>,
                t3: Target<Target<Target<Self, A>, (A, B)>, ((A, B), C)>,
                t4: Target<Target<Target<Target<Self, A>, (A, B)>, ((A, B), C)>, (((A, B), C), D)>,
                t5: Target<Target<Target<Target<Target<Self, A>, (A, B)>, ((A, B), C)>, (((A, B), C), D)>, ((((A, B), C), D), E)>,
                t6: Target<Target<Target<Target<Target<Target<Self, A>, (A, B)>, ((A, B), C)>, (((A, B), C), D)>, ((((A, B), C), D), E)>, (((((A, B), C), D), E), F)>,
                t7: Target<Target<Target<Target<Target<Target<Target<Self, A>, (A, B)>, ((A, B), C)>, (((A, B), C), D)>, ((((A, B), C), D), E)>, (((((A, B), C), D), E), F)>, ((((((A, B), C), D), E), F), G)>,
                t8: Target<Target<Target<Target<Target<Target<Target<Target<Self, A>, (A, B)>, ((A, B), C)>, (((A, B), C), D)>, ((((A, B), C), D), E)>, (((((A, B), C), D), E), F)>, ((((((A, B), C), D), E), F), G)>, (((((((A, B), C), D), E), F), G), H)>,
                t9: Target<Target<Target<Target<Target<Target<Target<Target<Target<Self, A>, (A, B)>, ((A, B), C)>, (((A, B), C), D)>, ((((A, B), C), D), E)>, (((((A, B), C), D), E), F)>, ((((((A, B), C), D), E), F), G)>, (((((((A, B), C), D), E), F), G), H)>, ((((((((A, B), C), D), E), F), G), H), I)>,
                t10: Target<Target<Target<Target<Target<Target<Target<Target<Target<Target<Self, A>, (A, B)>, ((A, B), C)>, (((A, B), C), D)>, ((((A, B), C), D), E)>, (((((A, B), C), D), E), F)>, ((((((A, B), C), D), E), F), G)>, (((((((A, B), C), D), E), F), G), H)>, ((((((((A, B), C), D), E), F), G), H), I)>, (((((((((A, B), C), D), E), F), G), H), I), J)>,
                t11: Target<Target<Target<Target<Target<Target<Target<Target<Target<Target<Target<Self, A>, (A, B)>, ((A, B), C)>, (((A, B), C), D)>, ((((A, B), C), D), E)>, (((((A, B), C), D), E), F)>, ((((((A, B), C), D), E), F), G)>, (((((((A, B), C), D), E), F), G), H)>, ((((((((A, B), C), D), E), F), G), H), I)>, (((((((((A, B), C), D), E), F), G), H), I), J)>, ((((((((((A, B), C), D), E), F), G), H), I), J), K)>,
            |
                fa.product_ensures(fb, t2)
                && t2.product_ensures(fc, t3)
                && t3.product_ensures(fd, t4)
                && t4.product_ensures(fe, t5)
                && t5.product_ensures(ff, t6)
                && t6.product_ensures(fg, t7)
                && t7.product_ensures(fh, t8)
                && t8.product_ensures(fi, t9)
                && t9.product_ensures(fj, t10)
                && t10.product_ensures(fk, t11)
                ==> t11.product_requires(fl),
            forall|
                t2: Target<Target<Self, A>, (A, B)>,
                t3: Target<Target<Target<Self, A>, (A, B)>, ((A, B), C)>,
                t4: Target<Target<Target<Target<Self, A>, (A, B)>, ((A, B), C)>, (((A, B), C), D)>,
                t5: Target<Target<Target<Target<Target<Self, A>, (A, B)>, ((A, B), C)>, (((A, B), C), D)>, ((((A, B), C), D), E)>,
                t6: Target<Target<Target<Target<Target<Target<Self, A>, (A, B)>, ((A, B), C)>, (((A, B), C), D)>, ((((A, B), C), D), E)>, (((((A, B), C), D), E), F)>,
                t7: Target<Target<Target<Target<Target<Target<Target<Self, A>, (A, B)>, ((A, B), C)>, (((A, B), C), D)>, ((((A, B), C), D), E)>, (((((A, B), C), D), E), F)>, ((((((A, B), C), D), E), F), G)>,
                t8: Target<Target<Target<Target<Target<Target<Target<Target<Self, A>, (A, B)>, ((A, B), C)>, (((A, B), C), D)>, ((((A, B), C), D), E)>, (((((A, B), C), D), E), F)>, ((((((A, B), C), D), E), F), G)>, (((((((A, B), C), D), E), F), G), H)>,
                t9: Target<Target<Target<Target<Target<Target<Target<Target<Target<Self, A>, (A, B)>, ((A, B), C)>, (((A, B), C), D)>, ((((A, B), C), D), E)>, (((((A, B), C), D), E), F)>, ((((((A, B), C), D), E), F), G)>, (((((((A, B), C), D), E), F), G), H)>, ((((((((A, B), C), D), E), F), G), H), I)>,
                t10: Target<Target<Target<Target<Target<Target<Target<Target<Target<Target<Self, A>, (A, B)>, ((A, B), C)>, (((A, B), C), D)>, ((((A, B), C), D), E)>, (((((A, B), C), D), E), F)>, ((((((A, B), C), D), E), F), G)>, (((((((A, B), C), D), E), F), G), H)>, ((((((((A, B), C), D), E), F), G), H), I)>, (((((((((A, B), C), D), E), F), G), H), I), J)>,
                t11: Target<Target<Target<Target<Target<Target<Target<Target<Target<Target<Target<Self, A>, (A, B)>, ((A, B), C)>, (((A, B), C), D)>, ((((A, B), C), D), E)>, (((((A, B), C), D), E), F)>, ((((((A, B), C), D), E), F), G)>, (((((((A, B), C), D), E), F), G), H)>, ((((((((A, B), C), D), E), F), G), H), I)>, (((((((((A, B), C), D), E), F), G), H), I), J)>, ((((((((((A, B), C), D), E), F), G), H), I), J), K)>,
                t12: Target<Target<Target<Target<Target<Target<Target<Target<Target<Target<Target<Target<Self, A>, (A, B)>, ((A, B), C)>, (((A, B), C), D)>, ((((A, B), C), D), E)>, (((((A, B), C), D), E), F)>, ((((((A, B), C), D), E), F), G)>, (((((((A, B), C), D), E), F), G), H)>, ((((((((A, B), C), D), E), F), G), H), I)>, (((((((((A, B), C), D), E), F), G), H), I), J)>, ((((((((((A, B), C), D), E), F), G), H), I), J), K)>, (((((((((((A, B), C), D), E), F), G), H), I), J), K), L)>,
                i: int,
            |
                fa.product_ensures(fb, t2)
                && t2.product_ensures(fc, t3)
                && t3.product_ensures(fd, t4)
                && t4.product_ensures(fe, t5)
                && t5.product_ensures(ff, t6)
                && t6.product_ensures(fg, t7)
                && t7.product_ensures(fh, t8)
                && t8.product_ensures(fi, t9)
                && t9.product_ensures(fj, t10)
                && t10.product_ensures(fk, t11)
                && t11.product_ensures(fl, t12)
                && 0 <= i < self.items().len()
                ==> ap12_callable(t12, self.items()[i]),
        ensures
            exists|
                t2: Target<Target<Self, A>, (A, B)>,
                t3: Target<Target<Target<Self, A>, (A, B)>, ((A, B), C)>,
                t4: Target<Target<Target<Target<Self, A>, (A, B)>, ((A, B), C)>, (((A, B), C), D)>,
                t5: Target<Target<Target<Target<Target<Self, A>, (A, B)>, ((A, B), C)>, (((A, B), C), D)>, ((((A, B), C), D), E)>,
                t6: Target<Target<Target<Target<Target<Target<Self, A>, (A, B)>, ((A, B), C)>, (((A, B), C), D)>, ((((A, B), C), D), E)>, (((((A, B), C), D), E), F)>,
                t7: Target<Target<Target<Target<Target<Target<Target<Self, A>, (A, B)>, ((A, B), C)>, (((A, B), C), D)>, ((((A, B), C), D), E)>, (((((A, B), C), D), E), F)>, ((((((A, B), C), D), E), F), G)>,
                t8: Target<Target<Target<Target<Target<Target<Target<Target<Self, A>, (A, B)>, ((A, B), C)>, (((A, B), C), D)>, ((((A, B), C), D), E)>, (((((A, B), C), D), E), F)>, ((((((A, B), C), D), E), F), G)>, (((((((A, B), C), D), E), F), G), H)>,
                t9: Target<Target<Target<Target<Target<Target<Target<Target<Target<Self, A>, (A, B)>, ((A, B), C)>, (((A, B), C), D)>, ((((A, B), C), D), E)>, (((((A, B), C), D), E), F)>, ((((((A, B), C), D), E), F), G)>, (((((((A, B), C), D), E), F), G), H)>, ((((((((A, B), C), D), E), F), G), H), I)>,
                t10: Target<Target<Target<Target<Target<Target<Target<Target<Target<Target<Self, A>, (A, B)>, ((A, B), C)>, (((A, B), C), D)>, ((((A, B), C), D), E)>, (((((A, B), C), D), E), F)>, ((((((A, B), C), D), E), F), G)>, (((((((A, B), C), D), E), F), G), H)>, ((((((((A, B), C), D), E), F), G), H), I)>, (((((((((A, B), C), D), E), F), G), H), I), J)>,
                t11: Target<Target<Target<Target<Target<Target<Target<Target<Target<Target<Target<Self, A>, (A, B)>, ((A, B), C)>, (((A, B), C), D)>, ((((A, B), C), D), E)>, (((((A, B), C), D), E), F)>, ((((((A, B), C), D), E), F), G)>, (((((((A, B), C), D), E), F), G), H)>, ((((((((A, B), C), D), E), F), G), H), I)>, (((((((((A, B), C), D), E), F), G), H), I), J)>, ((((((((((A, B), C), D), E), F), G), H), I), J), K)>,
                t12: Target<Target<Target<Target<Target<Target<Target<Target<Target<Target<Target<Target<Self, A>, (A, B)>, ((A, B), C)>, (((A, B), C), D)>, ((((A, B), C), D), E)>, (((((A, B), C), D), E), F)>, ((((((A, B), C), D), E), F), G)>, (((((((A, B), C), D), E), F), G), H)>, ((((((((A, B), C), D), E), F), G), H), I)>, (((((((((A, B), C), D), E), F), G), H), I), J)>, ((((((((((A, B), C), D), E), F), G), H), I), J), K)>, (((((((((((A, B), C), D), E), F), G), H), I), J), K), L)>,
                parts: Seq<Target<Self, Z>>,
            |
                {
                    &&& #[trigger] fa.product_ensures(fb, t2)
                    &&& #[trigger] t2.product_ensures(fc, t3)
                    &&& #[trigger] t3.product_ensures(fd, t4)
                    &&& #[trigger] t4.product_ensures(fe, t5)
                    &&& #[trigger] t5.product_ensures(ff, t6)
                    &&& #[trigger] t6.product_ensures(fg, t7)
                    &&& #[trigger] t7.product_ensures(fh, t8)
                    &&& #[trigger] t8.product_ensures(fi, t9)
                    &&& #[trigger] t9.product_ensures(fj, t10)
                    &&& #[trigger] t10.product_ensures(fk, t11)
                    &&& #[trigger] t11.product_ensures(fl, t12)
                    &&& parts.len() == self.items().len()
                    &&& forall|i: int|
                        0 <= i < parts.len() ==> ap12_part(t12, self.items()[i], #[trigger] parts[i])
                    &&& #[trigger] self.then_joined(parts, r)
                },
    {
        let t2 = fa.product(fb);
        let t3 = t2.product(fc);
        let t4 = t3.product(fd);
        let t5 = t4.product(fe);
        let t6 = t5.product(ff);
        let t7 = t6.product(fg);
        let t8 = t7.product(fh);
        let t9 = t8.product(fi);
        let t10 = t9.product(fj);
        let t11 = t10.product(fk);
        let t12 = t11.product(fl);
        let r = self.and_then(
            |f: Self::Param| -> (part: Target<Self, Z>)
                requires
                    ap12_callable(t12, f)
                ensures
                    ap12_part(t12, f, part)
                {
                    let pc = t12.clone();
                    proof {
                        assert(cloned(t12, pc));
                    }
                    let part = pc.map(
                        |x: (((((((((((A, B), C), D), E), F), G), H), I), J), K), L)| -> (z: Z)
                            requires
                                f.requires((x.0.0.0.0.0.0.0.0.0.0.0, x.0.0.0.0.0.0.0.0.0.0.1, x.0.0.0.0.0.0.0.0.0.1, x.0.0.0.0.0.0.0.0.1, x.0.0.0.0.0.0.0.1, x.0.0.0.0.0.0.1, x.0.0.0.0.0.1, x.0.0.0.0.1, x.0.0.0.1, x.0.0.1, x.0.1, x.1))
                            ensures
                                f.ensures((x.0.0.0.0.0.0.0.0.0.0.0, x.0.0.0.0.0.0.0.0.0.0.1, x.0.0.0.0.0.0.0.0.0.1, x.0.0.0.0.0.0.0.0.1, x.0.0.0.0.0.0.0.1, x.0.0.0.0.0.0.1, x.0.0.0.0.0.1, x.0.0.0.0.1, x.0.0.0.1, x.0.0.1, x.0.1, x.1), z)
                            { f(x.0.0.0.0.0.0.0.0.0.0.0, x.0.0.0.0.0.0.0.0.0.0.1, x.0.0.0.0.0.0.0.0.0.1, x.0.0.0.0.0.0.0.0.1, x.0.0.0.0.0.0.0.1, x.0.0.0.0.0.0.1, x.0.0.0.0.0.1, x.0.0.0.0.1, x.0.0.0.1, x.0.0.1, x.0.1, x.1) },
                    );
                    proof {
                        assert(cloned(t12, pc) && part.shape() == pc.shape());
                    }
                    part
                },
        );
        proof {
            let parts = choose|parts: Seq<Target<Self, Z>>|
                {
                    &&& parts.len() == self.items().len()
                    &&& forall|i: int|
                        0 <= i < parts.len() ==> ap12_part(t12, self.items()[i], #[trigger] parts[i])
                    &&& #[trigger] self.then_joined(parts, r)
                };
            assert(
                fa.product_ensures(fb, t2)
                && t2.product_ensures(fc, t3)
                && t3.product_ensures(fd, t4)
                && t4.product_ensures(fe, t5)
                && t5.product_ensures(ff, t6)
                && t6.product_ensures(fg, t7)
                && t7.product_ensures(fh, t8)
                && t8.product_ensures(fi, t9)
                && t9.product_ensures(fj, t10)
                && t10.product_ensures(fk, t11)
                && t11.product_ensures(fl, t12)
                && self.then_joined(parts, r)
            );
        }
        r
    }
}

impl<FF: Higher, Z> ApN<Z> for FF {

}

} // verus!
