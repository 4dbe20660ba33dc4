//! The `mapN` family: combining several independent containers with a
//! function of as many arguments.
use crate::functor::Functor;
use crate::higher::{Higher, Pairs, Retarget, Target};
use crate::semigroupal::Semigroupal;
use vstd::prelude::*;

verus! {

/// `f` may be called on the two parts of every pair that `p` holds.
pub open spec fn callable_on_pairs<P, A, B, Z, F>(p: P, f: F) -> bool where
    P: Higher<Param = (A, B)>,
    F: FnOnce(A, B) -> Z,
 {
    forall|i: int|
        0 <= i < p.items().len() ==> f.requires(((#[trigger] p.items()[i]).0, p.items()[i].1))
}

/// `r` has the shape of `p`, and each of its items is what a call of `f` on
/// the two parts of the pair of `p` at the same place may return.
pub open spec fn mapped_pairs<P, A, B, Z, F>(p: P, f: F, r: <P as Retarget<Z>>::Target) -> bool where
    P: Higher<Param = (A, B)> + Retarget<Z>,
    F: FnOnce(A, B) -> Z,
 {
    &&& r.shape() == p.shape()
    &&& r.items().len() == p.items().len()
    &&& forall|i: int|
        0 <= i < p.items().len() ==> f.ensures(
            (p.items()[i].0, p.items()[i].1),
            #[trigger] r.items()[i],
        )
}

/// `r` is what `fa.map2(fb, f)` may return: the product of `fa` and `fb`,
/// mapped with `f` on the two parts of each pair.
pub open spec fn map2_ensures<FA, B, Z, F>(
    fa: FA,
    fb: Target<FA, B>,
    f: F,
    r: Target<Pairs<FA, B>, Z>,
) -> bool where
    FA: Semigroupal<B>,
    Pairs<FA, B>: Retarget<Z>,
    F: FnOnce(FA::Param, B) -> Z,
 {
    exists|p: Pairs<FA, B>| #[trigger]
        fa.product_ensures(fb, p) && mapped_pairs(p, f, r)
}

/// `r` is the product of `fa` and `fb` with the left part of every pair
/// dropped.
pub open spec fn product_r_ensures<FA, B>(
    fa: FA,
    fb: Target<FA, B>,
    r: Target<Pairs<FA, B>, B>,
) -> bool where FA: Semigroupal<B>, Pairs<FA, B>: Retarget<B> {
    exists|p: Pairs<FA, B>|
        {
            &&& #[trigger] fa.product_ensures(fb, p)
            &&& r.shape() == p.shape()
            &&& r.items().len() == p.items().len()
            &&& forall|i: int| 0 <= i < p.items().len() ==> #[trigger] r.items()[i] == p.items()[i].1
        }
}

/// `r` is the product of `fa` and `fb` with the right part of every pair
/// dropped.
pub open spec fn product_l_ensures<FA, B>(
    fa: FA,
    fb: Target<FA, B>,
    r: Target<Pairs<FA, B>, FA::Param>,
) -> bool where
    FA: Semigroupal<B>,
    Pairs<FA, B>: Retarget<<FA as Higher>::Param>,
 {
    exists|p: Pairs<FA, B>|
        {
            &&& #[trigger] fa.product_ensures(fb, p)
            &&& r.shape() == p.shape()
            &&& r.items().len() == p.items().len()
            &&& forall|i: int| 0 <= i < p.items().len() ==> #[trigger] r.items()[i] == p.items()[i].0
        }
}

/// The `mapN` methods, for every container. Each one pairs its containers
/// up from the left with [`Semigroupal::product`] and maps the nested pairs
/// with [`Functor::map`].
pub trait MapN<B>: Higher {
    /// Combines two containers with a function of two arguments.
    fn map2<Z, F>(self, fb: Target<Self, B>, f: F) -> (r: Target<Pairs<Self, B>, Z>) where
        F: Fn(Self::Param, B) -> Z,
        Self: Semigroupal<B>,
        Pairs<Self, B>: Functor<Z>,

        requires
            self.product_requires(fb),
            forall|p: Pairs<Self, B>| #[trigger]
                self.product_ensures(fb, p) ==> callable_on_pairs(p, f),
        ensures
            map2_ensures(self, fb, f, r),
    {
        let p = self.product(fb);
        let r = p.map(
            |x: (Self::Param, B)| -> (z: Z)
                requires
                    f.requires((x.0, x.1))
                ensures
                    f.ensures((x.0, x.1), z)
                { f(x.0, x.1) },
        );
        proof {
            assert(self.product_ensures(fb, p) && mapped_pairs(p, f, r));
        }
        r
    }

    /// Combines two containers and keeps what the second holds: `map2` with
    /// the function that returns its second argument.
    fn product_r(self, fb: Target<Self, B>) -> (r: Target<Pairs<Self, B>, B>) where
        Self: Semigroupal<B>,
        Pairs<Self, B>: Functor<B>,

        requires
            self.product_requires(fb),
        ensures
            product_r_ensures(self, fb, r),
    {
        let p = self.product(fb);
        let r = p.map(
            |x: (Self::Param, B)| -> (z: B)
                ensures
                    z == x.1
                { x.1 },
        );
        proof {
            assert(self.product_ensures(fb, p) && r.shape() == p.shape());
        }
        r
    }

    /// Combines two containers and keeps what the first holds: `map2` with
    /// the function that returns its first argument.
    fn product_l(self, fb: Target<Self, B>) -> (r: Target<Pairs<Self, B>, Self::Param>) where
        Self: Semigroupal<B>,
        Pairs<Self, B>: Functor<<Self as Higher>::Param>,

        requires
            self.product_requires(fb),
        ensures
            product_l_ensures(self, fb, r),
    {
        let p = self.product(fb);
        let r = p.map(
            |x: (Self::Param, B)| -> (z: Self::Param)
                ensures
                    z == x.0
                { x.0 },
        );
        proof {
            assert(self.product_ensures(fb, p) && r.shape() == p.shape());
        }
        r
    }

    /// Combines three containers with a function of three arguments.
    fn map3<C, Z, FN>(
        self,
        fb: Target<Self, B>,
        fc: Target<Self, C>,
        fun: FN,
    ) -> (r: Target<Target<Target<Self, (Self::Param, B)>, ((Self::Param, B), C)>, Z>) where
        FN: Fn(Self::Param, B, C) -> Z,
        Self: Semigroupal<B> + Retarget<C>,
        Target<Self, (Self::Param, B)>: Semigroupal<C>
            + Retarget<C, Target = Target<Self, C>>
            + Retarget<((Self::Param, B), C)>,
        Target<Target<Self, (Self::Param, B)>, ((Self::Param, B), C)>: Functor<Z>,

        requires
            self.product_requires(fb),
            forall|t2: Target<Self, (Self::Param, B)>|
                self.product_ensures(fb, t2)
                ==> t2.product_requires(fc),
            forall|
                t2: Target<Self, (Self::Param, B)>,
                t3: Target<Target<Self, (Self::Param, B)>, ((Self::Param, B), C)>,
                i: int,
            |
                self.product_ensures(fb, t2)
                && t2.product_ensures(fc, t3)
                && 0 <= i < t3.items().len()
                ==> fun.requires((t3.items()[i].0.0, t3.items()[i].0.1, t3.items()[i].1)),
        ensures
            exists|
                t2: Target<Self, (Self::Param, B)>,
                t3: Target<Target<Self, (Self::Param, B)>, ((Self::Param, B), C)>,
            |
                {
                    &&& self.product_ensures(fb, t2)
                    &&& t2.product_ensures(fc, t3)
                    &&& r.shape() == t3.shape()
                    &&& r.items().len() == t3.items().len()
                    &&& forall|i: int|
                        0 <= i < t3.items().len() ==> fun.ensures(
                            (t3.items()[i].0.0, t3.items()[i].0.1, t3.items()[i].1),
                            #[trigger] r.items()[i],
                        )
                },
    {
        let t2 = self.product(fb);
        let t3 = t2.product(fc);
        let r = t3.map(
            |x: ((Self::Param, B), C)| -> (z: Z)
                requires
                    fun.requires((x.0.0, x.0.1, x.1))
                ensures
                    fun.ensures((x.0.0, x.0.1, x.1), z)
                { fun(x.0.0, x.0.1, x.1) },
        );
        proof {
            assert(
                self.product_ensures(fb, t2)
                && t2.product_ensures(fc, t3)
                && r.shape() == t3.shape()
            );
        }
        r
    }

    /// Combines four containers with a function of four arguments.
    fn map4<C, D, Z, FN>(
        self,
        fb: Target<Self, B>,
        fc: Target<Self, C>,
        fd: Target<Self, D>,
        fun: FN,
    ) -> (r: Target<Target<Target<Target<Self, (Self::Param, B)>, ((Self::Param, B), C)>, (((Self::Param, B), C), D)>, Z>) where
        FN: Fn(Self::Param, B, C, D) -> Z,
        Self: Semigroupal<B> + Retarget<C> + Retarget<D>,
        Target<Self, (Self::Param, B)>: Semigroupal<C>
            + Retarget<C, Target = Target<Self, C>>
            + Retarget<((Self::Param, B), C)>,
        Target<Target<Self, (Self::Param, B)>, ((Self::Param, B), C)>: Semigroupal<D>
            + Retarget<D, Target = Target<Self, D>>
            + Retarget<(((Self::Param, B), C), D)>,
        Target<Target<Target<Self, (Self::Param, B)>, ((Self::Param, B), C)>, (((Self::Param, B), C), D)>: Functor<Z>,

        requires
            self.product_requires(fb),
            forall|t2: Target<Self, (Self::Param, B)>|
                self.product_ensures(fb, t2)
                ==> t2.product_requires(fc),
            forall|
                t2: Target<Self, (Self::Param, B)>,
                t3: Target<Target<Self, (Self::Param, B)>, ((Self::Param, B), C)>,
            |
                self.product_ensures(fb, t2)
                && t2.product_ensures(fc, t3)
                ==> t3.product_requires(fd),
            forall|
                t2: Target<Self, (Self::Param, B)>,
                t3: Target<Target<Self, (Self::Param, B)>, ((Self::Param, B), C)>,
                t4: Target<Target<Target<Self, (Self::Param, B)>, ((Self::Param, B), C)>, (((Self::Param, B), C), D)>,
                i: int,
            |
                self.product_ensures(fb, t2)
                && t2.product_ensures(fc, t3)
                && t3.product_ensures(fd, t4)
                && 0 <= i < t4.items().len()
                ==> fun.requires((t4.items()[i].0.0.0, t4.items()[i].0.0.1, t4.items()[i].0.1, t4.items()[i].1)),
        ensures
            exists|
                t2: Target<Self, (Self::Param, B)>,
                t3: Target<Target<Self, (Self::Param, B)>, ((Self::Param, B), C)>,
                t4: Target<Target<Target<Self, (Self::Param, B)>, ((Self::Param, B), C)>, (((Self::Param, B), C), D)>,
            |
                {
                    &&& self.product_ensures(fb, t2)
                    &&& t2.product_ensures(fc, t3)
                    &&& t3.product_ensures(fd, t4)
                    &&& r.shape() == t4.shape()
                    &&& r.items().len() == t4.items().len()
                    &&& forall|i: int|
                        0 <= i < t4.items().len() ==> fun.ensures(
                            (t4.items()[i].0.0.0, t4.items()[i].0.0.1, t4.items()[i].0.1, t4.items()[i].1),
                            #[trigger] r.items()[i],
                        )
                },
    {
        let t2 = self.product(fb);
        let t3 = t2.product(fc);
        let t4 = t3.product(fd);
        let r = t4.map(
            |x: (((Self::Param, B), C), D)| -> (z: Z)
                requires
                    fun.requires((x.0.0.0, x.0.0.1, x.0.1, x.1))
                ensures
                    fun.ensures((x.0.0.0, x.0.0.1, x.0.1, x.1), z)
                { fun(x.0.0.0, x.0.0.1, x.0.1, x.1) },
        );
        proof {
            assert(
                self.product_ensures(fb, t2)
                && t2.product_ensures(fc, t3)
                && t3.product_ensures(fd, t4)
                && r.shape() == t4.shape()
            );
        }
        r
    }

    /// Combines five containers with a function of five arguments.
    fn map5<C, D, E, Z, FN>(
        self,
        fb: Target<Self, B>,
        fc: Target<Self, C>,
        fd: Target<Self, D>,
        fe: Target<Self, E>,
        fun: FN,
    ) -> (r: Target<Target<Target<Target<Target<Self, (Self::Param, B)>, ((Self::Param, B), C)>, (((Self::Param, B), C), D)>, ((((Self::Param, B), C), D), E)>, Z>) where
        FN: Fn(Self::Param, B, C, D, E) -> Z,
        Self: Semigroupal<B> + Retarget<C> + Retarget<D> + Retarget<E>,
        Target<Self, (Self::Param, B)>: Semigroupal<C>
            + Retarget<C, Target = Target<Self, C>>
            + Retarget<((Self::Param, B), C)>,
        Target<Target<Self, (Self::Param, B)>, ((Self::Param, B), C)>: Semigroupal<D>
            + Retarget<D, Target = Target<Self, D>>
            + Retarget<(((Self::Param, B), C), D)>,
        Target<Target<Target<Self, (Self::Param, B)>, ((Self::Param, B), C)>, (((Self::Param, B), C), D)>: Semigroupal<E>
            + Retarget<E, Target = Target<Self, E>>
            + Retarget<((((Self::Param, B), C), D), E)>,
        Target<Target<Target<Target<Self, (Self::Param, B)>, ((Self::Param, B), C)>, (((Self::Param, B), C), D)>, ((((Self::Param, B), C), D), E)>: Functor<Z>,

        requires
            self.product_requires(fb),
            forall|t2: Target<Self, (Self::Param, B)>|
                self.product_ensures(fb, t2)
                ==> t2.product_requires(fc),
            forall|
                t2: Target<Self, (Self::Param, B)>,
                t3: Target<Target<Self, (Self::Param, B)>, ((Self::Param, B), C)>,
            |
                self.product_ensures(fb, t2)
                && t2.product_ensures(fc, t3)
                ==> t3.product_requires(fd),
            forall|
                t2: Target<Self, (Self::Param, B)>,
                t3: Target<Target<Self, (Self::Param, B)>, ((Self::Param, B), C)>,
                t4: Target<Target<Target<Self, (Self::Param, B)>, ((Self::Param, B), C)>, (((Self::Param, B), C), D)>,
            |
                self.product_ensures(fb, t2)
                && t2.product_ensures(fc, t3)
                && t3.product_ensures(fd, t4)
                ==> t4.product_requires(fe),
            forall|
                t2: Target<Self, (Self::Param, B)>,
                t3: Target<Target<Self, (Self::Param, B)>, ((Self::Param, B), C)>,
                t4: Target<Target<Target<Self, (Self::Param, B)>, ((Self::Param, B), C)>, (((Self::Param, B), C), D)>,
                t5: Target<Target<Target<Target<Self, (Self::Param, B)>, ((Self::Param, B), C)>, (((Self::Param, B), C), D)>, ((((Self::Param, B), C), D), E)>,
                i: int,
            |
                self.product_ensures(fb, t2)
                && t2.product_ensures(fc, t3)
                && t3.product_ensures(fd, t4)
                && t4.product_ensures(fe, t5)
                && 0 <= i < t5.items().len()
                ==> fun.requires((t5.items()[i].0.0.0.0, t5.items()[i].0.0.0.1, t5.items()[i].0.0.1, t5.items()[i].0.1, t5.items()[i].1)),
        ensures
            exists|
                t2: Target<Self, (Self::Param, B)>,
                t3: Target<Target<Self, (Self::Param, B)>, ((Self::Param, B), C)>,
                t4: Target<Target<Target<Self, (Self::Param, B)>, ((Self::Param, B), C)>, (((Self::Param, B), C), D)>,
                t5: Target<Target<Target<Target<Self, (Self::Param, B)>, ((Self::Param, B), C)>, (((Self::Param, B), C), D)>, ((((Self::Param, B), C), D), E)>,
            |
                {
                    &&& self.product_ensures(fb, t2)
                    &&& t2.product_ensures(fc, t3)
                    &&& t3.product_ensures(fd, t4)
                    &&& t4.product_ensures(fe, t5)
                    &&& r.shape() == t5.shape()
                    &&& r.items().len() == t5.items().len()
                    &&& forall|i: int|
                        0 <= i < t5.items().len() ==> fun.ensures(
                            (t5.items()[i].0.0.0.0, t5.items()[i].0.0.0.1, t5.items()[i].0.0.1, t5.items()[i].0.1, t5.items()[i].1),
                            #[trigger] r.items()[i],
                        )
                },
    {
        let t2 = self.product(fb);
        let t3 = t2.product(fc);
        let t4 = t3.product(fd);
        let t5 = t4.product(fe);
        let r = t5.map(
            |x: ((((Self::Param, B), C), D), E)| -> (z: Z)
                requires
                    fun.requires((x.0.0.0.0, x.0.0.0.1, x.0.0.1, x.0.1, x.1))
                ensures
                    fun.ensures((x.0.0.0.0, x.0.0.0.1, x.0.0.1, x.0.1, x.1), z)
                { fun(x.0.0.0.0, x.0.0.0.1, x.0.0.1, x.0.1, x.1) },
        );
        proof {
            assert(
                self.product_ensures(fb, t2)
                && t2.product_ensures(fc, t3)
                && t3.product_ensures(fd, t4)
                && t4.product_ensures(fe, t5)
                && r.shape() == t5.shape()
            );
        }
        r
    }

    /// Combines six containers with a function of six arguments.
    fn map6<C, D, E, F, Z, FN>(
        self,
        fb: Target<Self, B>,
        fc: Target<Self, C>,
        fd: Target<Self, D>,
        fe: Target<Self, E>,
        ff: Target<Self, F>,
        fun: FN,
    ) -> (r: Target<Target<Target<Target<Target<Target<Self, (Self::Param, B)>, ((Self::Param, B), C)>, (((Self::Param, B), C), D)>, ((((Self::Param, B), C), D), E)>, (((((Self::Param, B), C), D), E), F)>, Z>) where
        FN: Fn(Self::Param, B, C, D, E, F) -> Z,
        Self: Semigroupal<B> + Retarget<C> + Retarget<D> + Retarget<E> + Retarget<F>,
        Target<Self, (Self::Param, B)>: Semigroupal<C>
            + Retarget<C, Target = Target<Self, C>>
            + Retarget<((Self::Param, B), C)>,
        Target<Target<Self, (Self::Param, B)>, ((Self::Param, B), C)>: Semigroupal<D>
            + Retarget<D, Target = Target<Self, D>>
            + Retarget<(((Self::Param, B), C), D)>,
        Target<Target<Target<Self, (Self::Param, B)>, ((Self::Param, B), C)>, (((Self::Param, B), C), D)>: Semigroupal<E>
            + Retarget<E, Target = Target<Self, E>>
            + Retarget<((((Self::Param, B), C), D), E)>,
        Target<Target<Target<Target<Self, (Self::Param, B)>, ((Self::Param, B), C)>, (((Self::Param, B), C), D)>, ((((Self::Param, B), C), D), E)>: Semigroupal<F>
            + Retarget<F, Target = Target<Self, F>>
            + Retarget<(((((Self::Param, B), C), D), E), F)>,
        Target<Target<Target<Target<Target<Self, (Self::Param, B)>, ((Self::Param, B), C)>, (((Self::Param, B), C), D)>, ((((Self::Param, B), C), D), E)>, (((((Self::Param, B), C), D), E), F)>: Functor<Z>,

        requires
            self.product_requires(fb),
            forall|t2: Target<Self, (Self::Param, B)>|
                self.product_ensures(fb, t2)
                ==> t2.product_requires(fc),
            forall|
                t2: Target<Self, (Self::Param, B)>,
                t3: Target<Target<Self, (Self::Param, B)>, ((Self::Param, B), C)>,
            |
                self.product_ensures(fb, t2)
                && t2.product_ensures(fc, t3)
                ==> t3.product_requires(fd),
            forall|
                t2: Target<Self, (Self::Param, B)>,
                t3: Target<Target<Self, (Self::Param, B)>, ((Self::Param, B), C)>,
                t4: Target<Target<Target<Self, (Self::Param, B)>, ((Self::Param, B), C)>, (((Self::Param, B), C), D)>,
            |
                self.product_ensures(fb, t2)
                && t2.product_ensures(fc, t3)
                && t3.product_ensures(fd, t4)
                ==> t4.product_requires(fe),
            forall|
                t2: Target<Self, (Self::Param, B)>,
                t3: Target<Target<Self, (Self::Param, B)>, ((Self::Param, B), C)>,
                t4: Target<Target<Target<Self, (Self::Param, B)>, ((Self::Param, B), C)>, (((Self::Param, B), C), D)>,
                t5: Target<Target<Target<Target<Self, (Self::Param, B)>, ((Self::Param, B), C)>, (((Self::Param, B), C), D)>, ((((Self::Param, B), C), D), E)>,
            |
                self.product_ensures(fb, t2)
                && t2.product_ensures(fc, t3)
                && t3.product_ensures(fd, t4)
                && t4.product_ensures(fe, t5)
                ==> t5.product_requires(ff),
            forall|
                t2: Target<Self, (Self::Param, B)>,
                t3: Target<Target<Self, (Self::Param, B)>, ((Self::Param, B), C)>,
                t4: Target<Target<Target<Self, (Self::Param, B)>, ((Self::Param, B), C)>, (((Self::Param, B), C), D)>,
                t5: Target<Target<Target<Target<Self, (Self::Param, B)>, ((Self::Param, B), C)>, (((Self::Param, B), C), D)>, ((((Self::Param, B), C), D), E)>,
                t6: Target<Target<Target<Target<Target<Self, (Self::Param, B)>, ((Self::Param, B), C)>, (((Self::Param, B), C), D)>, ((((Self::Param, B), C), D), E)>, (((((Self::Param, B), C), D), E), F)>,
                i: int,
            |
                self.product_ensures(fb, t2)
                && t2.product_ensures(fc, t3)
                && t3.product_ensures(fd, t4)
                && t4.product_ensures(fe, t5)
                && t5.product_ensures(ff, t6)
                && 0 <= i < t6.items().len()
                ==> fun.requires((t6.items()[i].0.0.0.0.0, t6.items()[i].0.0.0.0.1, t6.items()[i].0.0.0.1, t6.items()[i].0.0.1, t6.items()[i].0.1, t6.items()[i].1)),
        ensures
            exists|
                t2: Target<Self, (Self::Param, B)>,
                t3: Target<Target<Self, (Self::Param, B)>, ((Self::Param, B), C)>,
                t4: Target<Target<Target<Self, (Self::Param, B)>, ((Self::Param, B), C)>, (((Self::Param, B), C), D)>,
                t5: Target<Target<Target<Target<Self, (Self::Param, B)>, ((Self::Param, B), C)>, (((Self::Param, B), C), D)>, ((((Self::Param, B), C), D), E)>,
                t6: Target<Target<Target<Target<Target<Self, (Self::Param, B)>, ((Self::Param, B), C)>, (((Self::Param, B), C), D)>, ((((Self::Param, B), C), D), E)>, (((((Self::Param, B), C), D), E), F)>,
            |
                {
                    &&& self.product_ensures(fb, t2)
                    &&& t2.product_ensures(fc, t3)
                    &&& t3.product_ensures(fd, t4)
                    &&& t4.product_ensures(fe, t5)
                    &&& t5.product_ensures(ff, t6)
                    &&& r.shape() == t6.shape()
                    &&& r.items().len() == t6.items().len()
                    &&& forall|i: int|
                        0 <= i < t6.items().len() ==> fun.ensures(
                            (t6.items()[i].0.0.0.0.0, t6.items()[i].0.0.0.0.1, t6.items()[i].0.0.0.1, t6.items()[i].0.0.1, t6.items()[i].0.1, t6.items()[i].1),
                            #[trigger] r.items()[i],
                        )
                },
    {
        let t2 = self.product(fb);
        let t3 = t2.product(fc);
        let t4 = t3.product(fd);
        let t5 = t4.product(fe);
        let t6 = t5.product(ff);
        let r = t6.map(
            |x: (((((Self::Param, B), C), D), E), F)| -> (z: Z)
                requires
                    fun.requires((x.0.0.0.0.0, x.0.0.0.0.1, x.0.0.0.1, x.0.0.1, x.0.1, x.1))
                ensures
                    fun.ensures((x.0.0.0.0.0, x.0.0.0.0.1, x.0.0.0.1, x.0.0.1, x.0.1, x.1), z)
                { fun(x.0.0.0.0.0, x.0.0.0.0.1, x.0.0.0.1, x.0.0.1, x.0.1, x.1) },
        );
        proof {
            assert(
                self.product_ensures(fb, t2)
                && t2.product_ensures(fc, t3)
                && t3.product_ensures(fd, t4)
                && t4.product_ensures(fe, t5)
                && t5.product_ensures(ff, t6)
                && r.shape() == t6.shape()
            );
        }
        r
    }

    /// Combines seven containers with a function of seven arguments.
    fn map7<C, D, E, F, G, Z, FN>(
        self,
        fb: Target<Self, B>,
        fc: Target<Self, C>,
        fd: Target<Self, D>,
        fe: Target<Self, E>,
        ff: Target<Self, F>,
        fg: Target<Self, G>,
        fun: FN,
    ) -> (r: Target<Target<Target<Target<Target<Target<Target<Self, (Self::Param, B)>, ((Self::Param, B), C)>, (((Self::Param, B), C), D)>, ((((Self::Param, B), C), D), E)>, (((((Self::Param, B), C), D), E), F)>, ((((((Self::Param, B), C), D), E), F), G)>, Z>) where
        FN: Fn(Self::Param, B, C, D, E, F, G) -> Z,
        Self: Semigroupal<B> + Retarget<C> + Retarget<D> + Retarget<E> + Retarget<F> + Retarget<G>,
        Target<Self, (Self::Param, B)>: Semigroupal<C>
            + Retarget<C, Target = Target<Self, C>>
            + Retarget<((Self::Param, B), C)>,
        Target<Target<Self, (Self::Param, B)>, ((Self::Param, B), C)>: Semigroupal<D>
            + Retarget<D, Target = Target<Self, D>>
            + Retarget<(((Self::Param, B), C), D)>,
        Target<Target<Target<Self, (Self::Param, B)>, ((Self::Param, B), C)>, (((Self::Param, B), C), D)>: Semigroupal<E>
            + Retarget<E, Target = Target<Self, E>>
            + Retarget<((((Self::Param, B), C), D), E)>,
        Target<Target<Target<Target<Self, (Self::Param, B)>, ((Self::Param, B), C)>, (((Self::Param, B), C), D)>, ((((Self::Param, B), C), D), E)>: Semigroupal<F>
            + Retarget<F, Target = Target<Self, F>>
            + Retarget<(((((Self::Param, B), C), D), E), F)>,
        Target<Target<Target<Target<Target<Self, (Self::Param, B)>, ((Self::Param, B), C)>, (((Self::Param, B), C), D)>, ((((Self::Param, B), C), D), E)>, (((((Self::Param, B), C), D), E), F)>: Semigroupal<G>
            + Retarget<G, Target = Target<Self, G>>
            + Retarget<((((((Self::Param, B), C), D), E), F), G)>,
        Target<Target<Target<Target<Target<Target<Self, (Self::Param, B)>, ((Self::Param, B), C)>, (((Self::Param, B), C), D)>, ((((Self::Param, B), C), D), E)>, (((((Self::Param, B), C), D), E), F)>, ((((((Self::Param, B), C), D), E), F), G)>: Functor<Z>,

        requires
            self.product_requires(fb),
            forall|t2: Target<Self, (Self::Param, B)>|
                self.product_ensures(fb, t2)
                ==> t2.product_requires(fc),
            forall|
                t2: Target<Self, (Self::Param, B)>,
                t3: Target<Target<Self, (Self::Param, B)>, ((Self::Param, B), C)>,
            |
                self.product_ensures(fb, t2)
                && t2.product_ensures(fc, t3)
                ==> t3.product_requires(fd),
            forall|
                t2: Target<Self, (Self::Param, B)>,
                t3: Target<Target<Self, (Self::Param, B)>, ((Self::Param, B), C)>,
                t4: Target<Target<Target<Self, (Self::Param, B)>, ((Self::Param, B), C)>, (((Self::Param, B), C), D)>,
            |
                self.product_ensures(fb, t2)
                && t2.product_ensures(fc, t3)
                && t3.product_ensures(fd, t4)
                ==> t4.product_requires(fe),
            forall|
                t2: Target<Self, (Self::Param, B)>,
                t3: Target<Target<Self, (Self::Param, B)>, ((Self::Param, B), C)>,
                t4: Target<Target<Target<Self, (Self::Param, B)>, ((Self::Param, B), C)>, (((Self::Param, B), C), D)>,
                t5: Target<Target<Target<Target<Self, (Self::Param, B)>, ((Self::Param, B), C)>, (((Self::Param, B), C), D)>, ((((Self::Param, B), C), D), E)>,
            |
                self.product_ensures(fb, t2)
                && t2.product_ensures(fc, t3)
                && t3.product_ensures(fd, t4)
                && t4.product_ensures(fe, t5)
                ==> t5.product_requires(ff),
            forall|
                t2: Target<Self, (Self::Param, B)>,
                t3: Target<Target<Self, (Self::Param, B)>, ((Self::Param, B), C)>,
                t4: Target<Target<Target<Self, (Self::Param, B)>, ((Self::Param, B), C)>, (((Self::Param, B), C), D)>,
                t5: Target<Target<Target<Target<Self, (Self::Param, B)>, ((Self::Param, B), C)>, (((Self::Param, B), C), D)>, ((((Self::Param, B), C), D), E)>,
                t6: Target<Target<Target<Target<Target<Self, (Self::Param, B)>, ((Self::Param, B), C)>, (((Self::Param, B), C), D)>, ((((Self::Param, B), C), D), E)>, (((((Self::Param, B), C), D), E), F)>,
            |
                self.product_ensures(fb, t2)
                && t2.product_ensures(fc, t3)
                && t3.product_ensures(fd, t4)
                && t4.product_ensures(fe, t5)
                && t5.product_ensures(ff, t6)
                ==> t6.product_requires(fg),
            forall|
                t2: Target<Self, (Self::Param, B)>,
                t3: Target<Target<Self, (Self::Param, B)>, ((Self::Param, B), C)>,
                t4: Target<Target<Target<Self, (Self::Param, B)>, ((Self::Param, B), C)>, (((Self::Param, B), C), D)>,
                t5: Target<Target<Target<Target<Self, (Self::Param, B)>, ((Self::Param, B), C)>, (((Self::Param, B), C), D)>, ((((Self::Param, B), C), D), E)>,
                t6: Target<Target<Target<Target<Target<Self, (Self::Param, B)>, ((Self::Param, B), C)>, (((Self::Param, B), C), D)>, ((((Self::Param, B), C), D), E)>, (((((Self::Param, B), C), D), E), F)>,
                t7: Target<Target<Target<Target<Target<Target<Self, (Self::Param, B)>, ((Self::Param, B), C)>, (((Self::Param, B), C), D)>, ((((Self::Param, B), C), D), E)>, (((((Self::Param, B), C), D), E), F)>, ((((((Self::Param, B), C), D), E), F), G)>,
                i: int,
            |
                self.product_ensures(fb, t2)
                && t2.product_ensures(fc, t3)
                && t3.product_ensures(fd, t4)
                && t4.product_ensures(fe, t5)
                && t5.product_ensures(ff, t6)
                && t6.product_ensures(fg, t7)
                && 0 <= i < t7.items().len()
                ==> fun.requires((t7.items()[i].0.0.0.0.0.0, t7.items()[i].0.0.0.0.0.1, t7.items()[i].0.0.0.0.1, t7.items()[i].0.0.0.1, t7.items()[i].0.0.1, t7.items()[i].0.1, t7.items()[i].1)),
        ensures
            exists|
                t2: Target<Self, (Self::Param, B)>,
                t3: Target<Target<Self, (Self::Param, B)>, ((Self::Param, B), C)>,
                t4: Target<Target<Target<Self, (Self::Param, B)>, ((Self::Param, B), C)>, (((Self::Param, B), C), D)>,
                t5: Target<Target<Target<Target<Self, (Self::Param, B)>, ((Self::Param, B), C)>, (((Self::Param, B), C), D)>, ((((Self::Param, B), C), D), E)>,
                t6: Target<Target<Target<Target<Target<Self, (Self::Param, B)>, ((Self::Param, B), C)>, (((Self::Param, B), C), D)>, ((((Self::Param, B), C), D), E)>, (((((Self::Param, B), C), D), E), F)>,
                t7: Target<Target<Target<Target<Target<Target<Self, (Self::Param, B)>, ((Self::Param, B), C)>, (((Self::Param, B), C), D)>, ((((Self::Param, B), C), D), E)>, (((((Self::Param, B), C), D), E), F)>, ((((((Self::Param, B), C), D), E), F), G)>,
            |
                {
                    &&& self.product_ensures(fb, t2)
                    &&& t2.product_ensures(fc, t3)
                    &&& t3.product_ensures(fd, t4)
                    &&& t4.product_ensures(fe, t5)
                    &&& t5.product_ensures(ff, t6)
                    &&& t6.product_ensures(fg, t7)
                    &&& r.shape() == t7.shape()
                    &&& r.items().len() == t7.items().len()
                    &&& forall|i: int|
                        0 <= i < t7.items().len() ==> fun.ensures(
                            (t7.items()[i].0.0.0.0.0.0, t7.items()[i].0.0.0.0.0.1, t7.items()[i].0.0.0.0.1, t7.items()[i].0.0.0.1, t7.items()[i].0.0.1, t7.items()[i].0.1, t7.items()[i].1),
                            #[trigger] r.items()[i],
                        )
                },
    {
        let t2 = self.product(fb);
        let t3 = t2.product(fc);
        let t4 = t3.product(fd);
        let t5 = t4.product(fe);
        let t6 = t5.product(ff);
        let t7 = t6.product(fg);
        let r = t7.map(
            |x: ((((((Self::Param, B), C), D), E), F), G)| -> (z: Z)
                requires
                    fun.requires((x.0.0.0.0.0.0, x.0.0.0.0.0.1, x.0.0.0.0.1, x.0.0.0.1, x.0.0.1, x.0.1, x.1))
                ensures
                    fun.ensures((x.0.0.0.0.0.0, x.0.0.0.0.0.1, x.0.0.0.0.1, x.0.0.0.1, x.0.0.1, x.0.1, x.1), z)
                { fun(x.0.0.0.0.0.0, x.0.0.0.0.0.1, x.0.0.0.0.1, x.0.0.0.1, x.0.0.1, x.0.1, x.1) },
        );
        proof {
            assert(
                self.product_ensures(fb, t2)
                && t2.product_ensures(fc, t3)
                && t3.product_ensures(fd, t4)
                && t4.product_ensures(fe, t5)
                && t5.product_ensures(ff, t6)
                && t6.product_ensures(fg, t7)
                && r.shape() == t7.shape()
            );
        }
        r
    }

    /// Combines eight containers with a function of eight arguments.
    fn map8<C, D, E, F, G, H, Z, FN>(
        self,
        fb: Target<Self, B>,
        fc: Target<Self, C>,
        fd: Target<Self, D>,
        fe: Target<Self, E>,
        ff: Target<Self, F>,
        fg: Target<Self, G>,
        fh: Target<Self, H>,
        fun: FN,
    ) -> (r: Target<Target<Target<Target<Target<Target<Target<Target<Self, (Self::Param, B)>, ((Self::Param, B), C)>, (((Self::Param, B), C), D)>, ((((Self::Param, B), C), D), E)>, (((((Self::Param, B), C), D), E), F)>, ((((((Self::Param, B), C), D), E), F), G)>, (((((((Self::Param, B), C), D), E), F), G), H)>, Z>) where
        FN: Fn(Self::Param, B, C, D, E, F, G, H) -> Z,
        Self: Semigroupal<B> + Retarget<C> + Retarget<D> + Retarget<E> + Retarget<F> + Retarget<G> + Retarget<H>,
        Target<Self, (Self::Param, B)>: Semigroupal<C>
            + Retarget<C, Target = Target<Self, C>>
            + Retarget<((Self::Param, B), C)>,
        Target<Target<Self, (Self::Param, B)>, ((Self::Param, B), C)>: Semigroupal<D>
            + Retarget<D, Target = Target<Self, D>>
            + Retarget<(((Self::Param, B), C), D)>,
        Target<Target<Target<Self, (Self::Param, B)>, ((Self::Param, B), C)>, (((Self::Param, B), C), D)>: Semigroupal<E>
            + Retarget<E, Target = Target<Self, E>>
            + Retarget<((((Self::Param, B), C), D), E)>,
        Target<Target<Target<Target<Self, (Self::Param, B)>, ((Self::Param, B), C)>, (((Self::Param, B), C), D)>, ((((Self::Param, B), C), D), E)>: Semigroupal<F>
            + Retarget<F, Target = Target<Self, F>>
            + Retarget<(((((Self::Param, B), C), D), E), F)>,
        Target<Target<Target<Target<Target<Self, (Self::Param, B)>, ((Self::Param, B), C)>, (((Self::Param, B), C), D)>, ((((Self::Param, B), C), D), E)>, (((((Self::Param, B), C), D), E), F)>: Semigroupal<G>
            + Retarget<G, Target = Target<Self, G>>
            + Retarget<((((((Self::Param, B), C), D), E), F), G)>,
        Target<Target<Target<Target<Target<Target<Self, (Self::Param, B)>, ((Self::Param, B), C)>, (((Self::Param, B), C), D)>, ((((Self::Param, B), C), D), E)>, (((((Self::Param, B), C), D), E), F)>, ((((((Self::Param, B), C), D), E), F), G)>: Semigroupal<H>
            + Retarget<H, Target = Target<Self, H>>
            + Retarget<(((((((Self::Param, B), C), D), E), F), G), H)>,
        Target<Target<Target<Target<Target<Target<Target<Self, (Self::Param, B)>, ((Self::Param, B), C)>, (((Self::Param, B), C), D)>, ((((Self::Param, B), C), D), E)>, (((((Self::Param, B), C), D), E), F)>, ((((((Self::Param, B), C), D), E), F), G)>, (((((((Self::Param, B), C), D), E), F), G), H)>: Functor<Z>,

        requires
            self.product_requires(fb),
            forall|t2: Target<Self, (Self::Param, B)>|
                self.product_ensures(fb, t2)
                ==> t2.product_requires(fc),
            forall|
                t2: Target<Self, (Self::Param, B)>,
                t3: Target<Target<Self, (Self::Param, B)>, ((Self::Param, B), C)>,
            |
                self.product_ensures(fb, t2)
                && t2.product_ensures(fc, t3)
                ==> t3.product_requires(fd),
            forall|
                t2: Target<Self, (Self::Param, B)>,
                t3: Target<Target<Self, (Self::Param, B)>, ((Self::Param, B), C)>,
                t4: Target<Target<Target<Self, (Self::Param, B)>, ((Self::Param, B), C)>, (((Self::Param, B), C), D)>,
            |
                self.product_ensures(fb, t2)
                && t2.product_ensures(fc, t3)
                && t3.product_ensures(fd, t4)
                ==> t4.product_requires(fe),
            forall|
                t2: Target<Self, (Self::Param, B)>,
                t3: Target<Target<Self, (Self::Param, B)>, ((Self::Param, B), C)>,
                t4: Target<Target<Target<Self, (Self::Param, B)>, ((Self::Param, B), C)>, (((Self::Param, B), C), D)>,
                t5: Target<Target<Target<Target<Self, (Self::Param, B)>, ((Self::Param, B), C)>, (((Self::Param, B), C), D)>, ((((Self::Param, B), C), D), E)>,
            |
                self.product_ensures(fb, t2)
                && t2.product_ensures(fc, t3)
                && t3.product_ensures(fd, t4)
                && t4.product_ensures(fe, t5)
                ==> t5.product_requires(ff),
            forall|
                t2: Target<Self, (Self::Param, B)>,
                t3: Target<Target<Self, (Self::Param, B)>, ((Self::Param, B), C)>,
                t4: Target<Target<Target<Self, (Self::Param, B)>, ((Self::Param, B), C)>, (((Self::Param, B), C), D)>,
                t5: Target<Target<Target<Target<Self, (Self::Param, B)>, ((Self::Param, B), C)>, (((Self::Param, B), C), D)>, ((((Self::Param, B), C), D), E)>,
                t6: Target<Target<Target<Target<Target<Self, (Self::Param, B)>, ((Self::Param, B), C)>, (((Self::Param, B), C), D)>, ((((Self::Param, B), C), D), E)>, (((((Self::Param, B), C), D), E), F)>,
            |
                self.product_ensures(fb, t2)
                && t2.product_ensures(fc, t3)
                && t3.product_ensures(fd, t4)
                && t4.product_ensures(fe, t5)
                && t5.product_ensures(ff, t6)
                ==> t6.product_requires(fg),
            forall|
                t2: Target<Self, (Self::Param, B)>,
                t3: Target<Target<Self, (Self::Param, B)>, ((Self::Param, B), C)>,
                t4: Target<Target<Target<Self, (Self::Param, B)>, ((Self::Param, B), C)>, (((Self::Param, B), C), D)>,
                t5: Target<Target<Target<Target<Self, (Self::Param, B)>, ((Self::Param, B), C)>, (((Self::Param, B), C), D)>, ((((Self::Param, B), C), D), E)>,
                t6: Target<Target<Target<Target<Target<Self, (Self::Param, B)>, ((Self::Param, B), C)>, (((Self::Param, B), C), D)>, ((((Self::Param, B), C), D), E)>, (((((Self::Param, B), C), D), E), F)>,
                t7: Target<Target<Target<Target<Target<Target<Self, (Self::Param, B)>, ((Self::Param, B), C)>, (((Self::Param, B), C), D)>, ((((Self::Param, B), C), D), E)>, (((((Self::Param, B), C), D), E), F)>, ((((((Self::Param, B), C), D), E), F), G)>,
            |
                self.product_ensures(fb, t2)
                && t2.product_ensures(fc, t3)
                && t3.product_ensures(fd, t4)
                && t4.product_ensures(fe, t5)
                && t5.product_ensures(ff, t6)
                && t6.product_ensures(fg, t7)
                ==> t7.product_requires(fh),
            forall|
                t2: Target<Self, (Self::Param, B)>,
                t3: Target<Target<Self, (Self::Param, B)>, ((Self::Param, B), C)>,
                t4: Target<Target<Target<Self, (Self::Param, B)>, ((Self::Param, B), C)>, (((Self::Param, B), C), D)>,
                t5: Target<Target<Target<Target<Self, (Self::Param, B)>, ((Self::Param, B), C)>, (((Self::Param, B), C), D)>, ((((Self::Param, B), C), D), E)>,
                t6: Target<Target<Target<Target<Target<Self, (Self::Param, B)>, ((Self::Param, B), C)>, (((Self::Param, B), C), D)>, ((((Self::Param, B), C), D), E)>, (((((Self::Param, B), C), D), E), F)>,
                t7: Target<Target<Target<Target<Target<Target<Self, (Self::Param, B)>, ((Self::Param, B), C)>, (((Self::Param, B), C), D)>, ((((Self::Param, B), C), D), E)>, (((((Self::Param, B), C), D), E), F)>, ((((((Self::Param, B), C), D), E), F), G)>,
                t8: Target<Target<Target<Target<Target<Target<Target<Self, (Self::Param, B)>, ((Self::Param, B), C)>, (((Self::Param, B), C), D)>, ((((Self::Param, B), C), D), E)>, (((((Self::Param, B), C), D), E), F)>, ((((((Self::Param, B), C), D), E), F), G)>, (((((((Self::Param, B), C), D), E), F), G), H)>,
                i: int,
            |
                self.product_ensures(fb, t2)
                && t2.product_ensures(fc, t3)
                && t3.product_ensures(fd, t4)
                && t4.product_ensures(fe, t5)
                && t5.product_ensures(ff, t6)
                && t6.product_ensures(fg, t7)
                && t7.product_ensures(fh, t8)
                && 0 <= i < t8.items().len()
                ==> fun.requires((t8.items()[i].0.0.0.0.0.0.0, t8.items()[i].0.0.0.0.0.0.1, t8.items()[i].0.0.0.0.0.1, t8.items()[i].0.0.0.0.1, t8.items()[i].0.0.0.1, t8.items()[i].0.0.1, t8.items()[i].0.1, t8.items()[i].1)),
        ensures
            exists|
                t2: Target<Self, (Self::Param, B)>,
                t3: Target<Target<Self, (Self::Param, B)>, ((Self::Param, B), C)>,
                t4: Target<Target<Target<Self, (Self::Param, B)>, ((Self::Param, B), C)>, (((Self::Param, B), C), D)>,
                t5: Target<Target<Target<Target<Self, (Self::Param, B)>, ((Self::Param, B), C)>, (((Self::Param, B), C), D)>, ((((Self::Param, B), C), D), E)>,
                t6: Target<Target<Target<Target<Target<Self, (Self::Param, B)>, ((Self::Param, B), C)>, (((Self::Param, B), C), D)>, ((((Self::Param, B), C), D), E)>, (((((Self::Param, B), C), D), E), F)>,
                t7: Target<Target<Target<Target<Target<Target<Self, (Self::Param, B)>, ((Self::Param, B), C)>, (((Self::Param, B), C), D)>, ((((Self::Param, B), C), D), E)>, (((((Self::Param, B), C), D), E), F)>, ((((((Self::Param, B), C), D), E), F), G)>,
                t8: Target<Target<Target<Target<Target<Target<Target<Self, (Self::Param, B)>, ((Self::Param, B), C)>, (((Self::Param, B), C), D)>, ((((Self::Param, B), C), D), E)>, (((((Self::Param, B), C), D), E), F)>, ((((((Self::Param, B), C), D), E), F), G)>, (((((((Self::Param, B), C), D), E), F), G), H)>,
            |
                {
                    &&& self.product_ensures(fb, t2)
                    &&& t2.product_ensures(fc, t3)
                    &&& t3.product_ensures(fd, t4)
                    &&& t4.product_ensures(fe, t5)
                    &&& t5.product_ensures(ff, t6)
                    &&& t6.product_ensures(fg, t7)
                    &&& t7.product_ensures(fh, t8)
                    &&& r.shape() == t8.shape()
                    &&& r.items().len() == t8.items().len()
                    &&& forall|i: int|
                        0 <= i < t8.items().len() ==> fun.ensures(
                            (t8.items()[i].0.0.0.0.0.0.0, t8.items()[i].0.0.0.0.0.0.1, t8.items()[i].0.0.0.0.0.1, t8.items()[i].0.0.0.0.1, t8.items()[i].0.0.0.1, t8.items()[i].0.0.1, t8.items()[i].0.1, t8.items()[i].1),
                            #[trigger] r.items()[i],
                        )
                },
    {
        let t2 = self.product(fb);
        let t3 = t2.product(fc);
        let t4 = t3.product(fd);
        let t5 = t4.product(fe);
        let t6 = t5.product(ff);
        let t7 = t6.product(fg);
        let t8 = t7.product(fh);
        let r = t8.map(
            |x: (((((((Self::Param, B), C), D), E), F), G), H)| -> (z: Z)
                requires
                    fun.requires((x.0.0.0.0.0.0.0, x.0.0.0.0.0.0.1, x.0.0.0.0.0.1, x.0.0.0.0.1, x.0.0.0.1, x.0.0.1, x.0.1, x.1))
                ensures
                    fun.ensures((x.0.0.0.0.0.0.0, x.0.0.0.0.0.0.1, x.0.0.0.0.0.1, x.0.0.0.0.1, x.0.0.0.1, x.0.0.1, x.0.1, x.1), z)
                { fun(x.0.0.0.0.0.0.0, x.0.0.0.0.0.0.1, x.0.0.0.0.0.1, x.0.0.0.0.1, x.0.0.0.1, x.0.0.1, x.0.1, x.1) },
        );
        proof {
            assert(
                self.product_ensures(fb, t2)
                && t2.product_ensures(fc, t3)
                && t3.product_ensures(fd, t4)
                && t4.product_ensures(fe, t5)
                && t5.product_ensures(ff, t6)
                && t6.product_ensures(fg, t7)
                && t7.product_ensures(fh, t8)
                && r.shape() == t8.shape()
            );
        }
        r
    }

    /// Combines nine containers with a function of nine arguments.
    fn map9<C, D, E, F, G, H, I, Z, FN>(
        self,
        fb: Target<Self, B>,
        fc: Target<Self, C>,
        fd: Target<Self, D>,
        fe: Target<Self, E>,
        ff: Target<Self, F>,
        fg: Target<Self, G>,
        fh: Target<Self, H>,
        fi: Target<Self, I>,
        fun: FN,
    ) -> (r: Target<Target<Target<Target<Target<Target<Target<Target<Target<Self, (Self::Param, B)>, ((Self::Param, B), C)>, (((Self::Param, B), C), D)>, ((((Self::Param, B), C), D), E)>, (((((Self::Param, B), C), D), E), F)>, ((((((Self::Param, B), C), D), E), F), G)>, (((((((Self::Param, B), C), D), E), F), G), H)>, ((((((((Self::Param, B), C), D), E), F), G), H), I)>, Z>) where
        FN: Fn(Self::Param, B, C, D, E, F, G, H, I) -> Z,
        Self: Semigroupal<B> + Retarget<C> + Retarget<D> + Retarget<E> + Retarget<F> + Retarget<G> + Retarget<H> + Retarget<I>,
        Target<Self, (Self::Param, B)>: Semigroupal<C>
            + Retarget<C, Target = Target<Self, C>>
            + Retarget<((Self::Param, B), C)>,
        Target<Target<Self, (Self::Param, B)>, ((Self::Param, B), C)>: Semigroupal<D>
            + Retarget<D, Target = Target<Self, D>>
            + Retarget<(((Self::Param, B), C), D)>,
        Target<Target<Target<Self, (Self::Param, B)>, ((Self::Param, B), C)>, (((Self::Param, B), C), D)>: Semigroupal<E>
            + Retarget<E, Target = Target<Self, E>>
            + Retarget<((((Self::Param, B), C), D), E)>,
        Target<Target<Target<Target<Self, (Self::Param, B)>, ((Self::Param, B), C)>, (((Self::Param, B), C), D)>, ((((Self::Param, B), C), D), E)>: Semigroupal<F>
            + Retarget<F, Target = Target<Self, F>>
            + Retarget<(((((Self::Param, B), C), D), E), F)>,
        Target<Target<Target<Target<Target<Self, (Self::Param, B)>, ((Self::Param, B), C)>, (((Self::Param, B), C), D)>, ((((Self::Param, B), C), D), E)>, (((((Self::Param, B), C), D), E), F)>: Semigroupal<G>
            + Retarget<G, Target = Target<Self, G>>
            + Retarget<((((((Self::Param, B), C), D), E), F), G)>,
        Target<Target<Target<Target<Target<Target<Self, (Self::Param, B)>, ((Self::Param, B), C)>, (((Self::Param, B), C), D)>, ((((Self::Param, B), C), D), E)>, (((((Self::Param, B), C), D), E), F)>, ((((((Self::Param, B), C), D), E), F), G)>: Semigroupal<H>
            + Retarget<H, Target = Target<Self, H>>
            + Retarget<(((((((Self::Param, B), C), D), E), F), G), H)>,
        Target<Target<Target<Target<Target<Target<Target<Self, (Self::Param, B)>, ((Self::Param, B), C)>, (((Self::Param, B), C), D)>, ((((Self::Param, B), C), D), E)>, (((((Self::Param, B), C), D), E), F)>, ((((((Self::Param, B), C), D), E), F), G)>, (((((((Self::Param, B), C), D), E), F), G), H)>: Semigroupal<I>
            + Retarget<I, Target = Target<Self, I>>
            + Retarget<((((((((Self::Param, B), C), D), E), F), G), H), I)>,
        Target<Target<Target<Target<Target<Target<Target<Target<Self, (Self::Param, B)>, ((Self::Param, B), C)>, (((Self::Param, B), C), D)>, ((((Self::Param, B), C), D), E)>, (((((Self::Param, B), C), D), E), F)>, ((((((Self::Param, B), C), D), E), F), G)>, (((((((Self::Param, B), C), D), E), F), G), H)>, ((((((((Self::Param, B), C), D), E), F), G), H), I)>: Functor<Z>,

        requires
            self.product_requires(fb),
            forall|t2: Target<Self, (Self::Param, B)>|
                self.product_ensures(fb, t2)
                ==> t2.product_requires(fc),
            forall|
                t2: Target<Self, (Self::Param, B)>,
                t3: Target<Target<Self, (Self::Param, B)>, ((Self::Param, B), C)>,
            |
                self.product_ensures(fb, t2)
                && t2.product_ensures(fc, t3)
                ==> t3.product_requires(fd),
            forall|
                t2: Target<Self, (Self::Param, B)>,
                t3: Target<Target<Self, (Self::Param, B)>, ((Self::Param, B), C)>,
                t4: Target<Target<Target<Self, (Self::Param, B)>, ((Self::Param, B), C)>, (((Self::Param, B), C), D)>,
            |
                self.product_ensures(fb, t2)
                && t2.product_ensures(fc, t3)
                && t3.product_ensures(fd, t4)
                ==> t4.product_requires(fe),
            forall|
                t2: Target<Self, (Self::Param, B)>,
                t3: Target<Target<Self, (Self::Param, B)>, ((Self::Param, B), C)>,
                t4: Target<Target<Target<Self, (Self::Param, B)>, ((Self::Param, B), C)>, (((Self::Param, B), C), D)>,
                t5: Target<Target<Target<Target<Self, (Self::Param, B)>, ((Self::Param, B), C)>, (((Self::Param, B), C), D)>, ((((Self::Param, B), C), D), E)>,
            |
                self.product_ensures(fb, t2)
                && t2.product_ensures(fc, t3)
                && t3.product_ensures(fd, t4)
                && t4.product_ensures(fe, t5)
                ==> t5.product_requires(ff),
            forall|
                t2: Target<Self, (Self::Param, B)>,
                t3: Target<Target<Self, (Self::Param, B)>, ((Self::Param, B), C)>,
                t4: Target<Target<Target<Self, (Self::Param, B)>, ((Self::Param, B), C)>, (((Self::Param, B), C), D)>,
                t5: Target<Target<Target<Target<Self, (Self::Param, B)>, ((Self::Param, B), C)>, (((Self::Param, B), C), D)>, ((((Self::Param, B), C), D), E)>,
                t6: Target<Target<Target<Target<Target<Self, (Self::Param, B)>, ((Self::Param, B), C)>, (((Self::Param, B), C), D)>, ((((Self::Param, B), C), D), E)>, (((((Self::Param, B), C), D), E), F)>,
            |
                self.product_ensures(fb, t2)
                && t2.product_ensures(fc, t3)
                && t3.product_ensures(fd, t4)
                && t4.product_ensures(fe, t5)
                && t5.product_ensures(ff, t6)
                ==> t6.product_requires(fg),
            forall|
                t2: Target<Self, (Self::Param, B)>,
                t3: Target<Target<Self, (Self::Param, B)>, ((Self::Param, B), C)>,
                t4: Target<Target<Target<Self, (Self::Param, B)>, ((Self::Param, B), C)>, (((Self::Param, B), C), D)>,
                t5: Target<Target<Target<Target<Self, (Self::Param, B)>, ((Self::Param, B), C)>, (((Self::Param, B), C), D)>, ((((Self::Param, B), C), D), E)>,
                t6: Target<Target<Target<Target<Target<Self, (Self::Param, B)>, ((Self::Param, B), C)>, (((Self::Param, B), C), D)>, ((((Self::Param, B), C), D), E)>, (((((Self::Param, B), C), D), E), F)>,
                t7: Target<Target<Target<Target<Target<Target<Self, (Self::Param, B)>, ((Self::Param, B), C)>, (((Self::Param, B), C), D)>, ((((Self::Param, B), C), D), E)>, (((((Self::Param, B), C), D), E), F)>, ((((((Self::Param, B), C), D), E), F), G)>,
            |
                self.product_ensures(fb, t2)
                && t2.product_ensures(fc, t3)
                && t3.product_ensures(fd, t4)
                && t4.product_ensures(fe, t5)
                && t5.product_ensures(ff, t6)
                && t6.product_ensures(fg, t7)
                ==> t7.product_requires(fh),
            forall|
                t2: Target<Self, (Self::Param, B)>,
                t3: Target<Target<Self, (Self::Param, B)>, ((Self::Param, B), C)>,
                t4: Target<Target<Target<Self, (Self::Param, B)>, ((Self::Param, B), C)>, (((Self::Param, B), C), D)>,
                t5: Target<Target<Target<Target<Self, (Self::Param, B)>, ((Self::Param, B), C)>, (((Self::Param, B), C), D)>, ((((Self::Param, B), C), D), E)>,
                t6: Target<Target<Target<Target<Target<Self, (Self::Param, B)>, ((Self::Param, B), C)>, (((Self::Param, B), C), D)>, ((((Self::Param, B), C), D), E)>, (((((Self::Param, B), C), D), E), F)>,
                t7: Target<Target<Target<Target<Target<Target<Self, (Self::Param, B)>, ((Self::Param, B), C)>, (((Self::Param, B), C), D)>, ((((Self::Param, B), C), D), E)>, (((((Self::Param, B), C), D), E), F)>, ((((((Self::Param, B), C), D), E), F), G)>,
                t8: Target<Target<Target<Target<Target<Target<Target<Self, (Self::Param, B)>, ((Self::Param, B), C)>, (((Self::Param, B), C), D)>, ((((Self::Param, B), C), D), E)>, (((((Self::Param, B), C), D), E), F)>, ((((((Self::Param, B), C), D), E), F), G)>, (((((((Self::Param, B), C), D), E), F), G), H)>,
            |
                self.product_ensures(fb, t2)
                && t2.product_ensures(fc, t3)
                && t3.product_ensures(fd, t4)
                && t4.product_ensures(fe, t5)
                && t5.product_ensures(ff, t6)
                && t6.product_ensures(fg, t7)
                && t7.product_ensures(fh, t8)
                ==> t8.product_requires(fi),
            forall|
                t2: Target<Self, (Self::Param, B)>,
                t3: Target<Target<Self, (Self::Param, B)>, ((Self::Param, B), C)>,
                t4: Target<Target<Target<Self, (Self::Param, B)>, ((Self::Param, B), C)>, (((Self::Param, B), C), D)>,
                t5: Target<Target<Target<Target<Self, (Self::Param, B)>, ((Self::Param, B), C)>, (((Self::Param, B), C), D)>, ((((Self::Param, B), C), D), E)>,
                t6: Target<Target<Target<Target<Target<Self, (Self::Param, B)>, ((Self::Param, B), C)>, (((Self::Param, B), C), D)>, ((((Self::Param, B), C), D), E)>, (((((Self::Param, B), C), D), E), F)>,
                t7: Target<Target<Target<Target<Target<Target<Self, (Self::Param, B)>, ((Self::Param, B), C)>, (((Self::Param, B), C), D)>, ((((Self::Param, B), C), D), E)>, (((((Self::Param, B), C), D), E), F)>, ((((((Self::Param, B), C), D), E), F), G)>,
                t8: Target<Target<Target<Target<Target<Target<Target<Self, (Self::Param, B)>, ((Self::Param, B), C)>, (((Self::Param, B), C), D)>, ((((Self::Param, B), C), D), E)>, (((((Self::Param, B), C), D), E), F)>, ((((((Self::Param, B), C), D), E), F), G)>, (((((((Self::Param, B), C), D), E), F), G), H)>,
                t9: Target<Target<Target<Target<Target<Target<Target<Target<Self, (Self::Param, B)>, ((Self::Param, B), C)>, (((Self::Param, B), C), D)>, ((((Self::Param, B), C), D), E)>, (((((Self::Param, B), C), D), E), F)>, ((((((Self::Param, B), C), D), E), F), G)>, (((((((Self::Param, B), C), D), E), F), G), H)>, ((((((((Self::Param, B), C), D), E), F), G), H), I)>,
                i: int,
            |
                self.product_ensures(fb, t2)
                && t2.product_ensures(fc, t3)
                && t3.product_ensures(fd, t4)
                && t4.product_ensures(fe, t5)
                && t5.product_ensures(ff, t6)
                && t6.product_ensures(fg, t7)
                && t7.product_ensures(fh, t8)
                && t8.product_ensures(fi, t9)
                && 0 <= i < t9.items().len()
                ==> fun.requires((t9.items()[i].0.0.0.0.0.0.0.0, t9.items()[i].0.0.0.0.0.0.0.1, t9.items()[i].0.0.0.0.0.0.1, t9.items()[i].0.0.0.0.0.1, t9.items()[i].0.0.0.0.1, t9.items()[i].0.0.0.1, t9.items()[i].0.0.1, t9.items()[i].0.1, t9.items()[i].1)),
        ensures
            exists|
                t2: Target<Self, (Self::Param, B)>,
                t3: Target<Target<Self, (Self::Param, B)>, ((Self::Param, B), C)>,
                t4: Target<Target<Target<Self, (Self::Param, B)>, ((Self::Param, B), C)>, (((Self::Param, B), C), D)>,
                t5: Target<Target<Target<Target<Self, (Self::Param, B)>, ((Self::Param, B), C)>, (((Self::Param, B), C), D)>, ((((Self::Param, B), C), D), E)>,
                t6: Target<Target<Target<Target<Target<Self, (Self::Param, B)>, ((Self::Param, B), C)>, (((Self::Param, B), C), D)>, ((((Self::Param, B), C), D), E)>, (((((Self::Param, B), C), D), E), F)>,
                t7: Target<Target<Target<Target<Target<Target<Self, (Self::Param, B)>, ((Self::Param, B), C)>, (((Self::Param, B), C), D)>, ((((Self::Param, B), C), D), E)>, (((((Self::Param, B), C), D), E), F)>, ((((((Self::Param, B), C), D), E), F), G)>,
                t8: Target<Target<Target<Target<Target<Target<Target<Self, (Self::Param, B)>, ((Self::Param, B), C)>, (((Self::Param, B), C), D)>, ((((Self::Param, B), C), D), E)>, (((((Self::Param, B), C), D), E), F)>, ((((((Self::Param, B), C), D), E), F), G)>, (((((((Self::Param, B), C), D), E), F), G), H)>,
                t9: Target<Target<Target<Target<Target<Target<Target<Target<Self, (Self::Param, B)>, ((Self::Param, B), C)>, (((Self::Param, B), C), D)>, ((((Self::Param, B), C), D), E)>, (((((Self::Param, B), C), D), E), F)>, ((((((Self::Param, B), C), D), E), F), G)>, (((((((Self::Param, B), C), D), E), F), G), H)>, ((((((((Self::Param, B), C), D), E), F), G), H), I)>,
            |
                {
                    &&& self.product_ensures(fb, t2)
                    &&& t2.product_ensures(fc, t3)
                    &&& t3.product_ensures(fd, t4)
                    &&& t4.product_ensures(fe, t5)
                    &&& t5.product_ensures(ff, t6)
                    &&& t6.product_ensures(fg, t7)
                    &&& t7.product_ensures(fh, t8)
                    &&& t8.product_ensures(fi, t9)
                    &&& r.shape() == t9.shape()
                    &&& r.items().len() == t9.items().len()
                    &&& forall|i: int|
                        0 <= i < t9.items().len() ==> fun.ensures(
                            (t9.items()[i].0.0.0.0.0.0.0.0, t9.items()[i].0.0.0.0.0.0.0.1, t9.items()[i].0.0.0.0.0.0.1, t9.items()[i].0.0.0.0.0.1, t9.items()[i].0.0.0.0.1, t9.items()[i].0.0.0.1, t9.items()[i].0.0.1, t9.items()[i].0.1, t9.items()[i].1),
                            #[trigger] r.items()[i],
                        )
                },
    {
        let t2 = self.product(fb);
        let t3 = t2.product(fc);
        let t4 = t3.product(fd);
        let t5 = t4.product(fe);
        let t6 = t5.product(ff);
        let t7 = t6.product(fg);
        let t8 = t7.product(fh);
        let t9 = t8.product(fi);
        let r = t9.map(
            |x: ((((((((Self::Param, B), C), D), E), F), G), H), I)| -> (z: Z)
                requires
                    fun.requires((x.0.0.0.0.0.0.0.0, x.0.0.0.0.0.0.0.1, x.0.0.0.0.0.0.1, x.0.0.0.0.0.1, x.0.0.0.0.1, x.0.0.0.1, x.0.0.1, x.0.1, x.1))
                ensures
                    fun.ensures((x.0.0.0.0.0.0.0.0, x.0.0.0.0.0.0.0.1, x.0.0.0.0.0.0.1, x.0.0.0.0.0.1, x.0.0.0.0.1, x.0.0.0.1, x.0.0.1, x.0.1, x.1), z)
                { fun(x.0.0.0.0.0.0.0.0, x.0.0.0.0.0.0.0.1, x.0.0.0.0.0.0.1, x.0.0.0.0.0.1, x.0.0.0.0.1, x.0.0.0.1, x.0.0.1, x.0.1, x.1) },
        );
        proof {
            assert(
                self.product_ensures(fb, t2)
                && t2.product_ensures(fc, t3)
                && t3.product_ensures(fd, t4)
                && t4.product_ensures(fe, t5)
                && t5.product_ensures(ff, t6)
                && t6.product_ensures(fg, t7)
                && t7.product_ensures(fh, t8)
                && t8.product_ensures(fi, t9)
                && r.shape() == t9.shape()
            );
        }
        r
    }

    /// Combines ten containers with a function of ten arguments.
    fn map10<C, D, E, F, G, H, I, J, Z, FN>(
        self,
        fb: Target<Self, B>,
        fc: Target<Self, C>,
        fd: Target<Self, D>,
        fe: Target<Self, E>,
        ff: Target<Self, F>,
        fg: Target<Self, G>,
        fh: Target<Self, H>,
        fi: Target<Self, I>,
        fj: Target<Self, J>,
        fun: FN,
    ) -> (r: Target<Target<Target<Target<Target<Target<Target<Target<Target<Target<Self, (Self::Param, B)>, ((Self::Param, B), C)>, (((Self::Param, B), C), D)>, ((((Self::Param, B), C), D), E)>, (((((Self::Param, B), C), D), E), F)>, ((((((Self::Param, B), C), D), E), F), G)>, (((((((Self::Param, B), C), D), E), F), G), H)>, ((((((((Self::Param, B), C), D), E), F), G), H), I)>, (((((((((Self::Param, B), C), D), E), F), G), H), I), J)>, Z>) where
        FN: Fn(Self::Param, B, C, D, E, F, G, H, I, J) -> Z,
        Self: Semigroupal<B> + Retarget<C> + Retarget<D> + Retarget<E> + Retarget<F> + Retarget<G> + Retarget<H> + Retarget<I> + Retarget<J>,
        Target<Self, (Self::Param, B)>: Semigroupal<C>
            + Retarget<C, Target = Target<Self, C>>
            + Retarget<((Self::Param, B), C)>,
        Target<Target<Self, (Self::Param, B)>, ((Self::Param, B), C)>: Semigroupal<D>
            + Retarget<D, Target = Target<Self, D>>
            + Retarget<(((Self::Param, B), C), D)>,
        Target<Target<Target<Self, (Self::Param, B)>, ((Self::Param, B), C)>, (((Self::Param, B), C), D)>: Semigroupal<E>
            + Retarget<E, Target = Target<Self, E>>
            + Retarget<((((Self::Param, B), C), D), E)>,
        Target<Target<Target<Target<Self, (Self::Param, B)>, ((Self::Param, B), C)>, (((Self::Param, B), C), D)>, ((((Self::Param, B), C), D), E)>: Semigroupal<F>
            + Retarget<F, Target = Target<Self, F>>
            + Retarget<(((((Self::Param, B), C), D), E), F)>,
        Target<Target<Target<Target<Target<Self, (Self::Param, B)>, ((Self::Param, B), C)>, (((Self::Param, B), C), D)>, ((((Self::Param, B), C), D), E)>, (((((Self::Param, B), C), D), E), F)>: Semigroupal<G>
            + Retarget<G, Target = Target<Self, G>>
            + Retarget<((((((Self::Param, B), C), D), E), F), G)>,
        Target<Target<Target<Target<Target<Target<Self, (Self::Param, B)>, ((Self::Param, B), C)>, (((Self::Param, B), C), D)>, ((((Self::Param, B), C), D), E)>, (((((Self::Param, B), C), D), E), F)>, ((((((Self::Param, B), C), D), E), F), G)>: Semigroupal<H>
            + Retarget<H, Target = Target<Self, H>>
            + Retarget<(((((((Self::Param, B), C), D), E), F), G), H)>,
        Target<Target<Target<Target<Target<Target<Target<Self, (Self::Param, B)>, ((Self::Param, B), C)>, (((Self::Param, B), C), D)>, ((((Self::Param, B), C), D), E)>, (((((Self::Param, B), C), D), E), F)>, ((((((Self::Param, B), C), D), E), F), G)>, (((((((Self::Param, B), C), D), E), F), G), H)>: Semigroupal<I>
            + Retarget<I, Target = Target<Self, I>>
            + Retarget<((((((((Self::Param, B), C), D), E), F), G), H), I)>,
        Target<Target<Target<Target<Target<Target<Target<Target<Self, (Self::Param, B)>, ((Self::Param, B), C)>, (((Self::Param, B), C), D)>, ((((Self::Param, B), C), D), E)>, (((((Self::Param, B), C), D), E), F)>, ((((((Self::Param, B), C), D), E), F), G)>, (((((((Self::Param, B), C), D), E), F), G), H)>, ((((((((Self::Param, B), C), D), E), F), G), H), I)>: Semigroupal<J>
            + Retarget<J, Target = Target<Self, J>>
            + Retarget<(((((((((Self::Param, B), C), D), E), F), G), H), I), J)>,
        Target<Target<Target<Target<Target<Target<Target<Target<Target<Self, (Self::Param, B)>, ((Self::Param, B), C)>, (((Self::Param, B), C), D)>, ((((Self::Param, B), C), D), E)>, (((((Self::Param, B), C), D), E), F)>, ((((((Self::Param, B), C), D), E), F), G)>, (((((((Self::Param, B), C), D), E), F), G), H)>, ((((((((Self::Param, B), C), D), E), F), G), H), I)>, (((((((((Self::Param, B), C), D), E), F), G), H), I), J)>: Functor<Z>,

        requires
            self.product_requires(fb),
            forall|t2: Target<Self, (Self::Param, B)>|
                self.product_ensures(fb, t2)
                ==> t2.product_requires(fc),
            forall|
                t2: Target<Self, (Self::Param, B)>,
                t3: Target<Target<Self, (Self::Param, B)>, ((Self::Param, B), C)>,
            |
                self.product_ensures(fb, t2)
                && t2.product_ensures(fc, t3)
                ==> t3.product_requires(fd),
            forall|
                t2: Target<Self, (Self::Param, B)>,
                t3: Target<Target<Self, (Self::Param, B)>, ((Self::Param, B), C)>,
                t4: Target<Target<Target<Self, (Self::Param, B)>, ((Self::Param, B), C)>, (((Self::Param, B), C), D)>,
            |
                self.product_ensures(fb, t2)
                && t2.product_ensures(fc, t3)
                && t3.product_ensures(fd, t4)
                ==> t4.product_requires(fe),
            forall|
                t2: Target<Self, (Self::Param, B)>,
                t3: Target<Target<Self, (Self::Param, B)>, ((Self::Param, B), C)>,
                t4: Target<Target<Target<Self, (Self::Param, B)>, ((Self::Param, B), C)>, (((Self::Param, B), C), D)>,
                t5: Target<Target<Target<Target<Self, (Self::Param, B)>, ((Self::Param, B), C)>, (((Self::Param, B), C), D)>, ((((Self::Param, B), C), D), E)>,
            |
                self.product_ensures(fb, t2)
                && t2.product_ensures(fc, t3)
                && t3.product_ensures(fd, t4)
                && t4.product_ensures(fe, t5)
                ==> t5.product_requires(ff),
            forall|
                t2: Target<Self, (Self::Param, B)>,
                t3: Target<Target<Self, (Self::Param, B)>, ((Self::Param, B), C)>,
                t4: Target<Target<Target<Self, (Self::Param, B)>, ((Self::Param, B), C)>, (((Self::Param, B), C), D)>,
                t5: Target<Target<Target<Target<Self, (Self::Param, B)>, ((Self::Param, B), C)>, (((Self::Param, B), C), D)>, ((((Self::Param, B), C), D), E)>,
                t6: Target<Target<Target<Target<Target<Self, (Self::Param, B)>, ((Self::Param, B), C)>, (((Self::Param, B), C), D)>, ((((Self::Param, B), C), D), E)>, (((((Self::Param, B), C), D), E), F)>,
            |
                self.product_ensures(fb, t2)
                && t2.product_ensures(fc, t3)
                && t3.product_ensures(fd, t4)
                && t4.product_ensures(fe, t5)
                && t5.product_ensures(ff, t6)
                ==> t6.product_requires(fg),
            forall|
                t2: Target<Self, (Self::Param, B)>,
                t3: Target<Target<Self, (Self::Param, B)>, ((Self::Param, B), C)>,
                t4: Target<Target<Target<Self, (Self::Param, B)>, ((Self::Param, B), C)>, (((Self::Param, B), C), D)>,
                t5: Target<Target<Target<Target<Self, (Self::Param, B)>, ((Self::Param, B), C)>, (((Self::Param, B), C), D)>, ((((Self::Param, B), C), D), E)>,
                t6: Target<Target<Target<Target<Target<Self, (Self::Param, B)>, ((Self::Param, B), C)>, (((Self::Param, B), C), D)>, ((((Self::Param, B), C), D), E)>, (((((Self::Param, B), C), D), E), F)>,
                t7: Target<Target<Target<Target<Target<Target<Self, (Self::Param, B)>, ((Self::Param, B), C)>, (((Self::Param, B), C), D)>, ((((Self::Param, B), C), D), E)>, (((((Self::Param, B), C), D), E), F)>, ((((((Self::Param, B), C), D), E), F), G)>,
            |
                self.product_ensures(fb, t2)
                && t2.product_ensures(fc, t3)
                && t3.product_ensures(fd, t4)
                && t4.product_ensures(fe, t5)
                && t5.product_ensures(ff, t6)
                && t6.product_ensures(fg, t7)
                ==> t7.product_requires(fh),
            forall|
                t2: Target<Self, (Self::Param, B)>,
                t3: Target<Target<Self, (Self::Param, B)>, ((Self::Param, B), C)>,
                t4: Target<Target<Target<Self, (Self::Param, B)>, ((Self::Param, B), C)>, (((Self::Param, B), C), D)>,
                t5: Target<Target<Target<Target<Self, (Self::Param, B)>, ((Self::Param, B), C)>, (((Self::Param, B), C), D)>, ((((Self::Param, B), C), D), E)>,
                t6: Target<Target<Target<Target<Target<Self, (Self::Param, B)>, ((Self::Param, B), C)>, (((Self::Param, B), C), D)>, ((((Self::Param, B), C), D), E)>, (((((Self::Param, B), C), D), E), F)>,
                t7: Target<Target<Target<Target<Target<Target<Self, (Self::Param, B)>, ((Self::Param, B), C)>, (((Self::Param, B), C), D)>, ((((Self::Param, B), C), D), E)>, (((((Self::Param, B), C), D), E), F)>, ((((((Self::Param, B), C), D), E), F), G)>,
                t8: Target<Target<Target<Target<Target<Target<Target<Self, (Self::Param, B)>, ((Self::Param, B), C)>, (((Self::Param, B), C), D)>, ((((Self::Param, B), C), D), E)>, (((((Self::Param, B), C), D), E), F)>, ((((((Self::Param, B), C), D), E), F), G)>, (((((((Self::Param, B), C), D), E), F), G), H)>,
            |
                self.product_ensures(fb, t2)
                && t2.product_ensures(fc, t3)
                && t3.product_ensures(fd, t4)
                && t4.product_ensures(fe, t5)
                && t5.product_ensures(ff, t6)
                && t6.product_ensures(fg, t7)
                && t7.product_ensures(fh, t8)
                ==> t8.product_requires(fi),
            forall|
                t2: Target<Self, (Self::Param, B)>,
                t3: Target<Target<Self, (Self::Param, B)>, ((Self::Param, B), C)>,
                t4: Target<Target<Target<Self, (Self::Param, B)>, ((Self::Param, B), C)>, (((Self::Param, B), C), D)>,
                t5: Target<Target<Target<Target<Self, (Self::Param, B)>, ((Self::Param, B), C)>, (((Self::Param, B), C), D)>, ((((Self::Param, B), C), D), E)>,
                t6: Target<Target<Target<Target<Target<Self, (Self::Param, B)>, ((Self::Param, B), C)>, (((Self::Param, B), C), D)>, ((((Self::Param, B), C), D), E)>, (((((Self::Param, B), C), D), E), F)>,
                t7: Target<Target<Target<Target<Target<Target<Self, (Self::Param, B)>, ((Self::Param, B), C)>, (((Self::Param, B), C), D)>, ((((Self::Param, B), C), D), E)>, (((((Self::Param, B), C), D), E), F)>, ((((((Self::Param, B), C), D), E), F), G)>,
                t8: Target<Target<Target<Target<Target<Target<Target<Self, (Self::Param, B)>, ((Self::Param, B), C)>, (((Self::Param, B), C), D)>, ((((Self::Param, B), C), D), E)>, (((((Self::Param, B), C), D), E), F)>, ((((((Self::Param, B), C), D), E), F), G)>, (((((((Self::Param, B), C), D), E), F), G), H)>,
                t9: Target<Target<Target<Target<Target<Target<Target<Target<Self, (Self::Param, B)>, ((Self::Param, B), C)>, (((Self::Param, B), C), D)>, ((((Self::Param, B), C), D), E)>, (((((Self::Param, B), C), D), E), F)>, ((((((Self::Param, B), C), D), E), F), G)>, (((((((Self::Param, B), C), D), E), F), G), H)>, ((((((((Self::Param, B), C), D), E), F), G), H), I)>,
            |
                self.product_ensures(fb, t2)
                && t2.product_ensures(fc, t3)
                && t3.product_ensures(fd, t4)
                && t4.product_ensures(fe, t5)
                && t5.product_ensures(ff, t6)
                && t6.product_ensures(fg, t7)
                && t7.product_ensures(fh, t8)
                && t8.product_ensures(fi, t9)
                ==> t9.product_requires(fj),
            forall|
                t2: Target<Self, (Self::Param, B)>,
                t3: Target<Target<Self, (Self::Param, B)>, ((Self::Param, B), C)>,
                t4: Target<Target<Target<Self, (Self::Param, B)>, ((Self::Param, B), C)>, (((Self::Param, B), C), D)>,
                t5: Target<Target<Target<Target<Self, (Self::Param, B)>, ((Self::Param, B), C)>, (((Self::Param, B), C), D)>, ((((Self::Param, B), C), D), E)>,
                t6: Target<Target<Target<Target<Target<Self, (Self::Param, B)>, ((Self::Param, B), C)>, (((Self::Param, B), C), D)>, ((((Self::Param, B), C), D), E)>, (((((Self::Param, B), C), D), E), F)>,
                t7: Target<Target<Target<Target<Target<Target<Self, (Self::Param, B)>, ((Self::Param, B), C)>, (((Self::Param, B), C), D)>, ((((Self::Param, B), C), D), E)>, (((((Self::Param, B), C), D), E), F)>, ((((((Self::Param, B), C), D), E), F), G)>,
                t8: Target<Target<Target<Target<Target<Target<Target<Self, (Self::Param, B)>, ((Self::Param, B), C)>, (((Self::Param, B), C), D)>, ((((Self::Param, B), C), D), E)>, (((((Self::Param, B), C), D), E), F)>, ((((((Self::Param, B), C), D), E), F), G)>, (((((((Self::Param, B), C), D), E), F), G), H)>,
                t9: Target<Target<Target<Target<Target<Target<Target<Target<Self, (Self::Param, B)>, ((Self::Param, B), C)>, (((Self::Param, B), C), D)>, ((((Self::Param, B), C), D), E)>, (((((Self::Param, B), C), D), E), F)>, ((((((Self::Param, B), C), D), E), F), G)>, (((((((Self::Param, B), C), D), E), F), G), H)>, ((((((((Self::Param, B), C), D), E), F), G), H), I)>,
                t10: Target<Target<Target<Target<Target<Target<Target<Target<Target<Self, (Self::Param, B)>, ((Self::Param, B), C)>, (((Self::Param, B), C), D)>, ((((Self::Param, B), C), D), E)>, (((((Self::Param, B), C), D), E), F)>, ((((((Self::Param, B), C), D), E), F), G)>, (((((((Self::Param, B), C), D), E), F), G), H)>, ((((((((Self::Param, B), C), D), E), F), G), H), I)>, (((((((((Self::Param, B), C), D), E), F), G), H), I), J)>,
                i: int,
            |
                self.product_ensures(fb, t2)
                && t2.product_ensures(fc, t3)
                && t3.product_ensures(fd, t4)
                && t4.product_ensures(fe, t5)
                && t5.product_ensures(ff, t6)
                && t6.product_ensures(fg, t7)
                && t7.product_ensures(fh, t8)
                && t8.product_ensures(fi, t9)
                && t9.product_ensures(fj, t10)
                && 0 <= i < t10.items().len()
                ==> fun.requires((t10.items()[i].0.0.0.0.0.0.0.0.0, t10.items()[i].0.0.0.0.0.0.0.0.1, t10.items()[i].0.0.0.0.0.0.0.1, t10.items()[i].0.0.0.0.0.0.1, t10.items()[i].0.0.0.0.0.1, t10.items()[i].0.0.0.0.1, t10.items()[i].0.0.0.1, t10.items()[i].0.0.1, t10.items()[i].0.1, t10.items()[i].1)),
        ensures
            exists|
                t2: Target<Self, (Self::Param, B)>,
                t3: Target<Target<Self, (Self::Param, B)>, ((Self::Param, B), C)>,
                t4: Target<Target<Target<Self, (Self::Param, B)>, ((Self::Param, B), C)>, (((Self::Param, B), C), D)>,
                t5: Target<Target<Target<Target<Self, (Self::Param, B)>, ((Self::Param, B), C)>, (((Self::Param, B), C), D)>, ((((Self::Param, B), C), D), E)>,
                t6: Target<Target<Target<Target<Target<Self, (Self::Param, B)>, ((Self::Param, B), C)>, (((Self::Param, B), C), D)>, ((((Self::Param, B), C), D), E)>, (((((Self::Param, B), C), D), E), F)>,
                t7: Target<Target<Target<Target<Target<Target<Self, (Self::Param, B)>, ((Self::Param, B), C)>, (((Self::Param, B), C), D)>, ((((Self::Param, B), C), D), E)>, (((((Self::Param, B), C), D), E), F)>, ((((((Self::Param, B), C), D), E), F), G)>,
                t8: Target<Target<Target<Target<Target<Target<Target<Self, (Self::Param, B)>, ((Self::Param, B), C)>, (((Self::Param, B), C), D)>, ((((Self::Param, B), C), D), E)>, (((((Self::Param, B), C), D), E), F)>, ((((((Self::Param, B), C), D), E), F), G)>, (((((((Self::Param, B), C), D), E), F), G), H)>,
                t9: Target<Target<Target<Target<Target<Target<Target<Target<Self, (Self::Param, B)>, ((Self::Param, B), C)>, (((Self::Param, B), C), D)>, ((((Self::Param, B), C), D), E)>, (((((Self::Param, B), C), D), E), F)>, ((((((Self::Param, B), C), D), E), F), G)>, (((((((Self::Param, B), C), D), E), F), G), H)>, ((((((((Self::Param, B), C), D), E), F), G), H), I)>,
                t10: Target<Target<Target<Target<Target<Target<Target<Target<Target<Self, (Self::Param, B)>, ((Self::Param, B), C)>, (((Self::Param, B), C), D)>, ((((Self::Param, B), C), D), E)>, (((((Self::Param, B), C), D), E), F)>, ((((((Self::Param, B), C), D), E), F), G)>, (((((((Self::Param, B), C), D), E), F), G), H)>, ((((((((Self::Param, B), C), D), E), F), G), H), I)>, (((((((((Self::Param, B), C), D), E), F), G), H), I), J)>,
            |
                {
                    &&& self.product_ensures(fb, t2)
                    &&& t2.product_ensures(fc, t3)
                    &&& t3.product_ensures(fd, t4)
                    &&& t4.product_ensures(fe, t5)
                    &&& t5.product_ensures(ff, t6)
                    &&& t6.product_ensures(fg, t7)
                    &&& t7.product_ensures(fh, t8)
                    &&& t8.product_ensures(fi, t9)
                    &&& t9.product_ensures(fj, t10)
                    &&& r.shape() == t10.shape()
                    &&& r.items().len() == t10.items().len()
                    &&& forall|i: int|
                        0 <= i < t10.items().len() ==> fun.ensures(
                            (t10.items()[i].0.0.0.0.0.0.0.0.0, t10.items()[i].0.0.0.0.0.0.0.0.1, t10.items()[i].0.0.0.0.0.0.0.1, t10.items()[i].0.0.0.0.0.0.1, t10.items()[i].0.0.0.0.0.1, t10.items()[i].0.0.0.0.1, t10.items()[i].0.0.0.1, t10.items()[i].0.0.1, t10.items()[i].0.1, t10.items()[i].1),
                            #[trigger] r.items()[i],
                        )
                },
    {
        let t2 = self.product(fb);
        let t3 = t2.product(fc);
        let t4 = t3.product(fd);
        let t5 = t4.product(fe);
        let t6 = t5.product(ff);
        let t7 = t6.product(fg);
        let t8 = t7.product(fh);
        let t9 = t8.product(fi);
        let t10 = t9.product(fj);
        let r = t10.map(
            |x: (((((((((Self::Param, B), C), D), E), F), G), H), I), J)| -> (z: Z)
                requires
                    fun.requires((x.0.0.0.0.0.0.0.0.0, x.0.0.0.0.0.0.0.0.1, x.0.0.0.0.0.0.0.1, x.0.0.0.0.0.0.1, x.0.0.0.0.0.1, x.0.0.0.0.1, x.0.0.0.1, x.0.0.1, x.0.1, x.1))
                ensures
                    fun.ensures((x.0.0.0.0.0.0.0.0.0, x.0.0.0.0.0.0.0.0.1, x.0.0.0.0.0.0.0.1, x.0.0.0.0.0.0.1, x.0.0.0.0.0.1, x.0.0.0.0.1, x.0.0.0.1, x.0.0.1, x.0.1, x.1), z)
                { fun(x.0.0.0.0.0.0.0.0.0, x.0.0.0.0.0.0.0.0.1, x.0.0.0.0.0.0.0.1, x.0.0.0.0.0.0.1, x.0.0.0.0.0.1, x.0.0.0.0.1, x.0.0.0.1, x.0.0.1, x.0.1, x.1) },
        );
        proof {
            assert(
                self.product_ensures(fb, t2)
                && t2.product_ensures(fc, t3)
                && t3.product_ensures(fd, t4)
                && t4.product_ensures(fe, t5)
                && t5.product_ensures(ff, t6)
                && t6.product_ensures(fg, t7)
                && t7.product_ensures(fh, t8)
                && t8.product_ensures(fi, t9)
                && t9.product_ensures(fj, t10)
                && r.shape() == t10.shape()
            );
        }
        r
    }

    /// Combines eleven containers with a function of eleven arguments.
    fn map11<C, D, E, F, G, H, I, J, K, Z, FN>(
        self,
        fb: Target<Self, B>,
        fc: Target<Self, C>,
        fd: Target<Self, D>,
        fe: Target<Self, E>,
        ff: Target<Self, F>,
        fg: Target<Self, G>,
        fh: Target<Self, H>,
        fi: Target<Self, I>,
        fj: Target<Self, J>,
        fk: Target<Self, K>,
        fun: FN,
    ) -> (r: Target<Target<Target<Target<Target<Target<Target<Target<Target<Target<Target<Self, (Self::Param, B)>, ((Self::Param, B), C)>, (((Self::Param, B), C), D)>, ((((Self::Param, B), C), D), E)>, (((((Self::Param, B), C), D), E), F)>, ((((((Self::Param, B), C), D), E), F), G)>, (((((((Self::Param, B), C), D), E), F), G), H)>, ((((((((Self::Param, B), C), D), E), F), G), H), I)>, (((((((((Self::Param, B), C), D), E), F), G), H), I), J)>, ((((((((((Self::Param, B), C), D), E), F), G), H), I), J), K)>, Z>) where
        FN: Fn(Self::Param, B, C, D, E, F, G, H, I, J, K) -> Z,
        Self: Semigroupal<B> + Retarget<C> + Retarget<D> + Retarget<E> + Retarget<F> + Retarget<G> + Retarget<H> + Retarget<I> + Retarget<J> + Retarget<K>,
        Target<Self, (Self::Param, B)>: Semigroupal<C>
            + Retarget<C, Target = Target<Self, C>>
            + Retarget<((Self::Param, B), C)>,
        Target<Target<Self, (Self::Param, B)>, ((Self::Param, B), C)>: Semigroupal<D>
            + Retarget<D, Target = Target<Self, D>>
            + Retarget<(((Self::Param, B), C), D)>,
        Target<Target<Target<Self, (Self::Param, B)>, ((Self::Param, B), C)>, (((Self::Param, B), C), D)>: Semigroupal<E>
            + Retarget<E, Target = Target<Self, E>>
            + Retarget<((((Self::Param, B), C), D), E)>,
        Target<Target<Target<Target<Self, (Self::Param, B)>, ((Self::Param, B), C)>, (((Self::Param, B), C), D)>, ((((Self::Param, B), C), D), E)>: Semigroupal<F>
            + Retarget<F, Target = Target<Self, F>>
            + Retarget<(((((Self::Param, B), C), D), E), F)>,
        Target<Target<Target<Target<Target<Self, (Self::Param, B)>, ((Self::Param, B), C)>, (((Self::Param, B), C), D)>, ((((Self::Param, B), C), D), E)>, (((((Self::Param, B), C), D), E), F)>: Semigroupal<G>
            + Retarget<G, Target = Target<Self, G>>
            + Retarget<((((((Self::Param, B), C), D), E), F), G)>,
        Target<Target<Target<Target<Target<Target<Self, (Self::Param, B)>, ((Self::Param, B), C)>, (((Self::Param, B), C), D)>, ((((Self::Param, B), C), D), E)>, (((((Self::Param, B), C), D), E), F)>, ((((((Self::Param, B), C), D), E), F), G)>: Semigroupal<H>
            + Retarget<H, Target = Target<Self, H>>
            + Retarget<(((((((Self::Param, B), C), D), E), F), G), H)>,
        Target<Target<Target<Target<Target<Target<Target<Self, (Self::Param, B)>, ((Self::Param, B), C)>, (((Self::Param, B), C), D)>, ((((Self::Param, B), C), D), E)>, (((((Self::Param, B), C), D), E), F)>, ((((((Self::Param, B), C), D), E), F), G)>, (((((((Self::Param, B), C), D), E), F), G), H)>: Semigroupal<I>
            + Retarget<I, Target = Target<Self, I>>
            + Retarget<((((((((Self::Param, B), C), D), E), F), G), H), I)>,
        Target<Target<Target<Target<Target<Target<Target<Target<Self, (Self::Param, B)>, ((Self::Param, B), C)>, (((Self::Param, B), C), D)>, ((((Self::Param, B), C), D), E)>, (((((Self::Param, B), C), D), E), F)>, ((((((Self::Param, B), C), D), E), F), G)>, (((((((Self::Param, B), C), D), E), F), G), H)>, ((((((((Self::Param, B), C), D), E), F), G), H), I)>: Semigroupal<J>
            + Retarget<J, Target = Target<Self, J>>
            + Retarget<(((((((((Self::Param, B), C), D), E), F), G), H), I), J)>,
        Target<Target<Target<Target<Target<Target<Target<Target<Target<Self, (Self::Param, B)>, ((Self::Param, B), C)>, (((Self::Param, B), C), D)>, ((((Self::Param, B), C), D), E)>, (((((Self::Param, B), C), D), E), F)>, ((((((Self::Param, B), C), D), E), F), G)>, (((((((Self::Param, B), C), D), E), F), G), H)>, ((((((((Self::Param, B), C), D), E), F), G), H), I)>, (((((((((Self::Param, B), C), D), E), F), G), H), I), J)>: Semigroupal<K>
            + Retarget<K, Target = Target<Self, K>>
            + Retarget<((((((((((Self::Param, B), C), D), E), F), G), H), I), J), K)>,
        Target<Target<Target<Target<Target<Target<Target<Target<Target<Target<Self, (Self::Param, B)>, ((Self::Param, B), C)>, (((Self::Param, B), C), D)>, ((((Self::Param, B), C), D), E)>, (((((Self::Param, B), C), D), E), F)>, ((((((Self::Param, B), C), D), E), F), G)>, (((((((Self::Param, B), C), D), E), F), G), H)>, ((((((((Self::Param, B), C), D), E), F), G), H), I)>, (((((((((Self::Param, B), C), D), E), F), G), H), I), J)>, ((((((((((Self::Param, B), C), D), E), F), G), H), I), J), K)>: Functor<Z>,

        requires
            self.product_requires(fb),
            forall|t2: Target<Self, (Self::Param, B)>|
                self.product_ensures(fb, t2)
                ==> t2.product_requires(fc),
            forall|
                t2: Target<Self, (Self::Param, B)>,
                t3: Target<Target<Self, (Self::Param, B)>, ((Self::Param, B), C)>,
            |
                self.product_ensures(fb, t2)
                && t2.product_ensures(fc, t3)
                ==> t3.product_requires(fd),
            forall|
                t2: Target<Self, (Self::Param, B)>,
                t3: Target<Target<Self, (Self::Param, B)>, ((Self::Param, B), C)>,
                t4: Target<Target<Target<Self, (Self::Param, B)>, ((Self::Param, B), C)>, (((Self::Param, B), C), D)>,
            |
                self.product_ensures(fb, t2)
                && t2.product_ensures(fc, t3)
                && t3.product_ensures(fd, t4)
                ==> t4.product_requires(fe),
            forall|
                t2: Target<Self, (Self::Param, B)>,
                t3: Target<Target<Self, (Self::Param, B)>, ((Self::Param, B), C)>,
                t4: Target<Target<Target<Self, (Self::Param, B)>, ((Self::Param, B), C)>, (((Self::Param, B), C), D)>,
                t5: Target<Target<Target<Target<Self, (Self::Param, B)>, ((Self::Param, B), C)>, (((Self::Param, B), C), D)>, ((((Self::Param, B), C), D), E)>,
            |
                self.product_ensures(fb, t2)
                && t2.product_ensures(fc, t3)
                && t3.product_ensures(fd, t4)
                && t4.product_ensures(fe, t5)
                ==> t5.product_requires(ff),
            forall|
                t2: Target<Self, (Self::Param, B)>,
                t3: Target<Target<Self, (Self::Param, B)>, ((Self::Param, B), C)>,
                t4: Target<Target<Target<Self, (Self::Param, B)>, ((Self::Param, B), C)>, (((Self::Param, B), C), D)>,
                t5: Target<Target<Target<Target<Self, (Self::Param, B)>, ((Self::Param, B), C)>, (((Self::Param, B), C), D)>, ((((Self::Param, B), C), D), E)>,
                t6: Target<Target<Target<Target<Target<Self, (Self::Param, B)>, ((Self::Param, B), C)>, (((Self::Param, B), C), D)>, ((((Self::Param, B), C), D), E)>, (((((Self::Param, B), C), D), E), F)>,
            |
                self.product_ensures(fb, t2)
                && t2.product_ensures(fc, t3)
                && t3.product_ensures(fd, t4)
                && t4.product_ensures(fe, t5)
                && t5.product_ensures(ff, t6)
                ==> t6.product_requires(fg),
            forall|
                t2: Target<Self, (Self::Param, B)>,
                t3: Target<Target<Self, (Self::Param, B)>, ((Self::Param, B), C)>,
                t4: Target<Target<Target<Self, (Self::Param, B)>, ((Self::Param, B), C)>, (((Self::Param, B), C), D)>,
                t5: Target<Target<Target<Target<Self, (Self::Param, B)>, ((Self::Param, B), C)>, (((Self::Param, B), C), D)>, ((((Self::Param, B), C), D), E)>,
                t6: Target<Target<Target<Target<Target<Self, (Self::Param, B)>, ((Self::Param, B), C)>, (((Self::Param, B), C), D)>, ((((Self::Param, B), C), D), E)>, (((((Self::Param, B), C), D), E), F)>,
                t7: Target<Target<Target<Target<Target<Target<Self, (Self::Param, B)>, ((Self::Param, B), C)>, (((Self::Param, B), C), D)>, ((((Self::Param, B), C), D), E)>, (((((Self::Param, B), C), D), E), F)>, ((((((Self::Param, B), C), D), E), F), G)>,
            |
                self.product_ensures(fb, t2)
                && t2.product_ensures(fc, t3)
                && t3.product_ensures(fd, t4)
                && t4.product_ensures(fe, t5)
                && t5.product_ensures(ff, t6)
                && t6.product_ensures(fg, t7)
                ==> t7.product_requires(fh),
            forall|
                t2: Target<Self, (Self::Param, B)>,
                t3: Target<Target<Self, (Self::Param, B)>, ((Self::Param, B), C)>,
                t4: Target<Target<Target<Self, (Self::Param, B)>, ((Self::Param, B), C)>, (((Self::Param, B), C), D)>,
                t5: Target<Target<Target<Target<Self, (Self::Param, B)>, ((Self::Param, B), C)>, (((Self::Param, B), C), D)>, ((((Self::Param, B), C), D), E)>,
                t6: Target<Target<Target<Target<Target<Self, (Self::Param, B)>, ((Self::Param, B), C)>, (((Self::Param, B), C), D)>, ((((Self::Param, B), C), D), E)>, (((((Self::Param, B), C), D), E), F)>,
                t7: Target<Target<Target<Target<Target<Target<Self, (Self::Param, B)>, ((Self::Param, B), C)>, (((Self::Param, B), C), D)>, ((((Self::Param, B), C), D), E)>, (((((Self::Param, B), C), D), E), F)>, ((((((Self::Param, B), C), D), E), F), G)>,
                t8: Target<Target<Target<Target<Target<Target<Target<Self, (Self::Param, B)>, ((Self::Param, B), C)>, (((Self::Param, B), C), D)>, ((((Self::Param, B), C), D), E)>, (((((Self::Param, B), C), D), E), F)>, ((((((Self::Param, B), C), D), E), F), G)>, (((((((Self::Param, B), C), D), E), F), G), H)>,
            |
                self.product_ensures(fb, t2)
                && t2.product_ensures(fc, t3)
                && t3.product_ensures(fd, t4)
                && t4.product_ensures(fe, t5)
                && t5.product_ensures(ff, t6)
                && t6.product_ensures(fg, t7)
                && t7.product_ensures(fh, t8)
                ==> t8.product_requires(fi),
            forall|
                t2: Target<Self, (Self::Param, B)>,
                t3: Target<Target<Self, (Self::Param, B)>, ((Self::Param, B), C)>,
                t4: Target<Target<Target<Self, (Self::Param, B)>, ((Self::Param, B), C)>, (((Self::Param, B), C), D)>,
                t5: Target<Target<Target<Target<Self, (Self::Param, B)>, ((Self::Param, B), C)>, (((Self::Param, B), C), D)>, ((((Self::Param, B), C), D), E)>,
                t6: Target<Target<Target<Target<Target<Self, (Self::Param, B)>, ((Self::Param, B), C)>, (((Self::Param, B), C), D)>, ((((Self::Param, B), C), D), E)>, (((((Self::Param, B), C), D), E), F)>,
                t7: Target<Target<Target<Target<Target<Target<Self, (Self::Param, B)>, ((Self::Param, B), C)>, (((Self::Param, B), C), D)>, ((((Self::Param, B), C), D), E)>, (((((Self::Param, B), C), D), E), F)>, ((((((Self::Param, B), C), D), E), F), G)>,
                t8: Target<Target<Target<Target<Target<Target<Target<Self, (Self::Param, B)>, ((Self::Param, B), C)>, (((Self::Param, B), C), D)>, ((((Self::Param, B), C), D), E)>, (((((Self::Param, B), C), D), E), F)>, ((((((Self::Param, B), C), D), E), F), G)>, (((((((Self::Param, B), C), D), E), F), G), H)>,
                t9: Target<Target<Target<Target<Target<Target<Target<Target<Self, (Self::Param, B)>, ((Self::Param, B), C)>, (((Self::Param, B), C), D)>, ((((Self::Param, B), C), D), E)>, (((((Self::Param, B), C), D), E), F)>, ((((((Self::Param, B), C), D), E), F), G)>, (((((((Self::Param, B), C), D), E), F), G), H)>, ((((((((Self::Param, B), C), D), E), F), G), H), I)>,
            |
                self.product_ensures(fb, t2)
                && t2.product_ensures(fc, t3)
                && t3.product_ensures(fd, t4)
                && t4.product_ensures(fe, t5)
                && t5.product_ensures(ff, t6)
                && t6.product_ensures(fg, t7)
                && t7.product_ensures(fh, t8)
                && t8.product_ensures(fi, t9)
                ==> t9.product_requires(fj),
            forall|
                t2: Target<Self, (Self::Param, B)>,
                t3: Target<Target<Self, (Self::Param, B)>, ((Self::Param, B), C)>,
                t4: Target<Target<Target<Self, (Self::Param, B)>, ((Self::Param, B), C)>, (((Self::Param, B), C), D)>,
                t5: Target<Target<Target<Target<Self, (Self::Param, B)>, ((Self::Param, B), C)>, (((Self::Param, B), C), D)>, ((((Self::Param, B), C), D), E)>,
                t6: Target<Target<Target<Target<Target<Self, (Self::Param, B)>, ((Self::Param, B), C)>, (((Self::Param, B), C), D)>, ((((Self::Param, B), C), D), E)>, (((((Self::Param, B), C), D), E), F)>,
                t7: Target<Target<Target<Target<Target<Target<Self, (Self::Param, B)>, ((Self::Param, B), C)>, (((Self::Param, B), C), D)>, ((((Self::Param, B), C), D), E)>, (((((Self::Param, B), C), D), E), F)>, ((((((Self::Param, B), C), D), E), F), G)>,
                t8: Target<Target<Target<Target<Target<Target<Target<Self, (Self::Param, B)>, ((Self::Param, B), C)>, (((Self::Param, B), C), D)>, ((((Self::Param, B), C), D), E)>, (((((Self::Param, B), C), D), E), F)>, ((((((Self::Param, B), C), D), E), F), G)>, (((((((Self::Param, B), C), D), E), F), G), H)>,
                t9: Target<Target<Target<Target<Target<Target<Target<Target<Self, (Self::Param, B)>, ((Self::Param, B), C)>, (((Self::Param, B), C), D)>, ((((Self::Param, B), C), D), E)>, (((((Self::Param, B), C), D), E), F)>, ((((((Self::Param, B), C), D), E), F), G)>, (((((((Self::Param, B), C), D), E), F), G), H)>, ((((((((Self::Param, B), C), D), E), F), G), H), I)>,
                t10: Target<Target<Target<Target<Target<Target<Target<Target<Target<Self, (Self::Param, B)>, ((Self::Param, B), C)>, (((Self::Param, B), C), D)>, ((((Self::Param, B), C), D), E)>, (((((Self::Param, B), C), D), E), F)>, ((((((Self::Param, B), C), D), E), F), G)>, (((((((Self::Param, B), C), D), E), F), G), H)>, ((((((((Self::Param, B), C), D), E), F), G), H), I)>, (((((((((Self::Param, B), C), D), E), F), G), H), I), J)>,
            |
                self.product_ensures(fb, t2)
                && t2.product_ensures(fc, t3)
                && t3.product_ensures(fd, t4)
                && t4.product_ensures(fe, t5)
                && t5.product_ensures(ff, t6)
                && t6.product_ensures(fg, t7)
                && t7.product_ensures(fh, t8)
                && t8.product_ensures(fi, t9)
                && t9.product_ensures(fj, t10)
                ==> t10.product_requires(fk),
            forall|
                t2: Target<Self, (Self::Param, B)>,
                t3: Target<Target<Self, (Self::Param, B)>, ((Self::Param, B), C)>,
                t4: Target<Target<Target<Self, (Self::Param, B)>, ((Self::Param, B), C)>, (((Self::Param, B), C), D)>,
                t5: Target<Target<Target<Target<Self, (Self::Param, B)>, ((Self::Param, B), C)>, (((Self::Param, B), C), D)>, ((((Self::Param, B), C), D), E)>,
                t6: Target<Target<Target<Target<Target<Self, (Self::Param, B)>, ((Self::Param, B), C)>, (((Self::Param, B), C), D)>, ((((Self::Param, B), C), D), E)>, (((((Self::Param, B), C), D), E), F)>,
                t7: Target<Target<Target<Target<Target<Target<Self, (Self::Param, B)>, ((Self::Param, B), C)>, (((Self::Param, B), C), D)>, ((((Self::Param, B), C), D), E)>, (((((Self::Param, B), C), D), E), F)>, ((((((Self::Param, B), C), D), E), F), G)>,
                t8: Target<Target<Target<Target<Target<Target<Target<Self, (Self::Param, B)>, ((Self::Param, B), C)>, (((Self::Param, B), C), D)>, ((((Self::Param, B), C), D), E)>, (((((Self::Param, B), C), D), E), F)>, ((((((Self::Param, B), C), D), E), F), G)>, (((((((Self::Param, B), C), D), E), F), G), H)>,
                t9: Target<Target<Target<Target<Target<Target<Target<Target<Self, (Self::Param, B)>, ((Self::Param, B), C)>, (((Self::Param, B), C), D)>, ((((Self::Param, B), C), D), E)>, (((((Self::Param, B), C), D), E), F)>, ((((((Self::Param, B), C), D), E), F), G)>, (((((((Self::Param, B), C), D), E), F), G), H)>, ((((((((Self::Param, B), C), D), E), F), G), H), I)>,
                t10: Target<Target<Target<Target<Target<Target<Target<Target<Target<Self, (Self::Param, B)>, ((Self::Param, B), C)>, (((Self::Param, B), C), D)>, ((((Self::Param, B), C), D), E)>, (((((Self::Param, B), C), D), E), F)>, ((((((Self::Param, B), C), D), E), F), G)>, (((((((Self::Param, B), C), D), E), F), G), H)>, ((((((((Self::Param, B), C), D), E), F), G), H), I)>, (((((((((Self::Param, B), C), D), E), F), G), H), I), J)>,
                t11: Target<Target<Target<Target<Target<Target<Target<Target<Target<Target<Self, (Self::Param, B)>, ((Self::Param, B), C)>, (((Self::Param, B), C), D)>, ((((Self::Param, B), C), D), E)>, (((((Self::Param, B), C), D), E), F)>, ((((((Self::Param, B), C), D), E), F), G)>, (((((((Self::Param, B), C), D), E), F), G), H)>, ((((((((Self::Param, B), C), D), E), F), G), H), I)>, (((((((((Self::Param, B), C), D), E), F), G), H), I), J)>, ((((((((((Self::Param, B), C), D), E), F), G), H), I), J), K)>,
                i: int,
            |
                self.product_ensures(fb, t2)
                && t2.product_ensures(fc, t3)
                && t3.product_ensures(fd, t4)
                && t4.product_ensures(fe, t5)
                && t5.product_ensures(ff, t6)
                && t6.product_ensures(fg, t7)
                && t7.product_ensures(fh, t8)
                && t8.product_ensures(fi, t9)
                && t9.product_ensures(fj, t10)
                && t10.product_ensures(fk, t11)
                && 0 <= i < t11.items().len()
                ==> fun.requires((t11.items()[i].0.0.0.0.0.0.0.0.0.0, t11.items()[i].0.0.0.0.0.0.0.0.0.1, t11.items()[i].0.0.0.0.0.0.0.0.1, t11.items()[i].0.0.0.0.0.0.0.1, t11.items()[i].0.0.0.0.0.0.1, t11.items()[i].0.0.0.0.0.1, t11.items()[i].0.0.0.0.1, t11.items()[i].0.0.0.1, t11.items()[i].0.0.1, t11.items()[i].0.1, t11.items()[i].1)),
        ensures
            exists|
                t2: Target<Self, (Self::Param, B)>,
                t3: Target<Target<Self, (Self::Param, B)>, ((Self::Param, B), C)>,
                t4: Target<Target<Target<Self, (Self::Param, B)>, ((Self::Param, B), C)>, (((Self::Param, B), C), D)>,
                t5: Target<Target<Target<Target<Self, (Self::Param, B)>, ((Self::Param, B), C)>, (((Self::Param, B), C), D)>, ((((Self::Param, B), C), D), E)>,
                t6: Target<Target<Target<Target<Target<Self, (Self::Param, B)>, ((Self::Param, B), C)>, (((Self::Param, B), C), D)>, ((((Self::Param, B), C), D), E)>, (((((Self::Param, B), C), D), E), F)>,
                t7: Target<Target<Target<Target<Target<Target<Self, (Self::Param, B)>, ((Self::Param, B), C)>, (((Self::Param, B), C), D)>, ((((Self::Param, B), C), D), E)>, (((((Self::Param, B), C), D), E), F)>, ((((((Self::Param, B), C), D), E), F), G)>,
                t8: Target<Target<Target<Target<Target<Target<Target<Self, (Self::Param, B)>, ((Self::Param, B), C)>, (((Self::Param, B), C), D)>, ((((Self::Param, B), C), D), E)>, (((((Self::Param, B), C), D), E), F)>, ((((((Self::Param, B), C), D), E), F), G)>, (((((((Self::Param, B), C), D), E), F), G), H)>,
                t9: Target<Target<Target<Target<Target<Target<Target<Target<Self, (Self::Param, B)>, ((Self::Param, B), C)>, (((Self::Param, B), C), D)>, ((((Self::Param, B), C), D), E)>, (((((Self::Param, B), C), D), E), F)>, ((((((Self::Param, B), C), D), E), F), G)>, (((((((Self::Param, B), C), D), E), F), G), H)>, ((((((((Self::Param, B), C), D), E), F), G), H), I)>,
                t10: Target<Target<Target<Target<Target<Target<Target<Target<Target<Self, (Self::Param, B)>, ((Self::Param, B), C)>, (((Self::Param, B), C), D)>, ((((Self::Param, B), C), D), E)>, (((((Self::Param, B), C), D), E), F)>, ((((((Self::Param, B), C), D), E), F), G)>, (((((((Self::Param, B), C), D), E), F), G), H)>, ((((((((Self::Param, B), C), D), E), F), G), H), I)>, (((((((((Self::Param, B), C), D), E), F), G), H), I), J)>,
                t11: Target<Target<Target<Target<Target<Target<Target<Target<Target<Target<Self, (Self::Param, B)>, ((Self::Param, B), C)>, (((Self::Param, B), C), D)>, ((((Self::Param, B), C), D), E)>, (((((Self::Param, B), C), D), E), F)>, ((((((Self::Param, B), C), D), E), F), G)>, (((((((Self::Param, B), C), D), E), F), G), H)>, ((((((((Self::Param, B), C), D), E), F), G), H), I)>, (((((((((Self::Param, B), C), D), E), F), G), H), I), J)>, ((((((((((Self::Param, B), C), D), E), F), G), H), I), J), K)>,
            |
                {
                    &&& self.product_ensures(fb, t2)
                    &&& t2.product_ensures(fc, t3)
                    &&& t3.product_ensures(fd, t4)
                    &&& t4.product_ensures(fe, t5)
                    &&& t5.product_ensures(ff, t6)
                    &&& t6.product_ensures(fg, t7)
                    &&& t7.product_ensures(fh, t8)
                    &&& t8.product_ensures(fi, t9)
                    &&& t9.product_ensures(fj, t10)
                    &&& t10.product_ensures(fk, t11)
                    &&& r.shape() == t11.shape()
                    &&& r.items().len() == t11.items().len()
                    &&& forall|i: int|
                        0 <= i < t11.items().len() ==> fun.ensures(
                            (t11.items()[i].0.0.0.0.0.0.0.0.0.0, t11.items()[i].0.0.0.0.0.0.0.0.0.1, t11.items()[i].0.0.0.0.0.0.0.0.1, t11.items()[i].0.0.0.0.0.0.0.1, t11.items()[i].0.0.0.0.0.0.1, t11.items()[i].0.0.0.0.0.1, t11.items()[i].0.0.0.0.1, t11.items()[i].0.0.0.1, t11.items()[i].0.0.1, t11.items()[i].0.1, t11.items()[i].1),
                            #[trigger] r.items()[i],
                        )
                },
    {
        let t2 = self.product(fb);
        let t3 = t2.product(fc);
        let t4 = t3.product(fd);
        let t5 = t4.product(fe);
        let t6 = t5.product(ff);
        let t7 = t6.product(fg);
        let t8 = t7.product(fh);
        let t9 = t8.product(fi);
        let t10 = t9.product(fj);
        let t11 = t10.product(fk);
        let r = t11.map(
            |x: ((((((((((Self::Param, B), C), D), E), F), G), H), I), J), K)| -> (z: Z)
                requires
                    fun.requires((x.0.0.0.0.0.0.0.0.0.0, x.0.0.0.0.0.0.0.0.0.1, x.0.0.0.0.0.0.0.0.1, x.0.0.0.0.0.0.0.1, x.0.0.0.0.0.0.1, x.0.0.0.0.0.1, x.0.0.0.0.1, x.0.0.0.1, x.0.0.1, x.0.1, x.1))
                ensures
                    fun.ensures((x.0.0.0.0.0.0.0.0.0.0, x.0.0.0.0.0.0.0.0.0.1, x.0.0.0.0.0.0.0.0.1, x.0.0.0.0.0.0.0.1, x.0.0.0.0.0.0.1, x.0.0.0.0.0.1, x.0.0.0.0.1, x.0.0.0.1, x.0.0.1, x.0.1, x.1), z)
                { fun(x.0.0.0.0.0.0.0.0.0.0, x.0.0.0.0.0.0.0.0.0.1, x.0.0.0.0.0.0.0.0.1, x.0.0.0.0.0.0.0.1, x.0.0.0.0.0.0.1, x.0.0.0.0.0.1, x.0.0.0.0.1, x.0.0.0.1, x.0.0.1, x.0.1, x.1) },
        );
        proof {
            assert(
                self.product_ensures(fb, t2)
                && t2.product_ensures(fc, t3)
                && t3.product_ensures(fd, t4)
                && t4.product_ensures(fe, t5)
                && t5.product_ensures(ff, t6)
                && t6.product_ensures(fg, t7)
                && t7.product_ensures(fh, t8)
                && t8.product_ensures(fi, t9)
                && t9.product_ensures(fj, t10)
                && t10.product_ensures(fk, t11)
                && r.shape() == t11.shape()
            );
        }
        r
    }

    /// Combines twelve containers with a function of twelve arguments.
    fn map12<C, D, E, F, G, H, I, J, K, L, Z, FN>(
        self,
        fb: Target<Self, B>,
        fc: Target<Self, C>,
        fd: Target<Self, D>,
        fe: Target<Self, E>,
        ff: Target<Self, F>,
        fg: Target<Self, G>,
        fh: Target<Self, H>,
        fi: Target<Self, I>,
        fj: Target<Self, J>,
        fk: Target<Self, K>,
        fl: Target<Self, L>,
        fun: FN,
    ) -> (r: Target<Target<Target<Target<Target<Target<Target<Target<Target<Target<Target<Target<Self, (Self::Param, B)>, ((Self::Param, B), C)>, (((Self::Param, B), C), D)>, ((((Self::Param, B), C), D), E)>, (((((Self::Param, B), C), D), E), F)>, ((((((Self::Param, B), C), D), E), F), G)>, (((((((Self::Param, B), C), D), E), F), G), H)>, ((((((((Self::Param, B), C), D), E), F), G), H), I)>, (((((((((Self::Param, B), C), D), E), F), G), H), I), J)>, ((((((((((Self::Param, B), C), D), E), F), G), H), I), J), K)>, (((((((((((Self::Param, B), C), D), E), F), G), H), I), J), K), L)>, Z>) where
        FN: Fn(Self::Param, B, C, D, E, F, G, H, I, J, K, L) -> Z,
        Self: Semigroupal<B> + Retarget<C> + Retarget<D> + Retarget<E> + Retarget<F> + Retarget<G> + Retarget<H> + Retarget<I> + Retarget<J> + Retarget<K> + Retarget<L>,
        Target<Self, (Self::Param, B)>: Semigroupal<C>
            + Retarget<C, Target = Target<Self, C>>
            + Retarget<((Self::Param, B), C)>,
        Target<Target<Self, (Self::Param, B)>, ((Self::Param, B), C)>: Semigroupal<D>
            + Retarget<D, Target = Target<Self, D>>
            + Retarget<(((Self::Param, B), C), D)>,
        Target<Target<Target<Self, (Self::Param, B)>, ((Self::Param, B), C)>, (((Self::Param, B), C), D)>: Semigroupal<E>
            + Retarget<E, Target = Target<Self, E>>
            + Retarget<((((Self::Param, B), C), D), E)>,
        Target<Target<Target<Target<Self, (Self::Param, B)>, ((Self::Param, B), C)>, (((Self::Param, B), C), D)>, ((((Self::Param, B), C), D), E)>: Semigroupal<F>
            + Retarget<F, Target = Target<Self, F>>
            + Retarget<(((((Self::Param, B), C), D), E), F)>,
        Target<Target<Target<Target<Target<Self, (Self::Param, B)>, ((Self::Param, B), C)>, (((Self::Param, B), C), D)>, ((((Self::Param, B), C), D), E)>, (((((Self::Param, B), C), D), E), F)>: Semigroupal<G>
            + Retarget<G, Target = Target<Self, G>>
            + Retarget<((((((Self::Param, B), C), D), E), F), G)>,
        Target<Target<Target<Target<Target<Target<Self, (Self::Param, B)>, ((Self::Param, B), C)>, (((Self::Param, B), C), D)>, ((((Self::Param, B), C), D), E)>, (((((Self::Param, B), C), D), E), F)>, ((((((Self::Param, B), C), D), E), F), G)>: Semigroupal<H>
            + Retarget<H, Target = Target<Self, H>>
            + Retarget<(((((((Self::Param, B), C), D), E), F), G), H)>,
        Target<Target<Target<Target<Target<Target<Target<Self, (Self::Param, B)>, ((Self::Param, B), C)>, (((Self::Param, B), C), D)>, ((((Self::Param, B), C), D), E)>, (((((Self::Param, B), C), D), E), F)>, ((((((Self::Param, B), C), D), E), F), G)>, (((((((Self::Param, B), C), D), E), F), G), H)>: Semigroupal<I>
            + Retarget<I, Target = Target<Self, I>>
            + Retarget<((((((((Self::Param, B), C), D), E), F), G), H), I)>,
        Target<Target<Target<Target<Target<Target<Target<Target<Self, (Self::Param, B)>, ((Self::Param, B), C)>, (((Self::Param, B), C), D)>, ((((Self::Param, B), C), D), E)>, (((((Self::Param, B), C), D), E), F)>, ((((((Self::Param, B), C), D), E), F), G)>, (((((((Self::Param, B), C), D), E), F), G), H)>, ((((((((Self::Param, B), C), D), E), F), G), H), I)>: Semigroupal<J>
            + Retarget<J, Target = Target<Self, J>>
            + Retarget<(((((((((Self::Param, B), C), D), E), F), G), H), I), J)>,
        Target<Target<Target<Target<Target<Target<Target<Target<Target<Self, (Self::Param, B)>, ((Self::Param, B), C)>, (((Self::Param, B), C), D)>, ((((Self::Param, B), C), D), E)>, (((((Self::Param, B), C), D), E), F)>, ((((((Self::Param, B), C), D), E), F), G)>, (((((((Self::Param, B), C), D), E), F), G), H)>, ((((((((Self::Param, B), C), D), E), F), G), H), I)>, (((((((((Self::Param, B), C), D), E), F), G), H), I), J)>: Semigroupal<K>
            + Retarget<K, Target = Target<Self, K>>
            + Retarget<((((((((((Self::Param, B), C), D), E), F), G), H), I), J), K)>,
        Target<Target<Target<Target<Target<Target<Target<Target<Target<Target<Self, (Self::Param, B)>, ((Self::Param, B), C)>, (((Self::Param, B), C), D)>, ((((Self::Param, B), C), D), E)>, (((((Self::Param, B), C), D), E), F)>, ((((((Self::Param, B), C), D), E), F), G)>, (((((((Self::Param, B), C), D), E), F), G), H)>, ((((((((Self::Param, B), C), D), E), F), G), H), I)>, (((((((((Self::Param, B), C), D), E), F), G), H), I), J)>, ((((((((((Self::Param, B), C), D), E), F), G), H), I), J), K)>: Semigroupal<L>
            + Retarget<L, Target = Target<Self, L>>
            + Retarget<(((((((((((Self::Param, B), C), D), E), F), G), H), I), J), K), L)>,
        Target<Target<Target<Target<Target<Target<Target<Target<Target<Target<Target<Self, (Self::Param, B)>, ((Self::Param, B), C)>, (((Self::Param, B), C), D)>, ((((Self::Param, B), C), D), E)>, (((((Self::Param, B), C), D), E), F)>, ((((((Self::Param, B), C), D), E), F), G)>, (((((((Self::Param, B), C), D), E), F), G), H)>, ((((((((Self::Param, B), C), D), E), F), G), H), I)>, (((((((((Self::Param, B), C), D), E), F), G), H), I), J)>, ((((((((((Self::Param, B), C), D), E), F), G), H), I), J), K)>, (((((((((((Self::Param, B), C), D), E), F), G), H), I), J), K), L)>: Functor<Z>,

        requires
            self.product_requires(fb),
            forall|t2: Target<Self, (Self::Param, B)>|
                self.product_ensures(fb, t2)
                ==> t2.product_requires(fc),
            forall|
                t2: Target<Self, (Self::Param, B)>,
                t3: Target<Target<Self, (Self::Param, B)>, ((Self::Param, B), C)>,
            |
                self.product_ensures(fb, t2)
                && t2.product_ensures(fc, t3)
                ==> t3.product_requires(fd),
            forall|
                t2: Target<Self, (Self::Param, B)>,
                t3: Target<Target<Self, (Self::Param, B)>, ((Self::Param, B), C)>,
                t4: Target<Target<Target<Self, (Self::Param, B)>, ((Self::Param, B), C)>, (((Self::Param, B), C), D)>,
            |
                self.product_ensures(fb, t2)
                && t2.product_ensures(fc, t3)
                && t3.product_ensures(fd, t4)
                ==> t4.product_requires(fe),
            forall|
                t2: Target<Self, (Self::Param, B)>,
                t3: Target<Target<Self, (Self::Param, B)>, ((Self::Param, B), C)>,
                t4: Target<Target<Target<Self, (Self::Param, B)>, ((Self::Param, B), C)>, (((Self::Param, B), C), D)>,
                t5: Target<Target<Target<Target<Self, (Self::Param, B)>, ((Self::Param, B), C)>, (((Self::Param, B), C), D)>, ((((Self::Param, B), C), D), E)>,
            |
                self.product_ensures(fb, t2)
                && t2.product_ensures(fc, t3)
                && t3.product_ensures(fd, t4)
                && t4.product_ensures(fe, t5)
                ==> t5.product_requires(ff),
            forall|
                t2: Target<Self, (Self::Param, B)>,
                t3: Target<Target<Self, (Self::Param, B)>, ((Self::Param, B), C)>,
                t4: Target<Target<Target<Self, (Self::Param, B)>, ((Self::Param, B), C)>, (((Self::Param, B), C), D)>,
                t5: Target<Target<Target<Target<Self, (Self::Param, B)>, ((Self::Param, B), C)>, (((Self::Param, B), C), D)>, ((((Self::Param, B), C), D), E)>,
                t6: Target<Target<Target<Target<Target<Self, (Self::Param, B)>, ((Self::Param, B), C)>, (((Self::Param, B), C), D)>, ((((Self::Param, B), C), D), E)>, (((((Self::Param, B), C), D), E), F)>,
            |
                self.product_ensures(fb, t2)
                && t2.product_ensures(fc, t3)
                && t3.product_ensures(fd, t4)
                && t4.product_ensures(fe, t5)
                && t5.product_ensures(ff, t6)
                ==> t6.product_requires(fg),
            forall|
                t2: Target<Self, (Self::Param, B)>,
                t3: Target<Target<Self, (Self::Param, B)>, ((Self::Param, B), C)>,
                t4: Target<Target<Target<Self, (Self::Param, B)>, ((Self::Param, B), C)>, (((Self::Param, B), C), D)>,
                t5: Target<Target<Target<Target<Self, (Self::Param, B)>, ((Self::Param, B), C)>, (((Self::Param, B), C), D)>, ((((Self::Param, B), C), D), E)>,
                t6: Target<Target<Target<Target<Target<Self, (Self::Param, B)>, ((Self::Param, B), C)>, (((Self::Param, B), C), D)>, ((((Self::Param, B), C), D), E)>, (((((Self::Param, B), C), D), E), F)>,
                t7: Target<Target<Target<Target<Target<Target<Self, (Self::Param, B)>, ((Self::Param, B), C)>, (((Self::Param, B), C), D)>, ((((Self::Param, B), C), D), E)>, (((((Self::Param, B), C), D), E), F)>, ((((((Self::Param, B), C), D), E), F), G)>,
            |
                self.product_ensures(fb, t2)
                && t2.product_ensures(fc, t3)
                && t3.product_ensures(fd, t4)
                && t4.product_ensures(fe, t5)
                && t5.product_ensures(ff, t6)
                && t6.product_ensures(fg, t7)
                ==> t7.product_requires(fh),
            forall|
                t2: Target<Self, (Self::Param, B)>,
                t3: Target<Target<Self, (Self::Param, B)>, ((Self::Param, B), C)>,
                t4: Target<Target<Target<Self, (Self::Param, B)>, ((Self::Param, B), C)>, (((Self::Param, B), C), D)>,
                t5: Target<Target<Target<Target<Self, (Self::Param, B)>, ((Self::Param, B), C)>, (((Self::Param, B), C), D)>, ((((Self::Param, B), C), D), E)>,
                t6: Target<Target<Target<Target<Target<Self, (Self::Param, B)>, ((Self::Param, B), C)>, (((Self::Param, B), C), D)>, ((((Self::Param, B), C), D), E)>, (((((Self::Param, B), C), D), E), F)>,
                t7: Target<Target<Target<Target<Target<Target<Self, (Self::Param, B)>, ((Self::Param, B), C)>, (((Self::Param, B), C), D)>, ((((Self::Param, B), C), D), E)>, (((((Self::Param, B), C), D), E), F)>, ((((((Self::Param, B), C), D), E), F), G)>,
                t8: Target<Target<Target<Target<Target<Target<Target<Self, (Self::Param, B)>, ((Self::Param, B), C)>, (((Self::Param, B), C), D)>, ((((Self::Param, B), C), D), E)>, (((((Self::Param, B), C), D), E), F)>, ((((((Self::Param, B), C), D), E), F), G)>, (((((((Self::Param, B), C), D), E), F), G), H)>,
            |
                self.product_ensures(fb, t2)
                && t2.product_ensures(fc, t3)
                && t3.product_ensures(fd, t4)
                && t4.product_ensures(fe, t5)
                && t5.product_ensures(ff, t6)
                && t6.product_ensures(fg, t7)
                && t7.product_ensures(fh, t8)
                ==> t8.product_requires(fi),
            forall|
                t2: Target<Self, (Self::Param, B)>,
                t3: Target<Target<Self, (Self::Param, B)>, ((Self::Param, B), C)>,
                t4: Target<Target<Target<Self, (Self::Param, B)>, ((Self::Param, B), C)>, (((Self::Param, B), C), D)>,
                t5: Target<Target<Target<Target<Self, (Self::Param, B)>, ((Self::Param, B), C)>, (((Self::Param, B), C), D)>, ((((Self::Param, B), C), D), E)>,
                t6: Target<Target<Target<Target<Target<Self, (Self::Param, B)>, ((Self::Param, B), C)>, (((Self::Param, B), C), D)>, ((((Self::Param, B), C), D), E)>, (((((Self::Param, B), C), D), E), F)>,
                t7: Target<Target<Target<Target<Target<Target<Self, (Self::Param, B)>, ((Self::Param, B), C)>, (((Self::Param, B), C), D)>, ((((Self::Param, B), C), D), E)>, (((((Self::Param, B), C), D), E), F)>, ((((((Self::Param, B), C), D), E), F), G)>,
                t8: Target<Target<Target<Target<Target<Target<Target<Self, (Self::Param, B)>, ((Self::Param, B), C)>, (((Self::Param, B), C), D)>, ((((Self::Param, B), C), D), E)>, (((((Self::Param, B), C), D), E), F)>, ((((((Self::Param, B), C), D), E), F), G)>, (((((((Self::Param, B), C), D), E), F), G), H)>,
                t9: Target<Target<Target<Target<Target<Target<Target<Target<Self, (Self::Param, B)>, ((Self::Param, B), C)>, (((Self::Param, B), C), D)>, ((((Self::Param, B), C), D), E)>, (((((Self::Param, B), C), D), E), F)>, ((((((Self::Param, B), C), D), E), F), G)>, (((((((Self::Param, B), C), D), E), F), G), H)>, ((((((((Self::Param, B), C), D), E), F), G), H), I)>,
            |
                self.product_ensures(fb, t2)
                && t2.product_ensures(fc, t3)
                && t3.product_ensures(fd, t4)
                && t4.product_ensures(fe, t5)
                && t5.product_ensures(ff, t6)
                && t6.product_ensures(fg, t7)
                && t7.product_ensures(fh, t8)
                && t8.product_ensures(fi, t9)
                ==> t9.product_requires(fj),
            forall|
                t2: Target<Self, (Self::Param, B)>,
                t3: Target<Target<Self, (Self::Param, B)>, ((Self::Param, B), C)>,
                t4: Target<Target<Target<Self, (Self::Param, B)>, ((Self::Param, B), C)>, (((Self::Param, B), C), D)>,
                t5: Target<Target<Target<Target<Self, (Self::Param, B)>, ((Self::Param, B), C)>, (((Self::Param, B), C), D)>, ((((Self::Param, B), C), D), E)>,
                t6: Target<Target<Target<Target<Target<Self, (Self::Param, B)>, ((Self::Param, B), C)>, (((Self::Param, B), C), D)>, ((((Self::Param, B), C), D), E)>, (((((Self::Param, B), C), D), E), F)>,
                t7: Target<Target<Target<Target<Target<Target<Self, (Self::Param, B)>, ((Self::Param, B), C)>, (((Self::Param, B), C), D)>, ((((Self::Param, B), C), D), E)>, (((((Self::Param, B), C), D), E), F)>, ((((((Self::Param, B), C), D), E), F), G)>,
                t8: Target<Target<Target<Target<Target<Target<Target<Self, (Self::Param, B)>, ((Self::Param, B), C)>, (((Self::Param, B), C), D)>, ((((Self::Param, B), C), D), E)>, (((((Self::Param, B), C), D), E), F)>, ((((((Self::Param, B), C), D), E), F), G)>, (((((((Self::Param, B), C), D), E), F), G), H)>,
                t9: Target<Target<Target<Target<Target<Target<Target<Target<Self, (Self::Param, B)>, ((Self::Param, B), C)>, (((Self::Param, B), C), D)>, ((((Self::Param, B), C), D), E)>, (((((Self::Param, B), C), D), E), F)>, ((((((Self::Param, B), C), D), E), F), G)>, (((((((Self::Param, B), C), D), E), F), G), H)>, ((((((((Self::Param, B), C), D), E), F), G), H), I)>,
                t10: Target<Target<Target<Target<Target<Target<Target<Target<Target<Self, (Self::Param, B)>, ((Self::Param, B), C)>, (((Self::Param, B), C), D)>, ((((Self::Param, B), C), D), E)>, (((((Self::Param, B), C), D), E), F)>, ((((((Self::Param, B), C), D), E), F), G)>, (((((((Self::Param, B), C), D), E), F), G), H)>, ((((((((Self::Param, B), C), D), E), F), G), H), I)>, (((((((((Self::Param, B), C), D), E), F), G), H), I), J)>,
            |
                self.product_ensures(fb, t2)
                && t2.product_ensures(fc, t3)
                && t3.product_ensures(fd, t4)
                && t4.product_ensures(fe, t5)
                && t5.product_ensures(ff, t6)
                && t6.product_ensures(fg, t7)
                && t7.product_ensures(fh, t8)
                && t8.product_ensures(fi, t9)
                && t9.product_ensures(fj, t10)
                ==> t10.product_requires(fk),
            forall|
                t2: Target<Self, (Self::Param, B)>,
                t3: Target<Target<Self, (Self::Param, B)>, ((Self::Param, B), C)>,
                t4: Target<Target<Target<Self, (Self::Param, B)>, ((Self::Param, B), C)>, (((Self::Param, B), C), D)>,
                t5: Target<Target<Target<Target<Self, (Self::Param, B)>, ((Self::Param, B), C)>, (((Self::Param, B), C), D)>, ((((Self::Param, B), C), D), E)>,
                t6: Target<Target<Target<Target<Target<Self, (Self::Param, B)>, ((Self::Param, B), C)>, (((Self::Param, B), C), D)>, ((((Self::Param, B), C), D), E)>, (((((Self::Param, B), C), D), E), F)>,
                t7: Target<Target<Target<Target<Target<Target<Self, (Self::Param, B)>, ((Self::Param, B), C)>, (((Self::Param, B), C), D)>, ((((Self::Param, B), C), D), E)>, (((((Self::Param, B), C), D), E), F)>, ((((((Self::Param, B), C), D), E), F), G)>,
                t8: Target<Target<Target<Target<Target<Target<Target<Self, (Self::Param, B)>, ((Self::Param, B), C)>, (((Self::Param, B), C), D)>, ((((Self::Param, B), C), D), E)>, (((((Self::Param, B), C), D), E), F)>, ((((((Self::Param, B), C), D), E), F), G)>, (((((((Self::Param, B), C), D), E), F), G), H)>,
                t9: Target<Target<Target<Target<Target<Target<Target<Target<Self, (Self::Param, B)>, ((Self::Param, B), C)>, (((Self::Param, B), C), D)>, ((((Self::Param, B), C), D), E)>, (((((Self::Param, B), C), D), E), F)>, ((((((Self::Param, B), C), D), E), F), G)>, (((((((Self::Param, B), C), D), E), F), G), H)>, ((((((((Self::Param, B), C), D), E), F), G), H), I)>,
                t10: Target<Target<Target<Target<Target<Target<Target<Target<Target<Self, (Self::Param, B)>, ((Self::Param, B), C)>, (((Self::Param, B), C), D)>, ((((Self::Param, B), C), D), E)>, (((((Self::Param, B), C), D), E), F)>, ((((((Self::Param, B), C), D), E), F), G)>, (((((((Self::Param, B), C), D), E), F), G), H)>, ((((((((Self::Param, B), C), D), E), F), G), H), I)>, (((((((((Self::Param, B), C), D), E), F), G), H), I), J)>,
                t11: Target<Target<Target<Target<Target<Target<Target<Target<Target<Target<Self, (Self::Param, B)>, ((Self::Param, B), C)>, (((Self::Param, B), C), D)>, ((((Self::Param, B), C), D), E)>, (((((Self::Param, B), C), D), E), F)>, ((((((Self::Param, B), C), D), E), F), G)>, (((((((Self::Param, B), C), D), E), F), G), H)>, ((((((((Self::Param, B), C), D), E), F), G), H), I)>, (((((((((Self::Param, B), C), D), E), F), G), H), I), J)>, ((((((((((Self::Param, B), C), D), E), F), G), H), I), J), K)>,
            |
                self.product_ensures(fb, t2)
                && t2.product_ensures(fc, t3)
                && t3.product_ensures(fd, t4)
                && t4.product_ensures(fe, t5)
                && t5.product_ensures(ff, t6)
                && t6.product_ensures(fg, t7)
                && t7.product_ensures(fh, t8)
                && t8.product_ensures(fi, t9)
                && t9.product_ensures(fj, t10)
                && t10.product_ensures(fk, t11)
                ==> t11.product_requires(fl),
            forall|
                t2: Target<Self, (Self::Param, B)>,
                t3: Target<Target<Self, (Self::Param, B)>, ((Self::Param, B), C)>,
                t4: Target<Target<Target<Self, (Self::Param, B)>, ((Self::Param, B), C)>, (((Self::Param, B), C), D)>,
                t5: Target<Target<Target<Target<Self, (Self::Param, B)>, ((Self::Param, B), C)>, (((Self::Param, B), C), D)>, ((((Self::Param, B), C), D), E)>,
                t6: Target<Target<Target<Target<Target<Self, (Self::Param, B)>, ((Self::Param, B), C)>, (((Self::Param, B), C), D)>, ((((Self::Param, B), C), D), E)>, (((((Self::Param, B), C), D), E), F)>,
                t7: Target<Target<Target<Target<Target<Target<Self, (Self::Param, B)>, ((Self::Param, B), C)>, (((Self::Param, B), C), D)>, ((((Self::Param, B), C), D), E)>, (((((Self::Param, B), C), D), E), F)>, ((((((Self::Param, B), C), D), E), F), G)>,
                t8: Target<Target<Target<Target<Target<Target<Target<Self, (Self::Param, B)>, ((Self::Param, B), C)>, (((Self::Param, B), C), D)>, ((((Self::Param, B), C), D), E)>, (((((Self::Param, B), C), D), E), F)>, ((((((Self::Param, B), C), D), E), F), G)>, (((((((Self::Param, B), C), D), E), F), G), H)>,
                t9: Target<Target<Target<Target<Target<Target<Target<Target<Self, (Self::Param, B)>, ((Self::Param, B), C)>, (((Self::Param, B), C), D)>, ((((Self::Param, B), C), D), E)>, (((((Self::Param, B), C), D), E), F)>, ((((((Self::Param, B), C), D), E), F), G)>, (((((((Self::Param, B), C), D), E), F), G), H)>, ((((((((Self::Param, B), C), D), E), F), G), H), I)>,
                t10: Target<Target<Target<Target<Target<Target<Target<Target<Target<Self, (Self::Param, B)>, ((Self::Param, B), C)>, (((Self::Param, B), C), D)>, ((((Self::Param, B), C), D), E)>, (((((Self::Param, B), C), D), E), F)>, ((((((Self::Param, B), C), D), E), F), G)>, (((((((Self::Param, B), C), D), E), F), G), H)>, ((((((((Self::Param, B), C), D), E), F), G), H), I)>, (((((((((Self::Param, B), C), D), E), F), G), H), I), J)>,
                t11: Target<Target<Target<Target<Target<Target<Target<Target<Target<Target<Self, (Self::Param, B)>, ((Self::Param, B), C)>, (((Self::Param, B), C), D)>, ((((Self::Param, B), C), D), E)>, (((((Self::Param, B), C), D), E), F)>, ((((((Self::Param, B), C), D), E), F), G)>, (((((((Self::Param, B), C), D), E), F), G), H)>, ((((((((Self::Param, B), C), D), E), F), G), H), I)>, (((((((((Self::Param, B), C), D), E), F), G), H), I), J)>, ((((((((((Self::Param, B), C), D), E), F), G), H), I), J), K)>,
                t12: Target<Target<Target<Target<Target<Target<Target<Target<Target<Target<Target<Self, (Self::Param, B)>, ((Self::Param, B), C)>, (((Self::Param, B), C), D)>, ((((Self::Param, B), C), D), E)>, (((((Self::Param, B), C), D), E), F)>, ((((((Self::Param, B), C), D), E), F), G)>, (((((((Self::Param, B), C), D), E), F), G), H)>, ((((((((Self::Param, B), C), D), E), F), G), H), I)>, (((((((((Self::Param, B), C), D), E), F), G), H), I), J)>, ((((((((((Self::Param, B), C), D), E), F), G), H), I), J), K)>, (((((((((((Self::Param, B), C), D), E), F), G), H), I), J), K), L)>,
                i: int,
            |
                self.product_ensures(fb, t2)
                && t2.product_ensures(fc, t3)
                && t3.product_ensures(fd, t4)
                && t4.product_ensures(fe, t5)
                && t5.product_ensures(ff, t6)
                && t6.product_ensures(fg, t7)
                && t7.product_ensures(fh, t8)
                && t8.product_ensures(fi, t9)
                && t9.product_ensures(fj, t10)
                && t10.product_ensures(fk, t11)
                && t11.product_ensures(fl, t12)
                && 0 <= i < t12.items().len()
                ==> fun.requires((t12.items()[i].0.0.0.0.0.0.0.0.0.0.0, t12.items()[i].0.0.0.0.0.0.0.0.0.0.1, t12.items()[i].0.0.0.0.0.0.0.0.0.1, t12.items()[i].0.0.0.0.0.0.0.0.1, t12.items()[i].0.0.0.0.0.0.0.1, t12.items()[i].0.0.0.0.0.0.1, t12.items()[i].0.0.0.0.0.1, t12.items()[i].0.0.0.0.1, t12.items()[i].0.0.0.1, t12.items()[i].0.0.1, t12.items()[i].0.1, t12.items()[i].1)),
        ensures
            exists|
                t2: Target<Self, (Self::Param, B)>,
                t3: Target<Target<Self, (Self::Param, B)>, ((Self::Param, B), C)>,
                t4: Target<Target<Target<Self, (Self::Param, B)>, ((Self::Param, B), C)>, (((Self::Param, B), C), D)>,
                t5: Target<Target<Target<Target<Self, (Self::Param, B)>, ((Self::Param, B), C)>, (((Self::Param, B), C), D)>, ((((Self::Param, B), C), D), E)>,
                t6: Target<Target<Target<Target<Target<Self, (Self::Param, B)>, ((Self::Param, B), C)>, (((Self::Param, B), C), D)>, ((((Self::Param, B), C), D), E)>, (((((Self::Param, B), C), D), E), F)>,
                t7: Target<Target<Target<Target<Target<Target<Self, (Self::Param, B)>, ((Self::Param, B), C)>, (((Self::Param, B), C), D)>, ((((Self::Param, B), C), D), E)>, (((((Self::Param, B), C), D), E), F)>, ((((((Self::Param, B), C), D), E), F), G)>,
                t8: Target<Target<Target<Target<Target<Target<Target<Self, (Self::Param, B)>, ((Self::Param, B), C)>, (((Self::Param, B), C), D)>, ((((Self::Param, B), C), D), E)>, (((((Self::Param, B), C), D), E), F)>, ((((((Self::Param, B), C), D), E), F), G)>, (((((((Self::Param, B), C), D), E), F), G), H)>,
                t9: Target<Target<Target<Target<Target<Target<Target<Target<Self, (Self::Param, B)>, ((Self::Param, B), C)>, (((Self::Param, B), C), D)>, ((((Self::Param, B), C), D), E)>, (((((Self::Param, B), C), D), E), F)>, ((((((Self::Param, B), C), D), E), F), G)>, (((((((Self::Param, B), C), D), E), F), G), H)>, ((((((((Self::Param, B), C), D), E), F), G), H), I)>,
                t10: Target<Target<Target<Target<Target<Target<Target<Target<Target<Self, (Self::Param, B)>, ((Self::Param, B), C)>, (((Self::Param, B), C), D)>, ((((Self::Param, B), C), D), E)>, (((((Self::Param, B), C), D), E), F)>, ((((((Self::Param, B), C), D), E), F), G)>, (((((((Self::Param, B), C), D), E), F), G), H)>, ((((((((Self::Param, B), C), D), E), F), G), H), I)>, (((((((((Self::Param, B), C), D), E), F), G), H), I), J)>,
                t11: Target<Target<Target<Target<Target<Target<Target<Target<Target<Target<Self, (Self::Param, B)>, ((Self::Param, B), C)>, (((Self::Param, B), C), D)>, ((((Self::Param, B), C), D), E)>, (((((Self::Param, B), C), D), E), F)>, ((((((Self::Param, B), C), D), E), F), G)>, (((((((Self::Param, B), C), D), E), F), G), H)>, ((((((((Self::Param, B), C), D), E), F), G), H), I)>, (((((((((Self::Param, B), C), D), E), F), G), H), I), J)>, ((((((((((Self::Param, B), C), D), E), F), G), H), I), J), K)>,
                t12: Target<Target<Target<Target<Target<Target<Target<Target<Target<Target<Target<Self, (Self::Param, B)>, ((Self::Param, B), C)>, (((Self::Param, B), C), D)>, ((((Self::Param, B), C), D), E)>, (((((Self::Param, B), C), D), E), F)>, ((((((Self::Param, B), C), D), E), F), G)>, (((((((Self::Param, B), C), D), E), F), G), H)>, ((((((((Self::Param, B), C), D), E), F), G), H), I)>, (((((((((Self::Param, B), C), D), E), F), G), H), I), J)>, ((((((((((Self::Param, B), C), D), E), F), G), H), I), J), K)>, (((((((((((Self::Param, B), C), D), E), F), G), H), I), J), K), L)>,
            |
                {
                    &&& self.product_ensures(fb, t2)
                    &&& t2.product_ensures(fc, t3)
                    &&& t3.product_ensures(fd, t4)
                    &&& t4.product_ensures(fe, t5)
                    &&& t5.product_ensures(ff, t6)
                    &&& t6.product_ensures(fg, t7)
                    &&& t7.product_ensures(fh, t8)
                    &&& t8.product_ensures(fi, t9)
                    &&& t9.product_ensures(fj, t10)
                    &&& t10.product_ensures(fk, t11)
                    &&& t11.product_ensures(fl, t12)
                    &&& r.shape() == t12.shape()
                    &&& r.items().len() == t12.items().len()
                    &&& forall|i: int|
                        0 <= i < t12.items().len() ==> fun.ensures(
                            (t12.items()[i].0.0.0.0.0.0.0.0.0.0.0, t12.items()[i].0.0.0.0.0.0.0.0.0.0.1, t12.items()[i].0.0.0.0.0.0.0.0.0.1, t12.items()[i].0.0.0.0.0.0.0.0.1, t12.items()[i].0.0.0.0.0.0.0.1, t12.items()[i].0.0.0.0.0.0.1, t12.items()[i].0.0.0.0.0.1, t12.items()[i].0.0.0.0.1, t12.items()[i].0.0.0.1, t12.items()[i].0.0.1, t12.items()[i].0.1, t12.items()[i].1),
                            #[trigger] r.items()[i],
                        )
                },
    {
        let t2 = self.product(fb);
        let t3 = t2.product(fc);
        let t4 = t3.product(fd);
        let t5 = t4.product(fe);
        let t6 = t5.product(ff);
        let t7 = t6.product(fg);
        let t8 = t7.product(fh);
        let t9 = t8.product(fi);
        let t10 = t9.product(fj);
        let t11 = t10.product(fk);
        let t12 = t11.product(fl);
        let r = t12.map(
            |x: (((((((((((Self::Param, B), C), D), E), F), G), H), I), J), K), L)| -> (z: Z)
                requires
                    fun.requires((x.0.0.0.0.0.0.0.0.0.0.0, x.0.0.0.0.0.0.0.0.0.0.1, x.0.0.0.0.0.0.0.0.0.1, x.0.0.0.0.0.0.0.0.1, x.0.0.0.0.0.0.0.1, x.0.0.0.0.0.0.1, x.0.0.0.0.0.1, x.0.0.0.0.1, x.0.0.0.1, x.0.0.1, x.0.1, x.1))
                ensures
                    fun.ensures((x.0.0.0.0.0.0.0.0.0.0.0, x.0.0.0.0.0.0.0.0.0.0.1, x.0.0.0.0.0.0.0.0.0.1, x.0.0.0.0.0.0.0.0.1, x.0.0.0.0.0.0.0.1, x.0.0.0.0.0.0.1, x.0.0.0.0.0.1, x.0.0.0.0.1, x.0.0.0.1, x.0.0.1, x.0.1, x.1), z)
                { fun(x.0.0.0.0.0.0.0.0.0.0.0, x.0.0.0.0.0.0.0.0.0.0.1, x.0.0.0.0.0.0.0.0.0.1, x.0.0.0.0.0.0.0.0.1, x.0.0.0.0.0.0.0.1, x.0.0.0.0.0.0.1, x.0.0.0.0.0.1, x.0.0.0.0.1, x.0.0.0.1, x.0.0.1, x.0.1, x.1) },
        );
        proof {
            assert(
                self.product_ensures(fb, t2)
                && t2.product_ensures(fc, t3)
                && t3.product_ensures(fd, t4)
                && t4.product_ensures(fe, t5)
                && t5.product_ensures(ff, t6)
                && t6.product_ensures(fg, t7)
                && t7.product_ensures(fh, t8)
                && t8.product_ensures(fi, t9)
                && t9.product_ensures(fj, t10)
                && t10.product_ensures(fk, t11)
                && t11.product_ensures(fl, t12)
                && r.shape() == t12.shape()
            );
        }
        r
    }
}

impl<FA: Higher, B> MapN<B> for FA {

}

/// `map2` is `product` followed by `map`: what pairing `fa` with `fb` and
/// mapping the pairs with `g` gives is what `fa.map2(fb, f)` may give, where
/// `g` does to a pair what `f` does to its two parts.
pub proof fn lemma_map2_product_consistency<FA, B, Z, F, G>(
    fa: FA,
    fb: Target<FA, B>,
    f: F,
    g: G,
    p: Pairs<FA, B>,
    r: Target<Pairs<FA, B>, Z>,
) where
    FA: Semigroupal<B>,
    Pairs<FA, B>: Retarget<Z>,
    F: FnOnce(FA::Param, B) -> Z,
    G: FnOnce((FA::Param, B)) -> Z,

    requires
        fa.product_ensures(fb, p),
        crate::functor::mapped(p, g, r),
        forall|x: (FA::Param, B), z: Z| g.ensures((x,), z) ==> f.ensures((x.0, x.1), z),
    ensures
        map2_ensures(fa, fb, f, r),
{
    assert forall|i: int| 0 <= i < p.items().len() implies f.ensures(
        (p.items()[i].0, p.items()[i].1),
        #[trigger] r.items()[i],
    ) by {
        assert(g.ensures((p.items()[i],), r.items()[i]));
    }
    assert(fa.product_ensures(fb, p) && mapped_pairs(p, f, r));
}

/// `product_r` is `map2` with the function that returns its second
/// argument.
pub proof fn lemma_product_r_consistency<FA, B, F>(
    fa: FA,
    fb: Target<FA, B>,
    f: F,
    r: Target<Pairs<FA, B>, B>,
) where
    FA: Semigroupal<B>,
    Pairs<FA, B>: Retarget<B>,
    F: FnOnce(FA::Param, B) -> B,

    requires
        map2_ensures(fa, fb, f, r),
        forall|a: FA::Param, b: B, z: B| f.ensures((a, b), z) ==> z == b,
    ensures
        product_r_ensures(fa, fb, r),
{
    let p = choose|p: Pairs<FA, B>| #[trigger]
        fa.product_ensures(fb, p) && mapped_pairs(p, f, r);
    assert forall|i: int| 0 <= i < p.items().len() implies #[trigger] r.items()[i]
        == p.items()[i].1 by {
        assert(f.ensures((p.items()[i].0, p.items()[i].1), r.items()[i]));
    }
    assert(fa.product_ensures(fb, p) && r.shape() == p.shape());
}

/// `product_l` is `map2` with the function that returns its first argument.
pub proof fn lemma_product_l_consistency<FA, B, F>(
    fa: FA,
    fb: Target<FA, B>,
    f: F,
    r: Target<Pairs<FA, B>, FA::Param>,
) where
    FA: Semigroupal<B>,
    Pairs<FA, B>: Retarget<<FA as Higher>::Param>,
    F: FnOnce(FA::Param, B) -> FA::Param,

    requires
        map2_ensures(fa, fb, f, r),
        forall|a: FA::Param, b: B, z: FA::Param| f.ensures((a, b), z) ==> z == a,
    ensures
        product_l_ensures(fa, fb, r),
{
    let p = choose|p: Pairs<FA, B>| #[trigger]
        fa.product_ensures(fb, p) && mapped_pairs(p, f, r);
    assert forall|i: int| 0 <= i < p.items().len() implies #[trigger] r.items()[i]
        == p.items()[i].0 by {
        assert(f.ensures((p.items()[i].0, p.items()[i].1), r.items()[i]));
    }
    assert(fa.product_ensures(fb, p) && r.shape() == p.shape());
}

} // verus!
