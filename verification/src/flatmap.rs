//! FlatMap: sequencing, where what comes next depends on the value that came
//! before.
use crate::functor::{callable_on_items, Functor};
use crate::higher::{Higher, Retarget, Target};
use core::marker::PhantomData;
use vstd::prelude::*;

verus! {

/// A functor with `flat_map`. It is a monad without `pure`.
pub trait FlatMap<B>: Functor<B> {
    /// `r` is what `self` becomes when each of its items is replaced by the
    /// container at the same place in `parts` and the nesting is removed.
    spec fn joined(self, parts: Seq<Target<Self, B>>, r: Target<Self, B>) -> bool;

    /// Applies `f` to every item and flattens what comes out. Items for which
    /// the container has no use are not handed to `f`: the container decides
    /// which are its items.
    fn flat_map<F>(self, f: F) -> (r: Target<Self, B>) where
        F: FnMut(Self::Param) -> Target<Self, B>,

        requires
            callable_on_items(self, f),
        ensures
            exists|parts: Seq<Target<Self, B>>|
                {
                    &&& parts.len() == self.items().len()
                    &&& forall|i: int|
                        0 <= i < parts.len() ==> f.ensures((self.items()[i],), #[trigger] parts[i])
                    &&& #[trigger] self.joined(parts, r)
                },
    ;
}

/// `r` is what `fa.flat_map(f)` may return.
pub open spec fn flat_mapped<FA, B, F>(fa: FA, f: F, r: Target<FA, B>) -> bool where
    FA: FlatMap<B>,
    F: FnOnce(FA::Param) -> Target<FA, B>,
 {
    exists|parts: Seq<Target<FA, B>>|
        {
            &&& parts.len() == fa.items().len()
            &&& forall|i: int|
                0 <= i < parts.len() ==> f.ensures((fa.items()[i],), #[trigger] parts[i])
            &&& #[trigger] fa.joined(parts, r)
        }
}

impl<A, B> FlatMap<B> for PhantomData<A> {
    open spec fn joined(self, parts: Seq<PhantomData<B>>, r: PhantomData<B>) -> bool {
        true
    }

    fn flat_map<F>(self, f: F) -> (r: PhantomData<B>) where F: FnMut(A) -> PhantomData<B> {
        let r = PhantomData;
        assert(self.joined(Seq::<PhantomData<B>>::empty(), r));
        r
    }
}

impl<A, B> FlatMap<B> for Option<A> {
    /// The part of the value if there is a value, else nothing.
    open spec fn joined(self, parts: Seq<Option<B>>, r: Option<B>) -> bool {
        match self {
            Some(_) => r == parts[0],
            None => r is None,
        }
    }

    fn flat_map<F>(self, mut f: F) -> (r: Option<B>) where F: FnMut(A) -> Option<B> {
        match self {
            Some(a) => {
                assert(self.items()[0] == a);
                let r = f(a);
                assert(self.joined(seq![r], r));
                r
            },
            None => {
                assert(self.joined(Seq::<Option<B>>::empty(), None));
                None
            },
        }
    }
}

impl<A, B, E> FlatMap<B> for Result<A, E> {
    /// The part of the value if there is a value, else the error.
    open spec fn joined(self, parts: Seq<Result<B, E>>, r: Result<B, E>) -> bool {
        match self {
            Ok(_) => r == parts[0],
            Err(e) => r == Err::<B, E>(e),
        }
    }

    fn flat_map<F>(self, mut f: F) -> (r: Result<B, E>) where F: FnMut(A) -> Result<B, E> {
        match self {
            Ok(a) => {
                assert(self.items()[0] == a);
                let r = f(a);
                assert(self.joined(seq![r], r));
                r
            },
            Err(e) => {
                let r = Err(e);
                assert(self.joined(Seq::<Result<B, E>>::empty(), r));
                r
            },
        }
    }
}

impl<A, B> FlatMap<B> for Box<A> {
    open spec fn joined(self, parts: Seq<Box<B>>, r: Box<B>) -> bool {
        r == parts[0]
    }

    fn flat_map<F>(self, mut f: F) -> (r: Box<B>) where F: FnMut(A) -> Box<B> {
        assert(self.items()[0] == *self);
        let r = f(*self);
        assert(self.joined(seq![r], r));
        r
    }
}

/// The items of the vectors of `parts`, one vector after the other.
pub open spec fn concat<B>(parts: Seq<Vec<B>>) -> Seq<B> {
    parts.map_values(|v: Vec<B>| v@).flatten()
}

impl<A, B> FlatMap<B> for Vec<A> {
    /// The parts, one after the other.
    open spec fn joined(self, parts: Seq<Vec<B>>, r: Vec<B>) -> bool {
        r@ == concat(parts)
    }

    fn flat_map<F>(self, mut f: F) -> (r: Vec<B>) where F: FnMut(A) -> Vec<B> {
        let mut out: Vec<B> = Vec::new();
        let ghost src = self.items();
        let ghost f0 = f;
        let ghost mut parts: Seq<Vec<B>> = Seq::empty();
        for a in it: self.into_iter()
            invariant
                it.seq() == src,
                f == f0,
                parts.len() == it.index(),
                out@ == concat(parts),
                forall|k: int| 0 <= k < src.len() ==> f.requires((#[trigger] src[k],)),
                forall|k: int| 0 <= k < parts.len() ==> f.ensures((src[k],), #[trigger] parts[k]),
        {
            let mut part = f(a);
            proof {
                let before = parts;
                parts = parts.push(part);
                assert(parts.map_values(|v: Vec<B>| v@) =~= before.map_values(|v: Vec<B>| v@).push(
                    part@,
                ));
                before.map_values(|v: Vec<B>| v@).lemma_flatten_push(part@);
            }
            out.append(&mut part);
        }
        assert(self.joined(parts, out));
        out
    }
}

/// `p` is `fb` with every item paired with `a`, `a` first.
pub open spec fn paired_with<FB, A, B>(a: A, fb: FB, p: Target<FB, (A, B)>) -> bool where
    FB: Retarget<(A, B)> + Higher<Param = B>,
 {
    &&& p.shape() == fb.shape()
    &&& p.items().len() == fb.items().len()
    &&& forall|k: int| 0 <= k < fb.items().len() ==> #[trigger] p.items()[k] == (a, fb.items()[k])
}

/// `p` is what `f` may return for `a`, with every item paired with `a`.
pub open spec fn result_paired_with<F, FB, A, B>(
    f: F,
    a: A,
    p: Target<FB, (A, B)>,
) -> bool where F: FnOnce(A) -> FB, FB: Retarget<(A, B)> + Higher<Param = B> {
    exists|fb: FB| f.ensures((a,), fb) && paired_with(a, fb, p)
}

/// `p` is what `f` may return for `a`, with every item replaced by `a`.
pub open spec fn result_replaced_by<F, FB, A>(f: F, a: A, p: Target<FB, A>) -> bool where
    F: FnOnce(A) -> FB,
    FB: Retarget<A>,
 {
    exists|fb: FB| f.ensures((a,), fb) && replaced_by(a, fb, p)
}

/// `p` is `fb` with every item replaced by `a`.
pub open spec fn replaced_by<FB, A>(a: A, fb: FB, p: Target<FB, A>) -> bool where
    FB: Retarget<A>,
 {
    &&& p.shape() == fb.shape()
    &&& p.items().len() == fb.items().len()
    &&& forall|k: int| 0 <= k < fb.items().len() ==> #[trigger] p.items()[k] == a
}

/// The operations that every `FlatMap` has besides `flat_map`, each
/// defined by one call of [`FlatMap::flat_map`]. `B` is the type that the
/// operation brings in.
pub trait FlatMapOps<B>: Higher {
    /// Removes one level of nesting: `flat_map` with the function that
    /// returns its argument.
    fn flatten(self) -> (r: Target<Self, B>) where
        Self: FlatMap<B> + Higher<Param = Target<Self, B>>,

        ensures
            self.joined(self.items(), r),
    {
        let r = self.flat_map(
            |x: Target<Self, B>| -> (y: Target<Self, B>)
                ensures
                    y == x
                { x },
        );
        proof {
            let parts = choose|parts: Seq<Target<Self, B>>|
                {
                    &&& parts.len() == self.items().len()
                    &&& forall|i: int| 0 <= i < parts.len() ==> #[trigger] parts[i] == self.items()[i]
                    &&& #[trigger] self.joined(parts, r)
                };
            assert(parts =~= self.items());
        }
        r
    }

    /// `if` lifted into the monad: a `true` is replaced by what `if_true`
    /// returns, a `false` by what `if_false` returns.
    fn if_m<T, F>(self, if_true: T, if_false: F) -> (r: Target<Self, B>) where
        T: Fn() -> Target<Self, B>,
        F: Fn() -> Target<Self, B>,
        Self: FlatMap<B> + Higher<Param = bool>,

        requires
            forall|i: int|
                0 <= i < self.items().len() && #[trigger] self.items()[i] ==> if_true.requires(()),
            forall|i: int|
                0 <= i < self.items().len() && !#[trigger] self.items()[i] ==> if_false.requires(()),
        ensures
            exists|parts: Seq<Target<Self, B>>|
                {
                    &&& parts.len() == self.items().len()
                    &&& forall|i: int|
                        0 <= i < parts.len() ==> if self.items()[i] {
                            if_true.ensures((), #[trigger] parts[i])
                        } else {
                            if_false.ensures((), parts[i])
                        }
                    &&& #[trigger] self.joined(parts, r)
                },
    {
        self.flat_map(
            |x: bool| -> (y: Target<Self, B>)
                requires
                    x ==> if_true.requires(()),
                    !x ==> if_false.requires(())
                ensures
                    x ==> if_true.ensures((), y),
                    !x ==> if_false.ensures((), y)
                {
                    if x {
                        if_true()
                    } else {
                        if_false()
                    }
                },
        )
    }
    /// Pairs every item with each item of what `f` returns for it, and
    /// flattens.
    fn m_product<F>(self, f: F) -> (r: Target<Self, (Self::Param, B)>) where
        F: Fn(Self::Param) -> Target<Self, B>,
        Self: FlatMap<(<Self as Higher>::Param, B)> + Retarget<B>,
        Self::Param: Copy,
        Target<Self, B>: Functor<
            (<Self as Higher>::Param, B),
            Target = Target<Self, (<Self as Higher>::Param, B)>,
        >,

        requires
            callable_on_items(self, f),
        ensures
            exists|parts: Seq<Target<Self, (Self::Param, B)>>|
                {
                    &&& parts.len() == self.items().len()
                    &&& forall|i: int|
                        0 <= i < parts.len() ==> result_paired_with(
                            f,
                            self.items()[i],
                            #[trigger] parts[i],
                        )
                    &&& #[trigger] self.joined(parts, r)
                },
    {
        self.flat_map(
            |a: Self::Param| -> (p: Target<Self, (Self::Param, B)>)
                requires
                    f.requires((a,))
                ensures
                    result_paired_with(f, a, p)
                {
                    let fb = f(a);
                    let p = fb.map(
                        |b: B| -> (x: (Self::Param, B))
                            ensures
                                x == (a, b)
                            { (a, b) },
                    );
                    proof {
                        assert(f.ensures((a,), fb) && paired_with(a, fb, p));
                    }
                    p
                },
        )
    }

    /// Runs `f` on every item for its effect: the items of what `f` returns
    /// are replaced by the item that `f` was given.
    fn flat_tap<F>(self, f: F) -> (r: Target<Self, Self::Param>) where
        F: Fn(Self::Param) -> Target<Self, B>,
        Self: FlatMap<<Self as Higher>::Param> + Retarget<B>,
        Self::Param: Copy,
        Target<Self, B>: Functor<
            <Self as Higher>::Param,
            Target = Target<Self, <Self as Higher>::Param>,
        >,

        requires
            callable_on_items(self, f),
        ensures
            exists|parts: Seq<Target<Self, Self::Param>>|
                {
                    &&& parts.len() == self.items().len()
                    &&& forall|i: int|
                        0 <= i < parts.len() ==> result_replaced_by(
                            f,
                            self.items()[i],
                            #[trigger] parts[i],
                        )
                    &&& #[trigger] self.joined(parts, r)
                },
    {
        self.flat_map(
            |a: Self::Param| -> (p: Target<Self, Self::Param>)
                requires
                    f.requires((a,))
                ensures
                    result_replaced_by(f, a, p)
                {
                    let fb = f(a);
                    let p = fb.map(
                        |b: B| -> (x: Self::Param)
                            ensures
                                x == a
                            { a },
                    );
                    proof {
                        assert(f.ensures((a,), fb) && replaced_by(a, fb, p));
                    }
                    p
                },
        )
    }
}

impl<FA: Higher, B> FlatMapOps<B> for FA {

}

} // verus!
