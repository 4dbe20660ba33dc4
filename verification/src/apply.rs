//! Apply: applying functions held in a container to values held in another.
use crate::functor::Functor;
use crate::higher::{Higher, Retarget, Target};
use crate::semigroupal::{pair_index, Semigroupal};
use core::marker::PhantomData;
use vstd::prelude::*;

verus! {

/// A functor whose functions can be applied to the values of another
/// container of the same constructor. It is an applicative without `pure`.
pub trait Apply<A, B>: Functor<B> + Retarget<A> {
    /// Whether the functions of `self` may be applied to the values of `fa`.
    spec fn ap_requires(self, fa: Target<Self, A>) -> bool where
        Self::Param: FnOnce(A) -> B,
    ;

    /// `r` is what applying the functions of `self` to the values of `fa`
    /// gives.
    spec fn ap_ensures(
        self,
        fa: Target<Self, A>,
        r: Target<Self, B>,
    ) -> bool where Self::Param: FnOnce(A) -> B;

    /// Applies the functions held in `self` to the values held in `fa`.
    fn ap(self, fa: Target<Self, A>) -> (r: Target<Self, B>) where
        Self::Param: FnMut(A) -> B,

        requires
            self.ap_requires(fa),
        ensures
            self.ap_ensures(fa, r),
    ;
}

impl<F, A, B> Apply<A, B> for PhantomData<F> {
    open spec fn ap_requires(self, fa: PhantomData<A>) -> bool where F: FnOnce(A) -> B {
        true
    }

    open spec fn ap_ensures(self, fa: PhantomData<A>, r: PhantomData<B>) -> bool where
        F: FnOnce(A) -> B,
     {
        true
    }

    fn ap(self, fa: PhantomData<A>) -> (r: PhantomData<B>) where F: FnMut(A) -> B {
        PhantomData
    }
}

impl<F, A, B> Apply<A, B> for Option<F> {
    open spec fn ap_requires(self, fa: Option<A>) -> bool where F: FnOnce(A) -> B {
        self is Some && fa is Some ==> self->0.requires((fa->0,))
    }

    /// The function is applied to the value if both are there.
    open spec fn ap_ensures(self, fa: Option<A>, r: Option<B>) -> bool where F: FnOnce(A) -> B {
        match (self, fa) {
            (Some(f), Some(a)) => r is Some && f.ensures((a,), r->0),
            _ => r is None,
        }
    }

    fn ap(self, fa: Option<A>) -> (r: Option<B>) where F: FnMut(A) -> B {
        match (self, fa) {
            (Some(mut f), Some(a)) => Some(f(a)),
            _ => None,
        }
    }
}

impl<F, A, B, E> Apply<A, B> for Result<F, E> {
    open spec fn ap_requires(self, fa: Result<A, E>) -> bool where F: FnOnce(A) -> B {
        self is Ok && fa is Ok ==> self->Ok_0.requires((fa->Ok_0,))
    }

    /// The function is applied to the value if both are there; else the
    /// error is the first one, from the left.
    open spec fn ap_ensures(self, fa: Result<A, E>, r: Result<B, E>) -> bool where
        F: FnOnce(A) -> B,
     {
        match (self, fa) {
            (Ok(f), Ok(a)) => r is Ok && f.ensures((a,), r->Ok_0),
            (Err(e), _) => r == Err::<B, E>(e),
            (_, Err(e)) => r == Err::<B, E>(e),
        }
    }

    fn ap(self, fa: Result<A, E>) -> (r: Result<B, E>) where F: FnMut(A) -> B {
        match (self, fa) {
            (Ok(mut f), Ok(a)) => Ok(f(a)),
            (Err(e), _) => Err(e),
            (_, Err(e)) => Err(e),
        }
    }
}

impl<F, A, B> Apply<A, B> for Box<F> {
    open spec fn ap_requires(self, fa: Box<A>) -> bool where F: FnOnce(A) -> B {
        (*self).requires((*fa,))
    }

    open spec fn ap_ensures(self, fa: Box<A>, r: Box<B>) -> bool where F: FnOnce(A) -> B {
        (*self).ensures((*fa,), *r)
    }

    fn ap(self, fa: Box<A>) -> (r: Box<B>) where F: FnMut(A) -> B {
        let mut f = *self;
        Box::new(f(*fa))
    }
}

/// `b` is what `f` may return for a clone of `a`.
pub open spec fn applied_to_clone<F: FnOnce(A) -> B, A: Clone, B>(f: F, a: A, b: B) -> bool {
    exists|c: A| cloned(a, c) && f.ensures((c,), b)
}

impl<F, A: Clone, B> Apply<A, B> for Vec<F> {
    /// Every function accepts every clone of every value.
    open spec fn ap_requires(self, fa: Vec<A>) -> bool where F: FnOnce(A) -> B {
        forall|i: int, j: int, a: A|
            0 <= i < self@.len() && 0 <= j < fa@.len() && #[trigger] cloned(fa@[j], a)
                ==> #[trigger] self@[i].requires((a,))
    }

    /// Every function is applied to a clone of every value, the functions
    /// varying slowest.
    open spec fn ap_ensures(self, fa: Vec<A>, r: Vec<B>) -> bool where F: FnOnce(A) -> B {
        &&& r@.len() == self@.len() * fa@.len()
        &&& forall|i: int, j: int|
            0 <= i < self@.len() && 0 <= j < fa@.len() ==> applied_to_clone(
                self@[i],
                fa@[j],
                #[trigger] r@[pair_index(i, fa@.len() as int, j)],
            )
    }

    fn ap(self, fa: Vec<A>) -> (r: Vec<B>) where F: FnMut(A) -> B {
        let m = fa.len();
        let ghost fs = self@;
        let mut out: Vec<B> = Vec::new();
        for f in it: self.into_iter()
            invariant
                it.seq() == fs,
                m == fa@.len(),
                out@.len() == it.index() * m,
                forall|i: int, j: int, a: A|
                    0 <= i < fs.len() && 0 <= j < m && #[trigger] cloned(fa@[j], a)
                        ==> #[trigger] fs[i].requires((a,)),
                forall|x: int, y: int|
                    0 <= x < it.index() && 0 <= y < m ==> applied_to_clone(
                        fs[x],
                        fa@[y],
                        #[trigger] out@[pair_index(x, m as int, y)],
                    ),
        {
            let mut f = f;
            let ghost f0 = f;
            let ghost i = it.index();
            let mut j: usize = 0;
            while j < m
                invariant
                    f == f0,
                    f0 == fs[i],
                    0 <= i < fs.len(),
                    m == fa@.len(),
                    0 <= j <= m,
                    out@.len() == i * m + j,
                    forall|i2: int, j2: int, a: A|
                        0 <= i2 < fs.len() && 0 <= j2 < m && #[trigger] cloned(fa@[j2], a)
                            ==> #[trigger] fs[i2].requires((a,)),
                    forall|x: int, y: int|
                        (0 <= x < i && 0 <= y < m) || (x == i && 0 <= y < j) ==> applied_to_clone(
                            fs[x],
                            fa@[y],
                            #[trigger] out@[pair_index(x, m as int, y)],
                        ),
                decreases m - j,
            {
                let a = fa[j].clone();
                proof {
                    assert(cloned(fa@[j as int], a));
                    assert(fs[i].requires((a,)));
                }
                let b = f(a);
                let ghost before = out@;
                out.push(b);
                proof {
                    assert forall|x: int, y: int|
                        (0 <= x < i && 0 <= y < m) || (x == i && 0 <= y < j + 1) implies applied_to_clone(
                        fs[x],
                        fa@[y],
                        #[trigger] out@[pair_index(x, m as int, y)],
                    ) by {
                        if x == i && y == j {
                            assert(cloned(fa@[y], a) && fs[x].ensures(
                                (a,),
                                out@[pair_index(x, m as int, y)],
                            ));
                        } else {
                            assert(x * m + y < i * m + j && 0 <= x * m + y) by (nonlinear_arith)
                                requires
                                    (0 <= x < i && 0 <= y < m) || (x == i && 0 <= y < j),
                                    0 <= j,
                                    0 <= i,
                            ;
                            assert(out@[pair_index(x, m as int, y)] == before[pair_index(
                                x,
                                m as int,
                                y,
                            )]);
                        }
                    }
                }
                j = j + 1;
            }
            proof {
                assert(i * m + m == (i + 1) * m) by (nonlinear_arith);
            }
        }
        out
    }
}

/// `r` is what applying every function of a pair of `p` to the value of
/// the pair may give.
pub open spec fn pairs_applied<P, F, A, B>(p: P, r: Target<P, B>) -> bool where
    P: Higher<Param = (F, A)> + Retarget<B>,
    F: FnOnce(A) -> B,
 {
    &&& r.shape() == p.shape()
    &&& r.items().len() == p.items().len()
    &&& forall|i: int|
        0 <= i < p.items().len() ==> p.items()[i].0.ensures(
            (p.items()[i].1,),
            #[trigger] r.items()[i],
        )
}

/// Whatever `f` returns for one argument is the same value.
pub open spec fn single_valued<F: FnOnce(A) -> B, A, B>(f: F) -> bool {
    forall|a: A, x: B, y: B| f.ensures((a,), x) && f.ensures((a,), y) ==> x == y
}

/// `ap` and `product` for `Option`: applying `ff` to `fa` gives what pairing
/// `ff` with `fa` and applying the function of every pair to its value
/// gives.
pub proof fn lemma_ap_product_consistent_option<F: FnOnce(A) -> B, A, B>(
    ff: Option<F>,
    fa: Option<A>,
    r1: Option<B>,
    p: Option<(F, A)>,
    r2: Option<B>,
)
    requires
        ff.ap_ensures(fa, r1),
        ff.product_ensures(fa, p),
        pairs_applied(p, r2),
        forall|i: int| 0 <= i < ff.items().len() ==> single_valued(#[trigger] ff.items()[i]),
    ensures
        r1 == r2,
{
    if p.items().len() > 0 {
        assert(ff.items()[0] == p.items()[0].0);
        assert(single_valued(ff.items()[0]));
        assert(p.items()[0].0.ensures((p.items()[0].1,), r2.items()[0]));
    }
}

/// `ap` and `product` for `Result`: applying `ff` to `fa` gives what pairing
/// `ff` with `fa` and applying the function of every pair to its value
/// gives.
pub proof fn lemma_ap_product_consistent_result<F: FnOnce(A) -> B, A, B, E>(
    ff: Result<F, E>,
    fa: Result<A, E>,
    r1: Result<B, E>,
    p: Result<(F, A), E>,
    r2: Result<B, E>,
)
    requires
        ff.ap_ensures(fa, r1),
        ff.product_ensures(fa, p),
        pairs_applied(p, r2),
        forall|i: int| 0 <= i < ff.items().len() ==> single_valued(#[trigger] ff.items()[i]),
    ensures
        r1 == r2,
{
    if p.items().len() > 0 {
        assert(ff.items()[0] == p.items()[0].0);
        assert(single_valued(ff.items()[0]));
        assert(p.items()[0].0.ensures((p.items()[0].1,), r2.items()[0]));
    }
}

/// `ap` and `product` for `Box`: applying `ff` to `fa` gives what pairing
/// `ff` with `fa` and applying the function of every pair to its value
/// gives.
pub proof fn lemma_ap_product_consistent_box<F: FnOnce(A) -> B, A, B>(
    ff: Box<F>,
    fa: Box<A>,
    r1: Box<B>,
    p: Box<(F, A)>,
    r2: Box<B>,
)
    requires
        ff.ap_ensures(fa, r1),
        ff.product_ensures(fa, p),
        pairs_applied(p, r2),
        forall|i: int| 0 <= i < ff.items().len() ==> single_valued(#[trigger] ff.items()[i]),
    ensures
        r1 == r2,
{
    if p.items().len() > 0 {
        assert(ff.items()[0] == p.items()[0].0);
        assert(single_valued(ff.items()[0]));
        assert(p.items()[0].0.ensures((p.items()[0].1,), r2.items()[0]));
    }
}

} // verus!
