//! Semigroupals: containers of which two can be combined into one that holds
//! pairs, keeping the effects of both.
use crate::higher::{Higher, Retarget, Target};
use core::marker::PhantomData;
use vstd::prelude::*;

verus! {

/// Combining two independent containers into a container of pairs.
///
/// The operation is associative once the pairs `((a, b), c)` are read as
/// `(a, (b, c))`.
pub trait Semigroupal<B>: Retarget<B> + Retarget<(<Self as Higher>::Param, B)> {
    /// Whether `self` and `fb` can be combined.
    spec fn product_requires(self, fb: Target<Self, B>) -> bool;

    /// `r` is what combining `self` and `fb` gives.
    spec fn product_ensures(
        self,
        fb: Target<Self, B>,
        r: Target<Self, (Self::Param, B)>,
    ) -> bool;

    /// Combines two containers into a container of pairs.
    fn product(self, fb: Target<Self, B>) -> (r: Target<Self, (Self::Param, B)>)
        requires
            self.product_requires(fb),
        ensures
            self.product_ensures(fb, r),
    ;
}

impl<A, B> Semigroupal<B> for PhantomData<A> {
    open spec fn product_requires(self, fb: PhantomData<B>) -> bool {
        true
    }

    open spec fn product_ensures(self, fb: PhantomData<B>, r: PhantomData<(A, B)>) -> bool {
        true
    }

    fn product(self, fb: PhantomData<B>) -> (r: PhantomData<(A, B)>) {
        PhantomData
    }
}

impl<A, B> Semigroupal<B> for Option<A> {
    open spec fn product_requires(self, fb: Option<B>) -> bool {
        true
    }

    /// The pair is there if both values are.
    open spec fn product_ensures(self, fb: Option<B>, r: Option<(A, B)>) -> bool {
        r == match (self, fb) {
            (Some(a), Some(b)) => Some((a, b)),
            _ => None,
        }
    }

    fn product(self, fb: Option<B>) -> (r: Option<(A, B)>) {
        match (self, fb) {
            (Some(a), Some(b)) => Some((a, b)),
            _ => None,
        }
    }
}

impl<A, B, E> Semigroupal<B> for Result<A, E> {
    open spec fn product_requires(self, fb: Result<B, E>) -> bool {
        true
    }

    /// The pair is there if both values are; else the error is the first
    /// one, from the left.
    open spec fn product_ensures(self, fb: Result<B, E>, r: Result<(A, B), E>) -> bool {
        r == match (self, fb) {
            (Ok(a), Ok(b)) => Ok::<(A, B), E>((a, b)),
            (Err(e), _) => Err(e),
            (_, Err(e)) => Err(e),
        }
    }

    fn product(self, fb: Result<B, E>) -> (r: Result<(A, B), E>) {
        match (self, fb) {
            (Ok(a), Ok(b)) => Ok((a, b)),
            (Err(e), _) => Err(e),
            (_, Err(e)) => Err(e),
        }
    }
}

impl<A, B> Semigroupal<B> for Box<A> {
    open spec fn product_requires(self, fb: Box<B>) -> bool {
        true
    }

    open spec fn product_ensures(self, fb: Box<B>, r: Box<(A, B)>) -> bool {
        *r == (*self, *fb)
    }

    fn product(self, fb: Box<B>) -> (r: Box<(A, B)>) {
        Box::new((*self, *fb))
    }
}

/// The place of the pair of item `i` of the left and item `j` of the right
/// in a cross product whose right side has `m` items.
pub open spec fn pair_index(i: int, m: int, j: int) -> int {
    i * m + j
}

/// `ps` is the cross product of `xs` and `ys`, the left side varying
/// slowest, up to `Clone`: the pair at the place of `(i, j)` holds a clone of
/// `xs[i]` and a clone of `ys[j]`.
pub open spec fn is_cross<A: Clone, B: Clone>(xs: Seq<A>, ys: Seq<B>, ps: Seq<(A, B)>) -> bool {
    &&& ps.len() == xs.len() * ys.len()
    &&& forall|i: int, j: int|
        0 <= i < xs.len() && 0 <= j < ys.len() ==> cloned(
            xs[i],
            (#[trigger] ps[pair_index(i, ys.len() as int, j)]).0,
        ) && cloned(ys[j], ps[pair_index(i, ys.len() as int, j)].1)
}

/// A place below `n * m` is the place of one pair `(i, j)`.
pub proof fn lemma_pair_index_bounds(i: int, n: int, m: int, j: int)
    requires
        0 <= i < n,
        0 <= j < m,
    ensures
        0 <= pair_index(i, m, j) < n * m,
        pair_index(i, m, j) / m == i,
        pair_index(i, m, j) % m == j,
{
    assert(i * m + m == (i + 1) * m) by (nonlinear_arith);
    assert((i + 1) * m <= n * m) by (nonlinear_arith)
        requires
            i + 1 <= n,
            m > 0,
    ;
    assert(0 <= i * m) by (nonlinear_arith)
        requires
            0 <= i,
            0 < m,
    ;
    vstd::arithmetic::div_mod::lemma_fundamental_div_mod_converse(i * m + j, m, i, j);
}

impl<A: Clone, B: Clone> Semigroupal<B> for Vec<A> {
    open spec fn product_requires(self, fb: Vec<B>) -> bool {
        true
    }

    /// The cross product, the left side varying slowest.
    open spec fn product_ensures(self, fb: Vec<B>, r: Vec<(A, B)>) -> bool {
        is_cross(self@, fb@, r@)
    }

    fn product(self, fb: Vec<B>) -> (r: Vec<(A, B)>) {
        let n = self.len();
        let m = fb.len();
        let mut out: Vec<(A, B)> = Vec::new();
        let mut i: usize = 0;
        while i < n
            invariant
                n == self@.len(),
                m == fb@.len(),
                0 <= i <= n,
                out@.len() == i * m,
                forall|x: int, y: int|
                    0 <= x < i && 0 <= y < m ==> cloned(
                        self@[x],
                        (#[trigger] out@[pair_index(x, m as int, y)]).0,
                    ) && cloned(fb@[y], out@[pair_index(x, m as int, y)].1),
            decreases n - i,
        {
            let mut j: usize = 0;
            while j < m
                invariant
                    n == self@.len(),
                    m == fb@.len(),
                    0 <= i < n,
                    0 <= j <= m,
                    out@.len() == i * m + j,
                    forall|x: int, y: int|
                        (0 <= x < i && 0 <= y < m) || (x == i && 0 <= y < j) ==> cloned(
                            self@[x],
                            (#[trigger] out@[pair_index(x, m as int, y)]).0,
                        ) && cloned(fb@[y], out@[pair_index(x, m as int, y)].1),
                decreases m - j,
            {
                let a = self[i].clone();
                let b = fb[j].clone();
                let ghost before = out@;
                out.push((a, b));
                proof {
                    assert forall|x: int, y: int|
                        (0 <= x < i && 0 <= y < m) || (x == i && 0 <= y < j + 1) implies cloned(
                        self@[x],
                        (#[trigger] out@[pair_index(x, m as int, y)]).0,
                    ) && cloned(fb@[y], out@[pair_index(x, m as int, y)].1) by {
                        if x == i && y == j {
                        } else {
                            lemma_pair_index_bounds(x, i + 1, m as int, y);
                            assert(x * m + y < i * m + j) by (nonlinear_arith)
                                requires
                                    (0 <= x < i && 0 <= y < m) || (x == i && 0 <= y < j),
                                    0 <= j,
                            ;
                            assert(out@[pair_index(x, m as int, y)] == before[pair_index(
                                x,
                                m as int,
                                y,
                            )]);
                        }
                    }
                }
                j = j + 1;
            }
            proof {
                assert(i * m + m == (i + 1) * m) by (nonlinear_arith);
            }
            i = i + 1;
        }
        out
    }
}

/// `right` is `left` with every item `((a, b), c)` read as `(a, (b, c))`:
/// same shape, and the items regrouped place by place.
pub open spec fn reassociated<L, R, A, B, C>(left: L, right: R) -> bool where
    L: Higher<Param = ((A, B), C)>,
    R: Higher<Param = (A, (B, C)), Shape = L::Shape>,
 {
    &&& right.shape() == left.shape()
    &&& right.items().len() == left.items().len()
    &&& forall|i: int|
        0 <= i < left.items().len() ==> #[trigger] right.items()[i] == (
            left.items()[i].0.0,
            (left.items()[i].0.1, left.items()[i].1),
        )
}

/// Every clone of a value of `T` is equal to the value.
pub open spec fn clone_is_exact<T: Clone>() -> bool {
    forall|a: T, b: T| #[trigger] cloned(a, b) ==> a == b
}

/// Associativity for `Option`: pairing from the left and pairing from the
/// right give the same, once the pairs are regrouped.
pub proof fn lemma_product_associative_option<A, B, C>(
    fa: Option<A>,
    fb: Option<B>,
    fc: Option<C>,
    ab: Option<(A, B)>,
    left: Option<((A, B), C)>,
    bc: Option<(B, C)>,
    right: Option<(A, (B, C))>,
)
    requires
        fa.product_ensures(fb, ab),
        ab.product_ensures(fc, left),
        fb.product_ensures(fc, bc),
        fa.product_ensures(bc, right),
    ensures
        reassociated::<_, _, A, B, C>(left, right),
{
    if left is Some {
        assert(right.items()[0] == (left.items()[0].0.0, (left.items()[0].0.1, left.items()[0].1)));
    }
}

/// Associativity for `Result`: pairing from the left and pairing from the
/// right give the same, once the pairs are regrouped.
pub proof fn lemma_product_associative_result<A, B, C, E>(
    fa: Result<A, E>,
    fb: Result<B, E>,
    fc: Result<C, E>,
    ab: Result<(A, B), E>,
    left: Result<((A, B), C), E>,
    bc: Result<(B, C), E>,
    right: Result<(A, (B, C)), E>,
)
    requires
        fa.product_ensures(fb, ab),
        ab.product_ensures(fc, left),
        fb.product_ensures(fc, bc),
        fa.product_ensures(bc, right),
    ensures
        reassociated::<_, _, A, B, C>(left, right),
{
    if left is Ok {
        assert(right.items()[0] == (left.items()[0].0.0, (left.items()[0].0.1, left.items()[0].1)));
    }
}

/// Associativity for `Box`: pairing from the left and pairing from the right
/// give the same, once the pairs are regrouped.
pub proof fn lemma_product_associative_box<A, B, C>(
    fa: Box<A>,
    fb: Box<B>,
    fc: Box<C>,
    ab: Box<(A, B)>,
    left: Box<((A, B), C)>,
    bc: Box<(B, C)>,
    right: Box<(A, (B, C))>,
)
    requires
        fa.product_ensures(fb, ab),
        ab.product_ensures(fc, left),
        fb.product_ensures(fc, bc),
        fa.product_ensures(bc, right),
    ensures
        reassociated::<_, _, A, B, C>(left, right),
{
    assert(right.items()[0] == (left.items()[0].0.0, (left.items()[0].0.1, left.items()[0].1)));
    assert(right.shape() == left.shape());
}

/// Associativity for `PhantomData`: pairing from the left and pairing from
/// the right give the same, once the pairs are regrouped.
pub proof fn lemma_product_associative_phantom<A, B, C>(
    fa: PhantomData<A>,
    fb: PhantomData<B>,
    fc: PhantomData<C>,
    ab: PhantomData<(A, B)>,
    left: PhantomData<((A, B), C)>,
    bc: PhantomData<(B, C)>,
    right: PhantomData<(A, (B, C))>,
)
    requires
        fa.product_ensures(fb, ab),
        ab.product_ensures(fc, left),
        fb.product_ensures(fc, bc),
        fa.product_ensures(bc, right),
    ensures
        reassociated::<_, _, A, B, C>(left, right),
{
    assert(right.shape() == left.shape());
}

/// Associativity of the cross product of sequences, where clones are exact:
/// the cross product from the left and the one from the right hold the same
/// values at the same places, once the pairs are regrouped.
pub proof fn lemma_cross_associative<A: Clone, B: Clone, C: Clone>(
    xs: Seq<A>,
    ys: Seq<B>,
    zs: Seq<C>,
    xy: Seq<(A, B)>,
    left: Seq<((A, B), C)>,
    yz: Seq<(B, C)>,
    right: Seq<(A, (B, C))>,
)
    requires
        clone_is_exact::<A>(),
        clone_is_exact::<B>(),
        clone_is_exact::<C>(),
        clone_is_exact::<(A, B)>(),
        clone_is_exact::<(B, C)>(),
        is_cross(xs, ys, xy),
        is_cross(xy, zs, left),
        is_cross(ys, zs, yz),
        is_cross(xs, yz, right),
    ensures
        right.len() == left.len(),
        forall|i: int|
            0 <= i < left.len() ==> #[trigger] right[i] == (left[i].0.0, (left[i].0.1, left[i].1)),
{
    let n = xs.len() as int;
    let m = ys.len() as int;
    let k = zs.len() as int;
    assert((n * m) * k == n * (m * k)) by (nonlinear_arith);
    assert forall|i: int| 0 <= i < left.len() implies #[trigger] right[i] == (
        left[i].0.0,
        (left[i].0.1, left[i].1),
    ) by {
        // the place i is that of one triple (x, y, z)
        assert(k > 0 && m > 0 && n > 0) by (nonlinear_arith)
            requires
                0 <= i < (n * m) * k,
                n >= 0,
                m >= 0,
                k >= 0,
        ;
        let z = i % k;
        let xy_i = i / k;
        vstd::arithmetic::div_mod::lemma_fundamental_div_mod(i, k);
        assert(0 <= xy_i < n * m) by (nonlinear_arith)
            requires
                0 <= i < (n * m) * k,
                i == k * xy_i + z,
                0 <= z < k,
        ;
        let y = xy_i % m;
        let x = xy_i / m;
        vstd::arithmetic::div_mod::lemma_fundamental_div_mod(xy_i, m);
        assert(0 <= x < n) by (nonlinear_arith)
            requires
                0 <= xy_i < n * m,
                xy_i == m * x + y,
                0 <= y < m,
        ;
        assert(pair_index(x, m, y) == xy_i) by (nonlinear_arith)
            requires
                xy_i == m * x + y,
        ;
        assert(pair_index(xy_i, k, z) == i) by (nonlinear_arith)
            requires
                i == k * xy_i + z,
        ;
        lemma_pair_index_bounds(y, m, k, z);
        assert(pair_index(x, m * k, pair_index(y, k, z)) == i) by (nonlinear_arith)
            requires
                i == k * xy_i + z,
                xy_i == m * x + y,
        ;
        // left side
        assert(cloned(xs[x], xy[pair_index(x, m, y)].0));
        assert(cloned(ys[y], xy[pair_index(x, m, y)].1));
        assert(cloned(xy[xy_i], left[pair_index(xy_i, k, z)].0));
        assert(cloned(zs[z], left[pair_index(xy_i, k, z)].1));
        // right side
        assert(cloned(ys[y], yz[pair_index(y, k, z)].0));
        assert(cloned(zs[z], yz[pair_index(y, k, z)].1));
        assert(cloned(xs[x], right[pair_index(x, yz.len() as int, pair_index(y, k, z))].0));
        assert(cloned(
            yz[pair_index(y, k, z)],
            right[pair_index(x, yz.len() as int, pair_index(y, k, z))].1,
        ));
    }
}

/// Associativity for `Vec`, where clones are exact: pairing from the left
/// and pairing from the right give the same, once the pairs are regrouped.
pub proof fn lemma_product_associative_vec<A: Clone, B: Clone, C: Clone>(
    fa: Vec<A>,
    fb: Vec<B>,
    fc: Vec<C>,
    ab: Vec<(A, B)>,
    left: Vec<((A, B), C)>,
    bc: Vec<(B, C)>,
    right: Vec<(A, (B, C))>,
)
    requires
        clone_is_exact::<A>(),
        clone_is_exact::<B>(),
        clone_is_exact::<C>(),
        clone_is_exact::<(A, B)>(),
        clone_is_exact::<(B, C)>(),
        fa.product_ensures(fb, ab),
        ab.product_ensures(fc, left),
        fb.product_ensures(fc, bc),
        fa.product_ensures(bc, right),
    ensures
        reassociated::<_, _, A, B, C>(left, right),
{
    lemma_cross_associative(fa@, fb@, fc@, ab@, left@, bc@, right@);
}

} // verus!
