//! A vector that is never empty.
//!
//! The first element is the head and the others are the tail. The tail may
//! be empty, so the length is at least one.
use crate::and_then::AndThen;
use crate::apply::{applied_to_clone, Apply};
use crate::flatmap::FlatMap;
use crate::functor::Functor;
use crate::higher::{Higher, Retarget};
use crate::invariant_functor::Invariant;
use crate::pure::Pure;
use crate::semigroup::Semigroup;
use crate::semigroupal::{
    clone_is_exact, is_cross, lemma_cross_associative, pair_index, reassociated, Semigroupal,
};
use vstd::prelude::*;

verus! {

/// A non-empty vector: `head`, then the elements of `tail`.
#[derive(Debug, PartialEq, Eq, Hash, PartialOrd, Ord)]
pub struct NEVec<T> {
    /// The first element. It is always there.
    pub head: T,
    /// The other elements. There may be none.
    pub tail: Vec<T>,
}

impl<T> View for NEVec<T> {
    type V = Seq<T>;

    /// The elements: the head, then the tail.
    open spec fn view(&self) -> Seq<T> {
        seq![self.head] + self.tail@
    }
}

impl<T: Clone> Clone for NEVec<T> {
    /// A vector of clones of the elements.
    fn clone(&self) -> (r: Self)
        ensures
            r@.len() == self@.len(),
            forall|i: int| 0 <= i < self@.len() ==> cloned(self@[i], #[trigger] r@[i]),
    {
        let r = NEVec { head: self.head.clone(), tail: self.tail.clone() };
        assert forall|i: int| 0 <= i < self@.len() implies cloned(self@[i], #[trigger] r@[i]) by {
            if i > 0 {
                assert(self@[i] == self.tail@[i - 1]);
                assert(r@[i] == r.tail@[i - 1]);
            }
        }
        r
    }
}

impl<T> NEVec<T> {
    /// A vector with one element.
    pub fn new(head: T) -> (r: Self)
        ensures
            r.head == head,
            r.tail@ == Seq::<T>::empty(),
            r@ == seq![head],
    {
        let r = Self { head, tail: Vec::new() };
        assert(r@ =~= seq![head]);
        r
    }

    /// A vector with one element, whose tail can take `tail_capacity`
    /// elements before it allocates again.
    pub fn with_tail_capacity(head: T, tail_capacity: usize) -> (r: Self)
        ensures
            r.head == head,
            r.tail@ == Seq::<T>::empty(),
            r@ == seq![head],
    {
        let r = Self { head, tail: Vec::with_capacity(tail_capacity) };
        assert(r@ =~= seq![head]);
        r
    }

    /// A vector of `n` clones of `elem`. A vector cannot be empty: `n` is
    /// at least one.
    pub fn from_elem(elem: T, n: usize) -> (r: Self) where T: Clone
        requires
            n > 0,
        ensures
            r@.len() == n,
            forall|i: int| 0 <= i < n ==> cloned(elem, #[trigger] r@[i]),
    {
        let head = elem.clone();
        let tail = vec![elem; n - 1];
        let r = Self { head, tail };
        assert forall|i: int| 0 <= i < n implies cloned(elem, #[trigger] r@[i]) by {
            if i > 0 {
                assert(r@[i] == r.tail@[i - 1]);
            }
        }
        r
    }

    /// The elements of `vec` as a non-empty vector, or `None` if there is
    /// none.
    pub fn from_vec(vec: Vec<T>) -> (r: Option<Self>)
        ensures
            vec@.len() == 0 <==> r is None,
            r matches Some(v) ==> v@ == vec@,
    {
        let mut vec = vec;
        if vec.len() == 0 {
            None
        } else {
            let ghost all = vec@;
            let head = vec.remove(0);
            let r = Self { head, tail: vec };
            assert(r@ =~= all);
            Some(r)
        }
    }

    /// Clones of the elements of `slice` as a non-empty vector, or `None`
    /// if there is none.
    pub fn from_slice(slice: &[T]) -> (r: Option<Self>) where T: Clone
        ensures
            slice@.len() == 0 <==> r is None,
            r matches Some(v) ==> v@.len() == slice@.len() && forall|i: int|
                0 <= i < slice@.len() ==> cloned(slice@[i], #[trigger] v@[i]),
    {
        let n = slice.len();
        if n == 0 {
            return None;
        }
        let head = slice[0].clone();
        let mut tail: Vec<T> = Vec::new();
        let mut i: usize = 1;
        while i < n
            invariant
                n == slice@.len(),
                1 <= i <= n,
                tail@.len() == i - 1,
                forall|k: int| 1 <= k < i ==> cloned(slice@[k], #[trigger] tail@[k - 1]),
            decreases n - i,
        {
            tail.push(slice[i].clone());
            i = i + 1;
        }
        let r = Self { head, tail };
        assert forall|k: int| 0 <= k < slice@.len() implies cloned(slice@[k], #[trigger] r@[k]) by {
            if k > 0 {
                assert(r@[k] == r.tail@[k - 1]);
            }
        }
        Some(r)
    }

    /// Takes the element at `index` out and puts the last element in its
    /// place. The order is not kept. The vector must keep an element, so it
    /// holds two or more, and `index` is one of its places.
    pub fn swap_remove(&mut self, index: usize) -> (r: T)
        requires
            index < old(self)@.len(),
            old(self)@.len() >= 2,
        ensures
            r == old(self)@[index as int],
            final(self)@ == old(self)@.update(index as int, old(self)@.last()).drop_last(),
    {
        let ghost before = self@;
        if index == 0 {
            let mut last = self.tail.pop().unwrap();
            core::mem::swap(&mut self.head, &mut last);
            assert(self@ =~= before.update(0, before.last()).drop_last());
            last
        } else {
            assert(before[index as int] == self.tail@[index - 1]);
            let r = self.tail.swap_remove(index - 1);
            assert(self@ =~= before.update(index as int, before.last()).drop_last());
            r
        }
    }

    /// Puts `element` at `index`, moving what follows one place to the
    /// right. `index` is at most the length.
    pub fn insert(&mut self, index: usize, element: T)
        requires
            index <= old(self)@.len(),
        ensures
            final(self)@ == old(self)@.insert(index as int, element),
    {
        let ghost before = self@;
        if index == 0 {
            let mut moved = element;
            core::mem::swap(&mut self.head, &mut moved);
            self.tail.insert(0, moved);
        } else {
            self.tail.insert(index - 1, element);
        }
        assert(self@ =~= before.insert(index as int, element));
    }

    /// Takes the element at `index` out, moving what follows one place to
    /// the left. The vector must keep an element, so it holds two or more,
    /// and `index` is one of its places.
    pub fn remove(&mut self, index: usize) -> (r: T)
        requires
            index < old(self)@.len(),
            old(self)@.len() >= 2,
        ensures
            r == old(self)@[index as int],
            final(self)@ == old(self)@.remove(index as int),
    {
        let ghost before = self@;
        if index == 0 {
            let mut next = self.tail.remove(0);
            core::mem::swap(&mut self.head, &mut next);
            assert(self@ =~= before.remove(0));
            next
        } else {
            assert(before[index as int] == self.tail@[index - 1]);
            let r = self.tail.remove(index - 1);
            assert(self@ =~= before.remove(index as int));
            r
        }
    }

    /// The number of elements, the head included. It is at least one.
    pub fn len(&self) -> (n: usize)
        requires
            self.tail@.len() < usize::MAX,
        ensures
            n == self@.len(),
            n >= 1,
    {
        self.tail.len() + 1
    }

    /// The first element: the head.
    pub fn first(&self) -> (r: &T)
        ensures
            *r == self@[0],
    {
        &self.head
    }

    /// The first element, for writing.
    pub fn first_mut(&mut self) -> (r: &mut T)
        ensures
            *r == old(self)@[0],
            final(self)@ == old(self)@.update(0, *final(r)),
    {
        let ghost before = self@;
        let ghost t = self.tail@;
        let r = &mut self.head;
        proof {
            assert((seq![*final(r)] + t) =~= before.update(0, *final(r)));
        }
        r
    }

    /// The last element: the last of the tail, or the head if the tail is
    /// empty.
    pub fn last(&self) -> (r: &T)
        ensures
            *r == self@.last(),
    {
        let n = self.tail.len();
        if n == 0 {
            &self.head
        } else {
            &self.tail[n - 1]
        }
    }

    /// The element at `index`, or `None` if there is none. The head is at
    /// index 0.
    pub fn get(&self, index: usize) -> (r: Option<&T>)
        ensures
            index < self@.len() ==> r == Some(&self@[index as int]),
            index >= self@.len() ==> r is None,
    {
        if index == 0 {
            Some(&self.head)
        } else if index - 1 < self.tail.len() {
            assert(self@[index as int] == self.tail@[index - 1]);
            Some(&self.tail[index - 1])
        } else {
            None
        }
    }

    /// References to the elements, in order.
    pub fn iter(&self) -> (r: Vec<&T>)
        ensures
            r@.len() == self@.len(),
            forall|i: int| 0 <= i < r@.len() ==> *#[trigger] r@[i] == self@[i],
    {
        let mut out: Vec<&T> = Vec::new();
        out.push(&self.head);
        let n = self.tail.len();
        let mut i: usize = 0;
        while i < n
            invariant
                n == self.tail@.len(),
                0 <= i <= n,
                out@.len() == i + 1,
                forall|k: int| 0 <= k < out@.len() ==> *#[trigger] out@[k] == self@[k],
            decreases n - i,
        {
            out.push(&self.tail[i]);
            i = i + 1;
        }
        out
    }

    /// Clones of the elements, as a `Vec`.
    pub fn to_vec(&self) -> (r: Vec<T>) where T: Clone
        ensures
            r@.len() == self@.len(),
            forall|i: int| 0 <= i < r@.len() ==> cloned(self@[i], #[trigger] r@[i]),
    {
        let mut vec = Vec::new();
        vec.push(self.head.clone());
        vec.extend_from_slice(self.tail.as_slice());
        assert forall|i: int| 0 <= i < vec@.len() implies cloned(self@[i], #[trigger] vec@[i]) by {
            if i > 0 {
                assert(self@[i] == self.tail@[i - 1]);
            }
        }
        vec
    }

    /// The elements, as a `Vec`.
    pub fn into_vec(self) -> (r: Vec<T>)
        ensures
            r@ == self@,
    {
        let mut vec = Vec::new();
        let mut tail = self.tail;
        vec.push(self.head);
        vec.append(&mut tail);
        assert(vec@ =~= self@);
        vec
    }

    /// The last element, for writing.
    pub fn last_mut(&mut self) -> (r: &mut T)
        ensures
            *r == old(self)@.last(),
            final(self)@ == old(self)@.update(old(self)@.len() - 1, *final(r)),
    {
        let ghost before = self@;
        let n = self.tail.len();
        if n == 0 {
            let r = &mut self.head;
            proof {
                assert((seq![*final(r)] + Seq::<T>::empty()) =~= before.update(0, *final(r)));
            }
            r
        } else {
            let ghost h = self.head;
            let ghost t = self.tail@;
            let r = &mut self.tail[n - 1];
            proof {
                assert((seq![h] + t.update(n - 1, *final(r))) =~= before.update(
                    before.len() - 1,
                    *final(r),
                ));
            }
            r
        }
    }

    /// The element at `index`, for writing, or `None` if there is none.
    pub fn get_mut(&mut self, index: usize) -> (r: Option<&mut T>)
        ensures
            index >= old(self)@.len() ==> r is None && *final(self) == *old(self),
            index < old(self)@.len() ==> (r matches Some(x) && *x == old(self)@[index as int]
                && final(self)@ == old(self)@.update(index as int, *final(x))),
    {
        let ghost before = self@;
        if index == 0 {
            let ghost t = self.tail@;
            let r = &mut self.head;
            proof {
                assert((seq![*final(r)] + t) =~= before.update(0, *final(r)));
            }
            Some(r)
        } else if index - 1 < self.tail.len() {
            let ghost h = self.head;
            let ghost t = self.tail@;
            let r = &mut self.tail[index - 1];
            proof {
                assert((seq![h] + t.update(index - 1, *final(r))) =~= before.update(
                    index as int,
                    *final(r),
                ));
            }
            Some(r)
        } else {
            None
        }
    }
}

impl<T> core::ops::Index<usize> for NEVec<T> {
    type Output = T;

    /// The element at `index`, which must be one of the places of the
    /// vector. The head is at index 0.
    fn index(&self, index: usize) -> (r: &T)
        ensures
            *r == self@[index as int],
    {
        if index == 0 {
            &self.head
        } else {
            assert(self@[index as int] == self.tail@[index - 1]);
            &self.tail[index - 1]
        }
    }
}

impl<T> vstd::std_specs::core::IndexSpecImpl<usize> for NEVec<T> {
    open spec fn index_req(&self, index: &usize) -> bool {
        *index < self@.len()
    }
}

impl<T: Default> Default for NEVec<T> {
    /// One element: the default of its type.
    fn default() -> (r: Self)
        ensures
            r@.len() == 1,
            T::default.ensures((), r.head),
    {
        Self::new(T::default())
    }
}

impl<T> From<(T, Vec<T>)> for NEVec<T> {
    fn from(parts: (T, Vec<T>)) -> (r: Self) {
        Self { head: parts.0, tail: parts.1 }
    }
}

impl<T> vstd::std_specs::convert::FromSpecImpl<(T, Vec<T>)> for NEVec<T> {
    open spec fn obeys_from_spec() -> bool {
        true
    }

    open spec fn from_spec(parts: (T, Vec<T>)) -> Self {
        NEVec { head: parts.0, tail: parts.1 }
    }
}

impl<T> From<NEVec<T>> for (T, Vec<T>) {
    fn from(nevec: NEVec<T>) -> (r: Self) {
        (nevec.head, nevec.tail)
    }
}

impl<T> vstd::std_specs::convert::FromSpecImpl<NEVec<T>> for (T, Vec<T>) {
    open spec fn obeys_from_spec() -> bool {
        true
    }

    open spec fn from_spec(nevec: NEVec<T>) -> Self {
        (nevec.head, nevec.tail)
    }
}

impl<A> Higher for NEVec<A> {
    type Param = A;

    type Shape = nat;

    /// The length.
    open spec fn shape(self) -> nat {
        self@.len()
    }

    open spec fn items(self) -> Seq<A> {
        self@
    }
}

impl<A, T> Retarget<T> for NEVec<A> {
    type Target = NEVec<T>;
}

impl<A, B> Invariant<B> for NEVec<A> {
    fn imap<F, G>(self, f: F, g: G) -> (r: NEVec<B>) where
        F: FnMut(A) -> B,
        G: FnMut(B) -> A,
     {
        self.map(f)
    }
}

impl<A, B> Functor<B> for NEVec<A> {
    fn map<F: FnMut(A) -> B>(self, mut f: F) -> (r: NEVec<B>) {
        let ghost src = self@;
        let ghost f0 = f;
        proof {
            assert(self.items()[0] == self.head);
            assert forall|i: int| 0 <= i < self.tail.items().len() implies f.requires(
                (#[trigger] self.tail.items()[i],),
            ) by {
                assert(self.tail.items()[i] == self.items()[i + 1]);
            }
        }
        let head = f(self.head);
        let tail = self.tail.map(f);
        let r = NEVec { head, tail };
        proof {
            assert forall|i: int| 0 <= i < src.len() implies f0.ensures(
                (src[i],),
                #[trigger] r.items()[i],
            ) by {
                if i > 0 {
                    assert(r.items()[i] == tail.items()[i - 1]);
                    assert(src[i] == self.tail.items()[i - 1]);
                }
            }
        }
        r
    }
}

impl<T> From<NEVec<T>> for Vec<T> {
    /// The elements, as a `Vec`.
    fn from(nevec: NEVec<T>) -> (r: Self)
        ensures
            r@ == nevec@,
    {
        nevec.into_vec()
    }
}

impl<T> vstd::std_specs::convert::FromSpecImpl<NEVec<T>> for Vec<T> {
    /// A `Vec` is known by its view alone, which `from` states.
    open spec fn obeys_from_spec() -> bool {
        false
    }

    open spec fn from_spec(nevec: NEVec<T>) -> Self {
        arbitrary()
    }
}

impl<T> TryFrom<Vec<T>> for NEVec<T> {
    type Error = Vec<T>;

    /// The elements of `vec` as a non-empty vector, or `vec` itself as the
    /// error if it is empty.
    fn try_from(vec: Vec<T>) -> (r: Result<Self, Vec<T>>)
        ensures
            vec@.len() == 0 ==> r == Err::<Self, Vec<T>>(vec),
            vec@.len() > 0 ==> r is Ok && r->Ok_0@ == vec@,
    {
        let mut vec = vec;
        if vec.len() == 0 {
            Err(vec)
        } else {
            let ghost all = vec@;
            let head = vec.remove(0);
            let r = Self { head, tail: vec };
            assert(r@ =~= all);
            Ok(r)
        }
    }
}

impl<T> vstd::std_specs::convert::TryFromSpecImpl<Vec<T>> for NEVec<T> {
    /// A `Vec` is known by its view alone, which `try_from` states.
    open spec fn obeys_try_from_spec() -> bool {
        false
    }

    open spec fn try_from_spec(vec: Vec<T>) -> Result<Self, Vec<T>> {
        arbitrary()
    }
}

impl<A> Pure for NEVec<A> {
    open spec fn pure_shape() -> nat {
        1
    }

    fn pure(x: A) -> (r: NEVec<A>) {
        NEVec::new(x)
    }
}

impl<T> Semigroup for NEVec<T> {
    type Model = Seq<T>;

    open spec fn model(self) -> Seq<T> {
        self@
    }

    /// One vector after the other.
    open spec fn combine_model(a: Seq<T>, b: Seq<T>) -> Seq<T> {
        a + b
    }

    open spec fn combinable(a: Seq<T>, b: Seq<T>) -> bool {
        true
    }

    fn combine(self, other: Self) -> (r: Self) {
        let mut tail = self.tail;
        let mut rest = other.tail;
        tail.push(other.head);
        tail.append(&mut rest);
        let r = NEVec { head: self.head, tail };
        assert(r@ =~= self@ + other@);
        r
    }

    proof fn lemma_associative(a: Seq<T>, b: Seq<T>, c: Seq<T>) {
        assert((a + b) + c =~= a + (b + c));
    }
}

impl<A: Clone, B: Clone> Semigroupal<B> for NEVec<A> {
    open spec fn product_requires(self, fb: NEVec<B>) -> bool {
        true
    }

    /// The cross product, the left side varying slowest.
    open spec fn product_ensures(self, fb: NEVec<B>, r: NEVec<(A, B)>) -> bool {
        is_cross(self@, fb@, r@)
    }

    fn product(self, fb: NEVec<B>) -> (r: NEVec<(A, B)>) {
        let left = self.into_vec();
        let right = fb.into_vec();
        let pairs = left.product(right);
        proof {
            assert(left@.len() * right@.len() >= 1) by (nonlinear_arith)
                requires
                    left@.len() >= 1,
                    right@.len() >= 1,
            ;
        }
        NEVec::from_vec(pairs).unwrap()
    }
}

impl<F, A: Clone, B> Apply<A, B> for NEVec<F> {
    /// Every function accepts every clone of every value.
    open spec fn ap_requires(self, fa: NEVec<A>) -> bool where F: FnOnce(A) -> B {
        forall|i: int, j: int, a: A|
            0 <= i < self@.len() && 0 <= j < fa@.len() && #[trigger] cloned(fa@[j], a)
                ==> #[trigger] self@[i].requires((a,))
    }

    /// Every function is applied to a clone of every value, the functions
    /// varying slowest.
    open spec fn ap_ensures(self, fa: NEVec<A>, r: NEVec<B>) -> bool where F: FnOnce(A) -> B {
        &&& r@.len() == self@.len() * fa@.len()
        &&& forall|i: int, j: int|
            0 <= i < self@.len() && 0 <= j < fa@.len() ==> applied_to_clone(
                self@[i],
                fa@[j],
                #[trigger] r@[pair_index(i, fa@.len() as int, j)],
            )
    }

    fn ap(self, fa: NEVec<A>) -> (r: NEVec<B>) where F: FnMut(A) -> B {
        let fs = self.into_vec();
        let values = fa.into_vec();
        let out = fs.ap(values);
        proof {
            assert(fs@.len() * values@.len() >= 1) by (nonlinear_arith)
                requires
                    fs@.len() >= 1,
                    values@.len() >= 1,
            ;
        }
        NEVec::from_vec(out).unwrap()
    }
}

/// The elements of the vectors of `parts`, one vector after the other.
pub open spec fn ne_concat<B>(parts: Seq<NEVec<B>>) -> Seq<B> {
    parts.map_values(|v: NEVec<B>| v@).flatten()
}

impl<A, B> FlatMap<B> for NEVec<A> {
    /// The parts, one after the other.
    open spec fn joined(self, parts: Seq<NEVec<B>>, r: NEVec<B>) -> bool {
        r@ == ne_concat(parts)
    }

    fn flat_map<F>(self, mut f: F) -> (r: NEVec<B>) where F: FnMut(A) -> NEVec<B> {
        let ghost src = self.items();
        let ghost f0 = f;
        proof {
            assert(src[0] == self.head);
        }
        let first = f(self.head);
        let ghost mut parts: Seq<NEVec<B>> = seq![first];
        let head = first.head;
        let mut out: Vec<B> = first.tail;
        proof {
            seq![first@].lemma_flatten_one_element();
            assert(parts.map_values(|v: NEVec<B>| v@) =~= seq![first@]);
            assert(seq![head] + out@ =~= first@);
        }
        for a in it: self.tail.into_iter()
            invariant
                it.seq() == src.drop_first(),
                src.len() >= 1,
                f == f0,
                parts.len() == it.index() + 1,
                seq![head] + out@ == ne_concat(parts),
                forall|k: int| 0 <= k < src.len() ==> f.requires((#[trigger] src[k],)),
                forall|k: int| 0 <= k < parts.len() ==> f.ensures((src[k],), #[trigger] parts[k]),
        {
            proof {
                assert(a == src[it.index() + 1]);
            }
            let part = f(a);
            proof {
                let before = parts;
                parts = parts.push(part);
                assert(parts.map_values(|v: NEVec<B>| v@) =~= before.map_values(
                    |v: NEVec<B>| v@,
                ).push(part@));
                before.map_values(|v: NEVec<B>| v@).lemma_flatten_push(part@);
                assert(seq![head] + (out@ + seq![part.head] + part.tail@) =~= (seq![head] + out@)
                    + part@);
            }
            let mut rest = part.tail;
            out.push(part.head);
            out.append(&mut rest);
        }
        let r = NEVec { head, tail: out };
        assert(self.joined(parts, r));
        r
    }
}

impl<A, B> AndThen<B> for NEVec<A> {
    open spec fn then_joined(self, parts: Seq<NEVec<B>>, r: NEVec<B>) -> bool {
        self.joined(parts, r)
    }

    fn and_then<F>(self, f: F) -> (r: NEVec<B>) where F: FnMut(A) -> NEVec<B> {
        let r = self.flat_map(f);
        proof {
            let parts = choose|parts: Seq<NEVec<B>>|
                {
                    &&& parts.len() == self.items().len()
                    &&& forall|i: int|
                        0 <= i < parts.len() ==> f.ensures((self.items()[i],), #[trigger] parts[i])
                    &&& #[trigger] self.joined(parts, r)
                };
            assert(self.then_joined(parts, r));
        }
        r
    }
}

/// Associativity of `product`, where clones are exact: pairing from the left
/// and pairing from the right give the same, once the pairs are regrouped.
pub proof fn lemma_product_associative_ne_vec<A: Clone, B: Clone, C: Clone>(
    fa: NEVec<A>,
    fb: NEVec<B>,
    fc: NEVec<C>,
    ab: NEVec<(A, B)>,
    left: NEVec<((A, B), C)>,
    bc: NEVec<(B, C)>,
    right: NEVec<(A, (B, C))>,
)
    requires
        clone_is_exact::<A>(),
        clone_is_exact::<B>(),
        clone_is_exact::<C>(),
        clone_is_exact::<(A, B)>(),
        clone_is_exact::<(B, C)>(),
        fa.product_ensures(fb, ab),
        ab.product_ensures(fc, left),
        fb.product_ensures(fc, bc),
        fa.product_ensures(bc, right),
    ensures
        reassociated::<_, _, A, B, C>(left, right),
{
    lemma_cross_associative(fa@, fb@, fc@, ab@, left@, bc@, right@);
}

} // verus!
