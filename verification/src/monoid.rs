//! Monoids: semigroups with an identity element.
use crate::semigroup::{fold_models, models, Semigroup};
use core::marker::PhantomData;
use vstd::prelude::*;

verus! {

/// A semigroup with an identity element.
pub trait Monoid: Semigroup {
    /// The model of the identity element.
    spec fn empty_model() -> Self::Model;

    /// Returns the identity element.
    fn empty() -> (r: Self)
        ensures
            r.model() == Self::empty_model(),
    ;

    /// Tells whether the value is the identity element.
    fn is_empty(&self) -> (b: bool)
        ensures
            b == (self.model() == Self::empty_model()),
    ;

    /// Left identity: `empty + a` is `a`.
    proof fn lemma_left_identity(a: Self::Model)
        ensures
            Self::combine_model(Self::empty_model(), a) == a,
    ;

    /// Right identity: `a + empty` is `a`.
    proof fn lemma_right_identity(a: Self::Model)
        ensures
            Self::combine_model(a, Self::empty_model()) == a,
    ;

    /// Every value can be combined with the identity element, on either
    /// side.
    proof fn lemma_empty_combinable(a: Self)
        ensures
            Self::combinable(Self::empty_model(), a.model()),
            Self::combinable(a.model(), Self::empty_model()),
    ;
}

/// The model of the values with models `ms`, combined from the left,
/// starting from the identity element.
pub open spec fn fold_models_from_empty<M: Monoid>(ms: Seq<M::Model>) -> M::Model
    decreases ms.len(),
{
    if ms.len() == 0 {
        M::empty_model()
    } else {
        M::combine_model(fold_models_from_empty::<M>(ms.drop_last()), ms.last())
    }
}

/// Folding from the identity element gives what folding the values alone
/// gives, where there is a value.
pub proof fn lemma_fold_from_empty<M: Monoid>(ms: Seq<M::Model>)
    requires
        ms.len() > 0,
    ensures
        fold_models_from_empty::<M>(ms) == fold_models::<M>(ms),
    decreases ms.len(),
{
    if ms.len() == 1 {
        reveal_with_fuel(fold_models_from_empty, 2);
        assert(ms.drop_last().len() == 0);
        M::lemma_left_identity(ms.last());
        assert(ms.last() == ms[0]);
    } else {
        lemma_fold_from_empty::<M>(ms.drop_last());
    }
}

/// The operations that every monoid has besides `empty` and `is_empty`.
pub trait MonoidOps: Monoid {
    /// Combines all the values of `values`, from the first to the last,
    /// starting from the identity element. Gives the identity element if
    /// there is none.
    fn combine_all(values: Vec<Self>) -> (r: Self)
        requires
            forall|k: int|
                0 <= k < values.len() ==> Self::combinable(
                    fold_models_from_empty::<Self>(#[trigger] models(values@).take(k)),
                    values[k].model(),
                ),
        ensures
            r.model() == fold_models_from_empty::<Self>(models(values@)),
    {
        let ghost ms = models(values@);
        let mut acc: Self = Self::empty();
        proof {
            assert(ms.take(0).len() == 0);
        }
        for x in it: values.into_iter()
            invariant
                ms == models(it.seq()),
                acc.model() == fold_models_from_empty::<Self>(ms.take(it.index())),
                forall|k: int|
                    0 <= k < it.seq().len() ==> Self::combinable(
                        fold_models_from_empty::<Self>(#[trigger] ms.take(k)),
                        it.seq()[k].model(),
                    ),
        {
            proof {
                let k = it.index();
                assert(ms.take(k + 1).drop_last() =~= ms.take(k));
                assert(ms.take(k + 1).last() == x.model());
            }
            acc = acc.combine(x);
        }
        proof {
            assert(ms.take(ms.len() as int) =~= ms);
        }
        acc
    }
}

impl<M: Monoid> MonoidOps for M {

}

impl Monoid for usize {
    open spec fn empty_model() -> int {
        0
    }

    fn empty() -> (r: Self) {
        0
    }

    fn is_empty(&self) -> (b: bool) {
        *self == 0
    }

    proof fn lemma_left_identity(a: int) {
    }

    proof fn lemma_right_identity(a: int) {
    }

    proof fn lemma_empty_combinable(a: Self) {
    }
}

impl Monoid for u8 {
    open spec fn empty_model() -> int {
        0
    }

    fn empty() -> (r: Self) {
        0
    }

    fn is_empty(&self) -> (b: bool) {
        *self == 0
    }

    proof fn lemma_left_identity(a: int) {
    }

    proof fn lemma_right_identity(a: int) {
    }

    proof fn lemma_empty_combinable(a: Self) {
    }
}

impl Monoid for u16 {
    open spec fn empty_model() -> int {
        0
    }

    fn empty() -> (r: Self) {
        0
    }

    fn is_empty(&self) -> (b: bool) {
        *self == 0
    }

    proof fn lemma_left_identity(a: int) {
    }

    proof fn lemma_right_identity(a: int) {
    }

    proof fn lemma_empty_combinable(a: Self) {
    }
}

impl Monoid for u32 {
    open spec fn empty_model() -> int {
        0
    }

    fn empty() -> (r: Self) {
        0
    }

    fn is_empty(&self) -> (b: bool) {
        *self == 0
    }

    proof fn lemma_left_identity(a: int) {
    }

    proof fn lemma_right_identity(a: int) {
    }

    proof fn lemma_empty_combinable(a: Self) {
    }
}

impl Monoid for u64 {
    open spec fn empty_model() -> int {
        0
    }

    fn empty() -> (r: Self) {
        0
    }

    fn is_empty(&self) -> (b: bool) {
        *self == 0
    }

    proof fn lemma_left_identity(a: int) {
    }

    proof fn lemma_right_identity(a: int) {
    }

    proof fn lemma_empty_combinable(a: Self) {
    }
}

impl Monoid for u128 {
    open spec fn empty_model() -> int {
        0
    }

    fn empty() -> (r: Self) {
        0
    }

    fn is_empty(&self) -> (b: bool) {
        *self == 0
    }

    proof fn lemma_left_identity(a: int) {
    }

    proof fn lemma_right_identity(a: int) {
    }

    proof fn lemma_empty_combinable(a: Self) {
    }
}

impl Monoid for isize {
    open spec fn empty_model() -> int {
        0
    }

    fn empty() -> (r: Self) {
        0
    }

    fn is_empty(&self) -> (b: bool) {
        *self == 0
    }

    proof fn lemma_left_identity(a: int) {
    }

    proof fn lemma_right_identity(a: int) {
    }

    proof fn lemma_empty_combinable(a: Self) {
    }
}

impl Monoid for i8 {
    open spec fn empty_model() -> int {
        0
    }

    fn empty() -> (r: Self) {
        0
    }

    fn is_empty(&self) -> (b: bool) {
        *self == 0
    }

    proof fn lemma_left_identity(a: int) {
    }

    proof fn lemma_right_identity(a: int) {
    }

    proof fn lemma_empty_combinable(a: Self) {
    }
}

impl Monoid for i16 {
    open spec fn empty_model() -> int {
        0
    }

    fn empty() -> (r: Self) {
        0
    }

    fn is_empty(&self) -> (b: bool) {
        *self == 0
    }

    proof fn lemma_left_identity(a: int) {
    }

    proof fn lemma_right_identity(a: int) {
    }

    proof fn lemma_empty_combinable(a: Self) {
    }
}

impl Monoid for i32 {
    open spec fn empty_model() -> int {
        0
    }

    fn empty() -> (r: Self) {
        0
    }

    fn is_empty(&self) -> (b: bool) {
        *self == 0
    }

    proof fn lemma_left_identity(a: int) {
    }

    proof fn lemma_right_identity(a: int) {
    }

    proof fn lemma_empty_combinable(a: Self) {
    }
}

impl Monoid for i64 {
    open spec fn empty_model() -> int {
        0
    }

    fn empty() -> (r: Self) {
        0
    }

    fn is_empty(&self) -> (b: bool) {
        *self == 0
    }

    proof fn lemma_left_identity(a: int) {
    }

    proof fn lemma_right_identity(a: int) {
    }

    proof fn lemma_empty_combinable(a: Self) {
    }
}

impl Monoid for i128 {
    open spec fn empty_model() -> int {
        0
    }

    fn empty() -> (r: Self) {
        0
    }

    fn is_empty(&self) -> (b: bool) {
        *self == 0
    }

    proof fn lemma_left_identity(a: int) {
    }

    proof fn lemma_right_identity(a: int) {
    }

    proof fn lemma_empty_combinable(a: Self) {
    }
}

impl Monoid for () {
    open spec fn empty_model() -> () {
        ()
    }

    fn empty() -> (r: Self) {
        ()
    }

    fn is_empty(&self) -> (b: bool) {
        true
    }

    proof fn lemma_left_identity(a: ()) {
    }

    proof fn lemma_right_identity(a: ()) {
    }

    proof fn lemma_empty_combinable(a: Self) {
    }
}

impl<T> Monoid for PhantomData<T> {
    open spec fn empty_model() -> () {
        ()
    }

    fn empty() -> (r: Self) {
        PhantomData
    }

    fn is_empty(&self) -> (b: bool) {
        true
    }

    proof fn lemma_left_identity(a: ()) {
    }

    proof fn lemma_right_identity(a: ()) {
    }

    proof fn lemma_empty_combinable(a: Self) {
    }
}

impl<T: Semigroup> Monoid for Option<T> {
    open spec fn empty_model() -> Option<T::Model> {
        None
    }

    fn empty() -> (r: Self) {
        None
    }

    fn is_empty(&self) -> (b: bool) {
        self.is_none()
    }

    proof fn lemma_left_identity(a: Option<T::Model>) {
    }

    proof fn lemma_right_identity(a: Option<T::Model>) {
    }

    proof fn lemma_empty_combinable(a: Self) {
    }
}

impl Monoid for String {
    open spec fn empty_model() -> Seq<char> {
        Seq::empty()
    }

    fn empty() -> (r: Self) {
        String::new()
    }

    fn is_empty(&self) -> (b: bool) {
        let b = self.as_str().is_empty();
        assert(b == (self@ =~= Seq::<char>::empty()));
        b
    }

    proof fn lemma_left_identity(a: Seq<char>) {
        assert(Seq::<char>::empty() + a =~= a);
    }

    proof fn lemma_right_identity(a: Seq<char>) {
        assert(a + Seq::<char>::empty() =~= a);
    }

    proof fn lemma_empty_combinable(a: Self) {
    }
}

impl<T> Monoid for Vec<T> {
    open spec fn empty_model() -> Seq<T> {
        Seq::empty()
    }

    fn empty() -> (r: Self) {
        Vec::new()
    }

    fn is_empty(&self) -> (b: bool) {
        let b = self.len() == 0;
        assert(b == (self@ =~= Seq::<T>::empty()));
        b
    }

    proof fn lemma_left_identity(a: Seq<T>) {
        assert(Seq::<T>::empty() + a =~= a);
    }

    proof fn lemma_right_identity(a: Seq<T>) {
        assert(a + Seq::<T>::empty() =~= a);
    }

    proof fn lemma_empty_combinable(a: Self) {
    }
}

impl<A: Monoid> Monoid for (A,) {
    open spec fn empty_model() -> (A::Model,) {
        (A::empty_model(),)
    }

    fn empty() -> (r: Self) {
        (A::empty(),)
    }

    fn is_empty(&self) -> (b: bool) {
        self.0.is_empty()
    }

    proof fn lemma_left_identity(a: (A::Model,)) {
        A::lemma_left_identity(a.0);
    }

    proof fn lemma_right_identity(a: (A::Model,)) {
        A::lemma_right_identity(a.0);
    }

    proof fn lemma_empty_combinable(a: Self) {
        A::lemma_empty_combinable(a.0);
    }
}

impl<A: Monoid, B: Monoid> Monoid for (A, B) {
    open spec fn empty_model() -> (A::Model, B::Model) {
        (A::empty_model(), B::empty_model())
    }

    fn empty() -> (r: Self) {
        (A::empty(), B::empty())
    }

    fn is_empty(&self) -> (b: bool) {
        self.0.is_empty() && self.1.is_empty()
    }

    proof fn lemma_left_identity(a: (A::Model, B::Model)) {
        A::lemma_left_identity(a.0);
        B::lemma_left_identity(a.1);
    }

    proof fn lemma_right_identity(a: (A::Model, B::Model)) {
        A::lemma_right_identity(a.0);
        B::lemma_right_identity(a.1);
    }

    proof fn lemma_empty_combinable(a: Self) {
        A::lemma_empty_combinable(a.0);
        B::lemma_empty_combinable(a.1);
    }
}

impl<A: Monoid, B: Monoid, C: Monoid> Monoid for (A, B, C) {
    open spec fn empty_model() -> (A::Model, B::Model, C::Model) {
        (A::empty_model(), B::empty_model(), C::empty_model())
    }

    fn empty() -> (r: Self) {
        (A::empty(), B::empty(), C::empty())
    }

    fn is_empty(&self) -> (b: bool) {
        self.0.is_empty() && self.1.is_empty() && self.2.is_empty()
    }

    proof fn lemma_left_identity(a: (A::Model, B::Model, C::Model)) {
        A::lemma_left_identity(a.0);
        B::lemma_left_identity(a.1);
        C::lemma_left_identity(a.2);
    }

    proof fn lemma_right_identity(a: (A::Model, B::Model, C::Model)) {
        A::lemma_right_identity(a.0);
        B::lemma_right_identity(a.1);
        C::lemma_right_identity(a.2);
    }

    proof fn lemma_empty_combinable(a: Self) {
        A::lemma_empty_combinable(a.0);
        B::lemma_empty_combinable(a.1);
        C::lemma_empty_combinable(a.2);
    }
}

impl<A: Monoid, B: Monoid, C: Monoid, D: Monoid> Monoid for (A, B, C, D) {
    open spec fn empty_model() -> (A::Model, B::Model, C::Model, D::Model) {
        (A::empty_model(), B::empty_model(), C::empty_model(), D::empty_model())
    }

    fn empty() -> (r: Self) {
        (A::empty(), B::empty(), C::empty(), D::empty())
    }

    fn is_empty(&self) -> (b: bool) {
        self.0.is_empty() && self.1.is_empty() && self.2.is_empty() && self.3.is_empty()
    }

    proof fn lemma_left_identity(a: (A::Model, B::Model, C::Model, D::Model)) {
        A::lemma_left_identity(a.0);
        B::lemma_left_identity(a.1);
        C::lemma_left_identity(a.2);
        D::lemma_left_identity(a.3);
    }

    proof fn lemma_right_identity(a: (A::Model, B::Model, C::Model, D::Model)) {
        A::lemma_right_identity(a.0);
        B::lemma_right_identity(a.1);
        C::lemma_right_identity(a.2);
        D::lemma_right_identity(a.3);
    }

    proof fn lemma_empty_combinable(a: Self) {
        A::lemma_empty_combinable(a.0);
        B::lemma_empty_combinable(a.1);
        C::lemma_empty_combinable(a.2);
        D::lemma_empty_combinable(a.3);
    }
}

impl<A: Monoid, B: Monoid, C: Monoid, D: Monoid, E: Monoid> Monoid for (A, B, C, D, E) {
    open spec fn empty_model() -> (A::Model, B::Model, C::Model, D::Model, E::Model) {
        (
            A::empty_model(),
            B::empty_model(),
            C::empty_model(),
            D::empty_model(),
            E::empty_model(),
        )
    }

    fn empty() -> (r: Self) {
        (A::empty(), B::empty(), C::empty(), D::empty(), E::empty())
    }

    fn is_empty(&self) -> (b: bool) {
        self.0.is_empty()
            && self.1.is_empty()
            && self.2.is_empty()
            && self.3.is_empty()
            && self.4.is_empty()
    }

    proof fn lemma_left_identity(a: (A::Model, B::Model, C::Model, D::Model, E::Model)) {
        A::lemma_left_identity(a.0);
        B::lemma_left_identity(a.1);
        C::lemma_left_identity(a.2);
        D::lemma_left_identity(a.3);
        E::lemma_left_identity(a.4);
    }

    proof fn lemma_right_identity(a: (A::Model, B::Model, C::Model, D::Model, E::Model)) {
        A::lemma_right_identity(a.0);
        B::lemma_right_identity(a.1);
        C::lemma_right_identity(a.2);
        D::lemma_right_identity(a.3);
        E::lemma_right_identity(a.4);
    }

    proof fn lemma_empty_combinable(a: Self) {
        A::lemma_empty_combinable(a.0);
        B::lemma_empty_combinable(a.1);
        C::lemma_empty_combinable(a.2);
        D::lemma_empty_combinable(a.3);
        E::lemma_empty_combinable(a.4);
    }
}

impl<A: Monoid, B: Monoid, C: Monoid, D: Monoid, E: Monoid, F: Monoid> Monoid for (A, B, C, D, E, F) {
    open spec fn empty_model() -> (
        A::Model,
        B::Model,
        C::Model,
        D::Model,
        E::Model,
        F::Model,
    ) {
        (
            A::empty_model(),
            B::empty_model(),
            C::empty_model(),
            D::empty_model(),
            E::empty_model(),
            F::empty_model(),
        )
    }

    fn empty() -> (r: Self) {
        (A::empty(), B::empty(), C::empty(), D::empty(), E::empty(), F::empty())
    }

    fn is_empty(&self) -> (b: bool) {
        self.0.is_empty()
            && self.1.is_empty()
            && self.2.is_empty()
            && self.3.is_empty()
            && self.4.is_empty()
            && self.5.is_empty()
    }

    proof fn lemma_left_identity(a: (A::Model, B::Model, C::Model, D::Model, E::Model, F::Model)) {
        A::lemma_left_identity(a.0);
        B::lemma_left_identity(a.1);
        C::lemma_left_identity(a.2);
        D::lemma_left_identity(a.3);
        E::lemma_left_identity(a.4);
        F::lemma_left_identity(a.5);
    }

    proof fn lemma_right_identity(a: (A::Model, B::Model, C::Model, D::Model, E::Model, F::Model)) {
        A::lemma_right_identity(a.0);
        B::lemma_right_identity(a.1);
        C::lemma_right_identity(a.2);
        D::lemma_right_identity(a.3);
        E::lemma_right_identity(a.4);
        F::lemma_right_identity(a.5);
    }

    proof fn lemma_empty_combinable(a: Self) {
        A::lemma_empty_combinable(a.0);
        B::lemma_empty_combinable(a.1);
        C::lemma_empty_combinable(a.2);
        D::lemma_empty_combinable(a.3);
        E::lemma_empty_combinable(a.4);
        F::lemma_empty_combinable(a.5);
    }
}

impl<
    A: Monoid,
    B: Monoid,
    C: Monoid,
    D: Monoid,
    E: Monoid,
    F: Monoid,
    G: Monoid,
> Monoid for (A, B, C, D, E, F, G) {
    open spec fn empty_model() -> (
        A::Model,
        B::Model,
        C::Model,
        D::Model,
        E::Model,
        F::Model,
        G::Model,
    ) {
        (
            A::empty_model(),
            B::empty_model(),
            C::empty_model(),
            D::empty_model(),
            E::empty_model(),
            F::empty_model(),
            G::empty_model(),
        )
    }

    fn empty() -> (r: Self) {
        (A::empty(), B::empty(), C::empty(), D::empty(), E::empty(), F::empty(), G::empty())
    }

    fn is_empty(&self) -> (b: bool) {
        self.0.is_empty()
            && self.1.is_empty()
            && self.2.is_empty()
            && self.3.is_empty()
            && self.4.is_empty()
            && self.5.is_empty()
            && self.6.is_empty()
    }

    proof fn lemma_left_identity(
        a: (A::Model, B::Model, C::Model, D::Model, E::Model, F::Model, G::Model),
    ) {
        A::lemma_left_identity(a.0);
        B::lemma_left_identity(a.1);
        C::lemma_left_identity(a.2);
        D::lemma_left_identity(a.3);
        E::lemma_left_identity(a.4);
        F::lemma_left_identity(a.5);
        G::lemma_left_identity(a.6);
    }

    proof fn lemma_right_identity(
        a: (A::Model, B::Model, C::Model, D::Model, E::Model, F::Model, G::Model),
    ) {
        A::lemma_right_identity(a.0);
        B::lemma_right_identity(a.1);
        C::lemma_right_identity(a.2);
        D::lemma_right_identity(a.3);
        E::lemma_right_identity(a.4);
        F::lemma_right_identity(a.5);
        G::lemma_right_identity(a.6);
    }

    proof fn lemma_empty_combinable(a: Self) {
        A::lemma_empty_combinable(a.0);
        B::lemma_empty_combinable(a.1);
        C::lemma_empty_combinable(a.2);
        D::lemma_empty_combinable(a.3);
        E::lemma_empty_combinable(a.4);
        F::lemma_empty_combinable(a.5);
        G::lemma_empty_combinable(a.6);
    }
}

impl<
    A: Monoid,
    B: Monoid,
    C: Monoid,
    D: Monoid,
    E: Monoid,
    F: Monoid,
    G: Monoid,
    H: Monoid,
> Monoid for (A, B, C, D, E, F, G, H) {
    open spec fn empty_model() -> (
        A::Model,
        B::Model,
        C::Model,
        D::Model,
        E::Model,
        F::Model,
        G::Model,
        H::Model,
    ) {
        (
            A::empty_model(),
            B::empty_model(),
            C::empty_model(),
            D::empty_model(),
            E::empty_model(),
            F::empty_model(),
            G::empty_model(),
            H::empty_model(),
        )
    }

    fn empty() -> (r: Self) {
        (
            A::empty(),
            B::empty(),
            C::empty(),
            D::empty(),
            E::empty(),
            F::empty(),
            G::empty(),
            H::empty(),
        )
    }

    fn is_empty(&self) -> (b: bool) {
        self.0.is_empty()
            && self.1.is_empty()
            && self.2.is_empty()
            && self.3.is_empty()
            && self.4.is_empty()
            && self.5.is_empty()
            && self.6.is_empty()
            && self.7.is_empty()
    }

    proof fn lemma_left_identity(
        a: (A::Model, B::Model, C::Model, D::Model, E::Model, F::Model, G::Model, H::Model),
    ) {
        A::lemma_left_identity(a.0);
        B::lemma_left_identity(a.1);
        C::lemma_left_identity(a.2);
        D::lemma_left_identity(a.3);
        E::lemma_left_identity(a.4);
        F::lemma_left_identity(a.5);
        G::lemma_left_identity(a.6);
        H::lemma_left_identity(a.7);
    }

    proof fn lemma_right_identity(
        a: (A::Model, B::Model, C::Model, D::Model, E::Model, F::Model, G::Model, H::Model),
    ) {
        A::lemma_right_identity(a.0);
        B::lemma_right_identity(a.1);
        C::lemma_right_identity(a.2);
        D::lemma_right_identity(a.3);
        E::lemma_right_identity(a.4);
        F::lemma_right_identity(a.5);
        G::lemma_right_identity(a.6);
        H::lemma_right_identity(a.7);
    }

    proof fn lemma_empty_combinable(a: Self) {
        A::lemma_empty_combinable(a.0);
        B::lemma_empty_combinable(a.1);
        C::lemma_empty_combinable(a.2);
        D::lemma_empty_combinable(a.3);
        E::lemma_empty_combinable(a.4);
        F::lemma_empty_combinable(a.5);
        G::lemma_empty_combinable(a.6);
        H::lemma_empty_combinable(a.7);
    }
}

impl<
    A: Monoid,
    B: Monoid,
    C: Monoid,
    D: Monoid,
    E: Monoid,
    F: Monoid,
    G: Monoid,
    H: Monoid,
    I: Monoid,
> Monoid for (A, B, C, D, E, F, G, H, I) {
    open spec fn empty_model() -> (
        A::Model,
        B::Model,
        C::Model,
        D::Model,
        E::Model,
        F::Model,
        G::Model,
        H::Model,
        I::Model,
    ) {
        (
            A::empty_model(),
            B::empty_model(),
            C::empty_model(),
            D::empty_model(),
            E::empty_model(),
            F::empty_model(),
            G::empty_model(),
            H::empty_model(),
            I::empty_model(),
        )
    }

    fn empty() -> (r: Self) {
        (
            A::empty(),
            B::empty(),
            C::empty(),
            D::empty(),
            E::empty(),
            F::empty(),
            G::empty(),
            H::empty(),
            I::empty(),
        )
    }

    fn is_empty(&self) -> (b: bool) {
        self.0.is_empty()
            && self.1.is_empty()
            && self.2.is_empty()
            && self.3.is_empty()
            && self.4.is_empty()
            && self.5.is_empty()
            && self.6.is_empty()
            && self.7.is_empty()
            && self.8.is_empty()
    }

    proof fn lemma_left_identity(
        a: (
            A::Model,
            B::Model,
            C::Model,
            D::Model,
            E::Model,
            F::Model,
            G::Model,
            H::Model,
            I::Model,
        ),
    ) {
        A::lemma_left_identity(a.0);
        B::lemma_left_identity(a.1);
        C::lemma_left_identity(a.2);
        D::lemma_left_identity(a.3);
        E::lemma_left_identity(a.4);
        F::lemma_left_identity(a.5);
        G::lemma_left_identity(a.6);
        H::lemma_left_identity(a.7);
        I::lemma_left_identity(a.8);
    }

    proof fn lemma_right_identity(
        a: (
            A::Model,
            B::Model,
            C::Model,
            D::Model,
            E::Model,
            F::Model,
            G::Model,
            H::Model,
            I::Model,
        ),
    ) {
        A::lemma_right_identity(a.0);
        B::lemma_right_identity(a.1);
        C::lemma_right_identity(a.2);
        D::lemma_right_identity(a.3);
        E::lemma_right_identity(a.4);
        F::lemma_right_identity(a.5);
        G::lemma_right_identity(a.6);
        H::lemma_right_identity(a.7);
        I::lemma_right_identity(a.8);
    }

    proof fn lemma_empty_combinable(a: Self) {
        A::lemma_empty_combinable(a.0);
        B::lemma_empty_combinable(a.1);
        C::lemma_empty_combinable(a.2);
        D::lemma_empty_combinable(a.3);
        E::lemma_empty_combinable(a.4);
        F::lemma_empty_combinable(a.5);
        G::lemma_empty_combinable(a.6);
        H::lemma_empty_combinable(a.7);
        I::lemma_empty_combinable(a.8);
    }
}

impl<
    A: Monoid,
    B: Monoid,
    C: Monoid,
    D: Monoid,
    E: Monoid,
    F: Monoid,
    G: Monoid,
    H: Monoid,
    I: Monoid,
    J: Monoid,
> Monoid for (A, B, C, D, E, F, G, H, I, J) {
    open spec fn empty_model() -> (
        A::Model,
        B::Model,
        C::Model,
        D::Model,
        E::Model,
        F::Model,
        G::Model,
        H::Model,
        I::Model,
        J::Model,
    ) {
        (
            A::empty_model(),
            B::empty_model(),
            C::empty_model(),
            D::empty_model(),
            E::empty_model(),
            F::empty_model(),
            G::empty_model(),
            H::empty_model(),
            I::empty_model(),
            J::empty_model(),
        )
    }

    fn empty() -> (r: Self) {
        (
            A::empty(),
            B::empty(),
            C::empty(),
            D::empty(),
            E::empty(),
            F::empty(),
            G::empty(),
            H::empty(),
            I::empty(),
            J::empty(),
        )
    }

    fn is_empty(&self) -> (b: bool) {
        self.0.is_empty()
            && self.1.is_empty()
            && self.2.is_empty()
            && self.3.is_empty()
            && self.4.is_empty()
            && self.5.is_empty()
            && self.6.is_empty()
            && self.7.is_empty()
            && self.8.is_empty()
            && self.9.is_empty()
    }

    proof fn lemma_left_identity(
        a: (
            A::Model,
            B::Model,
            C::Model,
            D::Model,
            E::Model,
            F::Model,
            G::Model,
            H::Model,
            I::Model,
            J::Model,
        ),
    ) {
        A::lemma_left_identity(a.0);
        B::lemma_left_identity(a.1);
        C::lemma_left_identity(a.2);
        D::lemma_left_identity(a.3);
        E::lemma_left_identity(a.4);
        F::lemma_left_identity(a.5);
        G::lemma_left_identity(a.6);
        H::lemma_left_identity(a.7);
        I::lemma_left_identity(a.8);
        J::lemma_left_identity(a.9);
    }

    proof fn lemma_right_identity(
        a: (
            A::Model,
            B::Model,
            C::Model,
            D::Model,
            E::Model,
            F::Model,
            G::Model,
            H::Model,
            I::Model,
            J::Model,
        ),
    ) {
        A::lemma_right_identity(a.0);
        B::lemma_right_identity(a.1);
        C::lemma_right_identity(a.2);
        D::lemma_right_identity(a.3);
        E::lemma_right_identity(a.4);
        F::lemma_right_identity(a.5);
        G::lemma_right_identity(a.6);
        H::lemma_right_identity(a.7);
        I::lemma_right_identity(a.8);
        J::lemma_right_identity(a.9);
    }

    proof fn lemma_empty_combinable(a: Self) {
        A::lemma_empty_combinable(a.0);
        B::lemma_empty_combinable(a.1);
        C::lemma_empty_combinable(a.2);
        D::lemma_empty_combinable(a.3);
        E::lemma_empty_combinable(a.4);
        F::lemma_empty_combinable(a.5);
        G::lemma_empty_combinable(a.6);
        H::lemma_empty_combinable(a.7);
        I::lemma_empty_combinable(a.8);
        J::lemma_empty_combinable(a.9);
    }
}

impl<
    A: Monoid,
    B: Monoid,
    C: Monoid,
    D: Monoid,
    E: Monoid,
    F: Monoid,
    G: Monoid,
    H: Monoid,
    I: Monoid,
    J: Monoid,
    K: Monoid,
> Monoid for (A, B, C, D, E, F, G, H, I, J, K) {
    open spec fn empty_model() -> (
        A::Model,
        B::Model,
        C::Model,
        D::Model,
        E::Model,
        F::Model,
        G::Model,
        H::Model,
        I::Model,
        J::Model,
        K::Model,
    ) {
        (
            A::empty_model(),
            B::empty_model(),
            C::empty_model(),
            D::empty_model(),
            E::empty_model(),
            F::empty_model(),
            G::empty_model(),
            H::empty_model(),
            I::empty_model(),
            J::empty_model(),
            K::empty_model(),
        )
    }

    fn empty() -> (r: Self) {
        (
            A::empty(),
            B::empty(),
            C::empty(),
            D::empty(),
            E::empty(),
            F::empty(),
            G::empty(),
            H::empty(),
            I::empty(),
            J::empty(),
            K::empty(),
        )
    }

    fn is_empty(&self) -> (b: bool) {
        self.0.is_empty()
            && self.1.is_empty()
            && self.2.is_empty()
            && self.3.is_empty()
            && self.4.is_empty()
            && self.5.is_empty()
            && self.6.is_empty()
            && self.7.is_empty()
            && self.8.is_empty()
            && self.9.is_empty()
            && self.10.is_empty()
    }

    proof fn lemma_left_identity(
        a: (
            A::Model,
            B::Model,
            C::Model,
            D::Model,
            E::Model,
            F::Model,
            G::Model,
            H::Model,
            I::Model,
            J::Model,
            K::Model,
        ),
    ) {
        A::lemma_left_identity(a.0);
        B::lemma_left_identity(a.1);
        C::lemma_left_identity(a.2);
        D::lemma_left_identity(a.3);
        E::lemma_left_identity(a.4);
        F::lemma_left_identity(a.5);
        G::lemma_left_identity(a.6);
        H::lemma_left_identity(a.7);
        I::lemma_left_identity(a.8);
        J::lemma_left_identity(a.9);
        K::lemma_left_identity(a.10);
    }

    proof fn lemma_right_identity(
        a: (
            A::Model,
            B::Model,
            C::Model,
            D::Model,
            E::Model,
            F::Model,
            G::Model,
            H::Model,
            I::Model,
            J::Model,
            K::Model,
        ),
    ) {
        A::lemma_right_identity(a.0);
        B::lemma_right_identity(a.1);
        C::lemma_right_identity(a.2);
        D::lemma_right_identity(a.3);
        E::lemma_right_identity(a.4);
        F::lemma_right_identity(a.5);
        G::lemma_right_identity(a.6);
        H::lemma_right_identity(a.7);
        I::lemma_right_identity(a.8);
        J::lemma_right_identity(a.9);
        K::lemma_right_identity(a.10);
    }

    proof fn lemma_empty_combinable(a: Self) {
        A::lemma_empty_combinable(a.0);
        B::lemma_empty_combinable(a.1);
        C::lemma_empty_combinable(a.2);
        D::lemma_empty_combinable(a.3);
        E::lemma_empty_combinable(a.4);
        F::lemma_empty_combinable(a.5);
        G::lemma_empty_combinable(a.6);
        H::lemma_empty_combinable(a.7);
        I::lemma_empty_combinable(a.8);
        J::lemma_empty_combinable(a.9);
        K::lemma_empty_combinable(a.10);
    }
}

impl<
    A: Monoid,
    B: Monoid,
    C: Monoid,
    D: Monoid,
    E: Monoid,
    F: Monoid,
    G: Monoid,
    H: Monoid,
    I: Monoid,
    J: Monoid,
    K: Monoid,
    L: Monoid,
> Monoid for (A, B, C, D, E, F, G, H, I, J, K, L) {
    open spec fn empty_model() -> (
        A::Model,
        B::Model,
        C::Model,
        D::Model,
        E::Model,
        F::Model,
        G::Model,
        H::Model,
        I::Model,
        J::Model,
        K::Model,
        L::Model,
    ) {
        (
            A::empty_model(),
            B::empty_model(),
            C::empty_model(),
            D::empty_model(),
            E::empty_model(),
            F::empty_model(),
            G::empty_model(),
            H::empty_model(),
            I::empty_model(),
            J::empty_model(),
            K::empty_model(),
            L::empty_model(),
        )
    }

    fn empty() -> (r: Self) {
        (
            A::empty(),
            B::empty(),
            C::empty(),
            D::empty(),
            E::empty(),
            F::empty(),
            G::empty(),
            H::empty(),
            I::empty(),
            J::empty(),
            K::empty(),
            L::empty(),
        )
    }

    fn is_empty(&self) -> (b: bool) {
        self.0.is_empty()
            && self.1.is_empty()
            && self.2.is_empty()
            && self.3.is_empty()
            && self.4.is_empty()
            && self.5.is_empty()
            && self.6.is_empty()
            && self.7.is_empty()
            && self.8.is_empty()
            && self.9.is_empty()
            && self.10.is_empty()
            && self.11.is_empty()
    }

    proof fn lemma_left_identity(
        a: (
            A::Model,
            B::Model,
            C::Model,
            D::Model,
            E::Model,
            F::Model,
            G::Model,
            H::Model,
            I::Model,
            J::Model,
            K::Model,
            L::Model,
        ),
    ) {
        A::lemma_left_identity(a.0);
        B::lemma_left_identity(a.1);
        C::lemma_left_identity(a.2);
        D::lemma_left_identity(a.3);
        E::lemma_left_identity(a.4);
        F::lemma_left_identity(a.5);
        G::lemma_left_identity(a.6);
        H::lemma_left_identity(a.7);
        I::lemma_left_identity(a.8);
        J::lemma_left_identity(a.9);
        K::lemma_left_identity(a.10);
        L::lemma_left_identity(a.11);
    }

    proof fn lemma_right_identity(
        a: (
            A::Model,
            B::Model,
            C::Model,
            D::Model,
            E::Model,
            F::Model,
            G::Model,
            H::Model,
            I::Model,
            J::Model,
            K::Model,
            L::Model,
        ),
    ) {
        A::lemma_right_identity(a.0);
        B::lemma_right_identity(a.1);
        C::lemma_right_identity(a.2);
        D::lemma_right_identity(a.3);
        E::lemma_right_identity(a.4);
        F::lemma_right_identity(a.5);
        G::lemma_right_identity(a.6);
        H::lemma_right_identity(a.7);
        I::lemma_right_identity(a.8);
        J::lemma_right_identity(a.9);
        K::lemma_right_identity(a.10);
        L::lemma_right_identity(a.11);
    }

    proof fn lemma_empty_combinable(a: Self) {
        A::lemma_empty_combinable(a.0);
        B::lemma_empty_combinable(a.1);
        C::lemma_empty_combinable(a.2);
        D::lemma_empty_combinable(a.3);
        E::lemma_empty_combinable(a.4);
        F::lemma_empty_combinable(a.5);
        G::lemma_empty_combinable(a.6);
        H::lemma_empty_combinable(a.7);
        I::lemma_empty_combinable(a.8);
        J::lemma_empty_combinable(a.9);
        K::lemma_empty_combinable(a.10);
        L::lemma_empty_combinable(a.11);
    }
}

} // verus!
