//! Semigroups: types with an associative way of combining two values.
//!
//! A semigroup is described by a model, a mathematical value that stands for
//! each value of the type, and by what combining does to models. The law of
//! associativity is stated of the models and proved by every implementation.
use core::marker::PhantomData;
use vstd::prelude::*;
use vstd::string::StringExecFns;

verus! {

/// A type with an associative binary operation.
pub trait Semigroup: Sized {
    /// The mathematical value that a value of this type stands for.
    type Model;

    /// The model of this value.
    spec fn model(self) -> Self::Model;

    /// The model of the combination of two values, from their models.
    spec fn combine_model(a: Self::Model, b: Self::Model) -> Self::Model;

    /// Whether two values with these models can be combined: false where
    /// the combination has no value in the type.
    spec fn combinable(a: Self::Model, b: Self::Model) -> bool;

    /// Combines two values.
    fn combine(self, other: Self) -> (r: Self)
        requires
            Self::combinable(self.model(), other.model()),
        ensures
            r.model() == Self::combine_model(self.model(), other.model()),
    ;

    /// Associativity: `(a + b) + c` is `a + (b + c)`.
    proof fn lemma_associative(a: Self::Model, b: Self::Model, c: Self::Model)
        ensures
            Self::combine_model(Self::combine_model(a, b), c) == Self::combine_model(
                a,
                Self::combine_model(b, c),
            ),
    ;
}

/// The model of `n + 1` copies of a value with model `m`, combined from the
/// left.
pub open spec fn combine_n_model<S: Semigroup>(m: S::Model, n: nat) -> S::Model
    decreases n,
{
    if n == 0 {
        m
    } else {
        S::combine_model(combine_n_model::<S>(m, (n - 1) as nat), m)
    }
}

/// The models of the values of a sequence.
pub open spec fn models<S: Semigroup>(values: Seq<S>) -> Seq<S::Model> {
    Seq::new(values.len(), |i: int| values[i].model())
}

/// The model of the values with models `ms`, combined from the left. It is
/// meant for a sequence that is not empty.
pub open spec fn fold_models<S: Semigroup>(ms: Seq<S::Model>) -> S::Model
    decreases ms.len(),
{
    if ms.len() <= 1 {
        ms[0]
    } else {
        S::combine_model(fold_models::<S>(ms.drop_last()), ms.last())
    }
}

/// Associativity, said of values: however three values are grouped, the
/// combinations have the same model.
pub proof fn lemma_combine_associative<S: Semigroup>(
    a: S,
    b: S,
    c: S,
    ab: S,
    bc: S,
    left: S,
    right: S,
)
    requires
        ab.model() == S::combine_model(a.model(), b.model()),
        left.model() == S::combine_model(ab.model(), c.model()),
        bc.model() == S::combine_model(b.model(), c.model()),
        right.model() == S::combine_model(a.model(), bc.model()),
    ensures
        left.model() == right.model(),
{
    S::lemma_associative(a.model(), b.model(), c.model());
}

/// The operations that every semigroup has besides `combine`.
pub trait SemigroupOps: Semigroup {
    /// Combines the value with itself `n` times: `n + 1` copies take part,
    /// so `n == 0` gives the value back.
    fn combine_n(self, n: u32) -> (r: Self) where Self: Clone
        requires
            forall|c: Self| cloned(self, c) ==> c.model() == self.model(),
            forall|k: nat|
                k < n ==> Self::combinable(
                    #[trigger] combine_n_model::<Self>(self.model(), k),
                    self.model(),
                ),
        ensures
            r.model() == combine_n_model::<Self>(self.model(), n as nat),
    {
        if n == 0 {
            return self;
        }
        let mut result = self.clone();
        let mut i: u32 = 1;
        while i < n
            invariant
                1 <= i <= n,
                result.model() == combine_n_model::<Self>(self.model(), (i - 1) as nat),
                forall|c: Self| cloned(self, c) ==> c.model() == self.model(),
                forall|k: nat|
                    k < n ==> Self::combinable(
                        #[trigger] combine_n_model::<Self>(self.model(), k),
                        self.model(),
                    ),
            decreases n - i,
        {
            let copy = self.clone();
            result = result.combine(copy);
            i = i + 1;
        }
        result.combine(self)
    }

    /// Combines all the values of `values`, from the first to the last.
    /// Gives `None` if there is none.
    fn combine_all_option(values: Vec<Self>) -> (r: Option<Self>)
        requires
            forall|k: int|
                1 <= k < values.len() ==> Self::combinable(
                    fold_models::<Self>(#[trigger] models(values@).take(k)),
                    values[k].model(),
                ),
        ensures
            values.len() == 0 ==> r is None,
            values.len() > 0 ==> r is Some && r->0.model() == fold_models::<Self>(models(values@)),
    {
        let ghost ms = models(values@);
        let mut acc: Option<Self> = None;
        for x in it: values.into_iter()
            invariant
                ms == models(it.seq()),
                it.index() == 0 ==> acc is None,
                it.index() > 0 ==> acc is Some && acc->0.model() == fold_models::<Self>(
                    ms.take(it.index()),
                ),
                forall|k: int|
                    1 <= k < it.seq().len() ==> Self::combinable(
                        fold_models::<Self>(#[trigger] ms.take(k)),
                        it.seq()[k].model(),
                    ),
        {
            proof {
                let k = it.index();
                assert(ms.take(k + 1).drop_last() =~= ms.take(k));
                assert(ms.take(k + 1).last() == x.model());
            }
            acc =
            match acc {
                None => Some(x),
                Some(a) => Some(a.combine(x)),
            };
        }
        proof {
            assert(ms.take(ms.len() as int) =~= ms);
        }
        acc
    }
}

impl<S: Semigroup> SemigroupOps for S {

}

impl Semigroup for usize {
    type Model = int;

    open spec fn model(self) -> int {
        self as int
    }

    open spec fn combine_model(a: int, b: int) -> int {
        a + b
    }

    open spec fn combinable(a: int, b: int) -> bool {
        0 <= a + b <= usize::MAX
    }

    fn combine(self, other: Self) -> (r: Self) {
        self + other
    }

    proof fn lemma_associative(a: int, b: int, c: int) {
    }
}

impl Semigroup for u8 {
    type Model = int;

    open spec fn model(self) -> int {
        self as int
    }

    open spec fn combine_model(a: int, b: int) -> int {
        a + b
    }

    open spec fn combinable(a: int, b: int) -> bool {
        0 <= a + b <= u8::MAX
    }

    fn combine(self, other: Self) -> (r: Self) {
        self + other
    }

    proof fn lemma_associative(a: int, b: int, c: int) {
    }
}

impl Semigroup for u16 {
    type Model = int;

    open spec fn model(self) -> int {
        self as int
    }

    open spec fn combine_model(a: int, b: int) -> int {
        a + b
    }

    open spec fn combinable(a: int, b: int) -> bool {
        0 <= a + b <= u16::MAX
    }

    fn combine(self, other: Self) -> (r: Self) {
        self + other
    }

    proof fn lemma_associative(a: int, b: int, c: int) {
    }
}

impl Semigroup for u32 {
    type Model = int;

    open spec fn model(self) -> int {
        self as int
    }

    open spec fn combine_model(a: int, b: int) -> int {
        a + b
    }

    open spec fn combinable(a: int, b: int) -> bool {
        0 <= a + b <= u32::MAX
    }

    fn combine(self, other: Self) -> (r: Self) {
        self + other
    }

    proof fn lemma_associative(a: int, b: int, c: int) {
    }
}

impl Semigroup for u64 {
    type Model = int;

    open spec fn model(self) -> int {
        self as int
    }

    open spec fn combine_model(a: int, b: int) -> int {
        a + b
    }

    open spec fn combinable(a: int, b: int) -> bool {
        0 <= a + b <= u64::MAX
    }

    fn combine(self, other: Self) -> (r: Self) {
        self + other
    }

    proof fn lemma_associative(a: int, b: int, c: int) {
    }
}

impl Semigroup for u128 {
    type Model = int;

    open spec fn model(self) -> int {
        self as int
    }

    open spec fn combine_model(a: int, b: int) -> int {
        a + b
    }

    open spec fn combinable(a: int, b: int) -> bool {
        0 <= a + b <= u128::MAX
    }

    fn combine(self, other: Self) -> (r: Self) {
        self + other
    }

    proof fn lemma_associative(a: int, b: int, c: int) {
    }
}

impl Semigroup for isize {
    type Model = int;

    open spec fn model(self) -> int {
        self as int
    }

    open spec fn combine_model(a: int, b: int) -> int {
        a + b
    }

    open spec fn combinable(a: int, b: int) -> bool {
        isize::MIN <= a + b <= isize::MAX
    }

    fn combine(self, other: Self) -> (r: Self) {
        self + other
    }

    proof fn lemma_associative(a: int, b: int, c: int) {
    }
}

impl Semigroup for i8 {
    type Model = int;

    open spec fn model(self) -> int {
        self as int
    }

    open spec fn combine_model(a: int, b: int) -> int {
        a + b
    }

    open spec fn combinable(a: int, b: int) -> bool {
        i8::MIN <= a + b <= i8::MAX
    }

    fn combine(self, other: Self) -> (r: Self) {
        self + other
    }

    proof fn lemma_associative(a: int, b: int, c: int) {
    }
}

impl Semigroup for i16 {
    type Model = int;

    open spec fn model(self) -> int {
        self as int
    }

    open spec fn combine_model(a: int, b: int) -> int {
        a + b
    }

    open spec fn combinable(a: int, b: int) -> bool {
        i16::MIN <= a + b <= i16::MAX
    }

    fn combine(self, other: Self) -> (r: Self) {
        self + other
    }

    proof fn lemma_associative(a: int, b: int, c: int) {
    }
}

impl Semigroup for i32 {
    type Model = int;

    open spec fn model(self) -> int {
        self as int
    }

    open spec fn combine_model(a: int, b: int) -> int {
        a + b
    }

    open spec fn combinable(a: int, b: int) -> bool {
        i32::MIN <= a + b <= i32::MAX
    }

    fn combine(self, other: Self) -> (r: Self) {
        self + other
    }

    proof fn lemma_associative(a: int, b: int, c: int) {
    }
}

impl Semigroup for i64 {
    type Model = int;

    open spec fn model(self) -> int {
        self as int
    }

    open spec fn combine_model(a: int, b: int) -> int {
        a + b
    }

    open spec fn combinable(a: int, b: int) -> bool {
        i64::MIN <= a + b <= i64::MAX
    }

    fn combine(self, other: Self) -> (r: Self) {
        self + other
    }

    proof fn lemma_associative(a: int, b: int, c: int) {
    }
}

impl Semigroup for i128 {
    type Model = int;

    open spec fn model(self) -> int {
        self as int
    }

    open spec fn combine_model(a: int, b: int) -> int {
        a + b
    }

    open spec fn combinable(a: int, b: int) -> bool {
        i128::MIN <= a + b <= i128::MAX
    }

    fn combine(self, other: Self) -> (r: Self) {
        self + other
    }

    proof fn lemma_associative(a: int, b: int, c: int) {
    }
}

impl Semigroup for () {
    type Model = ();

    open spec fn model(self) -> () {
        ()
    }

    open spec fn combine_model(a: (), b: ()) -> () {
        ()
    }

    open spec fn combinable(a: (), b: ()) -> bool {
        true
    }

    fn combine(self, other: Self) -> (r: Self) {
        ()
    }

    proof fn lemma_associative(a: (), b: (), c: ()) {
    }
}

impl<T> Semigroup for PhantomData<T> {
    type Model = ();

    open spec fn model(self) -> () {
        ()
    }

    open spec fn combine_model(a: (), b: ()) -> () {
        ()
    }

    open spec fn combinable(a: (), b: ()) -> bool {
        true
    }

    fn combine(self, other: Self) -> (r: Self) {
        PhantomData
    }

    proof fn lemma_associative(a: (), b: (), c: ()) {
    }
}

impl<T: Semigroup> Semigroup for Option<T> {
    type Model = Option<T::Model>;

    open spec fn model(self) -> Option<T::Model> {
        match self {
            Some(x) => Some(x.model()),
            None => None,
        }
    }

    open spec fn combine_model(a: Option<T::Model>, b: Option<T::Model>) -> Option<T::Model> {
        match (a, b) {
            (Some(x), Some(y)) => Some(T::combine_model(x, y)),
            (Some(x), None) => Some(x),
            (None, y) => y,
        }
    }

    open spec fn combinable(a: Option<T::Model>, b: Option<T::Model>) -> bool {
        match (a, b) {
            (Some(x), Some(y)) => T::combinable(x, y),
            _ => true,
        }
    }

    fn combine(self, other: Self) -> (r: Self) {
        match (self, other) {
            (Some(lhs), Some(rhs)) => Some(lhs.combine(rhs)),
            (Some(lhs), None) => Some(lhs),
            (None, y) => y,
        }
    }

    proof fn lemma_associative(a: Option<T::Model>, b: Option<T::Model>, c: Option<T::Model>) {
        match (a, b, c) {
            (Some(x), Some(y), Some(z)) => {
                T::lemma_associative(x, y, z);
            },
            _ => {},
        }
    }
}

impl<T: Semigroup> Semigroup for Box<T> {
    type Model = T::Model;

    open spec fn model(self) -> T::Model {
        (*self).model()
    }

    open spec fn combine_model(a: T::Model, b: T::Model) -> T::Model {
        T::combine_model(a, b)
    }

    open spec fn combinable(a: T::Model, b: T::Model) -> bool {
        T::combinable(a, b)
    }

    fn combine(self, other: Self) -> (r: Self) {
        Box::new((*self).combine(*other))
    }

    proof fn lemma_associative(a: T::Model, b: T::Model, c: T::Model) {
        T::lemma_associative(a, b, c);
    }
}

impl Semigroup for String {
    type Model = Seq<char>;

    open spec fn model(self) -> Seq<char> {
        self@
    }

    open spec fn combine_model(a: Seq<char>, b: Seq<char>) -> Seq<char> {
        a + b
    }

    open spec fn combinable(a: Seq<char>, b: Seq<char>) -> bool {
        true
    }

    fn combine(self, other: Self) -> (r: Self) {
        self.concat(other.as_str())
    }

    proof fn lemma_associative(a: Seq<char>, b: Seq<char>, c: Seq<char>) {
        assert((a + b) + c =~= a + (b + c));
    }
}

impl<T> Semigroup for Vec<T> {
    type Model = Seq<T>;

    open spec fn model(self) -> Seq<T> {
        self@
    }

    open spec fn combine_model(a: Seq<T>, b: Seq<T>) -> Seq<T> {
        a + b
    }

    open spec fn combinable(a: Seq<T>, b: Seq<T>) -> bool {
        true
    }

    fn combine(self, other: Self) -> (r: Self) {
        let mut left = self;
        let mut right = other;
        left.append(&mut right);
        left
    }

    proof fn lemma_associative(a: Seq<T>, b: Seq<T>, c: Seq<T>) {
        assert((a + b) + c =~= a + (b + c));
    }
}

impl<A: Semigroup> Semigroup for (A,) {
    type Model = (A::Model,);

    open spec fn model(self) -> (A::Model,) {
        (self.0.model(),)
    }

    open spec fn combine_model(a: (A::Model,), b: (A::Model,)) -> (A::Model,) {
        (A::combine_model(a.0, b.0),)
    }

    open spec fn combinable(a: (A::Model,), b: (A::Model,)) -> bool {
        A::combinable(a.0, b.0)
    }

    fn combine(self, other: Self) -> (r: Self) {
        (self.0.combine(other.0),)
    }

    proof fn lemma_associative(a: (A::Model,), b: (A::Model,), c: (A::Model,)) {
        A::lemma_associative(a.0, b.0, c.0);
    }
}

impl<A: Semigroup, B: Semigroup> Semigroup for (A, B) {
    type Model = (A::Model, B::Model);

    open spec fn model(self) -> (A::Model, B::Model) {
        (self.0.model(), self.1.model())
    }

    open spec fn combine_model(
        a: (A::Model, B::Model),
        b: (A::Model, B::Model),
    ) -> (A::Model, B::Model) {
        (A::combine_model(a.0, b.0), B::combine_model(a.1, b.1))
    }

    open spec fn combinable(a: (A::Model, B::Model), b: (A::Model, B::Model)) -> bool {
        A::combinable(a.0, b.0) && B::combinable(a.1, b.1)
    }

    fn combine(self, other: Self) -> (r: Self) {
        (self.0.combine(other.0), self.1.combine(other.1))
    }

    proof fn lemma_associative(
        a: (A::Model, B::Model),
        b: (A::Model, B::Model),
        c: (A::Model, B::Model),
    ) {
        A::lemma_associative(a.0, b.0, c.0);
        B::lemma_associative(a.1, b.1, c.1);
    }
}

impl<A: Semigroup, B: Semigroup, C: Semigroup> Semigroup for (A, B, C) {
    type Model = (A::Model, B::Model, C::Model);

    open spec fn model(self) -> (A::Model, B::Model, C::Model) {
        (self.0.model(), self.1.model(), self.2.model())
    }

    open spec fn combine_model(
        a: (A::Model, B::Model, C::Model),
        b: (A::Model, B::Model, C::Model),
    ) -> (A::Model, B::Model, C::Model) {
        (A::combine_model(a.0, b.0), B::combine_model(a.1, b.1), C::combine_model(a.2, b.2))
    }

    open spec fn combinable(
        a: (A::Model, B::Model, C::Model),
        b: (A::Model, B::Model, C::Model),
    ) -> bool {
        A::combinable(a.0, b.0) && B::combinable(a.1, b.1) && C::combinable(a.2, b.2)
    }

    fn combine(self, other: Self) -> (r: Self) {
        (self.0.combine(other.0), self.1.combine(other.1), self.2.combine(other.2))
    }

    proof fn lemma_associative(
        a: (A::Model, B::Model, C::Model),
        b: (A::Model, B::Model, C::Model),
        c: (A::Model, B::Model, C::Model),
    ) {
        A::lemma_associative(a.0, b.0, c.0);
        B::lemma_associative(a.1, b.1, c.1);
        C::lemma_associative(a.2, b.2, c.2);
    }
}

impl<A: Semigroup, B: Semigroup, C: Semigroup, D: Semigroup> Semigroup for (A, B, C, D) {
    type Model = (A::Model, B::Model, C::Model, D::Model);

    open spec fn model(self) -> (A::Model, B::Model, C::Model, D::Model) {
        (self.0.model(), self.1.model(), self.2.model(), self.3.model())
    }

    open spec fn combine_model(
        a: (A::Model, B::Model, C::Model, D::Model),
        b: (A::Model, B::Model, C::Model, D::Model),
    ) -> (A::Model, B::Model, C::Model, D::Model) {
        (
            A::combine_model(a.0, b.0),
            B::combine_model(a.1, b.1),
            C::combine_model(a.2, b.2),
            D::combine_model(a.3, b.3),
        )
    }

    open spec fn combinable(
        a: (A::Model, B::Model, C::Model, D::Model),
        b: (A::Model, B::Model, C::Model, D::Model),
    ) -> bool {
        A::combinable(a.0, b.0)
            && B::combinable(a.1, b.1)
            && C::combinable(a.2, b.2)
            && D::combinable(a.3, b.3)
    }

    fn combine(self, other: Self) -> (r: Self) {
        (
            self.0.combine(other.0),
            self.1.combine(other.1),
            self.2.combine(other.2),
            self.3.combine(other.3),
        )
    }

    proof fn lemma_associative(
        a: (A::Model, B::Model, C::Model, D::Model),
        b: (A::Model, B::Model, C::Model, D::Model),
        c: (A::Model, B::Model, C::Model, D::Model),
    ) {
        A::lemma_associative(a.0, b.0, c.0);
        B::lemma_associative(a.1, b.1, c.1);
        C::lemma_associative(a.2, b.2, c.2);
        D::lemma_associative(a.3, b.3, c.3);
    }
}

impl<A: Semigroup, B: Semigroup, C: Semigroup, D: Semigroup, E: Semigroup> Semigroup for (A, B, C, D, E) {
    type Model = (A::Model, B::Model, C::Model, D::Model, E::Model);

    open spec fn model(self) -> (A::Model, B::Model, C::Model, D::Model, E::Model) {
        (self.0.model(), self.1.model(), self.2.model(), self.3.model(), self.4.model())
    }

    open spec fn combine_model(
        a: (A::Model, B::Model, C::Model, D::Model, E::Model),
        b: (A::Model, B::Model, C::Model, D::Model, E::Model),
    ) -> (A::Model, B::Model, C::Model, D::Model, E::Model) {
        (
            A::combine_model(a.0, b.0),
            B::combine_model(a.1, b.1),
            C::combine_model(a.2, b.2),
            D::combine_model(a.3, b.3),
            E::combine_model(a.4, b.4),
        )
    }

    open spec fn combinable(
        a: (A::Model, B::Model, C::Model, D::Model, E::Model),
        b: (A::Model, B::Model, C::Model, D::Model, E::Model),
    ) -> bool {
        A::combinable(a.0, b.0)
            && B::combinable(a.1, b.1)
            && C::combinable(a.2, b.2)
            && D::combinable(a.3, b.3)
            && E::combinable(a.4, b.4)
    }

    fn combine(self, other: Self) -> (r: Self) {
        (
            self.0.combine(other.0),
            self.1.combine(other.1),
            self.2.combine(other.2),
            self.3.combine(other.3),
            self.4.combine(other.4),
        )
    }

    proof fn lemma_associative(
        a: (A::Model, B::Model, C::Model, D::Model, E::Model),
        b: (A::Model, B::Model, C::Model, D::Model, E::Model),
        c: (A::Model, B::Model, C::Model, D::Model, E::Model),
    ) {
        A::lemma_associative(a.0, b.0, c.0);
        B::lemma_associative(a.1, b.1, c.1);
        C::lemma_associative(a.2, b.2, c.2);
        D::lemma_associative(a.3, b.3, c.3);
        E::lemma_associative(a.4, b.4, c.4);
    }
}

impl<
    A: Semigroup,
    B: Semigroup,
    C: Semigroup,
    D: Semigroup,
    E: Semigroup,
    F: Semigroup,
> Semigroup for (A, B, C, D, E, F) {
    type Model = (A::Model, B::Model, C::Model, D::Model, E::Model, F::Model);

    open spec fn model(self) -> (A::Model, B::Model, C::Model, D::Model, E::Model, F::Model) {
        (
            self.0.model(),
            self.1.model(),
            self.2.model(),
            self.3.model(),
            self.4.model(),
            self.5.model(),
        )
    }

    open spec fn combine_model(
        a: (A::Model, B::Model, C::Model, D::Model, E::Model, F::Model),
        b: (A::Model, B::Model, C::Model, D::Model, E::Model, F::Model),
    ) -> (A::Model, B::Model, C::Model, D::Model, E::Model, F::Model) {
        (
            A::combine_model(a.0, b.0),
            B::combine_model(a.1, b.1),
            C::combine_model(a.2, b.2),
            D::combine_model(a.3, b.3),
            E::combine_model(a.4, b.4),
            F::combine_model(a.5, b.5),
        )
    }

    open spec fn combinable(
        a: (A::Model, B::Model, C::Model, D::Model, E::Model, F::Model),
        b: (A::Model, B::Model, C::Model, D::Model, E::Model, F::Model),
    ) -> bool {
        A::combinable(a.0, b.0)
            && B::combinable(a.1, b.1)
            && C::combinable(a.2, b.2)
            && D::combinable(a.3, b.3)
            && E::combinable(a.4, b.4)
            && F::combinable(a.5, b.5)
    }

    fn combine(self, other: Self) -> (r: Self) {
        (
            self.0.combine(other.0),
            self.1.combine(other.1),
            self.2.combine(other.2),
            self.3.combine(other.3),
            self.4.combine(other.4),
            self.5.combine(other.5),
        )
    }

    proof fn lemma_associative(
        a: (A::Model, B::Model, C::Model, D::Model, E::Model, F::Model),
        b: (A::Model, B::Model, C::Model, D::Model, E::Model, F::Model),
        c: (A::Model, B::Model, C::Model, D::Model, E::Model, F::Model),
    ) {
        A::lemma_associative(a.0, b.0, c.0);
        B::lemma_associative(a.1, b.1, c.1);
        C::lemma_associative(a.2, b.2, c.2);
        D::lemma_associative(a.3, b.3, c.3);
        E::lemma_associative(a.4, b.4, c.4);
        F::lemma_associative(a.5, b.5, c.5);
    }
}

impl<
    A: Semigroup,
    B: Semigroup,
    C: Semigroup,
    D: Semigroup,
    E: Semigroup,
    F: Semigroup,
    G: Semigroup,
> Semigroup for (A, B, C, D, E, F, G) {
    type Model = (A::Model, B::Model, C::Model, D::Model, E::Model, F::Model, G::Model);

    open spec fn model(self) -> (
        A::Model,
        B::Model,
        C::Model,
        D::Model,
        E::Model,
        F::Model,
        G::Model,
    ) {
        (
            self.0.model(),
            self.1.model(),
            self.2.model(),
            self.3.model(),
            self.4.model(),
            self.5.model(),
            self.6.model(),
        )
    }

    open spec fn combine_model(
        a: (A::Model, B::Model, C::Model, D::Model, E::Model, F::Model, G::Model),
        b: (A::Model, B::Model, C::Model, D::Model, E::Model, F::Model, G::Model),
    ) -> (A::Model, B::Model, C::Model, D::Model, E::Model, F::Model, G::Model) {
        (
            A::combine_model(a.0, b.0),
            B::combine_model(a.1, b.1),
            C::combine_model(a.2, b.2),
            D::combine_model(a.3, b.3),
            E::combine_model(a.4, b.4),
            F::combine_model(a.5, b.5),
            G::combine_model(a.6, b.6),
        )
    }

    open spec fn combinable(
        a: (A::Model, B::Model, C::Model, D::Model, E::Model, F::Model, G::Model),
        b: (A::Model, B::Model, C::Model, D::Model, E::Model, F::Model, G::Model),
    ) -> bool {
        A::combinable(a.0, b.0)
            && B::combinable(a.1, b.1)
            && C::combinable(a.2, b.2)
            && D::combinable(a.3, b.3)
            && E::combinable(a.4, b.4)
            && F::combinable(a.5, b.5)
            && G::combinable(a.6, b.6)
    }

    fn combine(self, other: Self) -> (r: Self) {
        (
            self.0.combine(other.0),
            self.1.combine(other.1),
            self.2.combine(other.2),
            self.3.combine(other.3),
            self.4.combine(other.4),
            self.5.combine(other.5),
            self.6.combine(other.6),
        )
    }

    proof fn lemma_associative(
        a: (A::Model, B::Model, C::Model, D::Model, E::Model, F::Model, G::Model),
        b: (A::Model, B::Model, C::Model, D::Model, E::Model, F::Model, G::Model),
        c: (A::Model, B::Model, C::Model, D::Model, E::Model, F::Model, G::Model),
    ) {
        A::lemma_associative(a.0, b.0, c.0);
        B::lemma_associative(a.1, b.1, c.1);
        C::lemma_associative(a.2, b.2, c.2);
        D::lemma_associative(a.3, b.3, c.3);
        E::lemma_associative(a.4, b.4, c.4);
        F::lemma_associative(a.5, b.5, c.5);
        G::lemma_associative(a.6, b.6, c.6);
    }
}

impl<
    A: Semigroup,
    B: Semigroup,
    C: Semigroup,
    D: Semigroup,
    E: Semigroup,
    F: Semigroup,
    G: Semigroup,
    H: Semigroup,
> Semigroup for (A, B, C, D, E, F, G, H) {
    type Model = (
        A::Model,
        B::Model,
        C::Model,
        D::Model,
        E::Model,
        F::Model,
        G::Model,
        H::Model,
    );

    open spec fn model(self) -> (
        A::Model,
        B::Model,
        C::Model,
        D::Model,
        E::Model,
        F::Model,
        G::Model,
        H::Model,
    ) {
        (
            self.0.model(),
            self.1.model(),
            self.2.model(),
            self.3.model(),
            self.4.model(),
            self.5.model(),
            self.6.model(),
            self.7.model(),
        )
    }

    open spec fn combine_model(
        a: (A::Model, B::Model, C::Model, D::Model, E::Model, F::Model, G::Model, H::Model),
        b: (A::Model, B::Model, C::Model, D::Model, E::Model, F::Model, G::Model, H::Model),
    ) -> (A::Model, B::Model, C::Model, D::Model, E::Model, F::Model, G::Model, H::Model) {
        (
            A::combine_model(a.0, b.0),
            B::combine_model(a.1, b.1),
            C::combine_model(a.2, b.2),
            D::combine_model(a.3, b.3),
            E::combine_model(a.4, b.4),
            F::combine_model(a.5, b.5),
            G::combine_model(a.6, b.6),
            H::combine_model(a.7, b.7),
        )
    }

    open spec fn combinable(
        a: (A::Model, B::Model, C::Model, D::Model, E::Model, F::Model, G::Model, H::Model),
        b: (A::Model, B::Model, C::Model, D::Model, E::Model, F::Model, G::Model, H::Model),
    ) -> bool {
        A::combinable(a.0, b.0)
            && B::combinable(a.1, b.1)
            && C::combinable(a.2, b.2)
            && D::combinable(a.3, b.3)
            && E::combinable(a.4, b.4)
            && F::combinable(a.5, b.5)
            && G::combinable(a.6, b.6)
            && H::combinable(a.7, b.7)
    }

    fn combine(self, other: Self) -> (r: Self) {
        (
            self.0.combine(other.0),
            self.1.combine(other.1),
            self.2.combine(other.2),
            self.3.combine(other.3),
            self.4.combine(other.4),
            self.5.combine(other.5),
            self.6.combine(other.6),
            self.7.combine(other.7),
        )
    }

    proof fn lemma_associative(
        a: (A::Model, B::Model, C::Model, D::Model, E::Model, F::Model, G::Model, H::Model),
        b: (A::Model, B::Model, C::Model, D::Model, E::Model, F::Model, G::Model, H::Model),
        c: (A::Model, B::Model, C::Model, D::Model, E::Model, F::Model, G::Model, H::Model),
    ) {
        A::lemma_associative(a.0, b.0, c.0);
        B::lemma_associative(a.1, b.1, c.1);
        C::lemma_associative(a.2, b.2, c.2);
        D::lemma_associative(a.3, b.3, c.3);
        E::lemma_associative(a.4, b.4, c.4);
        F::lemma_associative(a.5, b.5, c.5);
        G::lemma_associative(a.6, b.6, c.6);
        H::lemma_associative(a.7, b.7, c.7);
    }
}

impl<
    A: Semigroup,
    B: Semigroup,
    C: Semigroup,
    D: Semigroup,
    E: Semigroup,
    F: Semigroup,
    G: Semigroup,
    H: Semigroup,
    I: Semigroup,
> Semigroup for (A, B, C, D, E, F, G, H, I) {
    type Model = (
        A::Model,
        B::Model,
        C::Model,
        D::Model,
        E::Model,
        F::Model,
        G::Model,
        H::Model,
        I::Model,
    );

    open spec fn model(self) -> (
        A::Model,
        B::Model,
        C::Model,
        D::Model,
        E::Model,
        F::Model,
        G::Model,
        H::Model,
        I::Model,
    ) {
        (
            self.0.model(),
            self.1.model(),
            self.2.model(),
            self.3.model(),
            self.4.model(),
            self.5.model(),
            self.6.model(),
            self.7.model(),
            self.8.model(),
        )
    }

    open spec fn combine_model(
        a: (
            A::Model,
            B::Model,
            C::Model,
            D::Model,
            E::Model,
            F::Model,
            G::Model,
            H::Model,
            I::Model,
        ),
        b: (
            A::Model,
            B::Model,
            C::Model,
            D::Model,
            E::Model,
            F::Model,
            G::Model,
            H::Model,
            I::Model,
        ),
    ) -> (
        A::Model,
        B::Model,
        C::Model,
        D::Model,
        E::Model,
        F::Model,
        G::Model,
        H::Model,
        I::Model,
    ) {
        (
            A::combine_model(a.0, b.0),
            B::combine_model(a.1, b.1),
            C::combine_model(a.2, b.2),
            D::combine_model(a.3, b.3),
            E::combine_model(a.4, b.4),
            F::combine_model(a.5, b.5),
            G::combine_model(a.6, b.6),
            H::combine_model(a.7, b.7),
            I::combine_model(a.8, b.8),
        )
    }

    open spec fn combinable(
        a: (
            A::Model,
            B::Model,
            C::Model,
            D::Model,
            E::Model,
            F::Model,
            G::Model,
            H::Model,
            I::Model,
        ),
        b: (
            A::Model,
            B::Model,
            C::Model,
            D::Model,
            E::Model,
            F::Model,
            G::Model,
            H::Model,
            I::Model,
        ),
    ) -> bool {
        A::combinable(a.0, b.0)
            && B::combinable(a.1, b.1)
            && C::combinable(a.2, b.2)
            && D::combinable(a.3, b.3)
            && E::combinable(a.4, b.4)
            && F::combinable(a.5, b.5)
            && G::combinable(a.6, b.6)
            && H::combinable(a.7, b.7)
            && I::combinable(a.8, b.8)
    }

    fn combine(self, other: Self) -> (r: Self) {
        (
            self.0.combine(other.0),
            self.1.combine(other.1),
            self.2.combine(other.2),
            self.3.combine(other.3),
            self.4.combine(other.4),
            self.5.combine(other.5),
            self.6.combine(other.6),
            self.7.combine(other.7),
            self.8.combine(other.8),
        )
    }

    proof fn lemma_associative(
        a: (
            A::Model,
            B::Model,
            C::Model,
            D::Model,
            E::Model,
            F::Model,
            G::Model,
            H::Model,
            I::Model,
        ),
        b: (
            A::Model,
            B::Model,
            C::Model,
            D::Model,
            E::Model,
            F::Model,
            G::Model,
            H::Model,
            I::Model,
        ),
        c: (
            A::Model,
            B::Model,
            C::Model,
            D::Model,
            E::Model,
            F::Model,
            G::Model,
            H::Model,
            I::Model,
        ),
    ) {
        A::lemma_associative(a.0, b.0, c.0);
        B::lemma_associative(a.1, b.1, c.1);
        C::lemma_associative(a.2, b.2, c.2);
        D::lemma_associative(a.3, b.3, c.3);
        E::lemma_associative(a.4, b.4, c.4);
        F::lemma_associative(a.5, b.5, c.5);
        G::lemma_associative(a.6, b.6, c.6);
        H::lemma_associative(a.7, b.7, c.7);
        I::lemma_associative(a.8, b.8, c.8);
    }
}

impl<
    A: Semigroup,
    B: Semigroup,
    C: Semigroup,
    D: Semigroup,
    E: Semigroup,
    F: Semigroup,
    G: Semigroup,
    H: Semigroup,
    I: Semigroup,
    J: Semigroup,
> Semigroup for (A, B, C, D, E, F, G, H, I, J) {
    type Model = (
        A::Model,
        B::Model,
        C::Model,
        D::Model,
        E::Model,
        F::Model,
        G::Model,
        H::Model,
        I::Model,
        J::Model,
    );

    open spec fn model(self) -> (
        A::Model,
        B::Model,
        C::Model,
        D::Model,
        E::Model,
        F::Model,
        G::Model,
        H::Model,
        I::Model,
        J::Model,
    ) {
        (
            self.0.model(),
            self.1.model(),
            self.2.model(),
            self.3.model(),
            self.4.model(),
            self.5.model(),
            self.6.model(),
            self.7.model(),
            self.8.model(),
            self.9.model(),
        )
    }

    open spec fn combine_model(
        a: (
            A::Model,
            B::Model,
            C::Model,
            D::Model,
            E::Model,
            F::Model,
            G::Model,
            H::Model,
            I::Model,
            J::Model,
        ),
        b: (
            A::Model,
            B::Model,
            C::Model,
            D::Model,
            E::Model,
            F::Model,
            G::Model,
            H::Model,
            I::Model,
            J::Model,
        ),
    ) -> (
        A::Model,
        B::Model,
        C::Model,
        D::Model,
        E::Model,
        F::Model,
        G::Model,
        H::Model,
        I::Model,
        J::Model,
    ) {
        (
            A::combine_model(a.0, b.0),
            B::combine_model(a.1, b.1),
            C::combine_model(a.2, b.2),
            D::combine_model(a.3, b.3),
            E::combine_model(a.4, b.4),
            F::combine_model(a.5, b.5),
            G::combine_model(a.6, b.6),
            H::combine_model(a.7, b.7),
            I::combine_model(a.8, b.8),
            J::combine_model(a.9, b.9),
        )
    }

    open spec fn combinable(
        a: (
            A::Model,
            B::Model,
            C::Model,
            D::Model,
            E::Model,
            F::Model,
            G::Model,
            H::Model,
            I::Model,
            J::Model,
        ),
        b: (
            A::Model,
            B::Model,
            C::Model,
            D::Model,
            E::Model,
            F::Model,
            G::Model,
            H::Model,
            I::Model,
            J::Model,
        ),
    ) -> bool {
        A::combinable(a.0, b.0)
            && B::combinable(a.1, b.1)
            && C::combinable(a.2, b.2)
            && D::combinable(a.3, b.3)
            && E::combinable(a.4, b.4)
            && F::combinable(a.5, b.5)
            && G::combinable(a.6, b.6)
            && H::combinable(a.7, b.7)
            && I::combinable(a.8, b.8)
            && J::combinable(a.9, b.9)
    }

    fn combine(self, other: Self) -> (r: Self) {
        (
            self.0.combine(other.0),
            self.1.combine(other.1),
            self.2.combine(other.2),
            self.3.combine(other.3),
            self.4.combine(other.4),
            self.5.combine(other.5),
            self.6.combine(other.6),
            self.7.combine(other.7),
            self.8.combine(other.8),
            self.9.combine(other.9),
        )
    }

    proof fn lemma_associative(
        a: (
            A::Model,
            B::Model,
            C::Model,
            D::Model,
            E::Model,
            F::Model,
            G::Model,
            H::Model,
            I::Model,
            J::Model,
        ),
        b: (
            A::Model,
            B::Model,
            C::Model,
            D::Model,
            E::Model,
            F::Model,
            G::Model,
            H::Model,
            I::Model,
            J::Model,
        ),
        c: (
            A::Model,
            B::Model,
            C::Model,
            D::Model,
            E::Model,
            F::Model,
            G::Model,
            H::Model,
            I::Model,
            J::Model,
        ),
    ) {
        A::lemma_associative(a.0, b.0, c.0);
        B::lemma_associative(a.1, b.1, c.1);
        C::lemma_associative(a.2, b.2, c.2);
        D::lemma_associative(a.3, b.3, c.3);
        E::lemma_associative(a.4, b.4, c.4);
        F::lemma_associative(a.5, b.5, c.5);
        G::lemma_associative(a.6, b.6, c.6);
        H::lemma_associative(a.7, b.7, c.7);
        I::lemma_associative(a.8, b.8, c.8);
        J::lemma_associative(a.9, b.9, c.9);
    }
}

impl<
    A: Semigroup,
    B: Semigroup,
    C: Semigroup,
    D: Semigroup,
    E: Semigroup,
    F: Semigroup,
    G: Semigroup,
    H: Semigroup,
    I: Semigroup,
    J: Semigroup,
    K: Semigroup,
> Semigroup for (A, B, C, D, E, F, G, H, I, J, K) {
    type Model = (
        A::Model,
        B::Model,
        C::Model,
        D::Model,
        E::Model,
        F::Model,
        G::Model,
        H::Model,
        I::Model,
        J::Model,
        K::Model,
    );

    open spec fn model(self) -> (
        A::Model,
        B::Model,
        C::Model,
        D::Model,
        E::Model,
        F::Model,
        G::Model,
        H::Model,
        I::Model,
        J::Model,
        K::Model,
    ) {
        (
            self.0.model(),
            self.1.model(),
            self.2.model(),
            self.3.model(),
            self.4.model(),
            self.5.model(),
            self.6.model(),
            self.7.model(),
            self.8.model(),
            self.9.model(),
            self.10.model(),
        )
    }

    open spec fn combine_model(
        a: (
            A::Model,
            B::Model,
            C::Model,
            D::Model,
            E::Model,
            F::Model,
            G::Model,
            H::Model,
            I::Model,
            J::Model,
            K::Model,
        ),
        b: (
            A::Model,
            B::Model,
            C::Model,
            D::Model,
            E::Model,
            F::Model,
            G::Model,
            H::Model,
            I::Model,
            J::Model,
            K::Model,
        ),
    ) -> (
        A::Model,
        B::Model,
        C::Model,
        D::Model,
        E::Model,
        F::Model,
        G::Model,
        H::Model,
        I::Model,
        J::Model,
        K::Model,
    ) {
        (
            A::combine_model(a.0, b.0),
            B::combine_model(a.1, b.1),
            C::combine_model(a.2, b.2),
            D::combine_model(a.3, b.3),
            E::combine_model(a.4, b.4),
            F::combine_model(a.5, b.5),
            G::combine_model(a.6, b.6),
            H::combine_model(a.7, b.7),
            I::combine_model(a.8, b.8),
            J::combine_model(a.9, b.9),
            K::combine_model(a.10, b.10),
        )
    }

    open spec fn combinable(
        a: (
            A::Model,
            B::Model,
            C::Model,
            D::Model,
            E::Model,
            F::Model,
            G::Model,
            H::Model,
            I::Model,
            J::Model,
            K::Model,
        ),
        b: (
            A::Model,
            B::Model,
            C::Model,
            D::Model,
            E::Model,
            F::Model,
            G::Model,
            H::Model,
            I::Model,
            J::Model,
            K::Model,
        ),
    ) -> bool {
        A::combinable(a.0, b.0)
            && B::combinable(a.1, b.1)
            && C::combinable(a.2, b.2)
            && D::combinable(a.3, b.3)
            && E::combinable(a.4, b.4)
            && F::combinable(a.5, b.5)
            && G::combinable(a.6, b.6)
            && H::combinable(a.7, b.7)
            && I::combinable(a.8, b.8)
            && J::combinable(a.9, b.9)
            && K::combinable(a.10, b.10)
    }

    fn combine(self, other: Self) -> (r: Self) {
        (
            self.0.combine(other.0),
            self.1.combine(other.1),
            self.2.combine(other.2),
            self.3.combine(other.3),
            self.4.combine(other.4),
            self.5.combine(other.5),
            self.6.combine(other.6),
            self.7.combine(other.7),
            self.8.combine(other.8),
            self.9.combine(other.9),
            self.10.combine(other.10),
        )
    }

    proof fn lemma_associative(
        a: (
            A::Model,
            B::Model,
            C::Model,
            D::Model,
            E::Model,
            F::Model,
            G::Model,
            H::Model,
            I::Model,
            J::Model,
            K::Model,
        ),
        b: (
            A::Model,
            B::Model,
            C::Model,
            D::Model,
            E::Model,
            F::Model,
            G::Model,
            H::Model,
            I::Model,
            J::Model,
            K::Model,
        ),
        c: (
            A::Model,
            B::Model,
            C::Model,
            D::Model,
            E::Model,
            F::Model,
            G::Model,
            H::Model,
            I::Model,
            J::Model,
            K::Model,
        ),
    ) {
        A::lemma_associative(a.0, b.0, c.0);
        B::lemma_associative(a.1, b.1, c.1);
        C::lemma_associative(a.2, b.2, c.2);
        D::lemma_associative(a.3, b.3, c.3);
        E::lemma_associative(a.4, b.4, c.4);
        F::lemma_associative(a.5, b.5, c.5);
        G::lemma_associative(a.6, b.6, c.6);
        H::lemma_associative(a.7, b.7, c.7);
        I::lemma_associative(a.8, b.8, c.8);
        J::lemma_associative(a.9, b.9, c.9);
        K::lemma_associative(a.10, b.10, c.10);
    }
}

impl<
    A: Semigroup,
    B: Semigroup,
    C: Semigroup,
    D: Semigroup,
    E: Semigroup,
    F: Semigroup,
    G: Semigroup,
    H: Semigroup,
    I: Semigroup,
    J: Semigroup,
    K: Semigroup,
    L: Semigroup,
> Semigroup for (A, B, C, D, E, F, G, H, I, J, K, L) {
    type Model = (
        A::Model,
        B::Model,
        C::Model,
        D::Model,
        E::Model,
        F::Model,
        G::Model,
        H::Model,
        I::Model,
        J::Model,
        K::Model,
        L::Model,
    );

    open spec fn model(self) -> (
        A::Model,
        B::Model,
        C::Model,
        D::Model,
        E::Model,
        F::Model,
        G::Model,
        H::Model,
        I::Model,
        J::Model,
        K::Model,
        L::Model,
    ) {
        (
            self.0.model(),
            self.1.model(),
            self.2.model(),
            self.3.model(),
            self.4.model(),
            self.5.model(),
            self.6.model(),
            self.7.model(),
            self.8.model(),
            self.9.model(),
            self.10.model(),
            self.11.model(),
        )
    }

    open spec fn combine_model(
        a: (
            A::Model,
            B::Model,
            C::Model,
            D::Model,
            E::Model,
            F::Model,
            G::Model,
            H::Model,
            I::Model,
            J::Model,
            K::Model,
            L::Model,
        ),
        b: (
            A::Model,
            B::Model,
            C::Model,
            D::Model,
            E::Model,
            F::Model,
            G::Model,
            H::Model,
            I::Model,
            J::Model,
            K::Model,
            L::Model,
        ),
    ) -> (
        A::Model,
        B::Model,
        C::Model,
        D::Model,
        E::Model,
        F::Model,
        G::Model,
        H::Model,
        I::Model,
        J::Model,
        K::Model,
        L::Model,
    ) {
        (
            A::combine_model(a.0, b.0),
            B::combine_model(a.1, b.1),
            C::combine_model(a.2, b.2),
            D::combine_model(a.3, b.3),
            E::combine_model(a.4, b.4),
            F::combine_model(a.5, b.5),
            G::combine_model(a.6, b.6),
            H::combine_model(a.7, b.7),
            I::combine_model(a.8, b.8),
            J::combine_model(a.9, b.9),
            K::combine_model(a.10, b.10),
            L::combine_model(a.11, b.11),
        )
    }

    open spec fn combinable(
        a: (
            A::Model,
            B::Model,
            C::Model,
            D::Model,
            E::Model,
            F::Model,
            G::Model,
            H::Model,
            I::Model,
            J::Model,
            K::Model,
            L::Model,
        ),
        b: (
            A::Model,
            B::Model,
            C::Model,
            D::Model,
            E::Model,
            F::Model,
            G::Model,
            H::Model,
            I::Model,
            J::Model,
            K::Model,
            L::Model,
        ),
    ) -> bool {
        A::combinable(a.0, b.0)
            && B::combinable(a.1, b.1)
            && C::combinable(a.2, b.2)
            && D::combinable(a.3, b.3)
            && E::combinable(a.4, b.4)
            && F::combinable(a.5, b.5)
            && G::combinable(a.6, b.6)
            && H::combinable(a.7, b.7)
            && I::combinable(a.8, b.8)
            && J::combinable(a.9, b.9)
            && K::combinable(a.10, b.10)
            && L::combinable(a.11, b.11)
    }

    fn combine(self, other: Self) -> (r: Self) {
        (
            self.0.combine(other.0),
            self.1.combine(other.1),
            self.2.combine(other.2),
            self.3.combine(other.3),
            self.4.combine(other.4),
            self.5.combine(other.5),
            self.6.combine(other.6),
            self.7.combine(other.7),
            self.8.combine(other.8),
            self.9.combine(other.9),
            self.10.combine(other.10),
            self.11.combine(other.11),
        )
    }

    proof fn lemma_associative(
        a: (
            A::Model,
            B::Model,
            C::Model,
            D::Model,
            E::Model,
            F::Model,
            G::Model,
            H::Model,
            I::Model,
            J::Model,
            K::Model,
            L::Model,
        ),
        b: (
            A::Model,
            B::Model,
            C::Model,
            D::Model,
            E::Model,
            F::Model,
            G::Model,
            H::Model,
            I::Model,
            J::Model,
            K::Model,
            L::Model,
        ),
        c: (
            A::Model,
            B::Model,
            C::Model,
            D::Model,
            E::Model,
            F::Model,
            G::Model,
            H::Model,
            I::Model,
            J::Model,
            K::Model,
            L::Model,
        ),
    ) {
        A::lemma_associative(a.0, b.0, c.0);
        B::lemma_associative(a.1, b.1, c.1);
        C::lemma_associative(a.2, b.2, c.2);
        D::lemma_associative(a.3, b.3, c.3);
        E::lemma_associative(a.4, b.4, c.4);
        F::lemma_associative(a.5, b.5, c.5);
        G::lemma_associative(a.6, b.6, c.6);
        H::lemma_associative(a.7, b.7, c.7);
        I::lemma_associative(a.8, b.8, c.8);
        J::lemma_associative(a.9, b.9, c.9);
        K::lemma_associative(a.10, b.10, c.10);
        L::lemma_associative(a.11, b.11, c.11);
    }
}

} // verus!
