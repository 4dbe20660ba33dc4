//! Error handling that collects errors.
//!
//! [`Validated`] has the form of [`Result`]: `Valid` holds a value and
//! `Invalid` holds an error. It differs where two of them are paired: when
//! both are invalid the two errors are combined, and neither is dropped. It
//! is therefore an applicative functor and no monad.
use crate::and_then::AndThen;
use crate::apply::Apply;
use crate::bifunctor::Bifunctor;
use crate::functor::Functor;
use crate::higher::{Higher, Higher2, Retarget, Retarget2};
use crate::invariant_functor::Invariant;
use crate::pure::Pure;
use crate::semigroup::Semigroup;
use crate::semigroupal::Semigroupal;
use vstd::prelude::*;

verus! {

/// Either a valid value or an error.
#[derive(Copy, PartialEq, PartialOrd, Eq, Ord, Debug, Hash)]
pub enum Validated<T, E> {
    /// Holds a valid value.
    Valid(T),
    /// Holds an error.
    Invalid(E),
}

pub use Validated::{Invalid, Valid};

impl<T: Clone, E: Clone> Clone for Validated<T, E> {
    /// A clone of what this holds, in the same variant.
    fn clone(&self) -> (r: Self)
        ensures
            match *self {
                Valid(x) => r matches Valid(y) && cloned(x, y),
                Invalid(x) => r matches Invalid(y) && cloned(x, y),
            },
    {
        match self {
            Valid(x) => Valid(x.clone()),
            Invalid(x) => Invalid(x.clone()),
        }
    }
}

impl<T, E> Validated<T, E> {
    /// Tells whether this holds a valid value.
    pub fn is_valid(&self) -> (b: bool)
        ensures
            b == (*self is Valid),
    {
        match self {
            Valid(_) => true,
            Invalid(_) => false,
        }
    }

    /// Tells whether this holds an error.
    pub fn is_invalid(&self) -> (b: bool)
        ensures
            b == (*self is Invalid),
    {
        !self.is_valid()
    }

    /// The valid value, if there is one; the error is dropped.
    pub fn valid(self) -> (r: Option<T>)
        ensures
            r == match self {
                Valid(x) => Some(x),
                Invalid(_) => None,
            },
    {
        match self {
            Valid(x) => Some(x),
            Invalid(_) => None,
        }
    }

    /// The error, if there is one; the valid value is dropped.
    pub fn invalid(self) -> (r: Option<E>)
        ensures
            r == match self {
                Valid(_) => None,
                Invalid(x) => Some(x),
            },
    {
        match self {
            Valid(_) => None,
            Invalid(x) => Some(x),
        }
    }

    /// The same as a `Result`: `Valid` becomes `Ok`, `Invalid` becomes `Err`.
    pub fn into_result(self) -> (r: Result<T, E>)
        ensures
            r == match self {
                Valid(x) => Ok::<T, E>(x),
                Invalid(x) => Err::<T, E>(x),
            },
    {
        match self {
            Valid(x) => Ok(x),
            Invalid(x) => Err(x),
        }
    }

    /// Borrows what this holds.
    pub fn as_ref(&self) -> (r: Validated<&T, &E>)
        ensures
            r == match *self {
                Valid(x) => Valid::<&T, &E>(&x),
                Invalid(x) => Invalid::<&T, &E>(&x),
            },
    {
        match self {
            Valid(x) => Valid(x),
            Invalid(x) => Invalid(x),
        }
    }

    /// Applies `f` to the valid value; an error is left as it is.
    pub fn map<U, F: FnOnce(T) -> U>(self, f: F) -> (r: Validated<U, E>)
        requires
            self matches Valid(x) ==> f.requires((x,)),
        ensures
            match self {
                Valid(x) => r matches Valid(y) && f.ensures((x,), y),
                Invalid(e) => r == Invalid::<U, E>(e),
            },
    {
        match self {
            Valid(x) => Valid(f(x)),
            Invalid(x) => Invalid(x),
        }
    }

    /// What `f` returns for the valid value, or `default` if this holds an
    /// error.
    pub fn map_or<U, F: FnOnce(T) -> U>(self, default: U, f: F) -> (r: U)
        requires
            self matches Valid(x) ==> f.requires((x,)),
        ensures
            match self {
                Valid(x) => f.ensures((x,), r),
                Invalid(_) => r == default,
            },
    {
        match self {
            Valid(x) => f(x),
            Invalid(_) => default,
        }
    }

    /// What `f` returns for the valid value, or what `default` returns for
    /// the error.
    pub fn map_or_else<U, D: FnOnce(E) -> U, F: FnOnce(T) -> U>(self, default: D, f: F) -> (r: U)
        requires
            self matches Valid(x) ==> f.requires((x,)),
            self matches Invalid(e) ==> default.requires((e,)),
        ensures
            match self {
                Valid(x) => f.ensures((x,), r),
                Invalid(e) => default.ensures((e,), r),
            },
    {
        match self {
            Valid(x) => f(x),
            Invalid(x) => default(x),
        }
    }

    /// Applies `f` to the error; a valid value is left as it is.
    pub fn map_err<U, F: FnOnce(E) -> U>(self, f: F) -> (r: Validated<T, U>)
        requires
            self matches Invalid(e) ==> f.requires((e,)),
        ensures
            match self {
                Valid(x) => r == Valid::<T, U>(x),
                Invalid(e) => r matches Invalid(y) && f.ensures((e,), y),
            },
    {
        match self {
            Valid(x) => Valid(x),
            Invalid(x) => Invalid(f(x)),
        }
    }

    /// The valid value. The error of an invalid value is not looked at: the
    /// caller shows that there is none.
    pub fn expect(self, msg: &str) -> (r: T)
        requires
            self is Valid,
        ensures
            self == Valid::<T, E>(r),
    {
        match self {
            Valid(x) => x,
            Invalid(_) => vstd::pervasive::unreached(),
        }
    }

    /// The valid value, where the caller shows that there is one.
    pub fn unwrap(self) -> (r: T)
        requires
            self is Valid,
        ensures
            self == Valid::<T, E>(r),
    {
        match self {
            Valid(x) => x,
            Invalid(_) => vstd::pervasive::unreached(),
        }
    }

    /// The valid value, or the default of its type if this holds an error.
    pub fn unwrap_or_default(self) -> (r: T) where T: Default
        ensures
            match self {
                Valid(x) => r == x,
                Invalid(_) => T::default.ensures((), r),
            },
    {
        match self {
            Valid(x) => x,
            Invalid(_) => T::default(),
        }
    }

    /// The error, where the caller shows that there is one.
    pub fn expect_err(self, msg: &str) -> (r: E)
        requires
            self is Invalid,
        ensures
            self == Invalid::<T, E>(r),
    {
        match self {
            Valid(_) => vstd::pervasive::unreached(),
            Invalid(x) => x,
        }
    }

    /// The error, where the caller shows that there is one.
    pub fn unwrap_err(self) -> (r: E)
        requires
            self is Invalid,
        ensures
            self == Invalid::<T, E>(r),
    {
        match self {
            Valid(_) => vstd::pervasive::unreached(),
            Invalid(x) => x,
        }
    }

    /// `other` if this is valid, else the error of this.
    pub fn and<U>(self, other: Validated<U, E>) -> (r: Validated<U, E>)
        ensures
            r == match self {
                Valid(_) => other,
                Invalid(e) => Invalid::<U, E>(e),
            },
    {
        match self {
            Valid(_) => other,
            Invalid(x) => Invalid(x),
        }
    }

    /// What `f` returns for the valid value, else the error of this. It
    /// stops at the first error.
    pub fn and_then<U, F: FnOnce(T) -> Validated<U, E>>(self, f: F) -> (r: Validated<U, E>)
        requires
            self matches Valid(x) ==> f.requires((x,)),
        ensures
            match self {
                Valid(x) => f.ensures((x,), r),
                Invalid(e) => r == Invalid::<U, E>(e),
            },
    {
        match self {
            Valid(x) => f(x),
            Invalid(x) => Invalid(x),
        }
    }

    /// This if it is valid, else `other`.
    pub fn or<U>(self, other: Validated<T, U>) -> (r: Validated<T, U>)
        ensures
            r == match self {
                Valid(x) => Valid::<T, U>(x),
                Invalid(_) => other,
            },
    {
        match self {
            Valid(x) => Valid(x),
            Invalid(_) => other,
        }
    }

    /// This if it is valid, else what `f` returns for the error.
    pub fn or_else<U, F: FnOnce(E) -> Validated<T, U>>(self, f: F) -> (r: Validated<T, U>)
        requires
            self matches Invalid(e) ==> f.requires((e,)),
        ensures
            match self {
                Valid(x) => r == Valid::<T, U>(x),
                Invalid(e) => f.ensures((e,), r),
            },
    {
        match self {
            Valid(x) => Valid(x),
            Invalid(x) => f(x),
        }
    }

    /// The valid value, or `default` if this holds an error.
    pub fn unwrap_or(self, default: T) -> (r: T)
        ensures
            r == match self {
                Valid(x) => x,
                Invalid(_) => default,
            },
    {
        match self {
            Valid(x) => x,
            Invalid(_) => default,
        }
    }

    /// The valid value, or what `f` returns for the error.
    pub fn unwrap_or_else<F: FnOnce(E) -> T>(self, f: F) -> (r: T)
        requires
            self matches Invalid(e) ==> f.requires((e,)),
        ensures
            match self {
                Valid(x) => r == x,
                Invalid(e) => f.ensures((e,), r),
            },
    {
        match self {
            Valid(x) => x,
            Invalid(x) => f(x),
        }
    }

    /// Borrows what this holds, for writing. What is written through the
    /// result is written into this.
    pub fn as_mut(&mut self) -> (r: Validated<&mut T, &mut E>)
        ensures
            match *old(self) {
                Valid(x) => r matches Valid(y) && *y == x && *final(self) == Valid::<T, E>(*final(y)),
                Invalid(x) => r matches Invalid(y) && *y == x && *final(self) == Invalid::<T, E>(
                    *final(y),
                ),
            },
    {
        match self {
            Valid(x) => Valid(x),
            Invalid(x) => Invalid(x),
        }
    }

    /// Borrows what the valid value dereferences to, and the error.
    pub fn as_deref(&self) -> (r: Validated<&T::Target, &E>) where T: core::ops::Deref
        ensures
            match *self {
                Valid(x) => r matches Valid(y) && T::deref.ensures((&x,), y),
                Invalid(e) => r == Invalid::<&T::Target, &E>(&e),
            },
    {
        match self {
            Valid(x) => Valid(x.deref()),
            Invalid(x) => Invalid(x),
        }
    }

    /// Borrows what the valid value dereferences to, and the error, for
    /// writing.
    pub fn as_deref_mut(&mut self) -> (r: Validated<&mut T::Target, &mut E>) where
        T: core::ops::DerefMut,

        ensures
            match *old(self) {
                Valid(_) => r is Valid,
                Invalid(e) => r matches Invalid(y) && *y == e && *final(self) == Invalid::<T, E>(
                    *final(y),
                ),
            },
    {
        match self {
            Valid(x) => Valid(x.deref_mut()),
            Invalid(x) => Invalid(x),
        }
    }
}

impl<A, E> Higher for Validated<A, E> {
    type Param = A;

    type Shape = Option<E>;

    open spec fn shape(self) -> Option<E> {
        match self {
            Valid(_) => None,
            Invalid(e) => Some(e),
        }
    }

    open spec fn items(self) -> Seq<A> {
        match self {
            Valid(a) => seq![a],
            Invalid(_) => Seq::empty(),
        }
    }
}

impl<A, E, T> Retarget<T> for Validated<A, E> {
    type Target = Validated<T, E>;
}

impl<A, E> Higher2 for Validated<A, E> {
    type Param1 = A;

    type Param2 = E;

    type Shape2 = bool;

    open spec fn shape2(self) -> bool {
        self is Valid
    }

    open spec fn firsts(self) -> Seq<A> {
        match self {
            Valid(a) => seq![a],
            Invalid(_) => Seq::empty(),
        }
    }

    open spec fn seconds(self) -> Seq<E> {
        match self {
            Valid(_) => Seq::empty(),
            Invalid(e) => seq![e],
        }
    }
}

impl<A, E, T1, T2> Retarget2<T1, T2> for Validated<A, E> {
    type Target = Validated<T1, T2>;
}

/// Values of `Validated` are equal when they agree in shape and items.
pub proof fn lemma_same_validated<A, E>(x: Validated<A, E>, y: Validated<A, E>)
    requires
        crate::higher::same(x, y),
    ensures
        x == y,
{
    if x is Valid {
        assert(x.items()[0] == y.items()[0]);
    }
}

impl<A, B, E> Invariant<B> for Validated<A, E> {
    fn imap<F, G>(self, mut f: F, g: G) -> (r: Validated<B, E>) where
        F: FnMut(A) -> B,
        G: FnMut(B) -> A,
     {
        match self {
            Valid(a) => {
                assert(self.items()[0] == a);
                let b = f(a);
                let r = Valid(b);
                assert(r.items()[0] == b);
                r
            },
            Invalid(e) => Invalid(e),
        }
    }
}

impl<A, B, E> Functor<B> for Validated<A, E> {
    fn map<F: FnMut(A) -> B>(self, mut f: F) -> (r: Validated<B, E>) {
        match self {
            Valid(a) => {
                assert(self.items()[0] == a);
                let b = f(a);
                let r = Valid(b);
                assert(r.items()[0] == b);
                r
            },
            Invalid(e) => Invalid(e),
        }
    }
}

impl<A, B, E: Semigroup> Semigroupal<B> for Validated<A, E> {
    /// Two errors must be combinable.
    open spec fn product_requires(self, fb: Validated<B, E>) -> bool {
        self matches Invalid(l) && fb matches Invalid(r) ==> E::combinable(l.model(), r.model())
    }

    /// The pair is there if both values are. Two errors are combined, the
    /// left one first; one error alone is kept.
    open spec fn product_ensures(self, fb: Validated<B, E>, r: Validated<(A, B), E>) -> bool {
        match (self, fb) {
            (Valid(a), Valid(b)) => r == Valid::<(A, B), E>((a, b)),
            (Invalid(lhs), Invalid(rhs)) => r matches Invalid(e) && e.model() == E::combine_model(
                lhs.model(),
                rhs.model(),
            ),
            (Invalid(e), Valid(_)) => r == Invalid::<(A, B), E>(e),
            (Valid(_), Invalid(e)) => r == Invalid::<(A, B), E>(e),
        }
    }

    fn product(self, fb: Validated<B, E>) -> (r: Validated<(A, B), E>) {
        match (self, fb) {
            (Valid(a), Valid(b)) => Valid((a, b)),
            (Invalid(lhs), Invalid(rhs)) => Invalid(lhs.combine(rhs)),
            (Invalid(e), Valid(_)) => Invalid(e),
            (Valid(_), Invalid(e)) => Invalid(e),
        }
    }
}

impl<F, A, B, E: Semigroup> Apply<A, B> for Validated<F, E> {
    /// The function must accept the value, and two errors must be
    /// combinable.
    open spec fn ap_requires(self, fa: Validated<A, E>) -> bool where F: FnOnce(A) -> B {
        match (self, fa) {
            (Valid(f), Valid(a)) => f.requires((a,)),
            (Invalid(l), Invalid(r)) => E::combinable(l.model(), r.model()),
            _ => true,
        }
    }

    /// The function is applied to the value if both are there. Two errors
    /// are combined, the left one first; one error alone is kept.
    open spec fn ap_ensures(self, fa: Validated<A, E>, r: Validated<B, E>) -> bool where
        F: FnOnce(A) -> B,
     {
        match (self, fa) {
            (Valid(f), Valid(a)) => r matches Valid(b) && f.ensures((a,), b),
            (Invalid(lhs), Invalid(rhs)) => r matches Invalid(e) && e.model() == E::combine_model(
                lhs.model(),
                rhs.model(),
            ),
            (Invalid(e), Valid(_)) => r == Invalid::<B, E>(e),
            (Valid(_), Invalid(e)) => r == Invalid::<B, E>(e),
        }
    }

    fn ap(self, fa: Validated<A, E>) -> (r: Validated<B, E>) where F: FnMut(A) -> B {
        match (self, fa) {
            (Valid(mut f), Valid(a)) => Valid(f(a)),
            (Invalid(lhs), Invalid(rhs)) => Invalid(lhs.combine(rhs)),
            (Invalid(e), Valid(_)) => Invalid(e),
            (Valid(_), Invalid(e)) => Invalid(e),
        }
    }
}

impl<A, E: Semigroup> Pure for Validated<A, E> {
    open spec fn pure_shape() -> Option<E> {
        None
    }

    fn pure(x: A) -> (r: Validated<A, E>) {
        let r = Valid(x);
        assert(r.items() =~= seq![x]);
        r
    }
}

impl<T: Semigroup, E: Semigroup> Semigroup for Validated<T, E> {
    type Model = Validated<T::Model, E::Model>;

    open spec fn model(self) -> Validated<T::Model, E::Model> {
        match self {
            Valid(x) => Valid(x.model()),
            Invalid(e) => Invalid(e.model()),
        }
    }

    /// Two valid values are combined, and so are two errors; an error wins
    /// over a valid value.
    open spec fn combine_model(
        a: Validated<T::Model, E::Model>,
        b: Validated<T::Model, E::Model>,
    ) -> Validated<T::Model, E::Model> {
        match (a, b) {
            (Valid(x), Valid(y)) => Valid(T::combine_model(x, y)),
            (Invalid(x), Invalid(y)) => Invalid(E::combine_model(x, y)),
            (Invalid(x), Valid(_)) => Invalid(x),
            (Valid(_), Invalid(y)) => Invalid(y),
        }
    }

    open spec fn combinable(a: Validated<T::Model, E::Model>, b: Validated<T::Model, E::Model>) -> bool {
        match (a, b) {
            (Valid(x), Valid(y)) => T::combinable(x, y),
            (Invalid(x), Invalid(y)) => E::combinable(x, y),
            _ => true,
        }
    }

    fn combine(self, other: Self) -> (r: Self) {
        match (self, other) {
            (Valid(lhs), Valid(rhs)) => Valid(lhs.combine(rhs)),
            (Invalid(lhs), Invalid(rhs)) => Invalid(lhs.combine(rhs)),
            (Invalid(e), Valid(_)) => Invalid(e),
            (Valid(_), Invalid(e)) => Invalid(e),
        }
    }

    proof fn lemma_associative(
        a: Validated<T::Model, E::Model>,
        b: Validated<T::Model, E::Model>,
        c: Validated<T::Model, E::Model>,
    ) {
        match (a, b, c) {
            (Valid(x), Valid(y), Valid(z)) => {
                T::lemma_associative(x, y, z);
            },
            (Invalid(x), Invalid(y), Invalid(z)) => {
                E::lemma_associative(x, y, z);
            },
            _ => {},
        }
    }
}

impl<A, B, C, D> Bifunctor<C, D> for Validated<A, B> {
    fn bimap<F, G>(self, mut f: F, mut g: G) -> (r: Validated<C, D>) where
        F: FnMut(A) -> C,
        G: FnMut(B) -> D,
     {
        match self {
            Valid(x) => {
                assert(self.firsts()[0] == x);
                let c = f(x);
                let r = Valid(c);
                assert(r.firsts()[0] == c);
                r
            },
            Invalid(e) => {
                assert(self.seconds()[0] == e);
                let d = g(e);
                let r = Invalid(d);
                assert(r.seconds()[0] == d);
                r
            },
        }
    }
}

impl<A, B, E> AndThen<B> for Validated<A, E> {
    /// The part of the valid value if there is one, else the error: it
    /// stops at the first error.
    open spec fn then_joined(self, parts: Seq<Validated<B, E>>, r: Validated<B, E>) -> bool {
        match self {
            Valid(_) => r == parts[0],
            Invalid(e) => r == Invalid::<B, E>(e),
        }
    }

    fn and_then<F>(self, mut f: F) -> (r: Validated<B, E>) where F: FnMut(A) -> Validated<B, E> {
        match self {
            Valid(a) => {
                assert(self.items()[0] == a);
                let r = f(a);
                assert(self.then_joined(seq![r], r));
                r
            },
            Invalid(e) => {
                let r = Invalid(e);
                assert(self.then_joined(Seq::<Validated<B, E>>::empty(), r));
                r
            },
        }
    }
}

impl<T, E> From<Result<T, E>> for Validated<T, E> {
    fn from(result: Result<T, E>) -> (r: Self) {
        match result {
            Ok(x) => Valid(x),
            Err(x) => Invalid(x),
        }
    }
}

impl<T, E> vstd::std_specs::convert::FromSpecImpl<Result<T, E>> for Validated<T, E> {
    open spec fn obeys_from_spec() -> bool {
        true
    }

    open spec fn from_spec(result: Result<T, E>) -> Self {
        match result {
            Ok(x) => Valid(x),
            Err(x) => Invalid(x),
        }
    }
}

impl<T, E> From<Validated<T, E>> for Result<T, E> {
    fn from(validated: Validated<T, E>) -> (r: Self) {
        validated.into_result()
    }
}

impl<T, E> vstd::std_specs::convert::FromSpecImpl<Validated<T, E>> for Result<T, E> {
    open spec fn obeys_from_spec() -> bool {
        true
    }

    open spec fn from_spec(validated: Validated<T, E>) -> Self {
        match validated {
            Valid(x) => Ok(x),
            Invalid(x) => Err(x),
        }
    }
}

/// Associativity of `product`: pairing from the left and pairing from the
/// right give the same valid value, once the pairs are regrouped, and
/// errors with the same model.
pub proof fn lemma_product_associative_validated<A, B, C, E: Semigroup>(
    fa: Validated<A, E>,
    fb: Validated<B, E>,
    fc: Validated<C, E>,
    ab: Validated<(A, B), E>,
    left: Validated<((A, B), C), E>,
    bc: Validated<(B, C), E>,
    right: Validated<(A, (B, C)), E>,
)
    requires
        fa.product_ensures(fb, ab),
        ab.product_ensures(fc, left),
        fb.product_ensures(fc, bc),
        fa.product_ensures(bc, right),
    ensures
        left matches Valid(l) ==> right == Valid::<(A, (B, C)), E>((l.0.0, (l.0.1, l.1))),
        left matches Invalid(e1) ==> right is Invalid && right->Invalid_0.model() == e1.model(),
{
    match (fa, fb, fc) {
        (Invalid(x), Invalid(y), Invalid(z)) => {
            E::lemma_associative(x.model(), y.model(), z.model());
        },
        _ => {},
    }
}

/// Two independent failures are both kept: the product of two invalid
/// values holds the combination of the two errors, the left one first.
pub proof fn lemma_product_accumulates<A, B, E: Semigroup>(
    fa: Validated<A, E>,
    fb: Validated<B, E>,
    r: Validated<(A, B), E>,
)
    requires
        fa is Invalid,
        fb is Invalid,
        fa.product_ensures(fb, r),
    ensures
        r is Invalid,
        r->Invalid_0.model() == E::combine_model(
            fa->Invalid_0.model(),
            fb->Invalid_0.model(),
        ),
{
}

} // verus!
