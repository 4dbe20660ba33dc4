//! Higher-kinded types, emulated.
//!
//! A type constructor such as `Option` cannot be named on its own. A
//! concrete type `Option<A>` stands for it: [`Higher`] gives the type of the
//! values it currently holds, and [`Retarget`] gives the same constructor
//! applied to another type.
use core::marker::PhantomData;
use vstd::prelude::*;

verus! {

/// A type of the form `F<Param>`, seen as a shape filled with items.
pub trait Higher: Sized {
    /// The type of the values held: `A` for `Option<A>`.
    type Param;

    /// What is left of a value of this type once its items are forgotten.
    /// Every `F<X>` has the same type of shapes.
    type Shape;

    /// The shape of this container.
    spec fn shape(self) -> Self::Shape;

    /// The values that this container holds, in the order in which its
    /// operations walk them.
    spec fn items(self) -> Seq<Self::Param>;
}

/// The constructor of `Self`, applied to `T`: `Option<T>` for `Option<A>`.
///
/// The target holds `T` and has the shapes of `Self`, so operations chain.
pub trait Retarget<T>: Higher {
    /// `F<T>`, where `Self` is `F<Param>`.
    type Target: Higher<Param = T, Shape = Self::Shape>;
}

/// `F<T>`, where `FA` is `F<A>`.
pub type Target<FA, T> = <FA as Retarget<T>>::Target;

/// `F<(A, B)>`, where `FA` is `F<A>`: the type of the product of `F<A>` and
/// `F<B>`.
pub type Pairs<FA, B> = <FA as Retarget<(<FA as Higher>::Param, B)>>::Target;

/// Two containers agree in shape and in every item.
pub open spec fn same<F: Higher>(x: F, y: F) -> bool {
    x.shape() == y.shape() && x.items() =~= y.items()
}

/// A type of the form `F<Param1, Param2>`, seen as a shape with two kinds of
/// slots.
pub trait Higher2: Sized {
    /// The type held in the first kind of slot: `T` for `Result<T, E>`.
    type Param1;

    /// The type held in the second kind of slot: `E` for `Result<T, E>`.
    type Param2;

    /// What is left of a value once the contents of both kinds of slots are
    /// forgotten.
    type Shape2;

    /// The shape of this container.
    spec fn shape2(self) -> Self::Shape2;

    /// The values in the slots of the first kind, in order.
    spec fn firsts(self) -> Seq<Self::Param1>;

    /// The values in the slots of the second kind, in order.
    spec fn seconds(self) -> Seq<Self::Param2>;
}

/// The constructor of `Self`, applied to `T1` and `T2`.
pub trait Retarget2<T1, T2>: Higher2 {
    /// `F<T1, T2>`, where `Self` is `F<Param1, Param2>`.
    type Target: Higher2<Param1 = T1, Param2 = T2, Shape2 = Self::Shape2>;
}

/// Two two-slot containers agree in shape and in the contents of every slot.
pub open spec fn same2<F: Higher2>(x: F, y: F) -> bool {
    x.shape2() == y.shape2() && x.firsts() =~= y.firsts() && x.seconds() =~= y.seconds()
}

impl<A> Higher for Option<A> {
    type Param = A;

    type Shape = bool;

    open spec fn shape(self) -> bool {
        self is Some
    }

    open spec fn items(self) -> Seq<A> {
        match self {
            Some(a) => seq![a],
            None => Seq::empty(),
        }
    }
}

impl<A, T> Retarget<T> for Option<A> {
    type Target = Option<T>;
}

impl<A, E> Higher for Result<A, E> {
    type Param = A;

    type Shape = Option<E>;

    open spec fn shape(self) -> Option<E> {
        match self {
            Ok(_) => None,
            Err(e) => Some(e),
        }
    }

    open spec fn items(self) -> Seq<A> {
        match self {
            Ok(a) => seq![a],
            Err(_) => Seq::empty(),
        }
    }
}

impl<A, E, T> Retarget<T> for Result<A, E> {
    type Target = Result<T, E>;
}

impl<A, E> Higher2 for Result<A, E> {
    type Param1 = A;

    type Param2 = E;

    type Shape2 = bool;

    open spec fn shape2(self) -> bool {
        self is Ok
    }

    open spec fn firsts(self) -> Seq<A> {
        match self {
            Ok(a) => seq![a],
            Err(_) => Seq::empty(),
        }
    }

    open spec fn seconds(self) -> Seq<E> {
        match self {
            Ok(_) => Seq::empty(),
            Err(e) => seq![e],
        }
    }
}

impl<A, E, T1, T2> Retarget2<T1, T2> for Result<A, E> {
    type Target = Result<T1, T2>;
}

impl<A, B> Higher2 for (A, B) {
    type Param1 = A;

    type Param2 = B;

    type Shape2 = ();

    open spec fn shape2(self) -> () {
        ()
    }

    open spec fn firsts(self) -> Seq<A> {
        seq![self.0]
    }

    open spec fn seconds(self) -> Seq<B> {
        seq![self.1]
    }
}

impl<A, B, T1, T2> Retarget2<T1, T2> for (A, B) {
    type Target = (T1, T2);
}

impl<A> Higher for Vec<A> {
    type Param = A;

    type Shape = nat;

    open spec fn shape(self) -> nat {
        self@.len()
    }

    open spec fn items(self) -> Seq<A> {
        self@
    }
}

impl<A, T> Retarget<T> for Vec<A> {
    type Target = Vec<T>;
}

impl<A> Higher for Box<A> {
    type Param = A;

    type Shape = ();

    open spec fn shape(self) -> () {
        ()
    }

    open spec fn items(self) -> Seq<A> {
        seq![*self]
    }
}

impl<A, T> Retarget<T> for Box<A> {
    type Target = Box<T>;
}

impl<A> Higher for PhantomData<A> {
    type Param = A;

    type Shape = ();

    open spec fn shape(self) -> () {
        ()
    }

    open spec fn items(self) -> Seq<A> {
        Seq::empty()
    }
}

impl<A, T> Retarget<T> for PhantomData<A> {
    type Target = PhantomData<T>;
}

/// Options are equal when they agree in shape and items.
pub proof fn lemma_same_option<A>(x: Option<A>, y: Option<A>)
    requires
        same(x, y),
    ensures
        x == y,
{
    if x is Some {
        assert(x.items()[0] == y.items()[0]);
    }
}

/// Results are equal when they agree in shape and items.
pub proof fn lemma_same_result<A, E>(x: Result<A, E>, y: Result<A, E>)
    requires
        same(x, y),
    ensures
        x == y,
{
    if x is Ok {
        assert(x.items()[0] == y.items()[0]);
    }
}

/// Boxes are equal when they agree in shape and items.
pub proof fn lemma_same_box<A>(x: Box<A>, y: Box<A>)
    requires
        same(x, y),
    ensures
        x == y,
{
    assert(x.items()[0] == y.items()[0]);
}

} // verus!
