//! Type classes of functional programming over containers, with their laws
//! stated as contracts and proved.
//!
//! A container is described by two ghost values: its shape (what is left when
//! the values it holds are forgotten) and its items (the values it holds, in
//! order). The traits of this crate state what their operations do to both.
pub mod and_then;
pub mod ap_n;
pub mod applicative;
pub mod apply;
pub mod bifunctor;
pub mod combinator;
pub mod contravariant;
pub mod data;
pub mod flatmap;
pub mod fn_k;
pub mod functor;
pub mod higher;
pub mod invariant_functor;
pub mod laws;
pub mod map_n;
pub mod monad;
pub mod monoid;
pub mod pure;
pub mod semigroup;
pub mod semigroupal;
