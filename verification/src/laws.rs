//! Checks of the laws at run time: each function computes the two sides of a
//! law for given inputs and hands both back.
pub mod applicative_laws;
pub mod apply_laws;
pub mod bifunctor_laws;
pub mod contravariant_laws;
pub mod flatmap_laws;
pub mod functor_laws;
pub mod invariant_laws;
pub mod is_eq;
pub mod monad_laws;
pub mod monoid_laws;
pub mod semigroup_laws;
pub mod semigroupal_laws;
