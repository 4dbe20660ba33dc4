//! The two sides of the monoid laws.
use crate::laws::is_eq::IsEq;
use crate::monoid::Monoid;
use crate::semigroup::Semigroup;
use vstd::prelude::*;
use vstd::std_specs::cmp::PartialEqSpec;

verus! {

/// Left identity: the left side is a clone of `a`, the right side is
/// `empty + a`, which has the model of `a`.
pub fn monoid_left_identity<A>(a: A) -> (r: IsEq<A>) where A: Monoid + Clone
    ensures
        cloned(a, r.lhs),
        r.rhs.model() == a.model(),
{
    let lhs = a.clone();
    proof {
        A::lemma_empty_combinable(a);
        A::lemma_left_identity(a.model());
    }
    let rhs = A::empty().combine(a);
    IsEq::equal_under_law(lhs, rhs)
}

/// Right identity: the left side is a clone of `a`, the right side is
/// `a + empty`, which has the model of `a`.
pub fn monoid_right_identity<A>(a: A) -> (r: IsEq<A>) where A: Monoid + Clone
    ensures
        cloned(a, r.lhs),
        r.rhs.model() == a.model(),
{
    let lhs = a.clone();
    proof {
        A::lemma_empty_combinable(a);
        A::lemma_right_identity(a.model());
    }
    let rhs = a.combine(A::empty());
    IsEq::equal_under_law(lhs, rhs)
}

/// `is_empty`: the left side is a clone of `a == empty()`, the right side is
/// `a.is_empty()`, which tells whether `a` has the model of the identity
/// element.
pub fn is_id<A>(a: A) -> (r: IsEq<bool>) where A: Monoid + Clone + Eq
    ensures
        r.rhs == (a.model() == A::empty_model()),
        A::obeys_eq_spec() ==> exists|c: A, e: A|
            #[trigger] cloned(a, c) && e.model() == A::empty_model() && r.lhs == #[trigger] c.eq_spec(&e),
{
    let c = a.clone();
    let e = A::empty();
    let lhs = c == e;
    proof {
        if A::obeys_eq_spec() {
            assert(cloned(a, c) && e.model() == A::empty_model() && lhs == c.eq_spec(&e));
        }
    }
    let rhs = a.is_empty();
    IsEq::equal_under_law(lhs, rhs)
}

} // verus!
