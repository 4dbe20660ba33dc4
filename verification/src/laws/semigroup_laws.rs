//! The two sides of the semigroup laws.
use crate::laws::is_eq::IsEq;
use crate::semigroup::{combine_n_model, Semigroup, SemigroupOps};
use vstd::prelude::*;

verus! {

/// Every clone of `a` has the model of `a`.
pub open spec fn clone_keeps_model<A: Semigroup + Clone>(a: A) -> bool {
    forall|c: A| #[trigger] cloned(a, c) ==> c.model() == a.model()
}

/// Associativity: the left side is `(a + b) + c`, of clones, the right side
/// is `a + (b + c)`. Both have the same model.
pub fn semigroup_associativity<A>(a: A, b: A, c: A) -> (r: IsEq<A>) where A: Semigroup + Clone + Eq
    requires
        clone_keeps_model(a),
        clone_keeps_model(b),
        clone_keeps_model(c),
        A::combinable(a.model(), b.model()),
        A::combinable(A::combine_model(a.model(), b.model()), c.model()),
        A::combinable(b.model(), c.model()),
        A::combinable(a.model(), A::combine_model(b.model(), c.model())),
    ensures
        r.lhs.model() == A::combine_model(A::combine_model(a.model(), b.model()), c.model()),
        r.rhs.model() == A::combine_model(a.model(), A::combine_model(b.model(), c.model())),
        r.lhs.model() == r.rhs.model(),
{
    let a2 = a.clone();
    let b2 = b.clone();
    let c2 = c.clone();
    assert(cloned(a, a2) && cloned(b, b2) && cloned(c, c2));
    let lhs = a2.combine(b2).combine(c2);
    let rhs = a.combine(b.combine(c));
    proof {
        A::lemma_associative(a.model(), b.model(), c.model());
    }
    IsEq::equal_under_law(lhs, rhs)
}

/// Combining zero times: the left side is a clone of `a`, the right side is
/// `a.combine_n(0)`, which has the model of `a`.
pub fn repeat_0<A>(a: A) -> (r: IsEq<A>) where A: Semigroup + Clone + Eq
    requires
        clone_keeps_model(a),
    ensures
        cloned(a, r.lhs),
        r.rhs.model() == a.model(),
        r.lhs.model() == r.rhs.model(),
{
    let lhs = a.clone();
    assert(cloned(a, lhs));
    let rhs = a.combine_n(0);
    IsEq::equal_under_law(lhs, rhs)
}

/// Combining once: the left side is `a + a`, of clones, the right side is
/// `a.combine_n(1)`. Both have the same model.
pub fn repeat_1<A>(a: A) -> (r: IsEq<A>) where A: Semigroup + Clone + Eq
    requires
        clone_keeps_model(a),
        A::combinable(a.model(), a.model()),
    ensures
        r.lhs.model() == A::combine_model(a.model(), a.model()),
        r.lhs.model() == r.rhs.model(),
{
    let x = a.clone();
    let y = a.clone();
    assert(cloned(a, x) && cloned(a, y));
    let lhs = x.combine(y);
    proof {
        reveal_with_fuel(combine_n_model, 2);
        assert(combine_n_model::<A>(a.model(), 0) == a.model());
        assert(combine_n_model::<A>(a.model(), 1) == A::combine_model(a.model(), a.model()));
    }
    let rhs = a.combine_n(1);
    IsEq::equal_under_law(lhs, rhs)
}

} // verus!
