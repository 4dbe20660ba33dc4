//! The two sides of the monad laws.
use crate::applicative::is_pure;
use crate::flatmap::{flat_mapped, FlatMap};
use crate::functor::{callable_on_items, mapped, Functor};
use crate::higher::{Higher, Retarget, Target};
use crate::laws::is_eq::IsEq;
use crate::monad::Monad;
use crate::pure::Pure;
use vstd::prelude::*;

verus! {

/// `r` is what `flat_map` may give for `pure(a)` and `f`.
pub open spec fn pure_flat_mapped<FA, B, F>(a: FA::Param, f: F, r: Target<FA, B>) -> bool where
    FA: Monad<B>,
    F: FnOnce(FA::Param) -> Target<FA, B>,
 {
    exists|m: FA| #[trigger] is_pure(m, a) && flat_mapped(m, f, r)
}

/// Left identity: the left side is `f` of a clone of `a`, the right side is
/// `pure(a).flat_map(f)`.
pub fn monad_left_identity<FA, B, F>(a: FA::Param, f: F) -> (r: IsEq<Target<FA, B>>) where
    F: Fn(FA::Param) -> Target<FA, B>,
    FA: Monad<B>,
    FA::Param: Clone,

    requires
        forall|c: FA::Param| #[trigger] cloned(a, c) ==> f.requires((c,)),
    ensures
        exists|c: FA::Param| #[trigger] cloned(a, c) && f.ensures((c,), r.lhs),
        pure_flat_mapped::<FA, B, F>(a, f, r.rhs),
{
    let c = a.clone();
    assert(cloned(a, c));
    assert(cloned(a, a));
    let lhs = f(c);
    proof {
        assert(cloned(a, c) && f.ensures((c,), lhs));
    }
    let m = FA::pure(a);
    proof {
        assert(m.items()[0] == a);
    }
    let rhs = m.flat_map(
        |x: FA::Param| -> (fb: Target<FA, B>)
            requires
                f.requires((x,))
            ensures
                f.ensures((x,), fb)
            { f(x) },
    );
    proof {
        assert(is_pure(m, a) && flat_mapped(m, f, rhs));
    }
    IsEq::equal_under_law(lhs, rhs)
}

/// `r` is what `fa.flat_map(pure)` may give.
pub open spec fn flat_mapped_with_pure<FA>(fa: FA, r: FA) -> bool where
    FA: Monad<<FA as Higher>::Param> + Retarget<<FA as Higher>::Param, Target = FA>,
 {
    exists|parts: Seq<FA>|
        {
            &&& parts.len() == fa.items().len()
            &&& forall|i: int| 0 <= i < parts.len() ==> is_pure(#[trigger] parts[i], fa.items()[i])
            &&& #[trigger] fa.joined(parts, r)
        }
}

/// Right identity: the left side is a clone of `fa`, the right side is
/// `fa.flat_map(pure)`.
pub fn monad_right_identity<FA>(fa: FA) -> (r: IsEq<FA>) where
    FA: Monad<<FA as Higher>::Param> + Retarget<<FA as Higher>::Param, Target = FA> + Clone,

    ensures
        cloned(fa, r.lhs),
        flat_mapped_with_pure(fa, r.rhs),
{
    let lhs = fa.clone();
    let rhs = fa.flat_map(
        |a: FA::Param| -> (m: FA)
            ensures
                is_pure(m, a)
            { FA::pure(a) },
    );
    proof {
        assert(flat_mapped_with_pure(fa, rhs));
    }
    IsEq::equal_under_law(lhs, rhs)
}

/// `out` is `pure` of something that `f` may return for `a`.
pub open spec fn pure_of_result<FB, A, F>(f: F, a: A, out: FB) -> bool where
    FB: Pure,
    F: FnOnce(A) -> FB::Param,
 {
    exists|b: FB::Param| f.ensures((a,), b) && is_pure(out, b)
}

/// `r` is what `fa.flat_map(h)` may give, where `h` returns `pure(f(a))`.
pub open spec fn flat_mapped_with_pure_of<FA, B, F>(fa: FA, f: F, r: Target<FA, B>) -> bool where
    FA: FlatMap<B>,
    Target<FA, B>: Pure,
    F: FnOnce(FA::Param) -> B,
 {
    exists|parts: Seq<Target<FA, B>>|
        {
            &&& parts.len() == fa.items().len()
            &&& forall|i: int|
                0 <= i < parts.len() ==> pure_of_result(f, fa.items()[i], #[trigger] parts[i])
            &&& #[trigger] fa.joined(parts, r)
        }
}

/// Coherence of `map`: the left side is a clone of `fa` under `flat_map`
/// with the function that returns `pure(f(a))`, the right side is `fa`
/// mapped with `f`.
pub fn map_flat_map_coherence<FA, B, F>(fa: FA, f: F) -> (r: IsEq<Target<FA, B>>) where
    F: Fn(FA::Param) -> B,
    FA: Monad<B> + Functor<B> + Clone,
    Target<FA, B>: Pure,

    requires
        forall|c: FA| #[trigger] cloned(fa, c) ==> callable_on_items(c, f),
    ensures
        exists|c: FA| #[trigger] cloned(fa, c) && flat_mapped_with_pure_of(c, f, r.lhs),
        mapped(fa, f, r.rhs),
{
    let c = fa.clone();
    assert(cloned(fa, c));
    assert(cloned(fa, fa));
    let lhs = c.flat_map(
        |a: FA::Param| -> (out: Target<FA, B>)
            requires
                f.requires((a,))
            ensures
                pure_of_result(f, a, out)
            {
                let b = f(a);
                let out = <Target<FA, B> as Pure>::pure(b);
                proof {
                    assert(f.ensures((a,), b) && is_pure(out, b));
                }
                out
            },
    );
    proof {
        assert(flat_mapped_with_pure_of(c, f, lhs));
    }
    let rhs = fa.map(
        |a: FA::Param| -> (b: B)
            requires
                f.requires((a,))
            ensures
                f.ensures((a,), b)
            { f(a) },
    );
    IsEq::equal_under_law(lhs, rhs)
}

} // verus!
