//! Monads: `FlatMap` together with `Pure`, and the laws that tie `pure`,
//! `flat_map` and `map` together.
use crate::applicative::is_pure;
use crate::data::ne_vec::NEVec;
use crate::flatmap::{flat_mapped, FlatMap};
use crate::functor::{computes, mapped};
use crate::higher::{Higher, same, Target};
use crate::pure::Pure;
use vstd::prelude::*;

verus! {

/// A monad: effectful functions can be chained, each depending on the value
/// that the one before produced, and any plain value can be lifted.
pub trait Monad<B>: FlatMap<B> + Pure {

}

impl<T, B> Monad<B> for T where T: FlatMap<B> + Pure {

}

/// `out` is what `flat_map` with `g` may give for something that `f` may
/// return for `a`.
pub open spec fn bound_after<A, FB, C, F, G>(f: F, g: G, a: A, out: Target<FB, C>) -> bool where
    FB: FlatMap<C>,
    F: FnOnce(A) -> FB,
    G: FnOnce(FB::Param) -> Target<FB, C>,
 {
    exists|fb: FB| f.ensures((a,), fb) && flat_mapped(fb, g, out)
}

/// Whatever `f` returns for one argument is the same container.
pub open spec fn determined<A, FB: Higher, F: FnOnce(A) -> FB>(f: F) -> bool {
    forall|a: A, x: FB, y: FB| f.ensures((a,), x) && f.ensures((a,), y) ==> same(x, y)
}

/// Left identity for `Option`: `pure(a).flat_map(f)` is `f(a)`.
pub proof fn lemma_monad_left_identity_option<A, B, F: FnOnce(A) -> Option<B>>(
    m: Option<A>,
    a: A,
    f: F,
    r: Option<B>,
)
    requires
        is_pure(m, a),
        flat_mapped(m, f, r),
    ensures
        f.ensures((a,), r),
{
    assert(m.items()[0] == a);
}

/// Right identity for `Option`: `m.flat_map(pure)` is `m`.
pub proof fn lemma_monad_right_identity_option<A, F: FnOnce(A) -> Option<A>>(
    m: Option<A>,
    f: F,
    r: Option<A>,
)
    requires
        flat_mapped(m, f, r),
        forall|a: A, fa: Option<A>| f.ensures((a,), fa) ==> is_pure(fa, a),
    ensures
        r == m,
{
    if m.items().len() > 0 {
        let parts = choose|parts: Seq<Option<A>>|
            {
                &&& parts.len() == m.items().len()
                &&& forall|i: int|
                    0 <= i < parts.len() ==> f.ensures((m.items()[i],), #[trigger] parts[i])
                &&& #[trigger] m.joined(parts, r)
            };
        assert(f.ensures((m.items()[0],), parts[0]));
        assert(is_pure(parts[0], m.items()[0]));
        assert(parts[0].items() == seq![m.items()[0]]);
        assert(seq![m.items()[0]][0] == m.items()[0]);
        assert(parts[0].items()[0] == m.items()[0]);
    }
}

/// Associativity for `Option`: `m.flat_map(f).flat_map(g)` is
/// `m.flat_map(h)`, where `h` returns `f(x).flat_map(g)`.
pub proof fn lemma_monad_associativity_option<A, B, C, F, G, H>(
    m: Option<A>,
    f: F,
    mb: Option<B>,
    g: G,
    r1: Option<C>,
    h: H,
    r2: Option<C>,
) where F: FnOnce(A) -> Option<B>, G: FnOnce(B) -> Option<C>, H: FnOnce(A) -> Option<C>
    requires
        flat_mapped(m, f, mb),
        flat_mapped(mb, g, r1),
        flat_mapped(m, h, r2),
        forall|a: A, out: Option<C>| h.ensures((a,), out) ==> bound_after(f, g, a, out),
        determined(f),
        determined(g),
    ensures
        r1 == r2,
{
    if m.items().len() > 0 {
        let a = m.items()[0];
        let parts_f = choose|parts: Seq<Option<B>>|
            {
                &&& parts.len() == m.items().len()
                &&& forall|i: int|
                    0 <= i < parts.len() ==> f.ensures((m.items()[i],), #[trigger] parts[i])
                &&& #[trigger] m.joined(parts, mb)
            };
        assert(f.ensures((a,), parts_f[0]));
        let parts_h = choose|parts: Seq<Option<C>>|
            {
                &&& parts.len() == m.items().len()
                &&& forall|i: int|
                    0 <= i < parts.len() ==> h.ensures((m.items()[i],), #[trigger] parts[i])
                &&& #[trigger] m.joined(parts, r2)
            };
        assert(h.ensures((a,), parts_h[0]));
        assert(bound_after(f, g, a, r2));
        let fb = choose|fb: Option<B>| f.ensures((a,), fb) && flat_mapped(fb, g, r2);
        assert(same(fb, mb));
        if mb.items().len() > 0 {
            let b = mb.items()[0];
            assert(fb.items()[0] == b);
            let parts_1 = choose|parts: Seq<Option<C>>|
                {
                    &&& parts.len() == mb.items().len()
                    &&& forall|i: int|
                        0 <= i < parts.len() ==> g.ensures((mb.items()[i],), #[trigger] parts[i])
                    &&& #[trigger] mb.joined(parts, r1)
                };
            let parts_2 = choose|parts: Seq<Option<C>>|
                {
                    &&& parts.len() == fb.items().len()
                    &&& forall|i: int|
                        0 <= i < parts.len() ==> g.ensures((fb.items()[i],), #[trigger] parts[i])
                    &&& #[trigger] fb.joined(parts, r2)
                };
            assert(g.ensures((b,), parts_1[0]));
            assert(g.ensures((b,), parts_2[0]));
            assert(same(parts_1[0], parts_2[0]));
            if parts_1[0].items().len() > 0 {
                assert(parts_1[0].items()[0] == parts_2[0].items()[0]);
            }
        }
    }
}

/// Coherence of `map` for `Option`: `m.flat_map(h)` is `m.map(f)`, where `h`
/// returns `pure(f(a))`.
pub proof fn lemma_monad_map_option<A, B, H, F>(
    m: Option<A>,
    h: H,
    r1: Option<B>,
    f: F,
    sf: spec_fn(A) -> B,
    r2: Option<B>,
) where H: FnOnce(A) -> Option<B>, F: FnOnce(A) -> B
    requires
        flat_mapped(m, h, r1),
        forall|a: A, out: Option<B>| h.ensures((a,), out) ==> is_pure(out, sf(a)),
        mapped(m, f, r2),
        computes(f, sf),
    ensures
        r1 == r2,
{
    if m.items().len() > 0 {
        let a = m.items()[0];
        let parts = choose|parts: Seq<Option<B>>|
            {
                &&& parts.len() == m.items().len()
                &&& forall|i: int|
                    0 <= i < parts.len() ==> h.ensures((m.items()[i],), #[trigger] parts[i])
                &&& #[trigger] m.joined(parts, r1)
            };
        assert(h.ensures((a,), parts[0]));
        assert(parts[0].items()[0] == sf(a));
        assert(f.ensures((a,), r2.items()[0]));
    }
}

/// Left identity for `Result`: `pure(a).flat_map(f)` is `f(a)`.
pub proof fn lemma_monad_left_identity_result<A, B, F: FnOnce(A) -> Result<B, E>, E>(
    m: Result<A, E>,
    a: A,
    f: F,
    r: Result<B, E>,
)
    requires
        is_pure(m, a),
        flat_mapped(m, f, r),
    ensures
        f.ensures((a,), r),
{
    assert(m.items()[0] == a);
}

/// Right identity for `Result`: `m.flat_map(pure)` is `m`.
pub proof fn lemma_monad_right_identity_result<A, F: FnOnce(A) -> Result<A, E>, E>(
    m: Result<A, E>,
    f: F,
    r: Result<A, E>,
)
    requires
        flat_mapped(m, f, r),
        forall|a: A, fa: Result<A, E>| f.ensures((a,), fa) ==> is_pure(fa, a),
    ensures
        r == m,
{
    if m.items().len() > 0 {
        let parts = choose|parts: Seq<Result<A, E>>|
            {
                &&& parts.len() == m.items().len()
                &&& forall|i: int|
                    0 <= i < parts.len() ==> f.ensures((m.items()[i],), #[trigger] parts[i])
                &&& #[trigger] m.joined(parts, r)
            };
        assert(f.ensures((m.items()[0],), parts[0]));
        assert(is_pure(parts[0], m.items()[0]));
        assert(parts[0].items() == seq![m.items()[0]]);
        assert(seq![m.items()[0]][0] == m.items()[0]);
        assert(parts[0].items()[0] == m.items()[0]);
    }
}

/// Associativity for `Result`: `m.flat_map(f).flat_map(g)` is
/// `m.flat_map(h)`, where `h` returns `f(x).flat_map(g)`.
pub proof fn lemma_monad_associativity_result<A, B, C, F, G, H, E>(
    m: Result<A, E>,
    f: F,
    mb: Result<B, E>,
    g: G,
    r1: Result<C, E>,
    h: H,
    r2: Result<C, E>,
) where F: FnOnce(A) -> Result<B, E>, G: FnOnce(B) -> Result<C, E>, H: FnOnce(A) -> Result<C, E>
    requires
        flat_mapped(m, f, mb),
        flat_mapped(mb, g, r1),
        flat_mapped(m, h, r2),
        forall|a: A, out: Result<C, E>| h.ensures((a,), out) ==> bound_after(f, g, a, out),
        determined(f),
        determined(g),
    ensures
        r1 == r2,
{
    if m.items().len() > 0 {
        let a = m.items()[0];
        let parts_f = choose|parts: Seq<Result<B, E>>|
            {
                &&& parts.len() == m.items().len()
                &&& forall|i: int|
                    0 <= i < parts.len() ==> f.ensures((m.items()[i],), #[trigger] parts[i])
                &&& #[trigger] m.joined(parts, mb)
            };
        assert(f.ensures((a,), parts_f[0]));
        let parts_h = choose|parts: Seq<Result<C, E>>|
            {
                &&& parts.len() == m.items().len()
                &&& forall|i: int|
                    0 <= i < parts.len() ==> h.ensures((m.items()[i],), #[trigger] parts[i])
                &&& #[trigger] m.joined(parts, r2)
            };
        assert(h.ensures((a,), parts_h[0]));
        assert(bound_after(f, g, a, r2));
        let fb = choose|fb: Result<B, E>| f.ensures((a,), fb) && flat_mapped(fb, g, r2);
        assert(same(fb, mb));
        if mb.items().len() > 0 {
            let b = mb.items()[0];
            assert(fb.items()[0] == b);
            let parts_1 = choose|parts: Seq<Result<C, E>>|
                {
                    &&& parts.len() == mb.items().len()
                    &&& forall|i: int|
                        0 <= i < parts.len() ==> g.ensures((mb.items()[i],), #[trigger] parts[i])
                    &&& #[trigger] mb.joined(parts, r1)
                };
            let parts_2 = choose|parts: Seq<Result<C, E>>|
                {
                    &&& parts.len() == fb.items().len()
                    &&& forall|i: int|
                        0 <= i < parts.len() ==> g.ensures((fb.items()[i],), #[trigger] parts[i])
                    &&& #[trigger] fb.joined(parts, r2)
                };
            assert(g.ensures((b,), parts_1[0]));
            assert(g.ensures((b,), parts_2[0]));
            assert(same(parts_1[0], parts_2[0]));
            if parts_1[0].items().len() > 0 {
                assert(parts_1[0].items()[0] == parts_2[0].items()[0]);
            }
        }
    }
}

/// Coherence of `map` for `Result`: `m.flat_map(h)` is `m.map(f)`, where `h`
/// returns `pure(f(a))`.
pub proof fn lemma_monad_map_result<A, B, H, F, E>(
    m: Result<A, E>,
    h: H,
    r1: Result<B, E>,
    f: F,
    sf: spec_fn(A) -> B,
    r2: Result<B, E>,
) where H: FnOnce(A) -> Result<B, E>, F: FnOnce(A) -> B
    requires
        flat_mapped(m, h, r1),
        forall|a: A, out: Result<B, E>| h.ensures((a,), out) ==> is_pure(out, sf(a)),
        mapped(m, f, r2),
        computes(f, sf),
    ensures
        r1 == r2,
{
    if m.items().len() > 0 {
        let a = m.items()[0];
        let parts = choose|parts: Seq<Result<B, E>>|
            {
                &&& parts.len() == m.items().len()
                &&& forall|i: int|
                    0 <= i < parts.len() ==> h.ensures((m.items()[i],), #[trigger] parts[i])
                &&& #[trigger] m.joined(parts, r1)
            };
        assert(h.ensures((a,), parts[0]));
        assert(parts[0].items()[0] == sf(a));
        assert(f.ensures((a,), r2.items()[0]));
    }
}

/// Left identity for `Box`: `pure(a).flat_map(f)` is `f(a)`.
pub proof fn lemma_monad_left_identity_box<A, B, F: FnOnce(A) -> Box<B>>(
    m: Box<A>,
    a: A,
    f: F,
    r: Box<B>,
)
    requires
        is_pure(m, a),
        flat_mapped(m, f, r),
    ensures
        f.ensures((a,), r),
{
    assert(m.items()[0] == a);
}

/// Right identity for `Box`: `m.flat_map(pure)` is `m`.
pub proof fn lemma_monad_right_identity_box<A, F: FnOnce(A) -> Box<A>>(
    m: Box<A>,
    f: F,
    r: Box<A>,
)
    requires
        flat_mapped(m, f, r),
        forall|a: A, fa: Box<A>| f.ensures((a,), fa) ==> is_pure(fa, a),
    ensures
        r == m,
{
    if m.items().len() > 0 {
        let parts = choose|parts: Seq<Box<A>>|
            {
                &&& parts.len() == m.items().len()
                &&& forall|i: int|
                    0 <= i < parts.len() ==> f.ensures((m.items()[i],), #[trigger] parts[i])
                &&& #[trigger] m.joined(parts, r)
            };
        assert(f.ensures((m.items()[0],), parts[0]));
        assert(is_pure(parts[0], m.items()[0]));
        assert(parts[0].items() == seq![m.items()[0]]);
        assert(seq![m.items()[0]][0] == m.items()[0]);
        assert(parts[0].items()[0] == m.items()[0]);
    }
}

/// Associativity for `Box`: `m.flat_map(f).flat_map(g)` is
/// `m.flat_map(h)`, where `h` returns `f(x).flat_map(g)`.
pub proof fn lemma_monad_associativity_box<A, B, C, F, G, H>(
    m: Box<A>,
    f: F,
    mb: Box<B>,
    g: G,
    r1: Box<C>,
    h: H,
    r2: Box<C>,
) where F: FnOnce(A) -> Box<B>, G: FnOnce(B) -> Box<C>, H: FnOnce(A) -> Box<C>
    requires
        flat_mapped(m, f, mb),
        flat_mapped(mb, g, r1),
        flat_mapped(m, h, r2),
        forall|a: A, out: Box<C>| h.ensures((a,), out) ==> bound_after(f, g, a, out),
        determined(f),
        determined(g),
    ensures
        r1 == r2,
{
    if m.items().len() > 0 {
        let a = m.items()[0];
        let parts_f = choose|parts: Seq<Box<B>>|
            {
                &&& parts.len() == m.items().len()
                &&& forall|i: int|
                    0 <= i < parts.len() ==> f.ensures((m.items()[i],), #[trigger] parts[i])
                &&& #[trigger] m.joined(parts, mb)
            };
        assert(f.ensures((a,), parts_f[0]));
        let parts_h = choose|parts: Seq<Box<C>>|
            {
                &&& parts.len() == m.items().len()
                &&& forall|i: int|
                    0 <= i < parts.len() ==> h.ensures((m.items()[i],), #[trigger] parts[i])
                &&& #[trigger] m.joined(parts, r2)
            };
        assert(h.ensures((a,), parts_h[0]));
        assert(bound_after(f, g, a, r2));
        let fb = choose|fb: Box<B>| f.ensures((a,), fb) && flat_mapped(fb, g, r2);
        assert(same(fb, mb));
        if mb.items().len() > 0 {
            let b = mb.items()[0];
            assert(fb.items()[0] == b);
            let parts_1 = choose|parts: Seq<Box<C>>|
                {
                    &&& parts.len() == mb.items().len()
                    &&& forall|i: int|
                        0 <= i < parts.len() ==> g.ensures((mb.items()[i],), #[trigger] parts[i])
                    &&& #[trigger] mb.joined(parts, r1)
                };
            let parts_2 = choose|parts: Seq<Box<C>>|
                {
                    &&& parts.len() == fb.items().len()
                    &&& forall|i: int|
                        0 <= i < parts.len() ==> g.ensures((fb.items()[i],), #[trigger] parts[i])
                    &&& #[trigger] fb.joined(parts, r2)
                };
            assert(g.ensures((b,), parts_1[0]));
            assert(g.ensures((b,), parts_2[0]));
            assert(same(parts_1[0], parts_2[0]));
            if parts_1[0].items().len() > 0 {
                assert(parts_1[0].items()[0] == parts_2[0].items()[0]);
            }
        }
    }
}

/// Coherence of `map` for `Box`: `m.flat_map(h)` is `m.map(f)`, where `h`
/// returns `pure(f(a))`.
pub proof fn lemma_monad_map_box<A, B, H, F>(
    m: Box<A>,
    h: H,
    r1: Box<B>,
    f: F,
    sf: spec_fn(A) -> B,
    r2: Box<B>,
) where H: FnOnce(A) -> Box<B>, F: FnOnce(A) -> B
    requires
        flat_mapped(m, h, r1),
        forall|a: A, out: Box<B>| h.ensures((a,), out) ==> is_pure(out, sf(a)),
        mapped(m, f, r2),
        computes(f, sf),
    ensures
        r1 == r2,
{
    if m.items().len() > 0 {
        let a = m.items()[0];
        let parts = choose|parts: Seq<Box<B>>|
            {
                &&& parts.len() == m.items().len()
                &&& forall|i: int|
                    0 <= i < parts.len() ==> h.ensures((m.items()[i],), #[trigger] parts[i])
                &&& #[trigger] m.joined(parts, r1)
            };
        assert(h.ensures((a,), parts[0]));
        assert(parts[0].items()[0] == sf(a));
        assert(f.ensures((a,), r2.items()[0]));
    }
}

/// Flattening a sequence of one-element sequences gives the elements.
pub proof fn lemma_flatten_singletons<A>(parts: Seq<Seq<A>>, s: Seq<A>)
    requires
        parts.len() == s.len(),
        forall|i: int| 0 <= i < s.len() ==> #[trigger] parts[i] == seq![s[i]],
    ensures
        parts.flatten() == s,
    decreases s.len(),
{
    if s.len() == 0 {
        assert(parts.flatten() =~= s);
    } else {
        lemma_flatten_singletons(parts.drop_last(), s.drop_last());
        assert(parts =~= parts.drop_last().push(parts.last()));
        parts.drop_last().lemma_flatten_push(parts.last());
        assert(s =~= s.drop_last() + seq![s.last()]);
    }
}

/// Flattening, then replacing every element by a sequence and flattening
/// again, gives what doing so inside every inner sequence and flattening
/// once gives.
pub proof fn lemma_flatten_nested<B, C>(bs: Seq<Seq<B>>, gv: spec_fn(B) -> Seq<C>)
    ensures
        bs.flatten().map_values(gv).flatten() == bs.map_values(
            |s: Seq<B>| s.map_values(gv).flatten(),
        ).flatten(),
    decreases bs.len(),
{
    let inner = |s: Seq<B>| s.map_values(gv).flatten();
    if bs.len() == 0 {
        assert(bs.flatten() =~= Seq::<B>::empty());
        assert(bs.flatten().map_values(gv) =~= Seq::<Seq<C>>::empty());
        assert(bs.map_values(inner) =~= Seq::<Seq<C>>::empty());
    } else {
        let init = bs.drop_last();
        let last = bs.last();
        lemma_flatten_nested(init, gv);
        assert(bs =~= init.push(last));
        init.lemma_flatten_push(last);
        assert(bs.flatten().map_values(gv) =~= init.flatten().map_values(gv) + last.map_values(gv));
        vstd::seq_lib::lemma_flatten_concat(init.flatten().map_values(gv), last.map_values(gv));
        assert(bs.map_values(inner) =~= init.map_values(inner).push(inner(last)));
        init.map_values(inner).lemma_flatten_push(inner(last));
    }
}

/// Left identity for `Vec`: `pure(a).flat_map(f)` holds what `f(a)`
/// holds.
pub proof fn lemma_monad_left_identity_vec<A, B, F: FnOnce(A) -> Vec<B>>(
    m: Vec<A>,
    a: A,
    f: F,
    r: Vec<B>,
)
    requires
        is_pure(m, a),
        flat_mapped(m, f, r),
    ensures
        exists|fb: Vec<B>| f.ensures((a,), fb) && same(r, fb),
{
    assert(m.items()[0] == a);
    let parts = choose|parts: Seq<Vec<B>>|
        {
            &&& parts.len() == m.items().len()
            &&& forall|i: int|
                0 <= i < parts.len() ==> f.ensures((m.items()[i],), #[trigger] parts[i])
            &&& #[trigger] m.joined(parts, r)
        };
    assert(f.ensures((a,), parts[0]));
    let views = parts.map_values(|v: Vec<B>| v@);
    views.lemma_flatten_one_element();
    assert(views.first() == parts[0]@);
    assert(f.ensures((a,), parts[0]) && same(r, parts[0]));
}

/// Right identity for `Vec`: `m.flat_map(pure)` holds what `m` holds.
pub proof fn lemma_monad_right_identity_vec<A, F: FnOnce(A) -> Vec<A>>(
    m: Vec<A>,
    f: F,
    r: Vec<A>,
)
    requires
        flat_mapped(m, f, r),
        forall|a: A, fa: Vec<A>| f.ensures((a,), fa) ==> is_pure(fa, a),
    ensures
        same(r, m),
{
    let parts = choose|parts: Seq<Vec<A>>|
        {
            &&& parts.len() == m.items().len()
            &&& forall|i: int|
                0 <= i < parts.len() ==> f.ensures((m.items()[i],), #[trigger] parts[i])
            &&& #[trigger] m.joined(parts, r)
        };
    let views = parts.map_values(|v: Vec<A>| v@);
    assert forall|i: int| 0 <= i < m@.len() implies #[trigger] views[i] == seq![m@[i]] by {
        assert(f.ensures((m.items()[i],), parts[i]));
        assert(is_pure(parts[i], m.items()[i]));
    }
    lemma_flatten_singletons(views, m@);
}

/// Coherence of `map` for `Vec`: `m.flat_map(h)` holds what `m.map(f)`
/// holds, where `h` returns `pure(f(a))`.
pub proof fn lemma_monad_map_vec<A, B, H, F>(
    m: Vec<A>,
    h: H,
    r1: Vec<B>,
    f: F,
    sf: spec_fn(A) -> B,
    r2: Vec<B>,
) where H: FnOnce(A) -> Vec<B>, F: FnOnce(A) -> B
    requires
        flat_mapped(m, h, r1),
        forall|a: A, out: Vec<B>| h.ensures((a,), out) ==> is_pure(out, sf(a)),
        mapped(m, f, r2),
        computes(f, sf),
    ensures
        same(r1, r2),
{
    let parts = choose|parts: Seq<Vec<B>>|
        {
            &&& parts.len() == m.items().len()
            &&& forall|i: int|
                0 <= i < parts.len() ==> h.ensures((m.items()[i],), #[trigger] parts[i])
            &&& #[trigger] m.joined(parts, r1)
        };
    let views = parts.map_values(|v: Vec<B>| v@);
    assert forall|i: int| 0 <= i < m@.len() implies #[trigger] views[i] == seq![r2@[i]] by {
        assert(h.ensures((m.items()[i],), parts[i]));
        assert(is_pure(parts[i], sf(m.items()[i])));
        assert(f.ensures((m.items()[i],), r2.items()[i]));
    }
    lemma_flatten_singletons(views, r2@);
}

/// What `g` gives holds, for the argument `b`: the items of any container
/// that `g` may return for it.
pub open spec fn items_given_vec<B, C, G: FnOnce(B) -> Vec<C>>(g: G, b: B) -> Seq<C> {
    (choose|fc: Vec<C>| g.ensures((b,), fc))@
}

/// Associativity for `Vec`: `m.flat_map(f).flat_map(g)` holds what
/// `m.flat_map(h)` holds, where `h` returns `f(x).flat_map(g)`.
pub proof fn lemma_monad_associativity_vec<A, B, C, F, G, H>(
    m: Vec<A>,
    f: F,
    mb: Vec<B>,
    g: G,
    r1: Vec<C>,
    h: H,
    r2: Vec<C>,
) where F: FnOnce(A) -> Vec<B>, G: FnOnce(B) -> Vec<C>, H: FnOnce(A) -> Vec<C>
    requires
        flat_mapped(m, f, mb),
        flat_mapped(mb, g, r1),
        flat_mapped(m, h, r2),
        forall|a: A, out: Vec<C>| h.ensures((a,), out) ==> bound_after(f, g, a, out),
        determined(f),
        determined(g),
    ensures
        same(r1, r2),
{
    let gv = |b: B| items_given_vec(g, b);
    // whatever g returns for b holds gv(b)
    assert forall|b: B, fc: Vec<C>| #[trigger] g.ensures((b,), fc) implies fc@ == gv(b) by {
        let fc2 = choose|x: Vec<C>| g.ensures((b,), x);
        assert(g.ensures((b,), fc2));
        assert(same(fc, fc2));
    }
    let parts_f = choose|parts: Seq<Vec<B>>|
        {
            &&& parts.len() == m.items().len()
            &&& forall|i: int|
                0 <= i < parts.len() ==> f.ensures((m.items()[i],), #[trigger] parts[i])
            &&& #[trigger] m.joined(parts, mb)
        };
    let parts_g = choose|parts: Seq<Vec<C>>|
        {
            &&& parts.len() == mb.items().len()
            &&& forall|i: int|
                0 <= i < parts.len() ==> g.ensures((mb.items()[i],), #[trigger] parts[i])
            &&& #[trigger] mb.joined(parts, r1)
        };
    let parts_h = choose|parts: Seq<Vec<C>>|
        {
            &&& parts.len() == m.items().len()
            &&& forall|i: int|
                0 <= i < parts.len() ==> h.ensures((m.items()[i],), #[trigger] parts[i])
            &&& #[trigger] m.joined(parts, r2)
        };
    let bs = parts_f.map_values(|v: Vec<B>| v@);
    let cs = parts_g.map_values(|v: Vec<C>| v@);
    let hs = parts_h.map_values(|v: Vec<C>| v@);
    let inner = |s: Seq<B>| s.map_values(gv).flatten();
    // the left side
    assert(cs =~= mb@.map_values(gv)) by {
        assert forall|j: int| 0 <= j < mb@.len() implies cs[j] == gv(mb@[j]) by {
            assert(g.ensures((mb.items()[j],), parts_g[j]));
        }
    }
    // the right side
    assert(hs =~= bs.map_values(inner)) by {
        assert forall|i: int| 0 <= i < m@.len() implies hs[i] == inner(bs[i]) by {
            let a = m.items()[i];
            assert(h.ensures((a,), parts_h[i]));
            assert(bound_after(f, g, a, parts_h[i]));
            let fb = choose|fb: Vec<B>| f.ensures((a,), fb) && flat_mapped(fb, g, parts_h[i]);
            assert(f.ensures((a,), parts_f[i]));
            assert(same(fb, parts_f[i]));
            let qs = choose|parts: Seq<Vec<C>>|
                {
                    &&& parts.len() == fb.items().len()
                    &&& forall|k: int|
                        0 <= k < parts.len() ==> g.ensures((fb.items()[k],), #[trigger] parts[k])
                    &&& #[trigger] fb.joined(parts, parts_h[i])
                };
            assert(qs.map_values(|v: Vec<C>| v@) =~= bs[i].map_values(gv)) by {
                assert forall|k: int| 0 <= k < fb@.len() implies qs[k]@ == gv(bs[i][k]) by {
                    assert(g.ensures((fb.items()[k],), qs[k]));
                }
            }
        }
    }
    lemma_flatten_nested(bs, gv);
}

/// Left identity for `NEVec`: `pure(a).flat_map(f)` holds what `f(a)`
/// holds.
pub proof fn lemma_monad_left_identity_ne_vec<A, B, F: FnOnce(A) -> NEVec<B>>(
    m: NEVec<A>,
    a: A,
    f: F,
    r: NEVec<B>,
)
    requires
        is_pure(m, a),
        flat_mapped(m, f, r),
    ensures
        exists|fb: NEVec<B>| f.ensures((a,), fb) && same(r, fb),
{
    assert(m.items()[0] == a);
    let parts = choose|parts: Seq<NEVec<B>>|
        {
            &&& parts.len() == m.items().len()
            &&& forall|i: int|
                0 <= i < parts.len() ==> f.ensures((m.items()[i],), #[trigger] parts[i])
            &&& #[trigger] m.joined(parts, r)
        };
    assert(f.ensures((a,), parts[0]));
    let views = parts.map_values(|v: NEVec<B>| v@);
    views.lemma_flatten_one_element();
    assert(views.first() == parts[0]@);
    assert(f.ensures((a,), parts[0]) && same(r, parts[0]));
}

/// Right identity for `NEVec`: `m.flat_map(pure)` holds what `m` holds.
pub proof fn lemma_monad_right_identity_ne_vec<A, F: FnOnce(A) -> NEVec<A>>(
    m: NEVec<A>,
    f: F,
    r: NEVec<A>,
)
    requires
        flat_mapped(m, f, r),
        forall|a: A, fa: NEVec<A>| f.ensures((a,), fa) ==> is_pure(fa, a),
    ensures
        same(r, m),
{
    let parts = choose|parts: Seq<NEVec<A>>|
        {
            &&& parts.len() == m.items().len()
            &&& forall|i: int|
                0 <= i < parts.len() ==> f.ensures((m.items()[i],), #[trigger] parts[i])
            &&& #[trigger] m.joined(parts, r)
        };
    let views = parts.map_values(|v: NEVec<A>| v@);
    assert forall|i: int| 0 <= i < m@.len() implies #[trigger] views[i] == seq![m@[i]] by {
        assert(f.ensures((m.items()[i],), parts[i]));
        assert(is_pure(parts[i], m.items()[i]));
    }
    lemma_flatten_singletons(views, m@);
}

/// Coherence of `map` for `NEVec`: `m.flat_map(h)` holds what `m.map(f)`
/// holds, where `h` returns `pure(f(a))`.
pub proof fn lemma_monad_map_ne_vec<A, B, H, F>(
    m: NEVec<A>,
    h: H,
    r1: NEVec<B>,
    f: F,
    sf: spec_fn(A) -> B,
    r2: NEVec<B>,
) where H: FnOnce(A) -> NEVec<B>, F: FnOnce(A) -> B
    requires
        flat_mapped(m, h, r1),
        forall|a: A, out: NEVec<B>| h.ensures((a,), out) ==> is_pure(out, sf(a)),
        mapped(m, f, r2),
        computes(f, sf),
    ensures
        same(r1, r2),
{
    let parts = choose|parts: Seq<NEVec<B>>|
        {
            &&& parts.len() == m.items().len()
            &&& forall|i: int|
                0 <= i < parts.len() ==> h.ensures((m.items()[i],), #[trigger] parts[i])
            &&& #[trigger] m.joined(parts, r1)
        };
    let views = parts.map_values(|v: NEVec<B>| v@);
    assert forall|i: int| 0 <= i < m@.len() implies #[trigger] views[i] == seq![r2@[i]] by {
        assert(h.ensures((m.items()[i],), parts[i]));
        assert(is_pure(parts[i], sf(m.items()[i])));
        assert(f.ensures((m.items()[i],), r2.items()[i]));
    }
    lemma_flatten_singletons(views, r2@);
}

/// What `g` gives holds, for the argument `b`: the items of any container
/// that `g` may return for it.
pub open spec fn items_given_ne_vec<B, C, G: FnOnce(B) -> NEVec<C>>(g: G, b: B) -> Seq<C> {
    (choose|fc: NEVec<C>| g.ensures((b,), fc))@
}

/// Associativity for `NEVec`: `m.flat_map(f).flat_map(g)` holds what
/// `m.flat_map(h)` holds, where `h` returns `f(x).flat_map(g)`.
pub proof fn lemma_monad_associativity_ne_vec<A, B, C, F, G, H>(
    m: NEVec<A>,
    f: F,
    mb: NEVec<B>,
    g: G,
    r1: NEVec<C>,
    h: H,
    r2: NEVec<C>,
) where F: FnOnce(A) -> NEVec<B>, G: FnOnce(B) -> NEVec<C>, H: FnOnce(A) -> NEVec<C>
    requires
        flat_mapped(m, f, mb),
        flat_mapped(mb, g, r1),
        flat_mapped(m, h, r2),
        forall|a: A, out: NEVec<C>| h.ensures((a,), out) ==> bound_after(f, g, a, out),
        determined(f),
        determined(g),
    ensures
        same(r1, r2),
{
    let gv = |b: B| items_given_ne_vec(g, b);
    // whatever g returns for b holds gv(b)
    assert forall|b: B, fc: NEVec<C>| #[trigger] g.ensures((b,), fc) implies fc@ == gv(b) by {
        let fc2 = choose|x: NEVec<C>| g.ensures((b,), x);
        assert(g.ensures((b,), fc2));
        assert(same(fc, fc2));
    }
    let parts_f = choose|parts: Seq<NEVec<B>>|
        {
            &&& parts.len() == m.items().len()
            &&& forall|i: int|
                0 <= i < parts.len() ==> f.ensures((m.items()[i],), #[trigger] parts[i])
            &&& #[trigger] m.joined(parts, mb)
        };
    let parts_g = choose|parts: Seq<NEVec<C>>|
        {
            &&& parts.len() == mb.items().len()
            &&& forall|i: int|
                0 <= i < parts.len() ==> g.ensures((mb.items()[i],), #[trigger] parts[i])
            &&& #[trigger] mb.joined(parts, r1)
        };
    let parts_h = choose|parts: Seq<NEVec<C>>|
        {
            &&& parts.len() == m.items().len()
            &&& forall|i: int|
                0 <= i < parts.len() ==> h.ensures((m.items()[i],), #[trigger] parts[i])
            &&& #[trigger] m.joined(parts, r2)
        };
    let bs = parts_f.map_values(|v: NEVec<B>| v@);
    let cs = parts_g.map_values(|v: NEVec<C>| v@);
    let hs = parts_h.map_values(|v: NEVec<C>| v@);
    let inner = |s: Seq<B>| s.map_values(gv).flatten();
    // the left side
    assert(cs =~= mb@.map_values(gv)) by {
        assert forall|j: int| 0 <= j < mb@.len() implies cs[j] == gv(mb@[j]) by {
            assert(g.ensures((mb.items()[j],), parts_g[j]));
        }
    }
    // the right side
    assert(hs =~= bs.map_values(inner)) by {
        assert forall|i: int| 0 <= i < m@.len() implies hs[i] == inner(bs[i]) by {
            let a = m.items()[i];
            assert(h.ensures((a,), parts_h[i]));
            assert(bound_after(f, g, a, parts_h[i]));
            let fb = choose|fb: NEVec<B>| f.ensures((a,), fb) && flat_mapped(fb, g, parts_h[i]);
            assert(f.ensures((a,), parts_f[i]));
            assert(same(fb, parts_f[i]));
            let qs = choose|parts: Seq<NEVec<C>>|
                {
                    &&& parts.len() == fb.items().len()
                    &&& forall|k: int|
                        0 <= k < parts.len() ==> g.ensures((fb.items()[k],), #[trigger] parts[k])
                    &&& #[trigger] fb.joined(parts, parts_h[i])
                };
            assert(qs.map_values(|v: NEVec<C>| v@) =~= bs[i].map_values(gv)) by {
                assert forall|k: int| 0 <= k < fb@.len() implies qs[k]@ == gv(bs[i][k]) by {
                    assert(g.ensures((fb.items()[k],), qs[k]));
                }
            }
        }
    }
    lemma_flatten_nested(bs, gv);
}

} // verus!
