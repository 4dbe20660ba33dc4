//! Combinators: small functions that build results from their arguments by
//! function application alone.
use vstd::prelude::*;

verus! {

/// The identity function, also known as the I combinator.
pub fn id<T>(x: T) -> (r: T)
    ensures
        r == x,
{
    x
}

/// Makes a tuple of two elements.
pub fn tuple2<A, B>(a: A, b: B) -> (r: (A, B))
    ensures
        r == (a, b),
{
    (a, b)
}

/// Makes a tuple of three elements.
pub fn tuple3<A, B, C>(a: A, b: B, c: C) -> (r: (A, B, C))
    ensures
        r == (a, b, c),
{
    (a, b, c)
}

/// Makes a tuple of four elements.
pub fn tuple4<A, B, C, D>(a: A, b: B, c: C, d: D) -> (r: (A, B, C, D))
    ensures
        r == (a, b, c, d),
{
    (a, b, c, d)
}

/// Makes a tuple of five elements.
pub fn tuple5<A, B, C, D, E>(a: A, b: B, c: C, d: D, e: E) -> (r: (A, B, C, D, E))
    ensures
        r == (a, b, c, d, e),
{
    (a, b, c, d, e)
}

/// Makes a tuple of six elements.
pub fn tuple6<A, B, C, D, E, F>(a: A, b: B, c: C, d: D, e: E, f: F) -> (r: (A, B, C, D, E, F))
    ensures
        r == (a, b, c, d, e, f),
{
    (a, b, c, d, e, f)
}

/// Makes a tuple of seven elements.
pub fn tuple7<A, B, C, D, E, F, G>(
    a: A,
    b: B,
    c: C,
    d: D,
    e: E,
    f: F,
    g: G,
) -> (r: (A, B, C, D, E, F, G))
    ensures
        r == (a, b, c, d, e, f, g),
{
    (a, b, c, d, e, f, g)
}

/// Makes a tuple of eight elements.
pub fn tuple8<A, B, C, D, E, F, G, H>(
    a: A,
    b: B,
    c: C,
    d: D,
    e: E,
    f: F,
    g: G,
    h: H,
) -> (r: (A, B, C, D, E, F, G, H))
    ensures
        r == (a, b, c, d, e, f, g, h),
{
    (a, b, c, d, e, f, g, h)
}

/// Makes a tuple of nine elements.
pub fn tuple9<A, B, C, D, E, F, G, H, I>(
    a: A,
    b: B,
    c: C,
    d: D,
    e: E,
    f: F,
    g: G,
    h: H,
    i: I,
) -> (r: (A, B, C, D, E, F, G, H, I))
    ensures
        r == (a, b, c, d, e, f, g, h, i),
{
    (a, b, c, d, e, f, g, h, i)
}

/// Makes a tuple of ten elements.
pub fn tuple10<A, B, C, D, E, F, G, H, I, J>(
    a: A,
    b: B,
    c: C,
    d: D,
    e: E,
    f: F,
    g: G,
    h: H,
    i: I,
    j: J,
) -> (r: (A, B, C, D, E, F, G, H, I, J))
    ensures
        r == (a, b, c, d, e, f, g, h, i, j),
{
    (a, b, c, d, e, f, g, h, i, j)
}

/// Makes a tuple of eleven elements.
pub fn tuple11<A, B, C, D, E, F, G, H, I, J, K>(
    a: A,
    b: B,
    c: C,
    d: D,
    e: E,
    f: F,
    g: G,
    h: H,
    i: I,
    j: J,
    k: K,
) -> (r: (A, B, C, D, E, F, G, H, I, J, K))
    ensures
        r == (a, b, c, d, e, f, g, h, i, j, k),
{
    (a, b, c, d, e, f, g, h, i, j, k)
}

/// Makes a tuple of twelve elements.
pub fn tuple12<A, B, C, D, E, F, G, H, I, J, K, L>(
    a: A,
    b: B,
    c: C,
    d: D,
    e: E,
    f: F,
    g: G,
    h: H,
    i: I,
    j: J,
    k: K,
    l: L,
) -> (r: (A, B, C, D, E, F, G, H, I, J, K, L))
    ensures
        r == (a, b, c, d, e, f, g, h, i, j, k, l),
{
    (a, b, c, d, e, f, g, h, i, j, k, l)
}

/// Does nothing.
pub fn noop() {
}

/// Does nothing with its argument.
pub fn noop1<A>(_a: A) {
}

/// Does nothing with its two arguments.
pub fn noop2<A, B>(_a: A, _b: B) {
}

/// Does nothing with its three arguments.
pub fn noop3<A, B, C>(_a: A, _b: B, _c: C) {
}

/// Does nothing with its four arguments.
pub fn noop4<A, B, C, D>(_a: A, _b: B, _c: C, _d: D) {
}

/// Does nothing with its five arguments.
pub fn noop5<A, B, C, D, E>(_a: A, _b: B, _c: C, _d: D, _e: E) {
}

/// Does nothing with its six arguments.
pub fn noop6<A, B, C, D, E, F>(_a: A, _b: B, _c: C, _d: D, _e: E, _f: F) {
}

/// Does nothing with its seven arguments.
pub fn noop7<A, B, C, D, E, F, G>(_a: A, _b: B, _c: C, _d: D, _e: E, _f: F, _g: G) {
}

/// Does nothing with its eight arguments.
pub fn noop8<A, B, C, D, E, F, G, H>(_a: A, _b: B, _c: C, _d: D, _e: E, _f: F, _g: G, _h: H) {
}

/// Does nothing with its nine arguments.
pub fn noop9<A, B, C, D, E, F, G, H, I>(
    _a: A,
    _b: B,
    _c: C,
    _d: D,
    _e: E,
    _f: F,
    _g: G,
    _h: H,
    _i: I,
) {
}

/// Does nothing with its ten arguments.
pub fn noop10<A, B, C, D, E, F, G, H, I, J>(
    _a: A,
    _b: B,
    _c: C,
    _d: D,
    _e: E,
    _f: F,
    _g: G,
    _h: H,
    _i: I,
    _j: J,
) {
}

/// Does nothing with its eleven arguments.
pub fn noop11<A, B, C, D, E, F, G, H, I, J, K>(
    _a: A,
    _b: B,
    _c: C,
    _d: D,
    _e: E,
    _f: F,
    _g: G,
    _h: H,
    _i: I,
    _j: J,
    _k: K,
) {
}

/// Does nothing with its twelve arguments.
pub fn noop12<A, B, C, D, E, F, G, H, I, J, K, L>(
    _a: A,
    _b: B,
    _c: C,
    _d: D,
    _e: E,
    _f: F,
    _g: G,
    _h: H,
    _i: I,
    _j: J,
    _k: K,
    _l: L,
) {
}

/// Function application, `f(x)`, also known as the A combinator.
pub fn apply<T, R, F: FnOnce(T) -> R>(f: F, x: T) -> (r: R)
    requires
        f.requires((x,)),
    ensures
        f.ensures((x,), r),
{
    f(x)
}

/// Function application with the argument first, `f(x)`, also known as the
/// T combinator.
pub fn apply_to<T, R, F: FnOnce(T) -> R>(x: T, f: F) -> (r: R)
    requires
        f.requires((x,)),
    ensures
        f.ensures((x,), r),
{
    f(x)
}

/// Substitution, `f(x, g(x))`, also known as the S combinator.
pub fn substitution<A: Copy, B, C, F, G>(f: F, g: G, x: A) -> (r: C) where
    F: FnOnce(A, B) -> C,
    G: FnOnce(A) -> B,

    requires
        g.requires((x,)),
        forall|b: B| g.ensures((x,), b) ==> f.requires((x, b)),
    ensures
        exists|b: B| g.ensures((x,), b) && f.ensures((x, b), r),
{
    let b = g(x);
    f(x, b)
}

/// Hands `x` to the two branches `g` and `h` and merges what they return
/// with `f`: `f(g(x), h(x))`.
pub fn converge<A: Copy, B, C, D, F, G, H>(f: F, g: G, h: H, x: A) -> (r: D) where
    F: FnOnce(B, C) -> D,
    G: FnOnce(A) -> B,
    H: FnOnce(A) -> C,

    requires
        g.requires((x,)),
        h.requires((x,)),
        forall|b: B, c: C| g.ensures((x,), b) && h.ensures((x,), c) ==> f.requires((b, c)),
    ensures
        exists|b: B, c: C| g.ensures((x,), b) && h.ensures((x,), c) && f.ensures((b, c), r),
{
    let b = g(x);
    let c = h(x);
    f(b, c)
}

/// Transforms both `x` and `y` with `g` and merges them with `f`:
/// `f(g(x), g(y))`, also known as the Psi combinator.
pub fn on<A, B, C, F, G>(f: F, g: G, x: A, y: A) -> (r: C) where
    F: FnOnce(B, B) -> C,
    G: FnMut(A) -> B,

    requires
        g.requires((x,)),
        g.requires((y,)),
        forall|b1: B, b2: B| g.ensures((x,), b1) && g.ensures((y,), b2) ==> f.requires((b1, b2)),
    ensures
        exists|b1: B, b2: B| g.ensures((x,), b1) && g.ensures((y,), b2) && f.ensures((b1, b2), r),
{
    let mut g = g;
    let ghost g0 = g;
    let b1 = g(x);
    assert(g == g0);
    let b2 = g(y);
    f(b1, b2)
}

/// Chooses between two functions by a predicate: `if_true(x)` where the
/// predicate holds of `x`, else `if_false(x)`. The other function is not
/// called.
pub fn if_else<A, B, P, T, F>(predicate: P, if_true: T, if_false: F, x: A) -> (r: B) where
    P: FnOnce(&A) -> bool,
    T: FnOnce(A) -> B,
    F: FnOnce(A) -> B,

    requires
        predicate.requires((&x,)),
        predicate.ensures((&x,), true) ==> if_true.requires((x,)),
        predicate.ensures((&x,), false) ==> if_false.requires((x,)),
    ensures
        (predicate.ensures((&x,), true) && if_true.ensures((x,), r)) || (predicate.ensures(
            (&x,),
            false,
        ) && if_false.ensures((x,), r)),
{
    if predicate(&x) {
        if_true(x)
    } else {
        if_false(x)
    }
}

} // verus!
