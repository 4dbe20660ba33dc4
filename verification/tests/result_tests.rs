use rust2fun::and_then::AndThen;
use rust2fun::ap_n::ApN;
use rust2fun::apply::Apply;
use rust2fun::bifunctor::Bifunctor;
use rust2fun::flatmap::{FlatMap, FlatMapOps};
use rust2fun::functor::{Functor, FunctorOps, FunctorVoid};
use rust2fun::invariant_functor::Invariant;
use rust2fun::map_n::MapN;
use rust2fun::pure::Pure;
use rust2fun::semigroupal::Semigroupal;

type R<T> = Result<T, &'static str>;

#[test]
fn result_map_leaves_an_error_alone() {
    assert_eq!(Functor::map(R::Ok(1), |x: i32| x + 1), Ok(2));
    assert_eq!(Functor::map(R::<i32>::Err("e"), |x: i32| x + 1), Err("e"));
    assert_eq!(R::Ok(1).imap(|x: i32| x + 1, |x: i32| x - 1), Ok(2));
    assert_eq!(R::Ok(1).void(), Ok(()));
    assert_eq!(R::Ok(1).tuple_right('a'), Ok((1, 'a')));
}

#[test]
fn result_product_keeps_the_first_error() {
    assert_eq!(R::Ok(1).product(R::Ok("a")), Ok((1, "a")));
    assert_eq!(R::Ok(1).product(R::<i32>::Err("right")), Err("right"));
    assert_eq!(R::<i32>::Err("left").product(R::Ok(2)), Err("left"));
    assert_eq!(R::<i32>::Err("left").product(R::<i32>::Err("right")), Err("left"));
}

#[test]
fn result_product_is_associative() {
    let values: [R<i32>; 2] = [Ok(1), Err("a")];
    let others: [R<char>; 2] = [Ok('x'), Err("b")];
    let thirds: [R<bool>; 2] = [Ok(true), Err("c")];
    for fa in values {
        for fb in others {
            for fc in thirds {
                let left = Functor::map(fa.product(fb).product(fc), |((a, b), c)| (a, (b, c)));
                let right = fa.product(fb.product(fc));
                assert_eq!(left, right);
            }
        }
    }
}

#[test]
fn result_ap_keeps_the_first_error() {
    let f: fn(i32) -> i32 = |x| x + 1;
    assert_eq!(R::Ok(f).ap(Ok(1)), Ok(2));
    assert_eq!(R::Ok(f).ap(Err("right")), Err("right"));
    assert_eq!(R::<fn(i32) -> i32>::Err("left").ap(Ok(1)), Err("left"));
    assert_eq!(R::<fn(i32) -> i32>::Err("left").ap(Err("right")), Err("left"));
}

#[test]
fn result_pure_is_ok() {
    assert_eq!(<R<i32> as Pure>::pure(1), Ok(1));
    assert_eq!(<R<()> as Pure>::unit(), Ok(()));
}

#[test]
fn result_map2_and_ap2() {
    assert_eq!(R::Ok(1).map2(Ok(2), |x, y| x + y), Ok(3));
    assert_eq!(R::Ok(1).map2(R::<i32>::Err("e"), |x, y| x + y), Err("e"));
    assert_eq!(R::Ok(1).product_r(R::Ok('a')), Ok('a'));
    assert_eq!(R::Ok(1).product_l(R::Ok('a')), Ok(1));
    let add: fn(i32, i32) -> i32 = |x, y| x + y;
    assert_eq!(R::Ok(add).ap2(Ok(1), Ok(2)), Ok(3));
    assert_eq!(R::Ok(add).ap2(Ok(1), Err("e")), Err("e"));
}

#[test]
fn result_flat_map_stops_at_the_first_error() {
    assert_eq!(R::Ok(1).flat_map(|x| R::Ok(x + 1)), Ok(2));
    assert_eq!(R::Ok(1).flat_map(|_| R::<i32>::Err("later")), Err("later"));
    let mut called = false;
    let r = R::<i32>::Err("first").flat_map(|x| {
        called = true;
        R::Ok(x + 1)
    });
    assert_eq!(r, Err("first"));
    assert!(!called);
    assert_eq!(AndThen::and_then(R::Ok(1), |x: i32| R::Ok(x * 2)), Ok(2));
    assert_eq!(FlatMapOps::flatten(R::Ok(R::Ok(1))), Ok(1));
    assert_eq!(R::Ok(1).m_product(|x| R::Ok(x * 2)), Ok((1, 2)));
    assert_eq!(R::Ok(1).flat_tap(|_| R::Ok('a')), Ok(1));
    assert_eq!(R::Ok(1).flat_tap(|_| R::<char>::Err("e")), Err("e"));
}

#[test]
fn result_monad_laws_on_values() {
    let f = |x: i32| if x > 0 { R::Ok(x * 2) } else { Err("f") };
    let g = |x: i32| if x < 10 { R::Ok(x.to_string()) } else { Err("g") };
    for a in [-1, 1, 7] {
        assert_eq!(<R<i32>>::pure(a).flat_map(f), f(a));
    }
    for m in [Ok(-1), Ok(1), Ok(7), Err("m")] {
        assert_eq!(m.flat_map(<R<i32>>::pure), m);
        assert_eq!(m.flat_map(f).flat_map(g), m.flat_map(|x| f(x).flat_map(g)));
        let h = |x: i32| x + 1;
        assert_eq!(m.flat_map(|a| <R<i32>>::pure(h(a))), Functor::map(m, h));
    }
}

#[test]
fn result_bimap_maps_the_side_that_is_there() {
    let ok: Result<i32, &str> = Ok(1);
    let err: Result<i32, &str> = Err("abc");
    assert_eq!(ok.bimap(|x| x + 1, |e: &str| e.len()), Ok(2));
    assert_eq!(err.bimap(|x| x + 1, |e: &str| e.len()), Err(3));
}

#[test]
fn tuple_bimap_maps_both_sides() {
    assert_eq!((1, "ab").bimap(|x| x + 1, |s: &str| s.len()), (2, 2));
}

#[test]
fn bimap_identity_and_composition() {
    let values: [Result<i32, i32>; 2] = [Ok(1), Err(2)];
    for fab in values {
        assert_eq!(fab.bimap(|x| x, |e| e), fab);
        let (f1, g1) = (|x: i32| x + 1, |e: i32| e * 2);
        let (f2, g2) = (|x: i32| x * 10, |e: i32| e - 1);
        assert_eq!(
            fab.bimap(f1, g1).bimap(f2, g2),
            fab.bimap(|x| f2(f1(x)), |e| g2(g1(e)))
        );
    }
    assert_eq!((1, 2).bimap(|x| x, |y| y), (1, 2));
}
