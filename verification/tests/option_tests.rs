use rust2fun::and_then::AndThen;
use rust2fun::ap_n::ApN;
use rust2fun::apply::Apply;
use rust2fun::flatmap::{FlatMap, FlatMapOps};
use rust2fun::functor::{lift, Functor, FunctorOps, FunctorVoid};
use rust2fun::invariant_functor::Invariant;
use rust2fun::map_n::MapN;
use rust2fun::pure::Pure;
use rust2fun::semigroupal::Semigroupal;

#[test]
fn option_map_present_and_absent() {
    assert_eq!(Functor::map(Some(1), |x: i32| x + 1), Some(2));
    assert_eq!(Functor::map(None::<i32>, |x: i32| x + 1), None);
}

#[test]
fn option_map_calls_the_function_once_for_a_value_and_never_for_none() {
    let mut calls = 0;
    let r = Functor::map(Some(5), |x: i32| {
        calls += 1;
        x * 2
    });
    assert_eq!(r, Some(10));
    assert_eq!(calls, 1);
    let mut calls = 0;
    let r = Functor::map(None::<i32>, |x: i32| {
        calls += 1;
        x * 2
    });
    assert_eq!(r, None);
    assert_eq!(calls, 0);
}

#[test]
fn option_fmap_is_map() {
    assert_eq!(Some("1".to_string()).fmap(|s: String| s.len()), Some(1));
}

#[test]
fn option_imap_uses_the_forward_function() {
    let r = Some("1".to_string()).imap(|s: String| s.parse::<i32>().unwrap(), |i: i32| i.to_string());
    assert_eq!(r, Some(1));
}

#[test]
fn option_imap_identity_and_composition() {
    for fa in [Some(3), None] {
        assert_eq!(fa.imap(|x: i32| x, |x: i32| x), fa);
        let (f1, f2) = (|x: i32| x.to_string(), |s: String| s.parse::<i32>().unwrap());
        let (g1, g2) = (|s: String| s.len(), |n: usize| "7".repeat(n));
        assert_eq!(
            fa.imap(f1, f2).imap(g1, g2),
            fa.imap(|x| g1(f1(x)), |n| f2(g2(n)))
        );
    }
}

#[test]
fn option_map_identity_and_composition() {
    for fa in [Some(3), None] {
        assert_eq!(Functor::map(fa, |x: i32| x), fa);
        let f = |x: i32| x + 1;
        let g = |x: i32| x * 10;
        assert_eq!(
            Functor::map(Functor::map(fa, f), g),
            Functor::map(fa, |x: i32| g(f(x)))
        );
    }
}

#[test]
fn option_derived_functor_operations() {
    assert_eq!(Some(1).fproduct(|x: &i32| x.to_string()), Some((1, "1".to_string())));
    assert_eq!(Some(1).fproduct_left(|x: &i32| x.to_string()), Some(("1".to_string(), 1)));
    assert_eq!(Some(1).map_const("foo"), Some("foo"));
    assert_eq!(Some(1).void(), Some(()));
    assert_eq!(None::<i32>.void(), None);
    assert_eq!(Some(1).tuple_left("foo"), Some(("foo", 1)));
    assert_eq!(Some(1).tuple_right("foo"), Some((1, "foo")));
    assert_eq!(Some((1, "foo")).unzip(), (Some(1), Some("foo")));
    assert_eq!(Some(true).if_f(|| 1, || 0), Some(1));
    assert_eq!(Some(false).if_f(|| 1, || 0), Some(0));
}

#[test]
fn option_lift() {
    let f = lift(|x: i32| x + 1);
    assert_eq!(f(Some(1)), Some(2));
    assert_eq!(f(None), None);
}

#[test]
fn option_product_needs_both_values() {
    assert_eq!(Some(1).product(Some(2)), Some((1, 2)));
    assert_eq!(Some(1).product(None::<i32>), None);
    assert_eq!(None::<i32>.product(Some(2)), None);
    assert_eq!(None::<i32>.product(None::<i32>), None);
}

#[test]
fn option_product_is_associative() {
    let cases = [(Some(1), Some("b"), Some(3.5)), (Some(1), None, Some(3.5)), (None, Some("b"), None)];
    for (fa, fb, fc) in cases {
        let left = Functor::map(fa.product(fb).product(fc), |((a, b), c)| (a, (b, c)));
        let right = fa.product(fb.product(fc));
        assert_eq!(left, right);
    }
}

#[test]
fn option_map2_and_product_sides() {
    assert_eq!(Some(1).map2(Some(2), |x, y| x + y), Some(3));
    assert_eq!(Some(1).map2(None::<i32>, |x, y| x + y), None);
    assert_eq!(Some(1).product_r(Some(2)), Some(2));
    assert_eq!(Some(1).product_l(Some(2)), Some(1));
    assert_eq!(Some(1).product_l(None::<i32>), None);
    assert_eq!(
        Some(1).map2(Some(2), |x, y| x * 10 + y),
        Functor::map(Some(1).product(Some(2)), |(a, b)| a * 10 + b)
    );
}

#[test]
fn option_map3_and_map4() {
    assert_eq!(Some(1).map3(Some(2), Some(3), |x, y, z| x + y + z), Some(6));
    assert_eq!(Some(1).map3(Some(2), None::<i32>, |x, y, z| x + y + z), None);
    assert_eq!(
        Some(1).map4(Some(2), Some(3), Some(4), |a, b, c, d| a * 1000 + b * 100 + c * 10 + d),
        Some(1234)
    );
}

#[test]
fn option_map12_hands_the_arguments_over_in_order() {
    let r = Some(1u64).map12(
        Some(2u64),
        Some(3u64),
        Some(4u64),
        Some(5u64),
        Some(6u64),
        Some(7u64),
        Some(8u64),
        Some(9u64),
        Some(10u64),
        Some(11u64),
        Some(12u64),
        |a, b, c, d, e, f, g, h, i, j, k, l| vec![a, b, c, d, e, f, g, h, i, j, k, l],
    );
    assert_eq!(r, Some(vec![1, 2, 3, 4, 5, 6, 7, 8, 9, 10, 11, 12]));
}

#[test]
fn option_ap() {
    let ff = Some(|x: i32| x.to_string());
    assert_eq!(ff.ap(Some(1)), Some("1".to_string()));
    assert_eq!(ff.ap(None), None);
    assert_eq!(None::<fn(i32) -> String>.ap(Some(1)), None);
}

#[test]
fn option_ap2_and_ap3() {
    assert_eq!(Some(|x: i32, y: i32| x + y).ap2(Some(1), Some(2)), Some(3));
    assert_eq!(Some(|x: i32, y: i32| x + y).ap2(Some(1), None), None);
    assert_eq!(Some(|x: i32, y: i32, z: i32| x + y + z).ap3(Some(1), Some(2), Some(3)), Some(6));
    assert_eq!(None::<fn(i32, i32) -> i32>.ap2(Some(1), Some(2)), None);
}

#[test]
fn option_pure_and_unit() {
    assert_eq!(<Option<i32> as Pure>::pure(1), Some(1));
    assert_eq!(<Option<()> as Pure>::unit(), Some(()));
}

#[test]
fn option_applicative_laws_on_values() {
    for fa in [Some(4), None] {
        assert_eq!(<Option<fn(i32) -> i32> as Pure>::pure(|x| x).ap(fa), fa);
        let f = |x: i32| x + 1;
        assert_eq!(Functor::map(fa, f), Option::pure(f).ap(fa));
    }
    let f = |x: i32| x * 3;
    assert_eq!(Option::pure(f).ap(Option::pure(5)), Option::pure(f(5)));
    assert_eq!(Functor::map(<Option<()> as Pure>::unit(), |_| 7), Option::pure(7));
}

#[test]
fn option_flat_map() {
    assert_eq!(Some(1).flat_map(|x| Some(x.to_string())), Some("1".to_string()));
    assert_eq!(Some(1).flat_map(|_| None::<String>), None);
}

#[test]
fn option_flat_map_on_none_never_calls_the_continuation() {
    let mut called = false;
    let r = None::<i32>.flat_map(|x| {
        called = true;
        Some(x + 1)
    });
    assert_eq!(r, None);
    assert!(!called);
}

#[test]
fn option_and_then_is_flat_map() {
    assert_eq!(AndThen::and_then(Some(2), |x: i32| Some(x * 2)), Some(4));
    assert_eq!(AndThen::and_then(None::<i32>, |x: i32| Some(x * 2)), None);
}

#[test]
fn option_derived_flat_map_operations() {
    assert_eq!(FlatMapOps::flatten(Some(Some(1))), Some(1));
    assert_eq!(FlatMapOps::flatten(Some(None::<i32>)), None);
    assert_eq!(Some(1).m_product(|x| Some(x.to_string())), Some((1, "1".to_string())));
    assert_eq!(Some(1).m_product(|_| None::<String>), None);
    assert_eq!(Some(true).if_m(|| Some(1), || Some(0)), Some(1));
    assert_eq!(Some(false).if_m(|| Some(1), || None), None);
    assert_eq!(Some(1).flat_tap(|x| Some(x.to_string())), Some(1));
    assert_eq!(Some(1).flat_tap(|_| None::<String>), None);
}

#[test]
fn option_monad_laws_on_values() {
    let f = |x: i32| if x > 0 { Some(x.to_string()) } else { None };
    let g = |s: String| if s.len() < 2 { Some(s.len()) } else { None };
    for a in [-1, 1, 10] {
        assert_eq!(Option::pure(a).flat_map(f), f(a));
    }
    for m in [Some(-1), Some(1), Some(10), None] {
        assert_eq!(m.flat_map(Option::pure), m);
        assert_eq!(m.flat_map(f).flat_map(g), m.flat_map(|x| f(x).flat_map(g)));
        let h = |x: i32| x + 1;
        assert_eq!(m.flat_map(|a| Option::pure(h(a))), Functor::map(m, h));
    }
}
