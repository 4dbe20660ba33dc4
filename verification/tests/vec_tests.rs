use rust2fun::and_then::AndThen;
use rust2fun::ap_n::ApN;
use rust2fun::apply::Apply;
use rust2fun::flatmap::{FlatMap, FlatMapOps};
use rust2fun::functor::{lift, Functor, FunctorOps, FunctorVoid};
use rust2fun::invariant_functor::Invariant;
use rust2fun::map_n::MapN;
use rust2fun::monoid::{Monoid, MonoidOps};
use rust2fun::pure::Pure;
use rust2fun::semigroup::{Semigroup, SemigroupOps};
use rust2fun::semigroupal::Semigroupal;

#[test]
fn vec_map_keeps_order_and_length() {
    assert_eq!(vec![1, 2, 3].map(|x: i32| x * 2), vec![2, 4, 6]);
    assert_eq!(Vec::<i32>::new().map(|x: i32| x * 2), Vec::<i32>::new());
    assert_eq!(vec![1, 2].imap(|x: i32| x.to_string(), |s: String| s.len() as i32), vec!["1", "2"]);
}

#[test]
fn vec_map_calls_the_function_in_order() {
    let mut seen = Vec::new();
    let r = vec![3, 1, 2].map(|x: i32| {
        seen.push(x);
        x + 1
    });
    assert_eq!(r, vec![4, 2, 3]);
    assert_eq!(seen, vec![3, 1, 2]);
}

#[test]
fn vec_derived_functor_operations() {
    assert_eq!(vec![1, 2].fproduct(|x: &i32| x * 10), vec![(1, 10), (2, 20)]);
    assert_eq!(vec![1, 2].fproduct_left(|x: &i32| x * 10), vec![(10, 1), (20, 2)]);
    assert_eq!(vec![1, 2].map_const('a'), vec!['a', 'a']);
    assert_eq!(vec![1, 2, 3].void(), vec![(), (), ()]);
    assert_eq!(vec![1, 2].tuple_left('a'), vec![('a', 1), ('a', 2)]);
    assert_eq!(vec![1, 2].tuple_right('a'), vec![(1, 'a'), (2, 'a')]);
    assert_eq!(vec![true, false, true].if_f(|| 1, || 0), vec![1, 0, 1]);
    let f = lift(|x: i32| x + 1);
    assert_eq!(f(vec![1, 2]), vec![2, 3]);
    assert_eq!(f(vec![]), Vec::<i32>::new());
}

#[test]
fn vec_product_is_the_cross_product_with_the_left_side_slowest() {
    assert_eq!(vec![1, 2].product(vec![3, 4]), vec![(1, 3), (1, 4), (2, 3), (2, 4)]);
    assert_eq!(vec![1, 2].product(Vec::<i32>::new()), vec![]);
    assert_eq!(Vec::<i32>::new().product(vec![3, 4]), vec![]);
    assert_eq!(vec!["a"].product(vec![1, 2, 3]), vec![("a", 1), ("a", 2), ("a", 3)]);
}

#[test]
fn vec_product_is_associative() {
    let fa = vec![1, 2];
    let fb = vec!['x', 'y', 'z'];
    let fc = vec![true, false];
    let left = fa
        .clone()
        .product(fb.clone())
        .product(fc.clone())
        .map(|((a, b), c)| (a, (b, c)));
    let right = fa.product(fb.product(fc));
    assert_eq!(left.len(), 12);
    assert_eq!(left, right);
}

#[test]
fn vec_map2_and_product_sides() {
    assert_eq!(vec![1, 2].map2(vec![10, 20], |a, b| a + b), vec![11, 21, 12, 22]);
    assert_eq!(vec![1, 2].product_r(vec![10, 20]), vec![10, 20, 10, 20]);
    assert_eq!(vec![1, 2].product_l(vec![10, 20]), vec![1, 1, 2, 2]);
    assert_eq!(
        vec![1, 2].map3(vec![10], vec![100, 200], |a, b, c| a + b + c),
        vec![111, 211, 112, 212]
    );
}

#[test]
fn vec_ap_applies_every_function_to_every_value() {
    let add: fn(i32) -> i32 = |x| x + 1;
    let double: fn(i32) -> i32 = |x| x * 2;
    assert_eq!(vec![add, double].ap(vec![3, 4]), vec![4, 5, 6, 8]);
    assert_eq!(vec![add].ap(Vec::<i32>::new()), Vec::<i32>::new());
    assert_eq!(Vec::<fn(i32) -> i32>::new().ap(vec![3, 4]), Vec::<i32>::new());
}

#[test]
fn vec_ap2() {
    let add: fn(i32, i32) -> i32 = |x, y| x + y;
    let mul: fn(i32, i32) -> i32 = |x, y| x * y;
    assert_eq!(vec![add, mul].ap2(vec![1, 2], vec![10, 20]), vec![11, 21, 12, 22, 10, 20, 20, 40]);
}

#[test]
fn vec_pure_is_a_singleton() {
    assert_eq!(<Vec<i32> as Pure>::pure(1), vec![1]);
    assert_eq!(<Vec<()> as Pure>::unit(), vec![()]);
}

#[test]
fn vec_applicative_laws_on_values() {
    let id: fn(i32) -> i32 = |x| x;
    let f: fn(i32) -> i32 = |x| x + 1;
    for fa in [vec![], vec![1], vec![1, 2, 3]] {
        assert_eq!(Vec::pure(id).ap(fa.clone()), fa);
        assert_eq!(fa.clone().map(f), Vec::pure(f).ap(fa));
    }
    assert_eq!(Vec::pure(f).ap(Vec::pure(5)), Vec::pure(f(5)));
    assert_eq!(<Vec<()> as Pure>::unit().map(|_| 7), Vec::pure(7));
}

#[test]
fn vec_flat_map_concatenates() {
    assert_eq!(vec![1, 2, 3].flat_map(|x| vec![x; x as usize]), vec![1, 2, 2, 3, 3, 3]);
    assert_eq!(vec![1, 2].flat_map(|_| Vec::<i32>::new()), Vec::<i32>::new());
    assert_eq!(Vec::<i32>::new().flat_map(|x| vec![x]), Vec::<i32>::new());
    assert_eq!(vec![1, 2].and_then(|x| vec![x, -x]), vec![1, -1, 2, -2]);
}

#[test]
fn vec_derived_flat_map_operations() {
    assert_eq!(vec![vec![1], vec![], vec![2, 3]].flatten(), vec![1, 2, 3]);
    assert_eq!(vec![1, 2].m_product(|x| vec![x * 10, x * 100]), vec![(1, 10), (1, 100), (2, 20), (2, 200)]);
    assert_eq!(vec![true, false].if_m(|| vec![1, 2], || vec![0]), vec![1, 2, 0]);
    assert_eq!(vec![1, 2].flat_tap(|x| vec!['a'; x as usize]), vec![1, 2, 2]);
}

#[test]
fn vec_monad_laws_on_values() {
    let f = |x: i32| vec![x, x + 1];
    let g = |x: i32| if x % 2 == 0 { vec![x.to_string()] } else { vec![] };
    assert_eq!(Vec::pure(3).flat_map(f), f(3));
    for m in [vec![], vec![1], vec![1, 2, 3]] {
        assert_eq!(m.clone().flat_map(Vec::pure), m);
        assert_eq!(m.clone().flat_map(f).flat_map(g), m.clone().flat_map(|x| f(x).flat_map(g)));
        let h = |x: i32| x * 2;
        assert_eq!(m.clone().flat_map(|a| Vec::pure(h(a))), m.map(h));
    }
}

#[test]
fn vec_is_a_monoid_under_concatenation() {
    assert_eq!(vec![1, 2].combine(vec![3]), vec![1, 2, 3]);
    assert_eq!(<Vec<i32> as Monoid>::empty(), Vec::<i32>::new());
    assert!(Monoid::is_empty(&Vec::<i32>::new()));
    assert!(!Monoid::is_empty(&vec![1]));
    assert_eq!(vec![1].combine_n(2), vec![1, 1, 1]);
    assert_eq!(Vec::combine_all(vec![vec![1], vec![], vec![2, 3]]), vec![1, 2, 3]);
    assert_eq!(Vec::combine_all_option(vec![vec![1], vec![2]]), Some(vec![1, 2]));
    assert_eq!(Vec::<i32>::combine_all_option(vec![]), None);
}
