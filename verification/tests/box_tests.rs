use rust2fun::and_then::AndThen;
use rust2fun::apply::Apply;
use rust2fun::flatmap::{FlatMap, FlatMapOps};
use rust2fun::functor::{Functor, FunctorOps};
use rust2fun::invariant_functor::Invariant;
use rust2fun::map_n::MapN;
use rust2fun::pure::Pure;
use rust2fun::semigroupal::Semigroupal;

#[test]
fn box_map_and_imap() {
    assert_eq!(Box::new(1).map(|x: i32| x + 1), Box::new(2));
    assert_eq!(Box::new(1).imap(|x: i32| x + 1, |x: i32| x - 1), Box::new(2));
    assert_eq!(Box::new(1).fproduct(|x: &i32| x * 2), Box::new((1, 2)));
}

#[test]
fn box_product_ap_and_pure() {
    assert_eq!(Box::new(1).product(Box::new('a')), Box::new((1, 'a')));
    let f: fn(i32) -> i32 = |x| x * 2;
    assert_eq!(Box::new(f).ap(Box::new(4)), Box::new(8));
    assert_eq!(<Box<i32> as Pure>::pure(1), Box::new(1));
    assert_eq!(Box::new(1).map2(Box::new(2), |a, b| a + b), Box::new(3));
}

#[test]
fn box_flat_map() {
    assert_eq!(Box::new(1).flat_map(|x| Box::new(x + 1)), Box::new(2));
    assert_eq!(Box::new(1).and_then(|x| Box::new(x.to_string())), Box::new("1".to_string()));
    assert_eq!(Box::new(Box::new(1)).flatten(), Box::new(1));
    assert_eq!(Box::new(1).m_product(|x| Box::new(x * 2)), Box::new((1, 2)));
}

#[test]
fn box_laws_on_values() {
    let fa = Box::new(3);
    assert_eq!(fa.clone().map(|x: i32| x), fa);
    let f = |x: i32| Box::new(x + 1);
    let g = |x: i32| Box::new(x * 2);
    assert_eq!(<Box<i32>>::pure(3).flat_map(f), f(3));
    assert_eq!(fa.clone().flat_map(<Box<i32>>::pure), fa);
    assert_eq!(fa.clone().flat_map(f).flat_map(g), fa.clone().flat_map(|x| f(x).flat_map(g)));
    let left = fa.clone().product(Box::new('b')).product(Box::new(true)).map(|((a, b), c)| (a, (b, c)));
    let right = fa.product(Box::new('b').product(Box::new(true)));
    assert_eq!(left, right);
}
