use rust2fun::and_then::AndThen;
use rust2fun::apply::Apply;
use rust2fun::data::ne_vec::NEVec;
use rust2fun::flatmap::{FlatMap, FlatMapOps};
use rust2fun::functor::{Functor, FunctorOps};
use rust2fun::invariant_functor::Invariant;
use rust2fun::map_n::MapN;
use rust2fun::pure::Pure;
use rust2fun::semigroup::{Semigroup, SemigroupOps};
use rust2fun::semigroupal::Semigroupal;

fn ne(head: i32, tail: Vec<i32>) -> NEVec<i32> {
    NEVec { head, tail }
}

#[test]
fn ne_vec_constructors() {
    let v = NEVec::new(1);
    assert_eq!(v.head, 1);
    assert!(v.tail.is_empty());
    let v = NEVec::with_tail_capacity(1, 2);
    assert_eq!(v.head, 1);
    assert!(v.tail.is_empty());
    assert!(v.tail.capacity() >= 2);
    let v = NEVec::from_elem(1, 3);
    assert_eq!(v, ne(1, vec![1, 1]));
    assert_eq!(NEVec::from_elem('a', 1), NEVec::new('a'));
    assert_eq!(NEVec::from_vec(vec![1, 2, 3]), Some(ne(1, vec![2, 3])));
    assert_eq!(NEVec::<bool>::from_vec(vec![]), None);
    assert_eq!(NEVec::from_slice(&[1, 2, 3]), Some(ne(1, vec![2, 3])));
    assert_eq!(NEVec::<bool>::from_slice(&[]), None);
    assert_eq!(NEVec::<i32>::default(), NEVec::new(0));
}

#[test]
fn ne_vec_conversions() {
    assert_eq!(NEVec::from((1, vec![2, 3])), ne(1, vec![2, 3]));
    assert_eq!(<(i32, Vec<i32>)>::from(ne(1, vec![2, 3])), (1, vec![2, 3]));
    assert_eq!(Vec::from(ne(1, vec![2, 3])), vec![1, 2, 3]);
    assert_eq!(NEVec::try_from(vec![1, 2]), Ok(ne(1, vec![2])));
    assert_eq!(NEVec::<i32>::try_from(vec![]), Err(vec![]));
    assert_eq!(ne(1, vec![2, 3]).to_vec(), vec![1, 2, 3]);
    assert_eq!(ne(1, vec![2, 3]).into_vec(), vec![1, 2, 3]);
    assert_eq!(ne(1, vec![2]).clone(), ne(1, vec![2]));
}

#[test]
fn ne_vec_insert_shifts_to_the_right() {
    let mut v = NEVec::new(1);
    v.insert(1, 2);
    assert_eq!(v, ne(1, vec![2]));
    let mut v = NEVec::new(1);
    v.insert(0, 2);
    assert_eq!(v, ne(2, vec![1]));
    v.insert(2, 3);
    assert_eq!(v, ne(2, vec![1, 3]));
    v.insert(0, 4);
    assert_eq!(v, ne(4, vec![2, 1, 3]));
    v.insert(1, 5);
    assert_eq!(v, ne(4, vec![5, 2, 1, 3]));
}

#[test]
fn ne_vec_remove_shifts_to_the_left() {
    let mut v = ne(1, vec![2, 3]);
    assert_eq!(v.remove(0), 1);
    assert_eq!(v, ne(2, vec![3]));
    assert_eq!(v.remove(1), 3);
    assert_eq!(v, NEVec::new(2));
}

#[test]
fn ne_vec_swap_remove_puts_the_last_element_in_the_gap() {
    let mut v = ne(1, vec![2, 3, 4]);
    assert_eq!(v.swap_remove(1), 2);
    assert_eq!(v, ne(1, vec![4, 3]));
    assert_eq!(v.swap_remove(0), 1);
    assert_eq!(v, ne(3, vec![4]));
    assert_eq!(v.swap_remove(1), 4);
    assert_eq!(v, NEVec::new(3));
}

#[test]
fn ne_vec_reads() {
    let v = ne(1, vec![2, 3]);
    assert_eq!(v.len(), 3);
    assert_eq!(NEVec::new(1).len(), 1);
    assert_eq!(v.first(), &1);
    assert_eq!(v.last(), &3);
    assert_eq!(NEVec::new(1).last(), &1);
    assert_eq!(v.get(0), Some(&1));
    assert_eq!(v.get(2), Some(&3));
    assert_eq!(v.get(3), None);
    assert_eq!(v.iter(), vec![&1, &2, &3]);
    assert_eq!(v[0], 1);
    assert_eq!(v[1], 2);
    assert_eq!(v[2], 3);
}

#[test]
fn ne_vec_writes_through_references() {
    let mut v = ne(1, vec![2, 3]);
    *v.first_mut() = 4;
    assert_eq!(v, ne(4, vec![2, 3]));
    *v.last_mut() = 5;
    assert_eq!(v, ne(4, vec![2, 5]));
    let mut one = NEVec::new(1);
    *one.last_mut() = 2;
    assert_eq!(one, NEVec::new(2));
    *v.get_mut(1).unwrap() = 9;
    assert_eq!(v, ne(4, vec![9, 5]));
    *v.get_mut(0).unwrap() = 8;
    assert_eq!(v, ne(8, vec![9, 5]));
    assert_eq!(v.get_mut(3), None);
}

#[test]
fn ne_vec_functor() {
    assert_eq!(ne(1, vec![2, 3]).map(|x: i32| x * 2), ne(2, vec![4, 6]));
    assert_eq!(ne(1, vec![]).imap(|x: i32| x + 1, |x: i32| x - 1), ne(2, vec![]));
    assert_eq!(ne(1, vec![2]).fproduct(|x: &i32| x * 10), NEVec { head: (1, 10), tail: vec![(2, 20)] });
    assert_eq!(<NEVec<i32> as Pure>::pure(1), NEVec::new(1));
}

#[test]
fn ne_vec_product_and_ap() {
    let r = ne(1, vec![2]).product(ne(3, vec![4]));
    assert_eq!(r, NEVec { head: (1, 3), tail: vec![(1, 4), (2, 3), (2, 4)] });
    let add: fn(i32) -> i32 = |x| x + 1;
    let double: fn(i32) -> i32 = |x| x * 2;
    let fs = NEVec { head: add, tail: vec![double] };
    assert_eq!(fs.ap(ne(3, vec![4])), ne(4, vec![5, 6, 8]));
    assert_eq!(ne(1, vec![2]).map2(ne(10, vec![20]), |a, b| a + b), ne(11, vec![21, 12, 22]));
}

#[test]
fn ne_vec_flat_map() {
    assert_eq!(ne(1, vec![2]).flat_map(|x| ne(x, vec![x * 10])), ne(1, vec![10, 2, 20]));
    assert_eq!(ne(1, vec![]).flat_map(|x| ne(x + 1, vec![])), ne(2, vec![]));
    assert_eq!(ne(1, vec![2]).and_then(|x| NEVec::new(x * 2)), ne(2, vec![4]));
    let nested = NEVec { head: ne(1, vec![2]), tail: vec![ne(3, vec![])] };
    assert_eq!(nested.flatten(), ne(1, vec![2, 3]));
}

#[test]
fn ne_vec_laws_on_values() {
    let m = ne(1, vec![2, 3]);
    assert_eq!(m.clone().map(|x: i32| x), m);
    let f = |x: i32| ne(x, vec![x + 1]);
    let g = |x: i32| ne(x * 2, vec![]);
    assert_eq!(NEVec::pure(5).flat_map(f), f(5));
    assert_eq!(m.clone().flat_map(NEVec::pure), m);
    assert_eq!(m.clone().flat_map(f).flat_map(g), m.clone().flat_map(|x| f(x).flat_map(g)));
    let h = |x: i32| x + 7;
    assert_eq!(m.clone().flat_map(|a| NEVec::pure(h(a))), m.clone().map(h));
    let left = m.clone().product(ne(7, vec![8])).product(ne(9, vec![])).map(|((a, b), c)| (a, (b, c)));
    let right = m.product(ne(7, vec![8]).product(ne(9, vec![])));
    assert_eq!(left, right);
}

#[test]
fn ne_vec_semigroup() {
    assert_eq!(ne(1, vec![2]).combine(ne(3, vec![4])), ne(1, vec![2, 3, 4]));
    assert_eq!(ne(1, vec![]).combine_n(2), ne(1, vec![1, 1]));
    let (a, b, c) = (ne(1, vec![]), ne(2, vec![3]), ne(4, vec![]));
    assert_eq!(a.clone().combine(b.clone()).combine(c.clone()), a.combine(b.combine(c)));
}
