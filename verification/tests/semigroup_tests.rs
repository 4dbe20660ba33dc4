use rust2fun::monoid::{Monoid, MonoidOps};
use rust2fun::semigroup::{Semigroup, SemigroupOps};
use std::marker::PhantomData;

#[test]
fn numbers_combine_by_addition() {
    assert_eq!(1.combine(2), 3);
    assert_eq!(250u8.combine(5u8), 255u8);
    assert_eq!((-3i64).combine(3i64), 0);
    assert_eq!(usize::MAX.combine(0), usize::MAX);
    assert_eq!(i8::MIN.combine(0), i8::MIN);
    assert_eq!(7u128.combine(8u128), 15u128);
}

#[test]
fn combine_n_with_zero_gives_the_value_back() {
    assert_eq!(1.combine_n(0), 1);
}

#[test]
fn combine_n_takes_one_more_copy_than_its_count() {
    assert_eq!(1.combine_n(1), 2);
    assert_eq!(1.combine_n(2), 3);
    assert_eq!(SemigroupOps::combine_n(1, 3), 4);
    assert_eq!("ab".to_string().combine_n(2), "ababab");
    assert_eq!(Some(2).combine_n(4), Some(10));
    assert_eq!(None::<i32>.combine_n(4), None);
}

#[test]
fn combine_all_option_folds_from_the_left() {
    assert_eq!(u8::combine_all_option(vec![]), None);
    assert_eq!(i32::combine_all_option(vec![1, 2, 3]), Some(6));
    assert_eq!(
        String::combine_all_option(vec!["a".to_string(), "b".to_string(), "c".to_string()]),
        Some("abc".to_string())
    );
    assert_eq!(i32::combine_all_option(vec![9]), Some(9));
}

#[test]
fn combine_all_starts_from_the_identity_element() {
    assert_eq!(u8::combine_all(vec![]), 0);
    assert_eq!(i32::combine_all(vec![1, 2, 3]), 6);
    assert_eq!(String::combine_all(vec!["x".to_string(), "y".to_string()]), "xy");
    assert_eq!(<Option<i32>>::combine_all(vec![None, Some(1), Some(2), None]), Some(3));
}

#[test]
fn option_combines_what_is_there() {
    assert_eq!(Some(1).combine(None), Some(1));
    assert_eq!(None.combine(Some(2)), Some(2));
    assert_eq!(Some(1).combine(Some(2)), Some(3));
    assert_eq!(None::<i32>.combine(None), None);
}

#[test]
fn strings_combine_by_concatenation_in_order() {
    assert_eq!("bad name".to_string().combine("bad age".to_string()), "bad namebad age");
    assert_eq!(String::empty(), "");
    assert!(Monoid::is_empty(&String::new()));
    assert!(!Monoid::is_empty(&"a".to_string()));
}

#[test]
fn tuples_combine_part_by_part() {
    assert_eq!((1,).combine((2,)), (3,));
    assert_eq!((1, "a".to_string()).combine((2, "b".to_string())), (3, "ab".to_string()));
    assert_eq!((1, 2, 3).combine((10, 20, 30)), (11, 22, 33));
    assert_eq!(
        (1, 2, 3, 4, 5, 6, 7, 8, 9, 10, 11, 12).combine((1, 1, 1, 1, 1, 1, 1, 1, 1, 1, 1, 1)),
        (2, 3, 4, 5, 6, 7, 8, 9, 10, 11, 12, 13)
    );
    assert_eq!(<(i32, String)>::empty(), (0, "".to_string()));
    assert!((0, String::new()).is_empty());
    assert!(!(0, "a".to_string()).is_empty());
    assert!(!(1, String::new()).is_empty());
}

#[test]
fn unit_and_phantom_data_are_trivial_monoids() {
    assert_eq!(().combine(()), ());
    assert!(Monoid::is_empty(&()));
    assert_eq!(PhantomData::<u8>.combine(PhantomData), PhantomData);
    assert!(Monoid::is_empty(&PhantomData::<u8>));
    assert_eq!(<PhantomData<u8> as Monoid>::empty(), PhantomData);
}

#[test]
fn boxes_combine_what_they_hold() {
    assert_eq!(Box::new(1).combine(Box::new(2)), Box::new(3));
}

#[test]
fn zero_is_the_identity_of_numbers() {
    assert_eq!(i32::empty(), 0);
    assert!(i32::empty().is_empty());
    assert!(!1.is_empty());
    assert!(Monoid::is_empty(&0u64));
    for a in [-5, 0, 7] {
        assert_eq!(i32::empty().combine(a), a);
        assert_eq!(a.combine(i32::empty()), a);
        assert_eq!(a.is_empty(), a == i32::empty());
    }
}

#[test]
fn none_is_the_identity_of_options() {
    assert_eq!(<Option<i32>>::empty(), None);
    assert!(Monoid::is_empty(&None::<i32>));
    assert!(!Monoid::is_empty(&Some(0)));
}

#[test]
fn combine_is_associative_on_values() {
    let cases = [(1, 2, 3), (-1, 0, 1), (100, 200, 300)];
    for (a, b, c) in cases {
        assert_eq!(a.combine(b).combine(c), a.combine(b.combine(c)));
    }
    let (a, b, c) = ("a".to_string(), "b".to_string(), "c".to_string());
    assert_eq!(
        a.clone().combine(b.clone()).combine(c.clone()),
        a.combine(b.combine(c))
    );
    let (a, b, c) = (Some(1), None, Some(3));
    assert_eq!(a.combine(b).combine(c), a.combine(b.combine(c)));
}
