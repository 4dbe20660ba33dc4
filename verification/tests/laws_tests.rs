use rust2fun::combinator::id;
use rust2fun::laws::applicative_laws::{
    ap_product_consistent, applicative_homomorphism, applicative_identity, applicative_map,
    applicative_unit,
};
use rust2fun::laws::apply_laws::{
    map2_product_consistency, product_l_consistency, product_r_consistency,
};
use rust2fun::laws::bifunctor_laws::{bifunctor_composition, bifunctor_identity};
use rust2fun::laws::flatmap_laws::{
    flat_map_associativity, flat_map_consistent_apply, m_product_consistency,
};
use rust2fun::laws::functor_laws::{
    covariant_composition, covariant_identity, lift_composition, lift_identity,
};
use rust2fun::laws::invariant_laws::{invariant_composition, invariant_identity};
use rust2fun::laws::is_eq::IsEq;
use rust2fun::laws::monad_laws::{
    map_flat_map_coherence, monad_left_identity, monad_right_identity,
};
use rust2fun::laws::monoid_laws::{is_id, monoid_left_identity, monoid_right_identity};
use rust2fun::laws::semigroup_laws::{repeat_0, repeat_1, semigroup_associativity};
use rust2fun::laws::semigroupal_laws::semigroupal_associativity;

fn print(x: i32) -> String {
    x.to_string()
}

fn parse(x: String) -> i32 {
    x.parse().unwrap()
}

#[test]
fn is_eq_compares_its_two_sides() {
    assert!(IsEq::equal_under_law(1, 1).holds());
    assert!(!IsEq::equal_under_law(1, 2).holds());
    let sides = IsEq::equal_under_law("l", "r");
    assert_eq!(sides.lhs, "l");
    assert_eq!(sides.rhs, "r");
}

#[test]
fn functor_laws_hold_for_option_and_vec() {
    for fa in [Some(2), None] {
        assert!(covariant_identity(fa).holds());
        assert!(covariant_composition(fa, print, parse).holds());
        assert!(lift_identity(fa).holds());
        assert!(lift_composition(fa, print, parse).holds());
        assert!(invariant_identity(fa).holds());
        assert!(invariant_composition(fa, print, parse, parse, print).holds());
    }
    let v = vec![1, 2, 3];
    assert!(covariant_identity(v.clone()).holds());
    assert!(covariant_composition(v.clone(), print, parse).holds());
    let sides = covariant_composition(v, print, |s: String| s.len());
    assert_eq!(sides.lhs, vec![1, 1, 1]);
    assert_eq!(sides.rhs, vec![1, 1, 1]);
}

#[test]
fn bifunctor_laws_hold_for_result() {
    let values: [Result<i32, i32>; 2] = [Ok(1), Err(2)];
    for fab in values {
        assert!(bifunctor_identity(fab).holds());
        assert!(bifunctor_composition(fab, print, parse, |e: i32| e + 1, |e: i32| e * 2).holds());
    }
    assert!(bifunctor_identity((1, 'a')).holds());
}

#[test]
fn semigroup_and_monoid_laws_hold_for_numbers_and_strings() {
    assert!(semigroup_associativity(1, 2, 3).holds());
    assert!(repeat_0(5).holds());
    assert!(repeat_1(5).holds());
    assert!(semigroup_associativity("a".to_string(), "b".to_string(), "c".to_string()).holds());
    assert!(monoid_left_identity(7).holds());
    assert!(monoid_right_identity(7).holds());
    assert!(is_id(0).holds());
    assert!(is_id(3).holds());
    assert!(monoid_left_identity("s".to_string()).holds());
    assert!(is_id(Some(1)).holds());
    assert!(is_id(None::<i32>).holds());
    let sides = repeat_1(5);
    assert_eq!(sides.lhs, 10);
    assert_eq!(sides.rhs, 10);
}

#[test]
fn semigroupal_law_holds_for_option_and_vec() {
    assert!(semigroupal_associativity(Some(1), Some('b'), Some(true)).holds());
    assert!(semigroupal_associativity(Some(1), None::<char>, Some(true)).holds());
    let sides = semigroupal_associativity(vec![1, 2], vec!['a'], vec![true, false]);
    assert_eq!(sides.lhs, vec![(1, 'a', true), (1, 'a', false), (2, 'a', true), (2, 'a', false)]);
    assert_eq!(sides.lhs, sides.rhs);
}

#[test]
fn apply_laws_hold_for_option_and_vec() {
    assert!(map2_product_consistency(Some("ab"), Some(2usize), |a: &str, b| a.len() == b).holds());
    assert!(product_r_consistency(Some(1), Some('a')).holds());
    assert!(product_l_consistency(Some(1), Some('a')).holds());
    let sides = product_l_consistency(vec![1, 2], vec!['a', 'b']);
    assert_eq!(sides.lhs, vec![1, 1, 2, 2]);
    assert_eq!(sides.lhs, sides.rhs);
}

#[test]
fn applicative_laws_hold_for_option() {
    for fa in [Some(2), None] {
        assert!(applicative_identity(fa, id).holds());
        assert!(applicative_map(fa, print).holds());
        assert!(ap_product_consistent(fa, Some(print)).holds());
        let none: Option<fn(i32) -> String> = None;
        assert!(ap_product_consistent(fa, none).holds());
    }
    assert!(applicative_homomorphism::<Option<_>, _, _>(3, print).holds());
    assert!(applicative_unit::<Option<_>>(3).holds());
    let sides = applicative_homomorphism::<Vec<_>, _, _>(3, print);
    assert_eq!(sides.lhs, vec!["3".to_string()]);
    assert_eq!(sides.rhs, vec!["3".to_string()]);
}

#[test]
fn flatmap_laws_hold_for_option() {
    for fa in [Some(2), None] {
        assert!(flat_map_associativity(fa, |x| Some(print(x)), |s| Some(parse(s))).holds());
        assert!(flat_map_associativity(fa, |_| None::<String>, |s| Some(parse(s))).holds());
        assert!(flat_map_associativity(fa, |x| Some(print(x)), |_| None::<i32>).holds());
        assert!(flat_map_consistent_apply(fa, Some(print)).holds());
        let none: Option<fn(i32) -> String> = None;
        assert!(flat_map_consistent_apply(fa, none).holds());
        assert!(m_product_consistency(fa, |x| Some(print(x))).holds());
        assert!(m_product_consistency(fa, |_| None::<String>).holds());
    }
}

#[test]
fn monad_laws_hold_for_option_and_vec() {
    assert!(monad_left_identity::<Option<_>, _, _>(3, |x| Some(print(x))).holds());
    assert!(monad_left_identity::<Option<_>, _, _>(3, |_| None::<String>).holds());
    for fa in [Some(2), None] {
        assert!(monad_right_identity(fa).holds());
        assert!(map_flat_map_coherence(fa, print).holds());
    }
    let sides = monad_left_identity::<Vec<_>, _, _>(3, |x| vec![x, x + 1]);
    assert_eq!(sides.lhs, vec![3, 4]);
    assert_eq!(sides.rhs, vec![3, 4]);
    assert!(monad_right_identity(vec![1, 2, 3]).holds());
    assert!(map_flat_map_coherence(vec![1, 2, 3], print).holds());
}
