use rust2fun::laws::applicative_laws::ap_product_consistent;
use rust2fun::laws::apply_laws::{
    map2_product_consistency, product_l_consistency, product_r_consistency,
};
use rust2fun::laws::contravariant_laws::{
    contravariant_composition, contravariant_identity, lift_contravariant_composition,
    lift_contravariant_identity,
};
use rust2fun::laws::flatmap_laws::{
    flat_map_associativity, flat_map_consistent_apply, m_product_consistency,
};
use rust2fun::laws::functor_laws::{
    covariant_composition, covariant_identity, lift_composition, lift_identity,
};
use rust2fun::laws::invariant_laws::{invariant_composition, invariant_identity};
use rust2fun::laws::semigroup_laws::{repeat_0, repeat_1, semigroup_associativity};
use rust2fun::laws::semigroupal_laws::semigroupal_associativity;
use std::fmt::Debug;
use std::marker::PhantomData;
use std::str::FromStr;

fn parse<T: FromStr>(x: String) -> T
where
    <T as FromStr>::Err: Debug,
{
    FromStr::from_str(x.as_str()).unwrap()
}

fn print<T: ToString>(x: T) -> String {
    x.to_string()
}

#[test]
fn test_invariant() {
    assert!(invariant_identity(PhantomData::<bool>).holds());
    assert!(invariant_composition(PhantomData::<u32>, print, parse, parse::<i32>, print).holds());
}

#[test]
fn test_functor() {
    assert!(covariant_identity(PhantomData::<u32>).holds());
    assert!(covariant_composition(PhantomData::<i32>, print, parse::<u32>).holds());
    assert!(lift_identity(PhantomData::<u32>).holds());
    assert!(lift_composition(PhantomData::<i32>, print, parse::<i64>).holds());
}

#[test]
fn test_contravariant() {
    assert!(contravariant_identity(PhantomData::<u32>).holds());
    assert!(contravariant_composition(PhantomData::<i32>, parse::<i32>, print::<u32>).holds());
    assert!(lift_contravariant_identity(PhantomData::<u32>).holds());
    assert!(lift_contravariant_composition(PhantomData::<i32>, parse::<i32>, print::<u32>).holds());
}

#[test]
fn test_semigroup() {
    assert!(repeat_0(PhantomData::<u32>).holds());
    assert!(repeat_1(PhantomData::<u32>).holds());
    assert!(
        semigroup_associativity(PhantomData::<u32>, PhantomData::<u32>, PhantomData::<u32>).holds()
    );
}

#[test]
fn test_semigroupal() {
    assert!(
        semigroupal_associativity(PhantomData::<u32>, PhantomData::<u32>, PhantomData::<u32>)
            .holds()
    );
}

#[test]
fn test_apply() {
    assert!(map2_product_consistency(PhantomData, PhantomData, |x: &str, l| x.len() == l).holds());
    assert!(product_r_consistency(PhantomData::<u32>, PhantomData::<u32>).holds());
    assert!(product_l_consistency(PhantomData::<u32>, PhantomData::<u32>).holds());
}

#[test]
fn test_applicative() {
    assert!(ap_product_consistent(PhantomData, PhantomData::<fn(i32) -> String>).holds());
}

#[test]
fn test_flatmap() {
    assert!(flat_map_associativity(
        PhantomData::<i32>,
        |_| PhantomData::<f32>,
        |_| PhantomData::<u32>
    )
    .holds());
    assert!(flat_map_consistent_apply(PhantomData, PhantomData::<fn(i32) -> u32>).holds());
    assert!(m_product_consistency(PhantomData, |_: bool| PhantomData::<u32>).holds());
}
