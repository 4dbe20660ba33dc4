use rust2fun::contravariant::{lift_contravariant, Contravariant};
use rust2fun::functor::{lift, Functor};
use rust2fun::invariant_functor::Invariant;
use rust2fun::semigroupal::Semigroupal;
use std::marker::PhantomData;

#[test]
fn phantom_data_contramap_changes_only_the_type() {
    let x = PhantomData::<i32>;
    let actual = x.contramap(|s: String| s.parse::<i32>().unwrap());
    assert_eq!(PhantomData::<String>, actual);
}

#[test]
fn phantom_data_lift_contravariant() {
    let f = lift_contravariant(|x: i32| x.to_string());
    assert_eq!(PhantomData::<i32>, f(PhantomData::<String>));
}

#[test]
fn phantom_data_never_calls_the_function() {
    let mut called = false;
    let _ = PhantomData::<i32>.contramap(|x: u8| {
        called = true;
        x as i32
    });
    let _ = Functor::map(PhantomData::<i32>, |x: i32| {
        called = true;
        x
    });
    let mut called_back = false;
    let _ = PhantomData::<i32>.imap(
        |x: i32| {
            called = true;
            x
        },
        |x: i32| {
            called_back = true;
            x
        },
    );
    assert!(!called);
    assert!(!called_back);
    let f = lift(|x: i32| x.to_string());
    assert_eq!(f(PhantomData::<i32>), PhantomData::<String>);
    assert_eq!(PhantomData::<i32>.product(PhantomData::<u8>), PhantomData::<(i32, u8)>);
}
