use rust2fun::and_then::AndThen;
use rust2fun::ap_n::ApN;
use rust2fun::apply::Apply;
use rust2fun::bifunctor::Bifunctor;
use rust2fun::data::validated::Validated;
use rust2fun::data::validated::Validated::{Invalid, Valid};
use rust2fun::functor::{Functor, FunctorOps};
use rust2fun::invariant_functor::Invariant;
use rust2fun::map_n::MapN;
use rust2fun::pure::Pure;
use rust2fun::semigroup::Semigroup;
use rust2fun::semigroupal::Semigroupal;

type V<T> = Validated<T, String>;

fn bad(s: &str) -> String {
    s.to_string()
}

#[test]
fn validated_tells_its_variant() {
    let x: Validated<i32, &str> = Valid(-3);
    assert!(x.is_valid());
    assert!(!x.is_invalid());
    let x: Validated<i32, &str> = Invalid("Some error message");
    assert!(!x.is_valid());
    assert!(x.is_invalid());
}

#[test]
fn validated_converts_to_option_and_result() {
    let x: Validated<u32, &str> = Valid(2);
    assert_eq!(x.valid(), Some(2));
    assert_eq!(x.invalid(), None);
    assert_eq!(x.into_result(), Ok(2));
    let x: Validated<u32, &str> = Invalid("Nothing here");
    assert_eq!(x.valid(), None);
    assert_eq!(x.invalid(), Some("Nothing here"));
    assert_eq!(x.into_result(), Err("Nothing here"));
    assert_eq!(Validated::from(Ok::<i32, &str>(1)), Valid(1));
    assert_eq!(Validated::from(Err::<i32, &str>("e")), Invalid("e"));
    assert_eq!(Result::from(Valid::<i32, &str>(1)), Ok(1));
    assert_eq!(Result::from(Invalid::<i32, &str>("e")), Err("e"));
}

#[test]
fn validated_borrows() {
    let x: Validated<u32, &str> = Valid(2);
    assert_eq!(x.as_ref(), Valid(&2));
    let x: Validated<u32, &str> = Invalid("Error");
    assert_eq!(x.as_ref(), Invalid(&"Error"));
    let mut x: Validated<i32, i32> = Valid(2);
    match x.as_mut() {
        Valid(v) => *v = 42,
        Invalid(e) => *e = 0,
    }
    assert_eq!(x.unwrap(), 42);
    let mut x: Validated<i32, i32> = Invalid(13);
    match x.as_mut() {
        Valid(v) => *v = 42,
        Invalid(e) => *e = 0,
    }
    assert_eq!(x.unwrap_err(), 0);
    let x: Validated<String, u32> = Valid("hello".to_string());
    assert_eq!(x.as_deref(), Valid("hello"));
    let y: Validated<String, u32> = Invalid(42);
    assert_eq!(y.as_deref(), Invalid(&42));
    let mut s = "HELLO".to_string();
    let mut x: Validated<String, u32> = Valid("hello".to_string());
    let expected: Validated<&mut str, &mut u32> = Valid(&mut s);
    assert_eq!(x.as_deref_mut().map(|v| { v.make_ascii_uppercase(); v }), expected);
}

#[test]
fn validated_maps() {
    let x: Validated<i32, &str> = Valid(2);
    assert_eq!(x.map(|v| v * 2), Valid(4));
    assert_eq!(x.map_or(42, |v| v * 3), 6);
    assert_eq!(x.map_or_else(|e: &str| e.len() as i32, |v| v * 3), 6);
    assert_eq!(x.map_err(|e: &str| e.len()), Valid(2));
    let y: Validated<i32, &str> = Invalid("bar");
    assert_eq!(y.map(|v| v * 2), Invalid("bar"));
    assert_eq!(y.map_or(42, |v| v * 3), 42);
    assert_eq!(y.map_or_else(|e: &str| e.len() as i32, |v| v * 3), 3);
    assert_eq!(y.map_err(|e: &str| e.len()), Invalid(3));
}

#[test]
fn validated_unwraps() {
    let x: Validated<u32, &str> = Valid(2);
    assert_eq!(x.unwrap(), 2);
    assert_eq!(x.expect("there is a value"), 2);
    assert_eq!(x.unwrap_or(7), 2);
    assert_eq!(x.unwrap_or_else(|e: &str| e.len() as u32), 2);
    assert_eq!(x.unwrap_or_default(), 2);
    let y: Validated<u32, &str> = Invalid("emergency failure");
    assert_eq!(y.unwrap_err(), "emergency failure");
    assert_eq!(y.expect_err("there is an error"), "emergency failure");
    assert_eq!(y.unwrap_or(7), 7);
    assert_eq!(y.unwrap_or_else(|e: &str| e.len() as u32), 17);
    assert_eq!(y.unwrap_or_default(), 0);
}

#[test]
fn validated_and_or() {
    let valid: Validated<u32, &str> = Valid(2);
    let late: Validated<&str, &str> = Invalid("late error");
    let early: Validated<u32, &str> = Invalid("early error");
    assert_eq!(valid.and(late), Invalid("late error"));
    assert_eq!(early.and(Valid::<&str, &str>("foo")), Invalid("early error"));
    assert_eq!(early.and(late), Invalid("early error"));
    assert_eq!(valid.and(Valid::<&str, &str>("other")), Valid("other"));
    assert_eq!(valid.or(Invalid::<u32, u8>(1)), Valid(2));
    assert_eq!(early.or(Valid::<u32, u8>(9)), Valid(9));
    assert_eq!(early.or(Invalid::<u32, u8>(1)), Invalid(1));
    let sq = |x: u32| -> Validated<u32, u32> { Valid(x * x) };
    let err = |x: u32| -> Validated<u32, u32> { Invalid(x) };
    assert_eq!(Valid(2).or_else(sq).or_else(sq), Valid(2));
    assert_eq!(Valid(2).or_else(err).or_else(sq), Valid(2));
    assert_eq!(Invalid(3).or_else(sq).or_else(err), Valid(9));
    assert_eq!(Invalid(3).or_else(err).or_else(err), Invalid(3));
    assert_eq!(Valid::<u32, u32>(2).and_then(sq), Valid(4));
    assert_eq!(Valid::<u32, u32>(2).and_then(err), Invalid(2));
    assert_eq!(Invalid::<u32, u32>(3).and_then(sq), Invalid(3));
}

#[test]
fn validated_clone_keeps_the_variant() {
    let x: V<i32> = Valid(1);
    assert_eq!(x.clone(), Valid(1));
    let y: V<i32> = Invalid(bad("e"));
    assert_eq!(y.clone(), Invalid(bad("e")));
}

#[test]
fn validated_product_accumulates_both_failures() {
    let name: V<&str> = Invalid(bad("bad name"));
    let age: V<u8> = Invalid(bad("bad age"));
    assert_eq!(name.product(age), Invalid(bad("bad namebad age")));
}

#[test]
fn validated_product_with_one_failure_keeps_it() {
    let ok: V<i32> = Valid(1);
    assert_eq!(ok.clone().product(Invalid::<u8, _>(bad("right"))), Invalid(bad("right")));
    assert_eq!(Invalid::<u8, _>(bad("left")).product(ok.clone()), Invalid(bad("left")));
    assert_eq!(ok.product(Valid::<char, String>('a')), Valid((1, 'a')));
}

#[test]
fn validated_product_is_associative() {
    let values = |tag: &str| -> Vec<V<i32>> { vec![Valid(1), Invalid(bad(tag))] };
    for fa in values("a") {
        for fb in values("b") {
            for fc in values("c") {
                let left = Functor::map(
                    fa.clone().product(fb.clone()).product(fc.clone()),
                    |((a, b), c)| (a, (b, c)),
                );
                let right = fa.clone().product(fb.clone().product(fc));
                assert_eq!(left, right);
            }
        }
    }
}

#[test]
fn validated_ap_accumulates_failures() {
    let f: fn(i32) -> i32 = |x| x + 1;
    assert_eq!(V::Valid(f).ap(Valid(1)), Valid(2));
    assert_eq!(V::Valid(f).ap(Invalid(bad("v"))), Invalid(bad("v")));
    assert_eq!(V::<fn(i32) -> i32>::Invalid(bad("f")).ap(Valid(1)), Invalid(bad("f")));
    assert_eq!(V::<fn(i32) -> i32>::Invalid(bad("f")).ap(Invalid(bad("v"))), Invalid(bad("fv")));
}

#[test]
fn validated_map3_collects_every_failure() {
    let sum = |a: i32, b: i32, c: i32| a + b + c;
    assert_eq!(V::Valid(1).map3(Valid(2), Valid(3), sum), Valid(6));
    assert_eq!(
        V::<i32>::Invalid(bad("a")).map3(Valid(2), Invalid(bad("c")), sum),
        Invalid(bad("ac"))
    );
    assert_eq!(
        V::<i32>::Invalid(bad("a")).map3(Invalid(bad("b")), Invalid(bad("c")), sum),
        Invalid(bad("abc"))
    );
}

#[test]
fn validated_ap3_collects_the_failures_of_the_values() {
    let sum: fn(i32, i32, i32) -> i32 = |a, b, c| a + b + c;
    assert_eq!(V::Valid(sum).ap3(Valid(1), Valid(2), Valid(3)), Valid(6));
    assert_eq!(
        V::Valid(sum).ap3(Invalid(bad("a")), Valid(2), Invalid(bad("c"))),
        Invalid(bad("ac"))
    );
}

#[test]
fn validated_functor_and_pure() {
    assert_eq!(Functor::map(V::Valid(1), |x: i32| x + 1), Valid(2));
    assert_eq!(Functor::map(V::<i32>::Invalid(bad("e")), |x: i32| x + 1), Invalid(bad("e")));
    assert_eq!(V::Valid(1).imap(|x: i32| x + 1, |x: i32| x - 1), Valid(2));
    assert_eq!(V::Valid(1).tuple_left('a'), Valid(('a', 1)));
    assert_eq!(<V<i32> as Pure>::pure(1), Valid(1));
}

#[test]
fn validated_applicative_laws_on_values() {
    let id: fn(i32) -> i32 = |x| x;
    let f: fn(i32) -> i32 = |x| x + 1;
    for fa in [V::Valid(3), Invalid(bad("e"))] {
        assert_eq!(V::pure(id).ap(fa.clone()), fa);
        assert_eq!(Functor::map(fa.clone(), f), V::pure(f).ap(fa));
    }
    assert_eq!(V::pure(f).ap(V::pure(5)), V::pure(f(5)));
    assert_eq!(Functor::map(<V<()> as Pure>::unit(), |_| 7), V::pure(7));
}

#[test]
fn validated_semigroup() {
    assert_eq!(V::Valid(1).combine(Valid(2)), Valid(3));
    assert_eq!(V::<i32>::Invalid(bad("a")).combine(Invalid(bad("b"))), Invalid(bad("ab")));
    assert_eq!(V::Valid(1).combine(Invalid(bad("b"))), Invalid(bad("b")));
    assert_eq!(V::<i32>::Invalid(bad("a")).combine(Valid(2)), Invalid(bad("a")));
}

#[test]
fn validated_bimap() {
    let x: Validated<i32, &str> = Valid(1);
    assert_eq!(x.bimap(|v| v + 1, |e: &str| e.len()), Valid(2));
    let y: Validated<i32, &str> = Invalid("abc");
    assert_eq!(y.bimap(|v| v + 1, |e: &str| e.len()), Invalid(3));
}

#[test]
fn validated_and_then_of_the_trait_stops_at_the_first_error() {
    let half = |x: i32| if x % 2 == 0 { V::Valid(x / 2) } else { Invalid(bad("odd")) };
    assert_eq!(AndThen::and_then(V::Valid(4), half), Valid(2));
    assert_eq!(AndThen::and_then(V::Valid(3), half), Invalid(bad("odd")));
    assert_eq!(AndThen::and_then(V::<i32>::Invalid(bad("first")), half), Invalid(bad("first")));
}
