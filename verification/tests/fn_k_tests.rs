use rust2fun::data::ne_vec::NEVec;
use rust2fun::fn_k::{
    FirstToOption, FirstToResult, FnK, FnKOps, LastToOption, LastToResult, NthToOption, NthToResult,
    OptionToF, OptionToVec, ResultToVec,
};

#[test]
fn first_last_and_nth_to_option() {
    assert_eq!(FirstToOption.apply(vec![1, 2, 3]), Some(1));
    assert_eq!(FirstToOption.apply(Vec::<i32>::new()), None);
    assert_eq!(LastToOption.apply(vec![1, 2, 3]), Some(3));
    assert_eq!(LastToOption.apply(Vec::<i32>::new()), None);
    assert_eq!(NthToOption(1).apply(vec![1, 2, 3]), Some(2));
    assert_eq!(NthToOption(1).apply(vec![1]), None);
    assert_eq!(NthToOption(1).apply(Vec::<i32>::new()), None);
    assert_eq!(NthToOption(0).apply(vec![7]), Some(7));
    let v = NEVec { head: 1, tail: vec![2, 3] };
    assert_eq!(FirstToOption.apply(v.clone()), Some(1));
    assert_eq!(LastToOption.apply(v), Some(3));
    assert_eq!(LastToOption.apply(NEVec::new(1)), Some(1));
}

#[test]
fn first_last_and_nth_to_result() {
    assert_eq!(FirstToResult("err").apply(vec![1, 2, 3]), Ok(1));
    assert_eq!(FirstToResult("err").apply(Vec::<i32>::new()), Err("err"));
    assert_eq!(LastToResult("err").apply(vec![1, 2, 3]), Ok(3));
    assert_eq!(LastToResult("err").apply(Vec::<i32>::new()), Err("err"));
    assert_eq!(NthToResult(1, "err").apply(vec![1, 2, 3]), Ok(2));
    assert_eq!(NthToResult(1, "err").apply(vec![1]), Err("err"));
    assert_eq!(NthToResult(1, "err").apply(Vec::<i32>::new()), Err("err"));
}

#[test]
fn option_and_result_to_vec() {
    assert_eq!(OptionToVec.apply(Some(1)), vec![1]);
    assert_eq!(OptionToVec.apply(None::<i32>), Vec::<i32>::new());
    assert_eq!(ResultToVec.apply(Ok::<_, ()>(1)), vec![1]);
    assert_eq!(ResultToVec.apply(Err::<i32, _>(1)), Vec::<i32>::new());
}

#[test]
fn option_to_any_pure_monoid() {
    let v: Vec<i32> = OptionToF.apply(Some(1));
    assert_eq!(v, vec![1]);
    let v: Vec<i32> = OptionToF.apply(None);
    assert_eq!(v, Vec::<i32>::new());
    let o: Option<i32> = OptionToF.apply(Some(2));
    assert_eq!(o, Some(2));
}

#[test]
fn plain_functions_are_transformations() {
    fn run<T, E>(a: Vec<Result<T, E>>, f: impl FnK<Result<T, E>, Option<T>>) -> Vec<Option<T>> {
        a.into_iter().map(|x| f.apply(x)).collect()
    }
    assert_eq!(run(vec![Ok(1), Err(2)], Result::ok), vec![Some(1), None]);
}

#[test]
fn composition_applies_the_inner_transformation_first() {
    let to_option: fn(Result<i32, &'static str>) -> Option<i32> = Result::ok;
    assert_eq!(to_option.compose(NthToResult(1, "err")).apply(vec![1, 2]), Some(2));
    assert_eq!(to_option.compose(NthToResult(1, "err")).apply(vec![]), None);
    assert_eq!(NthToResult(1, "err").and_then(to_option).apply(vec![1, 2]), Some(2));
    assert_eq!(NthToResult(1, "err").and_then(to_option).apply(vec![]), None);
    let a = vec![5, 6, 7];
    assert_eq!(
        OptionToVec.compose(FirstToOption).apply(a.clone()),
        OptionToVec.apply(FirstToOption.apply(a))
    );
}

#[test]
fn composition_is_associative_on_values() {
    let a = vec![1, 2, 3];
    let left = LastToOption.compose(OptionToVec).compose(FirstToOption).apply(a.clone());
    let right = LastToOption.compose(OptionToVec.compose(FirstToOption)).apply(a);
    assert_eq!(left, Some(1));
    assert_eq!(left, right);
}
