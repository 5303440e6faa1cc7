use typeclasses::classes::apply::{ap, ApplyInstance};
use typeclasses::classes::VecKind;

fn to_none<T>(_: Option<T>) -> Option<T> {
    None
}

#[test]
fn option_some_some() {
    let option = Some(3);
    let function = Some(|x: &u64| -> f32 { (x * x) as f32 });
    assert_eq!(option.apply(function), Some(9.0));
}

#[test]
fn option_some_none() {
    let option = Some(3);
    let function = Some(|x: &u64| -> f32 { (x * x) as f32 });
    let function = to_none(function);
    assert_eq!(option.apply(function), None);
}

#[test]
fn option_none_some() {
    let option = None;
    let function = Some(|x: &u64| -> f32 { (x * x) as f32 });
    assert_eq!(option.apply(function), None);
}

#[test]
fn option_none_none() {
    let option = None;
    let function = Some(|x: &u64| -> f32 { (x * x) as f32 });
    let function = to_none(function);
    assert_eq!(option.apply(function), None);
}

fn to_err<T, E>(_: Result<T, E>, e: E) -> Result<T, E> {
    Err(e)
}

#[test]
fn result_ok_ok() {
    let result: Result<u64, ()> = Ok(3);
    let function = Ok(|x: &u64| -> f32 { (x * x) as f32 });
    assert_eq!(result.apply(function), Ok(9.0));
}

#[test]
fn result_ok_err() {
    let result: Result<u64, ()> = Ok(3);
    let function = Ok(|x: &u64| -> f32 { (x * x) as f32 });
    let function = to_err(function, ());
    assert_eq!(result.apply(function), Err(()));
}

#[test]
fn result_err_ok() {
    let result = Err(());
    let function = Ok(|x: &u64| -> f32 { (x * x) as f32 });
    assert_eq!(result.apply(function), Err(()));
}

#[test]
fn result_err_err() {
    let result = Err(());
    let function = Ok(|x: &u64| -> f32 { (x * x) as f32 });
    let function = to_err(function, ());
    assert_eq!(result.apply(function), Err(()));
}

#[test]
fn apply_vec() {
    let values = vec![1, 2, 3, 4];
    let functions: Vec<Box<dyn Fn(&u64) -> f32>> = vec![
        Box::new(|_x: &u64| -> f32 { 0.0 as f32 }),
        Box::new(|x: &u64| -> f32 { (x + 1) as f32 }),
        Box::new(|x: &u64| -> f32 { (x * x) as f32 }),
    ];
    let expected = vec![
        0.0, 2.0, 1.0, //
        0.0, 3.0, 4.0, //
        0.0, 4.0, 9.0, //
        0.0, 5.0, 16.0,
    ];
    let actual = values.apply(functions);
    assert_eq!(actual, expected);
}

#[test]
fn apply_vec_row_major_order() {
    // Outer over arguments, inner over functions: with arguments [1, 2] and
    // functions [increment, square], the first row handles 1, the second 2.
    let values: Vec<u64> = vec![1, 2];
    let functions: Vec<Box<dyn Fn(&u64) -> u64>> =
        vec![Box::new(|x: &u64| x + 1), Box::new(|x: &u64| x * x)];
    assert_eq!(values.apply(functions), vec![2, 1, 3, 4]);
}

#[test]
fn apply_result_both_failures_keep_the_function_error() {
    let argument: Result<u64, &str> = Err("argument failed");
    let function: Result<fn(&u64) -> u64, &str> = Err("function failed");
    assert_eq!(argument.apply(function), Err("function failed"));
}

#[test]
fn ap_dispatch_selects_the_shape() {
    let values: Vec<u64> = vec![3];
    let functions = vec![|x: &u64| x + 10];
    assert_eq!(ap(VecKind, values, functions), vec![13]);
}

#[test]
fn apply_with_no_arguments_or_no_functions_is_empty() {
    let no_values: Vec<u64> = Vec::new();
    let functions = vec![|x: &u64| x + 1];
    assert_eq!(no_values.apply(functions), Vec::<u64>::new());
    let values = vec![1u64, 2];
    let no_functions: Vec<fn(&u64) -> u64> = Vec::new();
    assert_eq!(values.apply(no_functions), Vec::<u64>::new());
}
