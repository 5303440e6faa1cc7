use typeclasses::classes::applicative_error::ApplicativeErrorInstance;

#[test]
fn handle_error_with_for_result() {
    let value = Err(());
    let handler = |_err: &_| Ok(3);
    assert_eq!(value.handle_error_with(handler), Ok(3));
}

#[test]
fn raise_error_for_result() {
    let err = Result::<u64, String>::raise_error("ERROR!".to_string());
    assert_eq!(err, Err("ERROR!".to_string()));
}

#[test]
fn handle_error_with_for_option() {
    let value = None;
    let handler = |_: &_| Some(3);
    assert_eq!(value.handle_error_with(handler), Some(3));
}

#[test]
fn raise_error_for_option() {
    let err = Option::<u64>::raise_error(());
    assert_eq!(err, None);
}

#[test]
fn handle_error_with_replaces_a_failure() {
    let value: Result<i32, &str> = Err("e");
    assert_eq!(value.handle_error_with(|_| Ok(99)), Ok(99));
}

#[test]
fn handle_error_with_keeps_a_success() {
    let value: Result<i32, &str> = Ok(12);
    assert_eq!(value.handle_error_with(|_| Ok(99)), Ok(12));
}

#[test]
fn handling_a_raised_error_runs_the_handler() {
    let raised = Result::<i32, u8>::raise_error(7);
    let handled = raised.handle_error_with(|e: &u8| Ok(*e as i32 + 1));
    assert_eq!(handled, Ok(8));
}
