use typeclasses::classes::functor::{fmap, lift, FunctorInstance};
use typeclasses::classes::OptionKind;

#[test]
fn do_you_even_lift() {
    let times_two = |x: &i32| x * 2;

    let lifted_times_two = lift(OptionKind, times_two);

    let value = Some(2i32);
    assert_eq!(lifted_times_two(value), Some(4));
}

#[test]
fn fmap_squares_a_present_value() {
    assert_eq!(Some(3).fmap(|x: &i32| x * x), Some(9));
}

#[test]
fn fmap_keeps_absence() {
    assert_eq!(None::<i32>.fmap(|x: &i32| x * x), None);
}

#[test]
fn fmap_maps_the_success_slot_only() {
    let ok: Result<i32, &str> = Ok(4);
    let err: Result<i32, &str> = Err("left alone");
    assert_eq!(ok.fmap(|x: &i32| x + 1), Ok(5));
    assert_eq!(err.fmap(|x: &i32| x + 1), Err("left alone"));
}

#[test]
fn fmap_maps_each_element_in_index_order() {
    let v: Vec<u64> = vec![1, 2, 3];
    assert_eq!(v.fmap(|x: &u64| x * 10), vec![10, 20, 30]);
}

#[test]
fn fmap_dispatch_selects_the_shape() {
    assert_eq!(fmap(OptionKind, Some(5u64), |x: &u64| x + 2), Some(7));
}

#[test]
fn fmap_identity_returns_an_equal_container() {
    let v: Vec<u64> = vec![4, 5, 6];
    assert_eq!(v.clone().fmap(|x: &u64| *x), v);
    let o = Some(11i32);
    assert_eq!(o.fmap(|x: &i32| *x), o);
}

#[test]
fn fmap_composes() {
    let v: Vec<u64> = vec![1, 2, 3];
    let two_steps = v.clone().fmap(|x: &u64| x + 1).fmap(|x: &u64| x * x);
    let one_step = v.fmap(|x: &u64| (x + 1) * (x + 1));
    assert_eq!(two_steps, one_step);
}

#[test]
fn fmap_on_an_empty_vector_is_empty() {
    let v: Vec<u64> = Vec::new();
    assert_eq!(v.fmap(|x: &u64| x + 1), Vec::<u64>::new());
}
