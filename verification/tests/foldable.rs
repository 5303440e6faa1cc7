use typeclasses::classes::foldable::{Foldable, FoldableInstance};
use typeclasses::classes::{OptionKind, VecKind};

#[test]
fn fold_left_sums_a_vector() {
    let total = Foldable::fold_left(VecKind, vec![1, 2, 3, 4], 0, |acc: i32, x: &i32| acc + x);
    assert_eq!(total, 10);
}

#[test]
fn fold_left_visits_elements_in_index_order() {
    let joined = vec![1, 2, 3].fold_left(String::new(), |acc: String, x: &i32| {
        format!("{}{}", acc, x)
    });
    assert_eq!(joined, "123");
}

#[test]
fn fold_right_visits_elements_in_reverse_order() {
    let joined = vec![1, 2, 3].fold_right(String::new(), |x: &i32, acc: String| {
        format!("{}{}", acc, x)
    });
    assert_eq!(joined, "321");
}

#[test]
fn fold_left_on_an_option_takes_at_most_one_step() {
    assert_eq!(Some(5).fold_left(10, |acc: i32, x: &i32| acc + x), 15);
    assert_eq!(None::<i32>.fold_left(10, |acc: i32, x: &i32| acc + x), 10);
}

#[test]
fn fold_right_on_an_option_takes_at_most_one_step() {
    assert_eq!(Some(5).fold_right(10, |x: &i32, acc: i32| acc - x), 5);
    assert_eq!(None::<i32>.fold_right(10, |x: &i32, acc: i32| acc - x), 10);
}

#[test]
fn fold_uses_the_element_monoid() {
    let total: u64 = Foldable::fold(VecKind, vec![1u64, 2, 3, 4]);
    assert_eq!(total, 10);
    let single: u64 = Foldable::fold(OptionKind, Some(9u64));
    assert_eq!(single, 9);
    let nothing: u64 = Foldable::fold(OptionKind, None::<u64>);
    assert_eq!(nothing, 0);
}

#[test]
fn fold_wraps_around_like_the_monoid() {
    let total: u8 = Foldable::fold(VecKind, vec![200u8, 100u8]);
    assert_eq!(total, 44);
}

#[test]
fn fold_right_dispatch_selects_the_shape() {
    let diff = Foldable::fold_right(VecKind, vec![1, 2, 3], 0, |x: &i32, acc: i32| x - acc);
    assert_eq!(diff, 2);
}

#[test]
fn folds_of_an_empty_vector_return_the_start() {
    let v: Vec<u64> = Vec::new();
    assert_eq!(v.fold_left(7u64, |acc: u64, x: &u64| acc + x), 7);
    let w: Vec<u64> = Vec::new();
    assert_eq!(w.fold_right(7u64, |x: &u64, acc: u64| acc + x), 7);
}
