use typeclasses::classes::monoid_k::{empty, MonoidKInstance};
use typeclasses::classes::semigroup_k::{combiane_k, SemigroupKInstance};
use typeclasses::classes::{OptionKind, VecKind};

#[test]
fn semigroup_k_option_is_first_success() {
    assert_eq!(Some(1).combine_k(None), Some(1));
    assert_eq!(Some(1).combine_k(Some(2)), Some(1));
    assert_eq!(Option::<i32>::None.combine_k(Some(2)), Some(2));
    assert_eq!(Option::<i32>::None.combine_k(Option::<i32>::None), None);
}

#[test]
fn semigroup_k_result_is_first_success() {
    assert_eq!(Ok(1).combine_k(Err(())), Ok(1));
    assert_eq!(Ok(1).combine_k(Result::<i32, ()>::Ok(2)), Ok(1));
    assert_eq!(Err(()).combine_k(Ok(2)), Ok(2));
    assert_eq!(Result::<i32, ()>::Err(()).combine_k(Err(())), Err(()));
}

#[test]
fn semigroup_k_vec_is_append() {
    assert_eq!(vec![1, 2].combine_k(vec![3, 4]), vec![1, 2, 3, 4]);
}

#[test]
fn combiane_k_dispatch_selects_the_shape() {
    assert_eq!(combiane_k(OptionKind, None, Some(2)), Some(2));
    assert_eq!(combiane_k(VecKind, vec![1], vec![2, 3]), vec![1, 2, 3]);
}

#[test]
fn combine_k_is_associative_on_options() {
    let cases = [None, Some(1), Some(2)];
    for a in cases {
        for b in cases {
            for c in cases {
                assert_eq!(a.combine_k(b).combine_k(c), a.combine_k(b.combine_k(c)));
            }
        }
    }
}

#[test]
fn empty_is_the_identity_of_combine_k() {
    let e: Option<i32> = empty(OptionKind);
    assert_eq!(e, None);
    assert_eq!(e.combine_k(Some(4)), Some(4));
    assert_eq!(Some(4).combine_k(e), Some(4));
    let ev: Vec<i32> = empty(VecKind);
    assert_eq!(ev, Vec::<i32>::new());
    assert_eq!(ev.clone().combine_k(vec![9]), vec![9]);
    assert_eq!(vec![9].combine_k(ev), vec![9]);
}

#[test]
fn empty_on_each_monoid_k_shape() {
    assert_eq!(<Option<u8> as MonoidKInstance<u8>>::empty(), None);
    assert_eq!(<Vec<u8> as MonoidKInstance<u8>>::empty(), Vec::<u8>::new());
}
