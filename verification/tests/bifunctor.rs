use typeclasses::classes::bifunctor::{Bifunctor, BifunctorInstance};
use typeclasses::classes::{ResultKind, Tuple2Kind};

#[test]
fn bimap_maps_both_components_of_a_pair() {
    let pair = (3u64, "wide");
    let mapped = pair.bimap(|x: &u64| x * 2, |s: &&str| s.len());
    assert_eq!(mapped, (6, 4));
}

#[test]
fn bimap_maps_the_success_slot_of_a_result() {
    let ok: Result<u64, &str> = Ok(5);
    let mapped = ok.bimap(|x: &u64| x + 1, |s: &&str| s.len());
    assert_eq!(mapped, Ok(6));
}

#[test]
fn bimap_maps_the_error_slot_of_a_result() {
    let err: Result<u64, &str> = Err("oops");
    let mapped = err.bimap(|x: &u64| x + 1, |s: &&str| s.len());
    assert_eq!(mapped, Err(4));
}

#[test]
fn bimap_dispatch_selects_the_shape() {
    let mapped = Bifunctor::bimap(Tuple2Kind, (1u64, 2u64), |x: &u64| x + 1, |y: &u64| y + 2);
    assert_eq!(mapped, (2, 4));
    let swapped_tag: Result<u64, u64> =
        Bifunctor::bimap(ResultKind, Err::<u64, u64>(7), |x: &u64| *x, |y: &u64| y * 3);
    assert_eq!(swapped_tag, Err(21));
}
