use typeclasses::classes::applicative::ApplicativeInstance;
use typeclasses::classes::flatmap::{FlatMap, FlatMapInstance};
use typeclasses::classes::{OptionKind, ResultKindOk, VecKind};

#[test]
fn flat_map_chains_a_success() {
    let r: Result<u64, ()> = Ok(3);
    assert_eq!(r.flat_map(|x: &u64| Ok((x * x) as f32)), Ok(9.0));
}

#[test]
fn flat_map_short_circuits_a_failure() {
    let r: Result<u64, ()> = Err(());
    assert_eq!(r.flat_map(|x: &u64| Ok((x * x) as f32)), Err(()));
    let also_failing: Result<u64, ()> = Err(());
    assert_eq!(also_failing.flat_map(|_x: &u64| Err(())), Err::<f32, ()>(()));
}

#[test]
fn flat_map_on_options() {
    assert_eq!(Some(3u64).flat_map(|x: &u64| Some(x + 1)), Some(4));
    assert_eq!(Some(3u64).flat_map(|_x: &u64| None::<u64>), None);
    assert_eq!(None::<u64>.flat_map(|x: &u64| Some(x + 1)), None);
}

#[test]
fn flat_map_concatenates_per_element_answers() {
    let v: Vec<u64> = vec![1, 2, 3];
    let out = v.flat_map(|x: &u64| vec![*x, x * 10]);
    assert_eq!(out, vec![1, 10, 2, 20, 3, 30]);
}

#[test]
fn flat_map_dispatch_selects_the_shape() {
    let d: ResultKindOk<()> = Default::default();
    assert_eq!(
        FlatMap::flat_map(d, Ok::<u64, ()>(6), |x: &u64| Ok(x / 2)),
        Ok(3)
    );
    assert_eq!(
        FlatMap::flat_map(OptionKind, Some(6u64), |x: &u64| Some(x / 2)),
        Some(3)
    );
    assert_eq!(
        FlatMap::flat_map(VecKind, vec![6u64], |x: &u64| vec![x / 2]),
        vec![3]
    );
}

#[test]
fn monad_left_identity_scenario() {
    let g = |x: &u64| vec![*x, x + 1];
    assert_eq!(Vec::<u64>::pure(7).flat_map(g), g(&7));
}

#[test]
fn monad_associativity_scenario() {
    let c: Vec<u64> = vec![1, 2];
    let f = |x: &u64| vec![*x, x + 10];
    let g = |x: &u64| vec![x * 2];
    let lhs = c.clone().flat_map(f).flat_map(g);
    let rhs = c.flat_map(|x: &u64| f(x).flat_map(g));
    assert_eq!(lhs, rhs);
}

#[test]
fn flat_map_on_an_empty_vector_is_empty() {
    let v: Vec<u64> = Vec::new();
    assert_eq!(v.flat_map(|x: &u64| vec![*x]), Vec::<u64>::new());
}
