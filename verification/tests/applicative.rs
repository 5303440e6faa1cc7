use typeclasses::classes::applicative::{pure, ApplicativeInstance};
use typeclasses::classes::apply::ApplyInstance;
use typeclasses::classes::functor::FunctorInstance;
use typeclasses::classes::OptionKind;

#[test]
fn option() {
    let value = 3;
    assert_eq!(Option::<i32>::pure(value), Some(value));
}

#[test]
fn result() {
    let value = 3;
    assert_eq!(Result::<i32, ()>::pure(value), Ok(value));
}

#[test]
fn applicative_vec() {
    let value = 3;
    assert_eq!(Vec::<i32>::pure(value), vec![value]);
}

#[test]
fn pure_dispatch_selects_the_shape() {
    let lifted: Option<u64> = pure(OptionKind, 7u64);
    assert_eq!(lifted, Some(7));
}

#[test]
fn applicative_homomorphism_scenario() {
    let sq = |x: &u64| x * x;
    let lhs = Option::<u64>::pure(5u64).apply(Option::pure(sq));
    assert_eq!(lhs, Option::pure(25u64));
}

#[test]
fn applicative_fmap_consistency_scenario() {
    let inc = |x: &u64| x + 1;
    let c: Vec<u64> = vec![1, 2, 3];
    let via_apply = c.clone().apply(Vec::pure(inc));
    let via_fmap = c.fmap(inc);
    assert_eq!(via_apply, via_fmap);
}
