use std::collections::HashMap;
use std::collections::HashSet;

use typeclasses::kernel::monoid::Monoid;
use typeclasses::kernel::semigroup::Semigroup;

#[test]
fn integers_combine_by_wrapping_addition() {
    assert_eq!(3u64.combine(4u64), 7);
    assert_eq!(u64::MAX.combine(2u64), 1);
    assert_eq!(200u8.combine(100u8), 44);
    assert_eq!((-5i32).combine(2i32), -3);
    assert_eq!(i64::MAX.combine(1i64), i64::MIN);
}

#[test]
fn strings_combine_by_concatenation() {
    assert_eq!(
        String::from("con").combine(String::from("cat")),
        String::from("concat")
    );
}

#[test]
fn vectors_combine_by_concatenation() {
    assert_eq!(vec![1, 2].combine(vec![3]), vec![1, 2, 3]);
}

#[test]
fn options_combine_their_inner_values() {
    assert_eq!(Some(2u64).combine(Some(3u64)), Some(5));
    assert_eq!(Some(2u64).combine(None), Some(2));
    assert_eq!(None.combine(Some(3u64)), Some(3));
    assert_eq!(None::<u64>.combine(None), None);
}

#[test]
fn results_combine_and_short_circuit_on_the_left_failure() {
    assert_eq!(Ok::<u64, &str>(2).combine(Ok(3)), Ok(5));
    assert_eq!(Err::<u64, &str>("left").combine(Err("right")), Err("left"));
    assert_eq!(Ok::<u64, &str>(2).combine(Err("right")), Err("right"));
    assert_eq!(Err::<u64, &str>("left").combine(Ok(3)), Err("left"));
}

#[test]
fn unit_combines_to_unit() {
    assert_eq!(().combine(()), ());
}

#[test]
fn hash_maps_combine_by_union_preferring_the_right() {
    let mut left: HashMap<u64, u64> = HashMap::new();
    left.insert(1, 10);
    left.insert(2, 20);
    let mut right: HashMap<u64, u64> = HashMap::new();
    right.insert(2, 99);
    right.insert(3, 30);
    let union = left.combine(right);
    assert_eq!(union.len(), 3);
    assert_eq!(union.get(&1), Some(&10));
    assert_eq!(union.get(&2), Some(&99));
    assert_eq!(union.get(&3), Some(&30));
}

#[test]
fn hash_sets_combine_by_union() {
    let mut left: HashSet<u64> = HashSet::new();
    left.insert(1);
    left.insert(2);
    let mut right: HashSet<u64> = HashSet::new();
    right.insert(2);
    right.insert(3);
    let union = left.combine(right);
    assert_eq!(union.len(), 3);
    assert!(union.contains(&1) && union.contains(&2) && union.contains(&3));
}

#[test]
fn combine_is_associative_on_sample_values() {
    let a = 0xdead_beefu64;
    let b = u64::MAX - 17;
    let c = 42u64;
    assert_eq!(a.combine(b).combine(c), a.combine(b.combine(c)));
    let sa = String::from("a");
    let sb = String::from("b");
    let sc = String::from("c");
    assert_eq!(
        sa.clone().combine(sb.clone()).combine(sc.clone()),
        sa.combine(sb.combine(sc))
    );
    let oa = Some(7u64);
    let ob = None::<u64>;
    let oc = Some(5u64);
    assert_eq!(oa.combine(ob).combine(oc), oa.combine(ob.combine(oc)));
}

#[test]
fn empty_is_the_identity_of_combine() {
    assert_eq!(u64::empty().combine(9), 9);
    assert_eq!(9u64.combine(u64::empty()), 9);
    assert_eq!(String::empty().combine(String::from("x")), "x");
    assert_eq!(String::from("x").combine(String::empty()), "x");
    assert_eq!(<Option<u64> as Monoid>::empty().combine(Some(3)), Some(3));
    assert_eq!(Some(3u64).combine(<Option<u64> as Monoid>::empty()), Some(3));
    assert_eq!(Vec::<u64>::empty().combine(vec![1]), vec![1]);
    assert_eq!(vec![1u64].combine(Vec::<u64>::empty()), vec![1]);
}

#[test]
fn empty_on_each_monoid() {
    assert_eq!(u64::empty(), 0);
    assert_eq!(usize::empty(), 0);
    assert_eq!(i32::empty(), 0);
    assert_eq!(String::empty(), String::new());
    assert_eq!(<() as Monoid>::empty(), ());
    assert_eq!(
        <Result<u64, ()> as Monoid>::empty(),
        Ok::<u64, ()>(0)
    );
    assert!(HashMap::<u64, u64>::empty().is_empty());
    assert!(HashSet::<u64>::empty().is_empty());
}
