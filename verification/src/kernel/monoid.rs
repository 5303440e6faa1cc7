//! The Monoid class: a Semigroup with an identity value.

use vstd::prelude::*;

use crate::kernel::semigroup::Semigroup;

use std::collections::HashMap;
use std::collections::HashSet;

verus! {

/// A Semigroup with an identity value `empty()`: combining with it on either
/// side returns the other value unchanged.
pub trait Monoid: Semigroup {
    /// What `empty` returns: the identity value of this type.
    spec fn empty_ens(r: Self) -> bool;

    /// The identity value.
    fn empty() -> (r: Self)
        ensures
            Self::empty_ens(r),
    ;
}

/// Combining the identity on the left returns the other value.
pub open spec fn monoid_left_identity<T: Monoid>() -> bool {
    forall|e: T, a: T, r: T|
        #![trigger T::empty_ens(e), e.combine_ens(a, r)]
        T::empty_ens(e) && e.combine_ens(a, r) ==> r == a
}

/// Combining the identity on the right returns the other value.
pub open spec fn monoid_right_identity<T: Monoid>() -> bool {
    forall|e: T, a: T, r: T|
        #![trigger T::empty_ens(e), a.combine_ens(e, r)]
        T::empty_ens(e) && a.combine_ens(e, r) ==> r == a
}

impl Monoid for u64 {
    /// Zero.
    open spec fn empty_ens(r: u64) -> bool {
        r == 0u64
    }

    fn empty() -> (r: u64) {
        0
    }
}

impl Monoid for usize {
    /// Zero.
    open spec fn empty_ens(r: usize) -> bool {
        r == 0usize
    }

    fn empty() -> (r: usize) {
        0
    }
}

impl Monoid for u8 {
    /// Zero.
    open spec fn empty_ens(r: u8) -> bool {
        r == 0u8
    }

    fn empty() -> (r: u8) {
        0
    }
}

impl Monoid for u16 {
    /// Zero.
    open spec fn empty_ens(r: u16) -> bool {
        r == 0u16
    }

    fn empty() -> (r: u16) {
        0
    }
}

impl Monoid for u32 {
    /// Zero.
    open spec fn empty_ens(r: u32) -> bool {
        r == 0u32
    }

    fn empty() -> (r: u32) {
        0
    }
}

impl Monoid for i8 {
    /// Zero.
    open spec fn empty_ens(r: i8) -> bool {
        r == 0i8
    }

    fn empty() -> (r: i8) {
        0
    }
}

impl Monoid for i16 {
    /// Zero.
    open spec fn empty_ens(r: i16) -> bool {
        r == 0i16
    }

    fn empty() -> (r: i16) {
        0
    }
}

impl Monoid for i32 {
    /// Zero.
    open spec fn empty_ens(r: i32) -> bool {
        r == 0i32
    }

    fn empty() -> (r: i32) {
        0
    }
}

impl Monoid for i64 {
    /// Zero.
    open spec fn empty_ens(r: i64) -> bool {
        r == 0i64
    }

    fn empty() -> (r: i64) {
        0
    }
}

impl Monoid for String {
    /// The empty string.
    open spec fn empty_ens(r: String) -> bool {
        r@ == Seq::<char>::empty()
    }

    fn empty() -> (r: String) {
        String::new()
    }
}

impl Monoid for () {
    /// The unit value.
    open spec fn empty_ens(r: ()) -> bool {
        true
    }

    fn empty() -> (r: ()) {
    }
}

impl<A> Monoid for Vec<A> {
    /// The empty sequence.
    open spec fn empty_ens(r: Vec<A>) -> bool {
        r@ == Seq::<A>::empty()
    }

    fn empty() -> (r: Vec<A>) {
        let out: Vec<A> = Vec::new();
        proof {
            assert(out@ =~= Seq::<A>::empty());
        }
        out
    }
}

impl<A: Semigroup> Monoid for Option<A> {
    /// Absence.
    open spec fn empty_ens(r: Option<A>) -> bool {
        r is None
    }

    fn empty() -> (r: Option<A>) {
        Option::None
    }
}

impl<A: Monoid, E> Monoid for Result<A, E> {
    /// Success holding the inner identity.
    open spec fn empty_ens(r: Result<A, E>) -> bool {
        r matches Ok(a) && A::empty_ens(a)
    }

    fn empty() -> (r: Result<A, E>) {
        Result::Ok(A::empty())
    }
}

impl<K: std::cmp::Eq + std::hash::Hash, V> Monoid for HashMap<K, V> {
    /// The empty map.
    open spec fn empty_ens(r: HashMap<K, V>) -> bool {
        r@ == Map::<K, V>::empty()
    }

    fn empty() -> (r: HashMap<K, V>) {
        HashMap::new()
    }
}

impl<A: std::cmp::Eq + std::hash::Hash> Monoid for HashSet<A> {
    /// The empty set.
    open spec fn empty_ens(r: HashSet<A>) -> bool {
        r@ == Set::<A>::empty()
    }

    fn empty() -> (r: HashSet<A>) {
        HashSet::new()
    }
}

/// Identity laws of zero under wrapped addition on `u64`.
pub proof fn lemma_u64_monoid_identity()
    ensures
        monoid_left_identity::<u64>(),
        monoid_right_identity::<u64>(),
{
}

/// Identity laws of zero under wrapped addition on `usize`.
pub proof fn lemma_usize_monoid_identity()
    ensures
        monoid_left_identity::<usize>(),
        monoid_right_identity::<usize>(),
{
}

/// Identity laws of zero under wrapped addition on `u8`.
pub proof fn lemma_u8_monoid_identity()
    ensures
        monoid_left_identity::<u8>(),
        monoid_right_identity::<u8>(),
{
}

/// Identity laws of zero under wrapped addition on `u16`.
pub proof fn lemma_u16_monoid_identity()
    ensures
        monoid_left_identity::<u16>(),
        monoid_right_identity::<u16>(),
{
}

/// Identity laws of zero under wrapped addition on `u32`.
pub proof fn lemma_u32_monoid_identity()
    ensures
        monoid_left_identity::<u32>(),
        monoid_right_identity::<u32>(),
{
}

/// Identity laws of zero under wrapped addition on `i8`.
pub proof fn lemma_i8_monoid_identity()
    ensures
        monoid_left_identity::<i8>(),
        monoid_right_identity::<i8>(),
{
}

/// Identity laws of zero under wrapped addition on `i16`.
pub proof fn lemma_i16_monoid_identity()
    ensures
        monoid_left_identity::<i16>(),
        monoid_right_identity::<i16>(),
{
}

/// Identity laws of zero under wrapped addition on `i32`.
pub proof fn lemma_i32_monoid_identity()
    ensures
        monoid_left_identity::<i32>(),
        monoid_right_identity::<i32>(),
{
}

/// Identity laws of zero under wrapped addition on `i64`.
pub proof fn lemma_i64_monoid_identity()
    ensures
        monoid_left_identity::<i64>(),
        monoid_right_identity::<i64>(),
{
}

/// Identity laws of the unit monoid.
pub proof fn lemma_unit_monoid_identity()
    ensures
        monoid_left_identity::<()>(),
        monoid_right_identity::<()>(),
{
}

/// Identity laws of the optional monoid: absence is the identity, for any
/// inner semigroup.
pub proof fn lemma_option_monoid_identity<A: Semigroup>()
    ensures
        monoid_left_identity::<Option<A>>(),
        monoid_right_identity::<Option<A>>(),
{
}

/// Identity laws of the result monoid, inherited from the inner monoid's
/// identity laws.
pub proof fn lemma_result_monoid_identity<A: Monoid, E>()
    requires
        monoid_left_identity::<A>(),
        monoid_right_identity::<A>(),
    ensures
        monoid_left_identity::<Result<A, E>>(),
        monoid_right_identity::<Result<A, E>>(),
{
}

/// Identity laws of string concatenation, said of the views.
pub proof fn lemma_string_monoid_identity(e: String, a: String, r1: String, r2: String)
    requires
        <String as Monoid>::empty_ens(e),
        e.combine_ens(a, r1),
        a.combine_ens(e, r2),
    ensures
        r1@ == a@,
        r2@ == a@,
{
    assert(r1@ =~= a@);
    assert(r2@ =~= a@);
}

/// Identity laws of sequence concatenation, said of the views.
pub proof fn lemma_vec_monoid_identity<A>(e: Vec<A>, a: Vec<A>, r1: Vec<A>, r2: Vec<A>)
    requires
        <Vec<A> as Monoid>::empty_ens(e),
        e.combine_ens(a, r1),
        a.combine_ens(e, r2),
    ensures
        r1@ == a@,
        r2@ == a@,
{
    assert(r1@ =~= a@);
    assert(r2@ =~= a@);
}

/// Identity laws of hash-map union, said of the views, for key types whose
/// hashing obeys the hash-table key model.
pub proof fn lemma_hash_map_monoid_identity<K: std::cmp::Eq + std::hash::Hash, V>(
    e: HashMap<K, V>,
    a: HashMap<K, V>,
    r1: HashMap<K, V>,
    r2: HashMap<K, V>,
)
    requires
        vstd::std_specs::hash::obeys_key_model::<K>(),
        <HashMap<K, V> as Monoid>::empty_ens(e),
        e.combine_ens(a, r1),
        a.combine_ens(e, r2),
    ensures
        r1@ == a@,
        r2@ == a@,
{
    assert(r1@ =~= a@);
    assert(r2@ =~= a@);
}

/// Identity laws of hash-set union, said of the views, for element types
/// whose hashing obeys the hash-table key model.
pub proof fn lemma_hash_set_monoid_identity<A: std::cmp::Eq + std::hash::Hash>(
    e: HashSet<A>,
    a: HashSet<A>,
    r1: HashSet<A>,
    r2: HashSet<A>,
)
    requires
        vstd::std_specs::hash::obeys_key_model::<A>(),
        <HashSet<A> as Monoid>::empty_ens(e),
        e.combine_ens(a, r1),
        a.combine_ens(e, r2),
    ensures
        r1@ == a@,
        r2@ == a@,
{
    assert(r1@ =~= a@);
    assert(r2@ =~= a@);
}

} // verus!
