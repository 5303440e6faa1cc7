//! The Semigroup class: combining two values of one plain type into one,
//! with an associative operation.

use vstd::prelude::*;

use std::collections::HashMap;
use std::collections::HashSet;

verus! {

/// A type whose values can be combined two into one.
///
/// `combine_ens` pins the operation down per type: sequences and strings
/// concatenate, integers add with wrapping, optional values combine inner
/// values when both are present, results short-circuit on the first failure
/// (the left failure wins), hash maps and hash sets take the union, the
/// right-hand entry winning on a key collision.
pub trait Semigroup: Sized {
    /// What `combine` returns.
    spec fn combine_ens(self, b: Self, r: Self) -> bool;

    /// Merge `self` with `b`.
    fn combine(self, b: Self) -> (r: Self)
        ensures
            self.combine_ens(b, r),
    ;
}

/// Any two possible answers of `combine` on the same inputs are equal.
pub open spec fn combine_deterministic<T: Semigroup>() -> bool {
    forall|a: T, b: T, r1: T, r2: T|
        #![trigger a.combine_ens(b, r1), a.combine_ens(b, r2)]
        a.combine_ens(b, r1) && a.combine_ens(b, r2) ==> r1 == r2
}

/// Semigroup associativity, stated over the operation's relation: combining
/// `a` with `b`, then the answer with `c`, gives the same value as combining
/// `b` with `c`, then `a` with that answer.
pub open spec fn combine_associative<T: Semigroup>() -> bool {
    forall|a: T, b: T, c: T, ab: T, bc: T, abc1: T, abc2: T|
        #![trigger a.combine_ens(b, ab), ab.combine_ens(c, abc1), b.combine_ens(c, bc), a.combine_ens(bc, abc2)]
        a.combine_ens(b, ab) && ab.combine_ens(c, abc1) && b.combine_ens(c, bc) && a.combine_ens(
            bc,
            abc2,
        ) ==> abc1 == abc2
}

impl Semigroup for u64 {
    /// Addition, wrapping around on overflow.
    open spec fn combine_ens(self, b: u64, r: u64) -> bool {
        r == self.wrapping_add(b)
    }

    fn combine(self, b: u64) -> (r: u64) {
        self.wrapping_add(b)
    }
}

impl Semigroup for usize {
    /// Addition, wrapping around on overflow.
    open spec fn combine_ens(self, b: usize, r: usize) -> bool {
        r == self.wrapping_add(b)
    }

    fn combine(self, b: usize) -> (r: usize) {
        self.wrapping_add(b)
    }
}

impl Semigroup for u8 {
    /// Addition, wrapping around on overflow.
    open spec fn combine_ens(self, b: u8, r: u8) -> bool {
        r == self.wrapping_add(b)
    }

    fn combine(self, b: u8) -> (r: u8) {
        self.wrapping_add(b)
    }
}

impl Semigroup for u16 {
    /// Addition, wrapping around on overflow.
    open spec fn combine_ens(self, b: u16, r: u16) -> bool {
        r == self.wrapping_add(b)
    }

    fn combine(self, b: u16) -> (r: u16) {
        self.wrapping_add(b)
    }
}

impl Semigroup for u32 {
    /// Addition, wrapping around on overflow.
    open spec fn combine_ens(self, b: u32, r: u32) -> bool {
        r == self.wrapping_add(b)
    }

    fn combine(self, b: u32) -> (r: u32) {
        self.wrapping_add(b)
    }
}

impl Semigroup for i8 {
    /// Addition, wrapping around on overflow.
    open spec fn combine_ens(self, b: i8, r: i8) -> bool {
        r == self.wrapping_add(b)
    }

    fn combine(self, b: i8) -> (r: i8) {
        self.wrapping_add(b)
    }
}

impl Semigroup for i16 {
    /// Addition, wrapping around on overflow.
    open spec fn combine_ens(self, b: i16, r: i16) -> bool {
        r == self.wrapping_add(b)
    }

    fn combine(self, b: i16) -> (r: i16) {
        self.wrapping_add(b)
    }
}

impl Semigroup for i32 {
    /// Addition, wrapping around on overflow.
    open spec fn combine_ens(self, b: i32, r: i32) -> bool {
        r == self.wrapping_add(b)
    }

    fn combine(self, b: i32) -> (r: i32) {
        self.wrapping_add(b)
    }
}

impl Semigroup for i64 {
    /// Addition, wrapping around on overflow.
    open spec fn combine_ens(self, b: i64, r: i64) -> bool {
        r == self.wrapping_add(b)
    }

    fn combine(self, b: i64) -> (r: i64) {
        self.wrapping_add(b)
    }
}

impl Semigroup for String {
    /// Concatenation.
    open spec fn combine_ens(self, b: String, r: String) -> bool {
        r@ == self@ + b@
    }

    fn combine(self, b: String) -> (r: String) {
        let mut out = self;
        out.append(b.as_str());
        out
    }
}

impl Semigroup for () {
    /// The unit value is its own combination.
    open spec fn combine_ens(self, b: (), r: ()) -> bool {
        true
    }

    fn combine(self, b: ()) -> (r: ()) {
    }
}

impl<A> Semigroup for Vec<A> {
    /// Concatenation, in order.
    open spec fn combine_ens(self, b: Vec<A>, r: Vec<A>) -> bool {
        r@ == self@ + b@
    }

    fn combine(self, b: Vec<A>) -> (r: Vec<A>) {
        let mut out = self;
        let mut tail = b;
        out.append(&mut tail);
        out
    }
}

impl<A: Semigroup> Semigroup for Option<A> {
    /// Combine the inner values when both are present, else return whichever
    /// is present.
    open spec fn combine_ens(self, b: Option<A>, r: Option<A>) -> bool {
        match (self, b) {
            (Option::None, Option::None) => r is None,
            (Option::Some(x), Option::None) => r == Option::Some(x),
            (Option::None, Option::Some(y)) => r == Option::Some(y),
            (Option::Some(x), Option::Some(y)) => r matches Some(z) && x.combine_ens(y, z),
        }
    }

    fn combine(self, b: Option<A>) -> (r: Option<A>) {
        match (self, b) {
            (Option::None, Option::None) => Option::None,
            (Option::Some(x), Option::None) => Option::Some(x),
            (Option::None, Option::Some(y)) => Option::Some(y),
            (Option::Some(x), Option::Some(y)) => Option::Some(x.combine(y)),
        }
    }
}

impl<A: Semigroup, E> Semigroup for Result<A, E> {
    /// Combine the success values when both succeed; short-circuit to the
    /// first failure, the left failure winning.
    open spec fn combine_ens(self, b: Result<A, E>, r: Result<A, E>) -> bool {
        match (self, b) {
            (Result::Err(e), _) => r == Result::<A, E>::Err(e),
            (Result::Ok(_), Result::Err(e2)) => r == Result::<A, E>::Err(e2),
            (Result::Ok(x), Result::Ok(y)) => r matches Ok(z) && x.combine_ens(y, z),
        }
    }

    fn combine(self, b: Result<A, E>) -> (r: Result<A, E>) {
        match (self, b) {
            (Result::Err(e), _) => Result::Err(e),
            (Result::Ok(_), Result::Err(e2)) => Result::Err(e2),
            (Result::Ok(x), Result::Ok(y)) => Result::Ok(x.combine(y)),
        }
    }
}

/// Relies on std's `HashMap::extend` with an owned map as the iterator:
/// every entry of `other` is inserted into `m`, replacing the value at a key
/// that is already present.
#[verifier::external_body]
fn hash_map_extend<K: std::cmp::Eq + std::hash::Hash, V>(m: &mut HashMap<K, V>, other: HashMap<K, V>)
    ensures
        vstd::std_specs::hash::obeys_key_model::<K>() ==> final(m)@ == old(m)@.union_prefer_right(
            other@,
        ),
{
    m.extend(other);
}

/// Relies on std's `HashSet::extend` with an owned set as the iterator:
/// every element of `other` is inserted into `m`.
#[verifier::external_body]
fn hash_set_extend<A: std::cmp::Eq + std::hash::Hash>(m: &mut HashSet<A>, other: HashSet<A>)
    ensures
        vstd::std_specs::hash::obeys_key_model::<A>() ==> final(m)@ == old(m)@.union(other@),
{
    m.extend(other);
}

impl<K: std::cmp::Eq + std::hash::Hash, V> Semigroup for HashMap<K, V> {
    /// The union of the two maps, the right-hand entry winning on a key
    /// collision; said of the views for key types whose hashing obeys the
    /// hash-table key model.
    open spec fn combine_ens(self, b: HashMap<K, V>, r: HashMap<K, V>) -> bool {
        vstd::std_specs::hash::obeys_key_model::<K>() ==> r@ == self@.union_prefer_right(b@)
    }

    fn combine(self, b: HashMap<K, V>) -> (r: HashMap<K, V>) {
        let mut out = self;
        hash_map_extend(&mut out, b);
        out
    }
}

impl<A: std::cmp::Eq + std::hash::Hash> Semigroup for HashSet<A> {
    /// The union of the two sets; said of the views for element types whose
    /// hashing obeys the hash-table key model.
    open spec fn combine_ens(self, b: HashSet<A>, r: HashSet<A>) -> bool {
        vstd::std_specs::hash::obeys_key_model::<A>() ==> r@ == self@.union(b@)
    }

    fn combine(self, b: HashSet<A>) -> (r: HashSet<A>) {
        let mut out = self;
        hash_set_extend(&mut out, b);
        out
    }
}

/// Associativity and determinism of wrapped addition on `u64`.
pub proof fn lemma_u64_semigroup_laws()
    ensures
        combine_associative::<u64>(),
        combine_deterministic::<u64>(),
{
}

/// Associativity and determinism of wrapped addition on `usize`.
pub proof fn lemma_usize_semigroup_laws()
    ensures
        combine_associative::<usize>(),
        combine_deterministic::<usize>(),
{
}

/// Associativity and determinism of wrapped addition on `u8`.
pub proof fn lemma_u8_semigroup_laws()
    ensures
        combine_associative::<u8>(),
        combine_deterministic::<u8>(),
{
}

/// Associativity and determinism of wrapped addition on `u16`.
pub proof fn lemma_u16_semigroup_laws()
    ensures
        combine_associative::<u16>(),
        combine_deterministic::<u16>(),
{
}

/// Associativity and determinism of wrapped addition on `u32`.
pub proof fn lemma_u32_semigroup_laws()
    ensures
        combine_associative::<u32>(),
        combine_deterministic::<u32>(),
{
}

/// Associativity and determinism of wrapped addition on `i8`.
pub proof fn lemma_i8_semigroup_laws()
    ensures
        combine_associative::<i8>(),
        combine_deterministic::<i8>(),
{
}

/// Associativity and determinism of wrapped addition on `i16`.
pub proof fn lemma_i16_semigroup_laws()
    ensures
        combine_associative::<i16>(),
        combine_deterministic::<i16>(),
{
}

/// Associativity and determinism of wrapped addition on `i32`.
pub proof fn lemma_i32_semigroup_laws()
    ensures
        combine_associative::<i32>(),
        combine_deterministic::<i32>(),
{
}

/// Associativity and determinism of wrapped addition on `i64`.
pub proof fn lemma_i64_semigroup_laws()
    ensures
        combine_associative::<i64>(),
        combine_deterministic::<i64>(),
{
}

/// Associativity of string concatenation, said of the views.
pub proof fn lemma_string_semigroup_associative(
    a: String,
    b: String,
    c: String,
    ab: String,
    bc: String,
    abc1: String,
    abc2: String,
)
    requires
        a.combine_ens(b, ab),
        ab.combine_ens(c, abc1),
        b.combine_ens(c, bc),
        a.combine_ens(bc, abc2),
    ensures
        abc1@ == abc2@,
{
    assert(abc1@ =~= abc2@);
}

/// Associativity and determinism of the unit semigroup.
pub proof fn lemma_unit_semigroup_laws()
    ensures
        combine_associative::<()>(),
        combine_deterministic::<()>(),
{
}

/// Associativity of sequence concatenation, said of the views.
pub proof fn lemma_vec_semigroup_associative<A>(
    a: Vec<A>,
    b: Vec<A>,
    c: Vec<A>,
    ab: Vec<A>,
    bc: Vec<A>,
    abc1: Vec<A>,
    abc2: Vec<A>,
)
    requires
        a.combine_ens(b, ab),
        ab.combine_ens(c, abc1),
        b.combine_ens(c, bc),
        a.combine_ens(bc, abc2),
    ensures
        abc1@ == abc2@,
{
    assert(abc1@ =~= abc2@);
}

/// The optional semigroup inherits associativity from an associative and
/// deterministic inner semigroup.
pub proof fn lemma_option_semigroup_associative<A: Semigroup>()
    requires
        combine_associative::<A>(),
        combine_deterministic::<A>(),
    ensures
        combine_associative::<Option<A>>(),
{
}

/// The result semigroup inherits associativity from an associative and
/// deterministic inner semigroup.
pub proof fn lemma_result_semigroup_associative<A: Semigroup, E>()
    requires
        combine_associative::<A>(),
        combine_deterministic::<A>(),
    ensures
        combine_associative::<Result<A, E>>(),
{
}

/// Associativity of hash-map union, said of the views, for key types whose
/// hashing obeys the hash-table key model.
pub proof fn lemma_hash_map_semigroup_associative<K: std::cmp::Eq + std::hash::Hash, V>(
    a: HashMap<K, V>,
    b: HashMap<K, V>,
    c: HashMap<K, V>,
    ab: HashMap<K, V>,
    bc: HashMap<K, V>,
    abc1: HashMap<K, V>,
    abc2: HashMap<K, V>,
)
    requires
        vstd::std_specs::hash::obeys_key_model::<K>(),
        a.combine_ens(b, ab),
        ab.combine_ens(c, abc1),
        b.combine_ens(c, bc),
        a.combine_ens(bc, abc2),
    ensures
        abc1@ == abc2@,
{
    assert(abc1@ =~= abc2@);
}

/// Associativity of hash-set union, said of the views, for element types
/// whose hashing obeys the hash-table key model.
pub proof fn lemma_hash_set_semigroup_associative<A: std::cmp::Eq + std::hash::Hash>(
    a: HashSet<A>,
    b: HashSet<A>,
    c: HashSet<A>,
    ab: HashSet<A>,
    bc: HashSet<A>,
    abc1: HashSet<A>,
    abc2: HashSet<A>,
)
    requires
        vstd::std_specs::hash::obeys_key_model::<A>(),
        a.combine_ens(b, ab),
        ab.combine_ens(c, abc1),
        b.combine_ens(c, bc),
        a.combine_ens(bc, abc2),
    ensures
        abc1@ == abc2@,
{
    assert(abc1@ =~= abc2@);
}

} // verus!
