//! The SemigroupK class: combining two containers of one shape as
//! alternative computations, preferring the first successful one.

use vstd::prelude::*;

use crate::classes::{OptionKind, ResultKindOk, VecKind};

verus! {

/// A shape whose containers combine as alternatives.
pub trait SemigroupKTy {}

impl SemigroupKTy for OptionKind {}

impl SemigroupKTy for VecKind {}

impl<E> SemigroupKTy for ResultKindOk<E> {}

/// A container whose shape supports alternative-choice combination: try the
/// first container, and fall back to the second when the first holds no
/// successful result.
///
/// `combine_k_ens` pins the operation down per shape: optional values and
/// results keep the first success, sequences concatenate.
pub trait SemigroupKInstance<T>: Sized {
    /// The witness of this container's shape.
    type Kind: SemigroupKTy;

    /// What `combine_k` returns.
    spec fn combine_k_ens(self, other: Self, r: Self) -> bool;

    /// Combine with `other` as an alternative.
    fn combine_k(self, other: Self) -> (r: Self)
        ensures
            self.combine_k_ens(other, r),
    ;
}

/// The mathematical model of `combine_k` on the optional shape: the first
/// present value wins.
pub open spec fn spec_combine_k_option<T>(a: Option<T>, b: Option<T>) -> Option<T> {
    if a is Some {
        a
    } else {
        b
    }
}

/// The mathematical model of `combine_k` on the result shape: the first
/// success wins.
pub open spec fn spec_combine_k_result<T, E>(a: Result<T, E>, b: Result<T, E>) -> Result<T, E> {
    if a is Ok {
        a
    } else {
        b
    }
}

impl<T> SemigroupKInstance<T> for Option<T> {
    type Kind = OptionKind;

    /// The first present value wins.
    open spec fn combine_k_ens(self, other: Option<T>, r: Option<T>) -> bool {
        r == spec_combine_k_option(self, other)
    }

    fn combine_k(self, other: Option<T>) -> (r: Option<T>) {
        match self {
            Option::Some(a) => Option::Some(a),
            Option::None => other,
        }
    }
}

impl<T, E> SemigroupKInstance<T> for Result<T, E> {
    type Kind = ResultKindOk<E>;

    /// The first success wins.
    open spec fn combine_k_ens(self, other: Result<T, E>, r: Result<T, E>) -> bool {
        r == spec_combine_k_result(self, other)
    }

    fn combine_k(self, other: Result<T, E>) -> (r: Result<T, E>) {
        match self {
            Result::Ok(a) => Result::Ok(a),
            Result::Err(_) => other,
        }
    }
}

impl<T> SemigroupKInstance<T> for Vec<T> {
    type Kind = VecKind;

    /// Every element is a success, so the combination concatenates.
    open spec fn combine_k_ens(self, other: Vec<T>, r: Vec<T>) -> bool {
        r@ == self@ + other@
    }

    fn combine_k(self, other: Vec<T>) -> (r: Vec<T>) {
        let mut out = self;
        let mut tail = other;
        out.append(&mut tail);
        out
    }
}

/// Combine `this` with `other` as alternatives; the witness argument selects
/// the shape.
pub fn combiane_k<K: SemigroupKTy, T, C: SemigroupKInstance<T, Kind = K>>(
    _k: K,
    this: C,
    other: C,
) -> (r: C)
    ensures
        this.combine_k_ens(other, r),
{
    this.combine_k(other)
}

/// Alternative-choice associativity, optional shape.
pub proof fn lemma_option_semigroup_k_associative<T>(a: Option<T>, b: Option<T>, c: Option<T>)
    ensures
        spec_combine_k_option(spec_combine_k_option(a, b), c) == spec_combine_k_option(
            a,
            spec_combine_k_option(b, c),
        ),
{
}

/// A present first argument wins over anything, optional shape.
pub proof fn lemma_option_semigroup_k_first_success<T>(a: Option<T>, b: Option<T>)
    requires
        a is Some,
    ensures
        spec_combine_k_option(a, b) == a,
{
}

/// Alternative-choice associativity, result shape.
pub proof fn lemma_result_semigroup_k_associative<T, E>(
    a: Result<T, E>,
    b: Result<T, E>,
    c: Result<T, E>,
)
    ensures
        spec_combine_k_result(spec_combine_k_result(a, b), c) == spec_combine_k_result(
            a,
            spec_combine_k_result(b, c),
        ),
{
}

/// A successful first argument wins over anything, result shape.
pub proof fn lemma_result_semigroup_k_first_success<T, E>(a: Result<T, E>, b: Result<T, E>)
    requires
        a is Ok,
    ensures
        spec_combine_k_result(a, b) == a,
{
}

/// Alternative-choice associativity, sequence shape: concatenation is
/// associative, said of the views.
pub proof fn lemma_vec_semigroup_k_associative<T>(
    a: Vec<T>,
    b: Vec<T>,
    c: Vec<T>,
    ab: Vec<T>,
    bc: Vec<T>,
    abc1: Vec<T>,
    abc2: Vec<T>,
)
    requires
        a.combine_k_ens(b, ab),
        ab.combine_k_ens(c, abc1),
        b.combine_k_ens(c, bc),
        a.combine_k_ens(bc, abc2),
    ensures
        abc1@ == abc2@,
{
    assert(abc1@ =~= abc2@);
}

} // verus!
