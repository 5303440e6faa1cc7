//! The MonoidK class: SemigroupK with an identity container for the
//! alternative-choice combination.

use vstd::prelude::*;

use crate::classes::semigroup_k::{
    spec_combine_k_option, SemigroupKInstance, SemigroupKTy,
};
use crate::classes::{OptionKind, VecKind};

verus! {

/// A shape whose alternative-choice combination has an identity container.
pub trait MonoidKTy: SemigroupKTy {}

impl MonoidKTy for OptionKind {}

impl MonoidKTy for VecKind {}

/// A container whose shape supplies the identity of the alternative-choice
/// combination: absence for optional values, the empty sequence for
/// sequences.
pub trait MonoidKInstance<T>: SemigroupKInstance<T> {
    /// What `empty` returns: the identity of `combine_k`.
    spec fn empty_k_ens(r: Self) -> bool;

    /// The identity container of this shape.
    fn empty() -> (r: Self)
        ensures
            Self::empty_k_ens(r),
    ;
}

impl<T> MonoidKInstance<T> for Option<T> {
    /// Absence.
    open spec fn empty_k_ens(r: Option<T>) -> bool {
        r is None
    }

    fn empty() -> (r: Option<T>) {
        Option::None
    }
}

impl<T> MonoidKInstance<T> for Vec<T> {
    /// The empty sequence.
    open spec fn empty_k_ens(r: Vec<T>) -> bool {
        r@ == Seq::<T>::empty()
    }

    fn empty() -> (r: Vec<T>) {
        let out: Vec<T> = Vec::new();
        proof {
            assert(out@ =~= Seq::<T>::empty());
        }
        out
    }
}

/// The identity container of the shape the witness argument selects.
pub fn empty<K: MonoidKTy, T, C: MonoidKInstance<T, Kind = K>>(_k: K) -> (r: C)
    ensures
        C::empty_k_ens(r),
{
    C::empty()
}

/// The identity laws of the alternative-choice combination, optional shape:
/// absence combined with `a` on either side gives `a`.
pub proof fn lemma_option_monoid_k_identity<T>(a: Option<T>)
    ensures
        spec_combine_k_option(Option::None, a) == a,
        spec_combine_k_option(a, Option::None) == a,
{
}

/// The identity laws of the alternative-choice combination, sequence shape,
/// said of the views: concatenation with the empty sequence on either side
/// changes nothing.
pub proof fn lemma_vec_monoid_k_identity<T>(e: Vec<T>, a: Vec<T>, r1: Vec<T>, r2: Vec<T>)
    requires
        <Vec<T> as MonoidKInstance<T>>::empty_k_ens(e),
        e.combine_k_ens(a, r1),
        a.combine_k_ens(e, r2),
    ensures
        r1@ == a@,
        r2@ == a@,
{
    assert(r1@ =~= a@);
    assert(r2@ =~= a@);
}

} // verus!
