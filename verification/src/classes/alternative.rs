//! The Alternative class: a shape that is simultaneously Applicative and
//! MonoidK.

use vstd::prelude::*;

use crate::classes::applicative::{ApplicativeInstance, ApplicativeTy};
use crate::classes::monoid_k::{MonoidKInstance, MonoidKTy};
use crate::classes::{OptionKind, VecKind};

verus! {

/// A shape that supports both lifting a bare value and the alternative-choice
/// combination with its identity.
pub trait AlternativeTy: ApplicativeTy + MonoidKTy {}

impl AlternativeTy for OptionKind {}

impl AlternativeTy for VecKind {}

/// A container whose shape is Alternative: it carries both the Applicative
/// vocabulary and the alternative-choice combination with its identity.
pub trait AlternativeInstance<T>: ApplicativeInstance<T> + MonoidKInstance<T> {
}

impl<T> AlternativeInstance<T> for Option<T> {
}

impl<T> AlternativeInstance<T> for Vec<T> {
}

} // verus!
