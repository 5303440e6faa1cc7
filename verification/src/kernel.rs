//! Value-level algebra: `Semigroup` and `Monoid`, which combine two values of
//! one plain type, together with the basic shape-witness vocabulary.

pub mod monoid;
pub mod semigroup;

use vstd::prelude::*;

verus! {

/// A shape witness: an inert marker type standing for one container shape,
/// independent of the element type it is instantiated at.
pub trait Kind {}

/// Shape witness for the sequence shape `Vec<T>`.
#[derive(Clone, Copy, Default)]
pub struct VecKind;

impl Kind for VecKind {}

/// Shape witness for the optional-value shape `Option<T>`.
#[derive(Clone, Copy, Default)]
pub struct OptionKind;

impl Kind for OptionKind {}

} // verus!
