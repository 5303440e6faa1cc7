//! The Traverse class, an extension point left open.

use vstd::prelude::*;

use crate::classes::foldable::FoldableTy;
use crate::classes::functor::FunctorTy;

verus! {

/// A shape that could additionally thread an effectful computation through
/// its held values, accumulating the effects applicatively. No built-in
/// shape implements it: its accumulation order and failure policy are
/// deliberately left undetermined, so it stands only as a marker for
/// downstream shapes that commit to one.
pub trait Traverse: FunctorTy + FoldableTy {
}

} // verus!
