//! Container-level typeclasses: shape witnesses and the classes that a
//! container shape can support (mapping, application, sequencing, folding,
//! choice and error recovery).

use vstd::prelude::*;

pub mod alternative;
pub mod applicative;
pub mod applicative_error;
pub mod apply;
pub mod bifunctor;
pub mod flatmap;
pub mod foldable;
pub mod functor;
pub mod monad;
pub mod monoid_k;
pub mod semigroup_k;
pub mod traverse;

verus! {

/// Shape witness for the sequence shape `Vec<T>`.
#[derive(Clone, Copy, Default)]
pub struct VecKind;

/// Shape witness for the optional-value shape `Option<T>`.
#[derive(Clone, Copy, Default)]
pub struct OptionKind;

/// Shape witness for the result shape `Result<T, E>` with the error type
/// `E` held fixed: the classes act on the success slot only.
pub struct ResultKindOk<E>(core::marker::PhantomData<E>);

impl<E> Clone for ResultKindOk<E> {
    fn clone(&self) -> (r: Self) {
        ResultKindOk(core::marker::PhantomData)
    }
}

impl<E> Copy for ResultKindOk<E> {}

impl<E> Default for ResultKindOk<E> {
    /// The one value of this witness type.
    fn default() -> (r: Self) {
        ResultKindOk(core::marker::PhantomData)
    }
}

/// Shape witness for the two-slot result shape `Result<T1, T2>`, where both
/// the success and the error slot can be transformed.
#[derive(Clone, Copy, Default)]
pub struct ResultKind;

/// Shape witness for the two-slot pair shape `(T1, T2)`.
#[derive(Clone, Copy, Default)]
pub struct Tuple2Kind;

/// The values a container holds, as a sequence in the shape's natural
/// positional order: a `Vec` lists its elements in index order, an `Option`
/// holds zero or one value, and a `Result` holds its success value or none.
///
/// The classes state their contracts over this sequence: which values a
/// mapped function must accept, and in what order folds visit them.
pub trait Elems<T>: Sized {
    /// The held values, in positional order.
    spec fn elems(self) -> Seq<T>;
}

impl<T> Elems<T> for Option<T> {
    open spec fn elems(self) -> Seq<T> {
        match self {
            Option::Some(a) => seq![a],
            Option::None => Seq::empty(),
        }
    }
}

impl<T, E> Elems<T> for Result<T, E> {
    open spec fn elems(self) -> Seq<T> {
        match self {
            Result::Ok(a) => seq![a],
            Result::Err(_) => Seq::empty(),
        }
    }
}

impl<T> Elems<T> for Vec<T> {
    open spec fn elems(self) -> Seq<T> {
        self@
    }
}

} // verus!
