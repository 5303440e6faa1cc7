//! The ApplicativeError class: Applicative for shapes with a distinguished
//! failure channel, with raising and recovery.

use vstd::prelude::*;

use crate::classes::applicative::{ApplicativeInstance, ApplicativeTy};
use crate::classes::{OptionKind, ResultKindOk};

verus! {

/// A shape with a distinguished failure channel.
pub trait ApplicativeErrorTy: ApplicativeTy {}

impl<E> ApplicativeErrorTy for ResultKindOk<E> {}

impl ApplicativeErrorTy for OptionKind {}

/// A container with a failure channel: a failure can be raised directly, and
/// a failed container can be replaced through a handler.
///
/// `handle_rel` pins recovery down per shape: a successful container is
/// returned unchanged, and a failed one is replaced by the handler's answer
/// on the failure payload. `raise_ens` pins `raise_error` down: the failed
/// container holding the payload.
pub trait ApplicativeErrorInstance<T>: ApplicativeInstance<T> {
    /// The failure payload type: the error of a result, the unit value for
    /// the absence of an optional value.
    type ErrorT;

    /// The failure payloads this container holds, in positional order: one
    /// for a failed container, none for a successful one.
    spec fn errors(self) -> Seq<Self::ErrorT>;

    /// `r` recovers this container through `rel`: a success passes through
    /// unchanged, a failure's payload yields the whole answer.
    spec fn handle_rel(self, r: Self, rel: spec_fn(Self::ErrorT, Self) -> bool) -> bool;

    /// What `raise_error` returns: the failed container holding `e`.
    spec fn raise_ens(e: Self::ErrorT, r: Self) -> bool;

    /// Replace a failure by the handler's answer on its payload; return a
    /// success unchanged.
    fn handle_error_with<F: Fn(&Self::ErrorT) -> Self>(self, f: F) -> (r: Self)
        requires
            forall|i: int| 0 <= i < self.errors().len() ==> call_requires(f, (&self.errors()[i],)),
        ensures
            self.handle_rel(r, |e: Self::ErrorT, out: Self| call_ensures(f, (&e,), out)),
    ;

    /// Construct the failed container holding `e`.
    fn raise_error(e: Self::ErrorT) -> (r: Self)
        ensures
            Self::raise_ens(e, r),
    ;
}

impl<T, E> ApplicativeErrorInstance<T> for Result<T, E> {
    type ErrorT = E;

    open spec fn errors(self) -> Seq<E> {
        match self {
            Result::Ok(_) => Seq::empty(),
            Result::Err(e) => seq![e],
        }
    }

    /// A success passes through; a failure's payload is handed to the
    /// handler, whose whole answer is the result.
    open spec fn handle_rel(self, r: Result<T, E>, rel: spec_fn(E, Result<T, E>) -> bool) -> bool {
        match self {
            Result::Ok(a) => r == Result::<T, E>::Ok(a),
            Result::Err(e) => rel(e, r),
        }
    }

    /// The failure holding `e`.
    open spec fn raise_ens(e: E, r: Result<T, E>) -> bool {
        r == Result::<T, E>::Err(e)
    }

    fn handle_error_with<F: Fn(&E) -> Result<T, E>>(self, f: F) -> (r: Result<T, E>) {
        match self {
            Result::Err(e) => {
                proof {
                    assert(ApplicativeErrorInstance::<T>::errors(Result::<T, E>::Err(e))[0] == e);
                }
                f(&e)
            },
            Result::Ok(a) => Result::Ok(a),
        }
    }

    fn raise_error(e: E) -> (r: Result<T, E>) {
        Result::Err(e)
    }
}

impl<T> ApplicativeErrorInstance<T> for Option<T> {
    type ErrorT = ();

    open spec fn errors(self) -> Seq<()> {
        match self {
            Option::Some(_) => Seq::empty(),
            Option::None => seq![()],
        }
    }

    /// A present value passes through; absence hands the unit payload to the
    /// handler, whose whole answer is the result.
    open spec fn handle_rel(self, r: Option<T>, rel: spec_fn((), Option<T>) -> bool) -> bool {
        match self {
            Option::Some(a) => r == Option::Some(a),
            Option::None => rel((), r),
        }
    }

    /// Absence; the unit payload carries no information.
    open spec fn raise_ens(e: (), r: Option<T>) -> bool {
        r is None
    }

    fn handle_error_with<F: Fn(&()) -> Option<T>>(self, f: F) -> (r: Option<T>) {
        match self {
            Option::None => {
                proof {
                    assert(ApplicativeErrorInstance::<T>::errors(Option::<T>::None)[0] == ());
                }
                f(&())
            },
            Option::Some(a) => Option::Some(a),
        }
    }

    fn raise_error(e: ()) -> (r: Option<T>) {
        Option::None
    }
}

/// Recovery law, result shape: handling a raised failure hands exactly its
/// payload to the handler, and the handler's answer is the whole result.
pub proof fn lemma_result_handle_raised<T, E>(
    e: E,
    c: Result<T, E>,
    r: Result<T, E>,
    rel: spec_fn(E, Result<T, E>) -> bool,
)
    requires
        <Result<T, E> as ApplicativeErrorInstance<T>>::raise_ens(e, c),
        c.handle_rel(r, rel),
    ensures
        rel(e, r),
{
}

/// Recovery law, optional shape: handling a raised failure hands the unit
/// payload to the handler, and the handler's answer is the whole result.
pub proof fn lemma_option_handle_raised<T>(
    c: Option<T>,
    r: Option<T>,
    rel: spec_fn((), Option<T>) -> bool,
)
    requires
        <Option<T> as ApplicativeErrorInstance<T>>::raise_ens((), c),
        c.handle_rel(r, rel),
    ensures
        rel((), r),
{
}

} // verus!
