//! The Applicative class: lifting a bare value into the minimal container of
//! a shape, on top of Apply.

use vstd::prelude::*;

use crate::classes::apply::ApplyTy;
use crate::classes::functor::{spec_fmap_option, spec_fmap_result, spec_fmap_seq};
use crate::classes::{OptionKind, ResultKindOk, VecKind};

verus! {

/// A shape that supports lifting a bare value, on top of application.
pub trait ApplicativeTy: ApplyTy {}

impl ApplicativeTy for OptionKind {}

impl ApplicativeTy for VecKind {}

impl<E> ApplicativeTy for ResultKindOk<E> {}

/// A container shape into which a bare value can be lifted: `pure(value)` is
/// the minimal container of this shape holding exactly `value`.
///
/// `pure_ens` pins the result down per shape: an optional value holds the
/// value, a result succeeds with it, a sequence holds it as its one element.
pub trait ApplicativeInstance<T>: Sized {
    /// The witness of this container's shape.
    type Kind: ApplicativeTy;

    /// What `pure` returns: the minimal container holding exactly `value`.
    spec fn pure_ens(value: T, r: Self) -> bool;

    /// Lift `value` into the minimal container of this shape.
    fn pure(value: T) -> (r: Self)
        ensures
            Self::pure_ens(value, r),
    ;
}

impl<T> ApplicativeInstance<T> for Option<T> {
    type Kind = OptionKind;

    /// The value, present.
    open spec fn pure_ens(value: T, r: Option<T>) -> bool {
        r == Option::Some(value)
    }

    fn pure(value: T) -> (r: Option<T>) {
        Option::Some(value)
    }
}

impl<T, E> ApplicativeInstance<T> for Result<T, E> {
    type Kind = ResultKindOk<E>;

    /// The value, as a success.
    open spec fn pure_ens(value: T, r: Result<T, E>) -> bool {
        r == Result::<T, E>::Ok(value)
    }

    fn pure(value: T) -> (r: Result<T, E>) {
        Result::Ok(value)
    }
}

impl<T> ApplicativeInstance<T> for Vec<T> {
    type Kind = VecKind;

    /// The one-element sequence holding the value.
    open spec fn pure_ens(value: T, r: Vec<T>) -> bool {
        r@ == seq![value]
    }

    fn pure(value: T) -> (r: Vec<T>) {
        let mut out: Vec<T> = Vec::new();
        out.push(value);
        proof {
            assert(out@ =~= seq![value]);
        }
        out
    }
}

/// Lift `value` into the minimal container of the shape the witness argument
/// selects.
pub fn pure<K: ApplicativeTy, T, C: ApplicativeInstance<T, Kind = K>>(_k: K, value: T) -> (r: C)
    ensures
        C::pure_ens(value, r),
{
    C::pure(value)
}

/// Applicative identity law, optional shape: applying the lifted identity
/// function returns an equal container.
pub proof fn lemma_option_applicative_identity<A>(fa: Option<A>)
    ensures
        spec_apply_option(fa, Option::Some(|a: A| a)) == fa,
{
}

/// Applicative identity law, result shape.
pub proof fn lemma_result_applicative_identity<A, E>(fa: Result<A, E>)
    ensures
        spec_apply_result(fa, Result::<spec_fn(A) -> A, E>::Ok(|a: A| a)) == fa,
{
}

/// Applicative identity law, sequence shape.
pub proof fn lemma_seq_applicative_identity<A>(s: Seq<A>)
    ensures
        spec_apply_seq(s, seq![|a: A| a]) == s,
{
    lemma_seq_applicative_fmap_consistent(s, |a: A| a);
    crate::classes::functor::lemma_seq_functor_identity(s);
}

/// Applicative homomorphism law, optional shape: applying a lifted function
/// to a lifted value equals lifting the function's answer.
pub proof fn lemma_option_applicative_homomorphism<A, B>(a: A, g: spec_fn(A) -> B)
    ensures
        spec_apply_option(Option::Some(a), Option::Some(g)) == Option::Some(g(a)),
{
}

/// Applicative-Functor consistency law, optional shape: applying a lifted
/// function equals mapping it.
pub proof fn lemma_option_applicative_fmap_consistent<A, B>(fa: Option<A>, g: spec_fn(A) -> B)
    ensures
        spec_apply_option(fa, Option::Some(g)) == spec_fmap_option(fa, g),
{
}

/// Applicative homomorphism law, result shape.
pub proof fn lemma_result_applicative_homomorphism<A, B, E>(a: A, g: spec_fn(A) -> B)
    ensures
        spec_apply_result(Result::<A, E>::Ok(a), Result::<spec_fn(A) -> B, E>::Ok(g))
            == Result::<B, E>::Ok(g(a)),
{
}

/// Applicative-Functor consistency law, result shape.
pub proof fn lemma_result_applicative_fmap_consistent<A, B, E>(fa: Result<A, E>, g: spec_fn(A) -> B)
    ensures
        spec_apply_result(fa, Result::<spec_fn(A) -> B, E>::Ok(g)) == spec_fmap_result(fa, g),
{
}

/// Applicative homomorphism law, sequence shape.
pub proof fn lemma_seq_applicative_homomorphism<A, B>(a: A, g: spec_fn(A) -> B)
    ensures
        spec_apply_seq(seq![a], seq![g]) == seq![g(a)],
{
    let sa: Seq<A> = seq![a];
    let gs: Seq<spec_fn(A) -> B> = seq![g];
    assert(gs.len() == 1);
    assert(sa.len() * gs.len() == 1);
    assert(spec_apply_seq(sa, gs).len() == 1);
    assert(0int % 1int == 0 && 0int / 1int == 0) by (nonlinear_arith);
    assert(spec_apply_seq(sa, gs)[0int] == (gs[0int % (gs.len() as int)])(
        sa[0int / (gs.len() as int)],
    ));
    assert(spec_apply_seq(sa, gs) =~= seq![g(a)]);
}

/// Applicative-Functor consistency law, sequence shape.
pub proof fn lemma_seq_applicative_fmap_consistent<A, B>(s: Seq<A>, g: spec_fn(A) -> B)
    ensures
        spec_apply_seq(s, seq![g]) == spec_fmap_seq(s, g),
{
    let gs: Seq<spec_fn(A) -> B> = seq![g];
    assert(gs.len() == 1);
    assert(s.len() * gs.len() == s.len());
    assert(spec_apply_seq(s, gs).len() == s.len());
    assert forall|k: int| 0 <= k < s.len() implies spec_apply_seq(s, gs)[k] == spec_fmap_seq(
        s,
        g,
    )[k] by {
        assert(k % 1int == 0 && k / 1int == k) by (nonlinear_arith)
            requires
                0 <= k,
        ;
        assert(spec_apply_seq(s, gs)[k] == (gs[k % (gs.len() as int)])(
            s[k / (gs.len() as int)],
        ));
    }
    assert(spec_apply_seq(s, gs) =~= spec_fmap_seq(s, g));
}

/// The mathematical model of `apply` on the optional shape.
pub open spec fn spec_apply_option<A, B>(
    fa: Option<A>,
    fg: Option<spec_fn(A) -> B>,
) -> Option<B> {
    match (fa, fg) {
        (Option::Some(a), Option::Some(g)) => Option::Some(g(a)),
        _ => Option::None,
    }
}

/// The mathematical model of `apply` on the result shape: the function
/// container's failure takes precedence when both fail.
pub open spec fn spec_apply_result<A, B, E>(
    fa: Result<A, E>,
    fg: Result<spec_fn(A) -> B, E>,
) -> Result<B, E> {
    match (fa, fg) {
        (Result::Ok(a), Result::Ok(g)) => Result::Ok(g(a)),
        (_, Result::Err(e)) => Result::Err(e),
        (Result::Err(e), Result::Ok(_)) => Result::Err(e),
    }
}

/// The mathematical model of `apply` on the sequence shape: the cartesian
/// product in row-major order, outer over arguments and inner over functions.
pub open spec fn spec_apply_seq<A, B>(s: Seq<A>, gs: Seq<spec_fn(A) -> B>) -> Seq<B> {
    Seq::new(s.len() * gs.len(), |k: int| (gs[k % (gs.len() as int)])(s[k / (gs.len() as int)]))
}

} // verus!
