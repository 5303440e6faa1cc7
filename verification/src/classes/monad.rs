//! The Monad class: the conjunction of Applicative and FlatMap, together
//! with the monad laws for the built-in shapes.

use vstd::prelude::*;

use crate::classes::applicative::ApplicativeInstance;
use crate::classes::flatmap::{
    spec_flat_map_option, spec_flat_map_result, spec_flat_map_seq, FlatMapTy,
};
use crate::classes::{OptionKind, ResultKindOk, VecKind};

verus! {

/// A shape that is both Applicative and FlatMap.
pub trait MonadTy: FlatMapTy {}

impl MonadTy for OptionKind {}

impl MonadTy for VecKind {}

impl<E> MonadTy for ResultKindOk<E> {}

/// A container that supports the full monadic vocabulary: lifting a value
/// and chaining container-returning computations.
pub trait MonadInstance<T>: ApplicativeInstance<T> {
}

impl<T> MonadInstance<T> for Option<T> {
}

impl<T, E> MonadInstance<T> for Result<T, E> {
}

impl<T> MonadInstance<T> for Vec<T> {
}

/// Monad left-identity law, optional shape: chaining a lifted value through
/// `g` equals `g` of the value.
pub proof fn lemma_option_monad_left_identity<A, B>(a: A, g: spec_fn(A) -> Option<B>)
    ensures
        spec_flat_map_option(Option::Some(a), g) == g(a),
{
}

/// Monad associativity law, optional shape: chaining through `f` and then
/// `g` equals chaining through `f` followed by `g`.
pub proof fn lemma_option_monad_associativity<A, B, C>(
    fa: Option<A>,
    f: spec_fn(A) -> Option<B>,
    g: spec_fn(B) -> Option<C>,
)
    ensures
        spec_flat_map_option(spec_flat_map_option(fa, f), g) == spec_flat_map_option(
            fa,
            |a: A| spec_flat_map_option(f(a), g),
        ),
{
}

/// Monad left-identity law, result shape.
pub proof fn lemma_result_monad_left_identity<A, B, E>(a: A, g: spec_fn(A) -> Result<B, E>)
    ensures
        spec_flat_map_result(Result::<A, E>::Ok(a), g) == g(a),
{
}

/// Monad associativity law, result shape.
pub proof fn lemma_result_monad_associativity<A, B, C, E>(
    fa: Result<A, E>,
    f: spec_fn(A) -> Result<B, E>,
    g: spec_fn(B) -> Result<C, E>,
)
    ensures
        spec_flat_map_result(spec_flat_map_result(fa, f), g) == spec_flat_map_result(
            fa,
            |a: A| spec_flat_map_result(f(a), g),
        ),
{
}

/// Monad left-identity law, sequence shape: chaining a one-element sequence
/// through `g` equals `g` of the element.
pub proof fn lemma_seq_monad_left_identity<A, B>(a: A, g: spec_fn(A) -> Seq<B>)
    ensures
        spec_flat_map_seq(seq![a], g) == g(a),
{
    broadcast use vstd::seq_lib::group_seq_properties;

    let s: Seq<A> = seq![a];
    assert(s.len() == 1);
    s.lemma_flat_map_singleton(g);
}

/// Chaining distributes over concatenation: the per-element answers of a
/// concatenation are the concatenated per-element answers.
proof fn lemma_seq_flat_map_concat<A, B>(x: Seq<A>, y: Seq<A>, g: spec_fn(A) -> Seq<B>)
    ensures
        (x + y).flat_map(g) == x.flat_map(g) + y.flat_map(g),
    decreases y.len(),
{
    broadcast use vstd::seq_lib::group_seq_properties;

    if y.len() == 0 {
        assert(x + y =~= x);
        assert(y.map_values(g) =~= Seq::<Seq<B>>::empty());
        assert(y.flat_map(g) =~= Seq::<B>::empty());
        assert((x + y).flat_map(g) =~= x.flat_map(g) + y.flat_map(g));
    } else {
        let y0 = y.drop_last();
        lemma_seq_flat_map_concat(x, y0, g);
        (x + y0).lemma_flat_map_push(g, y.last());
        y0.lemma_flat_map_push(g, y.last());
        assert((x + y0).push(y.last()) =~= x + y);
        assert(y0.push(y.last()) =~= y);
        assert((x + y).flat_map(g) =~= x.flat_map(g) + y.flat_map(g));
    }
}

/// Monad associativity law, sequence shape.
pub proof fn lemma_seq_monad_associativity<A, B, C>(
    s: Seq<A>,
    f: spec_fn(A) -> Seq<B>,
    g: spec_fn(B) -> Seq<C>,
)
    ensures
        spec_flat_map_seq(spec_flat_map_seq(s, f), g) == spec_flat_map_seq(
            s,
            |a: A| spec_flat_map_seq(f(a), g),
        ),
    decreases s.len(),
{
    broadcast use vstd::seq_lib::group_seq_properties;

    let h = |a: A| spec_flat_map_seq(f(a), g);
    if s.len() == 0 {
        assert(s.map_values(f) =~= Seq::<Seq<B>>::empty());
        assert(s.flat_map(f) =~= Seq::<B>::empty());
        assert(s.flat_map(f).map_values(g) =~= Seq::<Seq<C>>::empty());
        assert(s.map_values(h) =~= Seq::<Seq<C>>::empty());
        assert(s.flat_map(f).flat_map(g) =~= s.flat_map(h));
    } else {
        let s0 = s.drop_last();
        let last = s.last();
        lemma_seq_monad_associativity(s0, f, g);
        s0.lemma_flat_map_push(f, last);
        s0.lemma_flat_map_push(h, last);
        assert(s0.push(last) =~= s);
        lemma_seq_flat_map_concat(s0.flat_map(f), f(last), g);
        assert(s.flat_map(f).flat_map(g) =~= s.flat_map(h));
    }
}

} // verus!
