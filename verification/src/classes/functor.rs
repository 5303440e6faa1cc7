//! The Functor class: mapping a function over the contents of a container
//! without changing its shape.

use vstd::prelude::*;

use crate::classes::{Elems, OptionKind, ResultKindOk, VecKind};

verus! {

/// A shape that supports structure-preserving mapping.
pub trait FunctorTy {}

impl FunctorTy for OptionKind {}

impl FunctorTy for VecKind {}

impl<E> FunctorTy for ResultKindOk<E> {}

/// A container of `A` values whose shape supports mapping a function
/// `A -> B`, yielding the container of `B` of the identical shape.
///
/// `fmap_rel` pins the operation down per shape: `fmap_rel(self, r, rel)`
/// says that `r` has the shape of `self` with every held value `a` replaced
/// by some `b` with `rel(a, b)`, everything else (an error slot, absence)
/// passed through unchanged. The contract of `fmap` instantiates `rel` with
/// the input-output relation of the mapped function.
pub trait FunctorInstance<A, B>: Elems<A> {
    /// The witness of this container's shape.
    type Kind: FunctorTy;

    /// The container of `B` of the identical shape.
    type Mapped;

    /// `r` is this container with each held value sent through `rel`.
    spec fn fmap_rel(self, r: Self::Mapped, rel: spec_fn(A, B) -> bool) -> bool;

    /// Apply `f` to every contained value, keeping the shape.
    fn fmap<F: Fn(&A) -> B>(self, f: F) -> (r: Self::Mapped)
        requires
            forall|i: int| 0 <= i < self.elems().len() ==> call_requires(f, (&self.elems()[i],)),
        ensures
            self.fmap_rel(r, |a: A, b: B| call_ensures(f, (&a,), b)),
    ;
}

impl<A, B> FunctorInstance<A, B> for Option<A> {
    type Kind = OptionKind;

    type Mapped = Option<B>;

    /// Absence maps to absence; a held value is sent through `rel`.
    open spec fn fmap_rel(self, r: Option<B>, rel: spec_fn(A, B) -> bool) -> bool {
        match self {
            Option::Some(a) => r matches Some(b) && rel(a, b),
            Option::None => r is None,
        }
    }

    fn fmap<F: Fn(&A) -> B>(self, f: F) -> (r: Option<B>) {
        match self {
            Option::Some(v) => {
                assert(Elems::<A>::elems(Option::Some(v))[0] == v);
                Option::Some(f(&v))
            },
            Option::None => Option::None,
        }
    }
}

impl<A, B, E> FunctorInstance<A, B> for Result<A, E> {
    type Kind = ResultKindOk<E>;

    type Mapped = Result<B, E>;

    /// A success value is sent through `rel`; a failure is passed through
    /// unchanged.
    open spec fn fmap_rel(self, r: Result<B, E>, rel: spec_fn(A, B) -> bool) -> bool {
        match self {
            Result::Ok(a) => r matches Ok(b) && rel(a, b),
            Result::Err(e) => r == Result::<B, E>::Err(e),
        }
    }

    fn fmap<F: Fn(&A) -> B>(self, f: F) -> (r: Result<B, E>) {
        match self {
            Result::Ok(v) => {
                assert(Elems::<A>::elems(Result::<A, E>::Ok(v))[0] == v);
                Result::Ok(f(&v))
            },
            Result::Err(e) => Result::Err(e),
        }
    }
}

impl<A, B> FunctorInstance<A, B> for Vec<A> {
    type Kind = VecKind;

    type Mapped = Vec<B>;

    /// The result has one output per element, in index order.
    open spec fn fmap_rel(self, r: Vec<B>, rel: spec_fn(A, B) -> bool) -> bool {
        &&& r@.len() == self@.len()
        &&& forall|i: int| 0 <= i < self@.len() ==> rel(self@[i], #[trigger] r@[i])
    }

    fn fmap<F: Fn(&A) -> B>(self, f: F) -> (r: Vec<B>) {
        let mut out: Vec<B> = Vec::new();
        let mut idx: usize = 0;
        while idx < self.len()
            invariant
                idx <= self@.len(),
                out@.len() == idx,
                forall|i: int|
                    0 <= i < self.elems().len() ==> call_requires(f, (&self.elems()[i],)),
                forall|i: int| 0 <= i < idx ==> call_ensures(f, (&self@[i],), #[trigger] out@[i]),
            decreases self@.len() - idx,
        {
            assert(self.elems()[idx as int] == self@[idx as int]);
            out.push(f(&self[idx]));
            idx += 1;
        }
        out
    }
}

/// Map `f` over the contents of `fa`, keeping its shape; the witness argument
/// selects the shape.
pub fn fmap<K: FunctorTy, A, B, C: FunctorInstance<A, B, Kind = K>, F: Fn(&A) -> B>(
    _k: K,
    fa: C,
    f: F,
) -> (r: C::Mapped)
    requires
        forall|i: int| 0 <= i < fa.elems().len() ==> call_requires(f, (&fa.elems()[i],)),
    ensures
        fa.fmap_rel(r, |a: A, b: B| call_ensures(f, (&a,), b)),
{
    fa.fmap(f)
}

/// Lift `f` to a function between containers of the shape the witness
/// argument selects: the returned function maps `f` over its argument.
pub fn lift<K: FunctorTy, A, B, C: FunctorInstance<A, B, Kind = K>, F: Fn(&A) -> B>(
    _k: K,
    f: F,
) -> (g: impl FnOnce(C) -> C::Mapped)
    ensures
        forall|fa: C|
            (forall|i: int| 0 <= i < fa.elems().len() ==> call_requires(f, (&fa.elems()[i],)))
                ==> call_requires(g, (fa,)),
        forall|fa: C, r: C::Mapped|
            call_ensures(g, (fa,), r) ==> fa.fmap_rel(r, |a: A, b: B| call_ensures(f, (&a,), b)),
{
    (move |fa: C| -> (r: C::Mapped)
        requires
            forall|i: int| 0 <= i < fa.elems().len() ==> call_requires(f, (&fa.elems()[i],)),
        ensures
            fa.fmap_rel(r, |a: A, b: B| call_ensures(f, (&a,), b)),
        { fa.fmap(f) })
}

/// The mathematical model of `fmap` on the optional shape.
pub open spec fn spec_fmap_option<A, B>(fa: Option<A>, g: spec_fn(A) -> B) -> Option<B> {
    match fa {
        Option::Some(a) => Option::Some(g(a)),
        Option::None => Option::None,
    }
}

/// The mathematical model of `fmap` on the result shape.
pub open spec fn spec_fmap_result<A, B, E>(fa: Result<A, E>, g: spec_fn(A) -> B) -> Result<B, E> {
    match fa {
        Result::Ok(a) => Result::Ok(g(a)),
        Result::Err(e) => Result::Err(e),
    }
}

/// The mathematical model of `fmap` on the sequence shape, on views.
pub open spec fn spec_fmap_seq<A, B>(s: Seq<A>, g: spec_fn(A) -> B) -> Seq<B> {
    s.map_values(g)
}

/// When the mapped function acts as the mathematical function `g`, `fmap` on
/// an optional value returns exactly the model's answer.
pub proof fn lemma_option_fmap_models<A, B>(
    fa: Option<A>,
    r: Option<B>,
    rel: spec_fn(A, B) -> bool,
    g: spec_fn(A) -> B,
)
    requires
        fa.fmap_rel(r, rel),
        forall|a: A, b: B| #[trigger] rel(a, b) ==> b == g(a),
    ensures
        r == spec_fmap_option(fa, g),
{
}

/// When the mapped function acts as the mathematical function `g`, `fmap` on
/// a result returns exactly the model's answer.
pub proof fn lemma_result_fmap_models<A, B, E>(
    fa: Result<A, E>,
    r: Result<B, E>,
    rel: spec_fn(A, B) -> bool,
    g: spec_fn(A) -> B,
)
    requires
        fa.fmap_rel(r, rel),
        forall|a: A, b: B| #[trigger] rel(a, b) ==> b == g(a),
    ensures
        r == spec_fmap_result(fa, g),
{
}

/// When the mapped function acts as the mathematical function `g`, `fmap` on
/// a vector returns exactly the model's answer, elementwise.
pub proof fn lemma_vec_fmap_models<A, B>(
    fa: Vec<A>,
    r: Vec<B>,
    rel: spec_fn(A, B) -> bool,
    g: spec_fn(A) -> B,
)
    requires
        fa.fmap_rel(r, rel),
        forall|a: A, b: B| #[trigger] rel(a, b) ==> b == g(a),
    ensures
        r@ == spec_fmap_seq(fa@, g),
{
    assert(r@ =~= spec_fmap_seq(fa@, g));
}

/// Functor identity law, optional shape: mapping the identity function
/// returns an equal container.
pub proof fn lemma_option_functor_identity<A>(fa: Option<A>)
    ensures
        spec_fmap_option(fa, |a: A| a) == fa,
{
}

/// Functor composition law, optional shape: mapping `f` and then `g` equals
/// mapping their composition.
pub proof fn lemma_option_functor_composition<A, B, C>(
    fa: Option<A>,
    f: spec_fn(A) -> B,
    g: spec_fn(B) -> C,
)
    ensures
        spec_fmap_option(spec_fmap_option(fa, f), g) == spec_fmap_option(fa, |a: A| g(f(a))),
{
}

/// Functor identity law, result shape.
pub proof fn lemma_result_functor_identity<A, E>(fa: Result<A, E>)
    ensures
        spec_fmap_result(fa, |a: A| a) == fa,
{
}

/// Functor composition law, result shape.
pub proof fn lemma_result_functor_composition<A, B, C, E>(
    fa: Result<A, E>,
    f: spec_fn(A) -> B,
    g: spec_fn(B) -> C,
)
    ensures
        spec_fmap_result(spec_fmap_result(fa, f), g) == spec_fmap_result(fa, |a: A| g(f(a))),
{
}

/// Functor identity law, sequence shape.
pub proof fn lemma_seq_functor_identity<A>(s: Seq<A>)
    ensures
        spec_fmap_seq(s, |a: A| a) == s,
{
    assert(spec_fmap_seq(s, |a: A| a) =~= s);
}

/// Functor composition law, sequence shape.
pub proof fn lemma_seq_functor_composition<A, B, C>(s: Seq<A>, f: spec_fn(A) -> B, g: spec_fn(B) -> C)
    ensures
        spec_fmap_seq(spec_fmap_seq(s, f), g) == spec_fmap_seq(s, |a: A| g(f(a))),
{
    assert(spec_fmap_seq(spec_fmap_seq(s, f), g) =~= spec_fmap_seq(s, |a: A| g(f(a))));
}

} // verus!
