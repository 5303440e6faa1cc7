//! The FlatMap class: chaining a container through a container-returning
//! function, flattening one level of nesting.

use vstd::prelude::*;

use crate::classes::applicative::ApplicativeTy;
use crate::classes::functor::FunctorInstance;
use crate::classes::{Elems, OptionKind, ResultKindOk, VecKind};

verus! {

/// A shape that supports chaining a container-returning computation.
pub trait FlatMapTy: ApplicativeTy {}

impl FlatMapTy for OptionKind {}

impl FlatMapTy for VecKind {}

impl<E> FlatMapTy for ResultKindOk<E> {}

/// A container of `A` values whose shape supports chaining a function
/// `A -> container-of-B`, flattening one level.
///
/// `flat_map_rel` pins the operation down per shape: optional values
/// short-circuit on absence, results short-circuit on failure, and sequences
/// concatenate the per-element result containers in element order.
pub trait FlatMapInstance<A, B>: FunctorInstance<A, B> {
    /// `r` chains this container through `rel`: each held value `a` yields
    /// some whole container `out` with `rel(a, out)`, combined per the
    /// shape's sequencing policy.
    spec fn flat_map_rel(self, r: Self::Mapped, rel: spec_fn(A, Self::Mapped) -> bool) -> bool;

    /// Chain every contained value through `f`, flattening one level.
    fn flat_map<F: Fn(&A) -> Self::Mapped>(self, f: F) -> (r: Self::Mapped)
        requires
            forall|i: int| 0 <= i < self.elems().len() ==> call_requires(f, (&self.elems()[i],)),
        ensures
            self.flat_map_rel(r, |a: A, out: Self::Mapped| call_ensures(f, (&a,), out)),
    ;
}

impl<A, B> FlatMapInstance<A, B> for Option<A> {
    /// Absence short-circuits; a held value's whole answer is the result.
    open spec fn flat_map_rel(self, r: Option<B>, rel: spec_fn(A, Option<B>) -> bool) -> bool {
        match self {
            Option::Some(a) => rel(a, r),
            Option::None => r is None,
        }
    }

    fn flat_map<F: Fn(&A) -> Option<B>>(self, f: F) -> (r: Option<B>) {
        match self {
            Option::Some(v) => {
                assert(Elems::<A>::elems(Option::Some(v))[0] == v);
                f(&v)
            },
            Option::None => Option::None,
        }
    }
}

impl<A, B, E> FlatMapInstance<A, B> for Result<A, E> {
    /// A failure short-circuits; a success value's whole answer is the
    /// result.
    open spec fn flat_map_rel(self, r: Result<B, E>, rel: spec_fn(A, Result<B, E>) -> bool) -> bool {
        match self {
            Result::Ok(a) => rel(a, r),
            Result::Err(e) => r == Result::<B, E>::Err(e),
        }
    }

    fn flat_map<F: Fn(&A) -> Result<B, E>>(self, f: F) -> (r: Result<B, E>) {
        match self {
            Result::Ok(v) => {
                assert(Elems::<A>::elems(Result::<A, E>::Ok(v))[0] == v);
                f(&v)
            },
            Result::Err(e) => Result::Err(e),
        }
    }
}

/// The concatenation of the views of a sequence of vectors, in order.
pub open spec fn flatten_views<B>(outs: Seq<Vec<B>>) -> Seq<B> {
    outs.map_values(|v: Vec<B>| v@).flatten()
}

impl<A, B> FlatMapInstance<A, B> for Vec<A> {
    /// Each element yields a whole vector; the result concatenates them in
    /// element order.
    open spec fn flat_map_rel(self, r: Vec<B>, rel: spec_fn(A, Vec<B>) -> bool) -> bool {
        exists|outs: Seq<Vec<B>>|
            {
                &&& outs.len() == self@.len()
                &&& forall|i: int| 0 <= i < outs.len() ==> rel(self@[i], #[trigger] outs[i])
                &&& r@ == flatten_views(outs)
            }
    }

    fn flat_map<F: Fn(&A) -> Vec<B>>(self, f: F) -> (r: Vec<B>) {
        let mut out: Vec<B> = Vec::new();
        let ghost mut outs: Seq<Vec<B>> = Seq::empty();
        let mut idx: usize = 0;
        proof {
            assert(out@ =~= flatten_views(outs));
        }
        while idx < self.len()
            invariant
                idx <= self@.len(),
                outs.len() == idx,
                forall|i: int|
                    0 <= i < self.elems().len() ==> call_requires(f, (&self.elems()[i],)),
                forall|i: int| 0 <= i < idx ==> call_ensures(f, (&self@[i],), #[trigger] outs[i]),
                out@ == flatten_views(outs),
            decreases self@.len() - idx,
        {
            assert(self.elems()[idx as int] == self@[idx as int]);
            let mut piece = f(&self[idx]);
            proof {
                broadcast use Seq::lemma_flatten_push;
                broadcast use Seq::lemma_push_map_commute;

                let vw = |v: Vec<B>| v@;
                assert(outs.push(piece).map_values(vw) == outs.map_values(vw).push(piece@));
                assert(flatten_views(outs.push(piece)) =~= flatten_views(outs) + piece@);
                outs = outs.push(piece);
            }
            out.append(&mut piece);
            idx += 1;
        }
        proof {
            assert(self.flat_map_rel(
                out,
                |a: A, o: Vec<B>| call_ensures(f, (&a,), o),
            )) by {
                assert(outs.len() == self@.len() && (forall|i: int|
                    0 <= i < outs.len() ==> call_ensures(f, (&self@[i],), #[trigger] outs[i]))
                    && out@ == flatten_views(outs));
            }
        }
        out
    }
}

/// Entry point for the chaining operation of the FlatMap class.
#[derive(Clone, Copy, Default)]
pub struct FlatMap;

impl FlatMap {
    /// Chain `fa` through `f`, flattening one level; the witness argument
    /// selects the shape.
    pub fn flat_map<K: FlatMapTy, A, B, C: FlatMapInstance<A, B, Kind = K>, F: Fn(&A) -> C::Mapped>(
        _k: K,
        fa: C,
        f: F,
    ) -> (r: C::Mapped)
        requires
            forall|i: int| 0 <= i < fa.elems().len() ==> call_requires(f, (&fa.elems()[i],)),
        ensures
            fa.flat_map_rel(r, |a: A, out: C::Mapped| call_ensures(f, (&a,), out)),
    {
        fa.flat_map(f)
    }
}

/// The mathematical model of `flat_map` on the optional shape.
pub open spec fn spec_flat_map_option<A, B>(
    fa: Option<A>,
    g: spec_fn(A) -> Option<B>,
) -> Option<B> {
    match fa {
        Option::Some(a) => g(a),
        Option::None => Option::None,
    }
}

/// The mathematical model of `flat_map` on the result shape.
pub open spec fn spec_flat_map_result<A, B, E>(
    fa: Result<A, E>,
    g: spec_fn(A) -> Result<B, E>,
) -> Result<B, E> {
    match fa {
        Result::Ok(a) => g(a),
        Result::Err(e) => Result::Err(e),
    }
}

/// The mathematical model of `flat_map` on the sequence shape: per-element
/// answers concatenated in element order.
pub open spec fn spec_flat_map_seq<A, B>(s: Seq<A>, g: spec_fn(A) -> Seq<B>) -> Seq<B> {
    s.flat_map(g)
}

} // verus!

use vstd::seq_lib::*;

verus! {

/// When the chained function acts as the mathematical function `g`,
/// `flat_map` on optional values returns exactly the model's answer.
pub proof fn lemma_option_flat_map_models<A, B>(
    fa: Option<A>,
    r: Option<B>,
    rel: spec_fn(A, Option<B>) -> bool,
    g: spec_fn(A) -> Option<B>,
)
    requires
        fa.flat_map_rel(r, rel),
        forall|a: A, out: Option<B>| #[trigger] rel(a, out) ==> out == g(a),
    ensures
        r == spec_flat_map_option(fa, g),
{
}

/// When the chained function acts as the mathematical function `g`,
/// `flat_map` on results returns exactly the model's answer.
pub proof fn lemma_result_flat_map_models<A, B, E>(
    fa: Result<A, E>,
    r: Result<B, E>,
    rel: spec_fn(A, Result<B, E>) -> bool,
    g: spec_fn(A) -> Result<B, E>,
)
    requires
        fa.flat_map_rel(r, rel),
        forall|a: A, out: Result<B, E>| #[trigger] rel(a, out) ==> out == g(a),
    ensures
        r == spec_flat_map_result(fa, g),
{
}

/// When the chained function's answers have the views the mathematical
/// function `g` assigns, `flat_map` on vectors returns exactly the model's
/// answer on the views.
pub proof fn lemma_vec_flat_map_models<A, B>(
    fa: Vec<A>,
    r: Vec<B>,
    rel: spec_fn(A, Vec<B>) -> bool,
    g: spec_fn(A) -> Seq<B>,
)
    requires
        fa.flat_map_rel(r, rel),
        forall|a: A, out: Vec<B>| #[trigger] rel(a, out) ==> out@ == g(a),
    ensures
        r@ == spec_flat_map_seq(fa@, g),
{
    let outs = choose|outs: Seq<Vec<B>>|
        {
            &&& outs.len() == fa@.len()
            &&& (forall|i: int| 0 <= i < outs.len() ==> rel(fa@[i], #[trigger] outs[i]))
            &&& r@ == flatten_views(outs)
        };
    let vw = |v: Vec<B>| v@;
    assert(outs.map_values(vw) =~= fa@.map_values(g));
    assert(r@ == spec_flat_map_seq(fa@, g));
}

} // verus!
