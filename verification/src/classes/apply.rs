//! The Apply class: applying a container of functions to a container of
//! arguments, per the shape's combination policy.

use vstd::prelude::*;

use crate::classes::functor::{FunctorInstance, FunctorTy};
use crate::classes::{Elems, OptionKind, ResultKindOk, VecKind};

verus! {

/// A shape that supports applying a held function to held arguments, on top
/// of mapping.
pub trait ApplyTy: FunctorTy {}

impl ApplyTy for OptionKind {}

impl ApplyTy for VecKind {}

impl<E> ApplyTy for ResultKindOk<E> {}

/// A container of `A` values whose shape supports combining with a container
/// of functions `A -> B` of the same shape.
///
/// `apply_rel` pins the operation down per shape: optional values demand
/// both sides present; results short-circuit to a failure, the function
/// container's failure taking precedence when both fail; sequences form the
/// cartesian product, outer over arguments and inner over functions.
pub trait ApplyInstance<A, B, F>: FunctorInstance<A, B> {
    /// The same shape, holding the functions.
    type FnCons;

    /// The functions the function-container holds, in positional order.
    spec fn fn_elems(ff: Self::FnCons) -> Seq<F>;

    /// `r` combines this container with the function container `ff`: each
    /// produced value `b` comes from a held function `g` and a held argument
    /// `a` with `rel(g, a, b)`, per the shape's combination policy.
    spec fn apply_rel(
        self,
        ff: Self::FnCons,
        r: Self::Mapped,
        rel: spec_fn(F, A, B) -> bool,
    ) -> bool;

    /// Apply the held functions to the held arguments.
    fn apply(self, ff: Self::FnCons) -> (r: Self::Mapped) where F: Fn(&A) -> B
        requires
            forall|i: int, j: int|
                0 <= i < self.elems().len() && 0 <= j < <Self as ApplyInstance<A, B, F>>::fn_elems(ff).len()
                    ==> call_requires(<Self as ApplyInstance<A, B, F>>::fn_elems(ff)[j], (&self.elems()[i],)),
        ensures
            self.apply_rel(ff, r, |g: F, a: A, b: B| call_ensures(g, (&a,), b)),
    ;
}

impl<A, B, F> ApplyInstance<A, B, F> for Option<A> {
    type FnCons = Option<F>;

    open spec fn fn_elems(ff: Option<F>) -> Seq<F> {
        match ff {
            Option::Some(g) => seq![g],
            Option::None => Seq::empty(),
        }
    }

    /// Both sides present yields a value; absence on either side yields
    /// absence.
    open spec fn apply_rel(
        self,
        ff: Option<F>,
        r: Option<B>,
        rel: spec_fn(F, A, B) -> bool,
    ) -> bool {
        match (self, ff) {
            (Option::Some(a), Option::Some(g)) => r matches Some(b) && rel(g, a, b),
            _ => r is None,
        }
    }

    fn apply(self, ff: Option<F>) -> (r: Option<B>) where F: Fn(&A) -> B {
        match (self, ff) {
            (Option::Some(v), Option::Some(g)) => {
                assert(Elems::<A>::elems(Option::Some(v))[0] == v);
                assert(<Self as ApplyInstance<A, B, F>>::fn_elems(Option::Some(g))[0] == g);
                Option::Some(g(&v))
            },
            _ => Option::None,
        }
    }
}

impl<A, B, E, F> ApplyInstance<A, B, F> for Result<A, E> {
    type FnCons = Result<F, E>;

    open spec fn fn_elems(ff: Result<F, E>) -> Seq<F> {
        match ff {
            Result::Ok(g) => seq![g],
            Result::Err(_) => Seq::empty(),
        }
    }

    /// Both successes combine; otherwise the result short-circuits to a
    /// failure, the function container's failure winning when both fail.
    open spec fn apply_rel(
        self,
        ff: Result<F, E>,
        r: Result<B, E>,
        rel: spec_fn(F, A, B) -> bool,
    ) -> bool {
        match (self, ff) {
            (Result::Ok(a), Result::Ok(g)) => r matches Ok(b) && rel(g, a, b),
            (_, Result::Err(e)) => r == Result::<B, E>::Err(e),
            (Result::Err(e), Result::Ok(_)) => r == Result::<B, E>::Err(e),
        }
    }

    fn apply(self, ff: Result<F, E>) -> (r: Result<B, E>) where F: Fn(&A) -> B {
        match (self, ff) {
            (Result::Ok(v), Result::Ok(g)) => {
                assert(Elems::<A>::elems(Result::<A, E>::Ok(v))[0] == v);
                assert(<Self as ApplyInstance<A, B, F>>::fn_elems(Result::<F, E>::Ok(g))[0] == g);
                Result::Ok(g(&v))
            },
            (_, Result::Err(e)) => Result::Err(e),
            (Result::Err(e), _) => Result::Err(e),
        }
    }
}

/// A row-major index of a finished row stays below the start of the current
/// row.
proof fn lemma_row_major_bound(i2: int, j2: int, i: int, m: int)
    requires
        0 <= i2 < i,
        0 <= j2 < m,
    ensures
        0 <= i2 * m + j2 < i * m,
{
    assert(0 <= i2 * m + j2 < i * m) by (nonlinear_arith)
        requires
            0 <= i2 < i,
            0 <= j2 < m,
    ;
}

impl<A, B, F> ApplyInstance<A, B, F> for Vec<A> {
    type FnCons = Vec<F>;

    open spec fn fn_elems(ff: Vec<F>) -> Seq<F> {
        ff@
    }

    /// The cartesian product in row-major order: for `n` arguments and `m`
    /// functions, `n * m` results, the outer loop over arguments and the
    /// inner loop over functions.
    open spec fn apply_rel(self, ff: Vec<F>, r: Vec<B>, rel: spec_fn(F, A, B) -> bool) -> bool {
        &&& r@.len() == self@.len() * ff@.len()
        &&& forall|i: int, j: int|
            0 <= i < self@.len() && 0 <= j < ff@.len() ==> rel(
                ff@[j],
                self@[i],
                #[trigger] r@[i * ff@.len() + j],
            )
    }

    fn apply(self, ff: Vec<F>) -> (r: Vec<B>) where F: Fn(&A) -> B {
        let n = self.len();
        let m = ff.len();
        let mut out: Vec<B> = Vec::new();
        let mut i: usize = 0;
        while i < n
            invariant
                n == self@.len(),
                m == ff@.len(),
                i <= n,
                out@.len() == i * m,
                forall|i2: int, j2: int|
                    0 <= i2 < self.elems().len() && 0 <= j2 < <Self as ApplyInstance<A, B, F>>::fn_elems(ff).len()
                        ==> call_requires(<Self as ApplyInstance<A, B, F>>::fn_elems(ff)[j2], (&self.elems()[i2],)),
                forall|i2: int, j2: int|
                    0 <= i2 < i && 0 <= j2 < m ==> call_ensures(
                        ff@[j2],
                        (&self@[i2],),
                        #[trigger] out@[i2 * m + j2],
                    ),
            decreases n - i,
        {
            let mut j: usize = 0;
            while j < m
                invariant
                    n == self@.len(),
                    m == ff@.len(),
                    i < n,
                    j <= m,
                    out@.len() == i * m + j,
                    forall|i2: int, j2: int|
                        0 <= i2 < self.elems().len() && 0 <= j2 < <Self as ApplyInstance<A, B, F>>::fn_elems(ff).len()
                            ==> call_requires(<Self as ApplyInstance<A, B, F>>::fn_elems(ff)[j2], (&self.elems()[i2],)),
                    forall|i2: int, j2: int|
                        0 <= i2 < i && 0 <= j2 < m ==> call_ensures(
                            ff@[j2],
                            (&self@[i2],),
                            #[trigger] out@[i2 * m + j2],
                        ),
                    forall|j2: int|
                        0 <= j2 < j ==> call_ensures(
                            ff@[j2],
                            (&self@[i as int],),
                            #[trigger] out@[i * m + j2],
                        ),
                decreases m - j,
            {
                assert(Elems::<A>::elems(self)[i as int] == self@[i as int]);
                assert(<Self as ApplyInstance<A, B, F>>::fn_elems(ff)[j as int] == ff@[j as int]);
                out.push((&ff[j])(&self[i]));
                proof {
                    assert forall|i2: int, j2: int| 0 <= i2 < i && 0 <= j2 < m implies call_ensures(
                        ff@[j2],
                        (&self@[i2],),
                        #[trigger] out@[i2 * m + j2],
                    ) by {
                        lemma_row_major_bound(i2, j2, i as int, m as int);
                    }
                }
                j += 1;
            }
            proof {
                assert((i + 1) * m == i * m + m) by (nonlinear_arith);
                assert forall|i2: int, j2: int| 0 <= i2 < i + 1 && 0 <= j2 < m implies call_ensures(
                    ff@[j2],
                    (&self@[i2],),
                    #[trigger] out@[i2 * m + j2],
                ) by {
                    if i2 < i {
                    } else {
                        assert(i2 * m + j2 == i * m + j2);
                    }
                }
            }
            i += 1;
        }
        proof {
            assert forall|i2: int, j2: int|
                0 <= i2 < self@.len() && 0 <= j2 < ff@.len() implies call_ensures(
                ff@[j2],
                (&self@[i2],),
                #[trigger] out@[i2 * ff@.len() + j2],
            ) by {
            }
        }
        out
    }
}

/// Apply the function container `ff` to the argument container `fa`; the
/// witness argument selects the shape.
pub fn ap<K: ApplyTy, A, B, C: ApplyInstance<A, B, F, Kind = K>, F: Fn(&A) -> B>(
    _k: K,
    fa: C,
    ff: C::FnCons,
) -> (r: C::Mapped)
    requires
        forall|i: int, j: int|
            0 <= i < fa.elems().len() && 0 <= j < C::fn_elems(ff).len() ==> call_requires(
                C::fn_elems(ff)[j],
                (&fa.elems()[i],),
            ),
    ensures
        fa.apply_rel(ff, r, |g: F, a: A, b: B| call_ensures(g, (&a,), b)),
{
    fa.apply(ff)
}

} // verus!

use vstd::prelude::*;
use crate::classes::applicative::{spec_apply_option, spec_apply_result, spec_apply_seq};
use crate::classes::functor::{spec_fmap_option, spec_fmap_result, spec_fmap_seq};

verus! {

/// When each held function acts as the mathematical function `gf` assigns to
/// it, `apply` on optional values returns exactly the model's answer.
pub proof fn lemma_option_apply_models<A, B, F>(
    fa: Option<A>,
    ff: Option<F>,
    r: Option<B>,
    rel: spec_fn(F, A, B) -> bool,
    gf: spec_fn(F) -> spec_fn(A) -> B,
)
    requires
        fa.apply_rel(ff, r, rel),
        forall|g: F, a: A, b: B| #[trigger] rel(g, a, b) ==> b == gf(g)(a),
    ensures
        r == spec_apply_option(fa, spec_fmap_option(ff, gf)),
{
}

/// When each held function acts as the mathematical function `gf` assigns to
/// it, `apply` on results returns exactly the model's answer.
pub proof fn lemma_result_apply_models<A, B, E, F>(
    fa: Result<A, E>,
    ff: Result<F, E>,
    r: Result<B, E>,
    rel: spec_fn(F, A, B) -> bool,
    gf: spec_fn(F) -> spec_fn(A) -> B,
)
    requires
        fa.apply_rel(ff, r, rel),
        forall|g: F, a: A, b: B| #[trigger] rel(g, a, b) ==> b == gf(g)(a),
    ensures
        r == spec_apply_result(fa, spec_fmap_result(ff, gf)),
{
}

/// When each held function acts as the mathematical function `gf` assigns to
/// it, `apply` on vectors returns exactly the model's answer: the row-major
/// cartesian product on the views.
pub proof fn lemma_vec_apply_models<A, B, F>(
    fa: Vec<A>,
    ff: Vec<F>,
    r: Vec<B>,
    rel: spec_fn(F, A, B) -> bool,
    gf: spec_fn(F) -> spec_fn(A) -> B,
)
    requires
        fa.apply_rel(ff, r, rel),
        forall|g: F, a: A, b: B| #[trigger] rel(g, a, b) ==> b == gf(g)(a),
    ensures
        r@ == spec_apply_seq(fa@, spec_fmap_seq(ff@, gf)),
{
    let n = fa@.len() as int;
    let m = ff@.len() as int;
    let gs = spec_fmap_seq(ff@, gf);
    assert(gs.len() == m);
    assert forall|k: int| 0 <= k < n * m implies r@[k] == spec_apply_seq(fa@, gs)[k] by {
        assert(m > 0) by (nonlinear_arith)
            requires
                0 <= k < n * m,
                n >= 0,
                m >= 0,
        ;
        let i = k / m;
        let j = k % m;
        assert(0 <= j < m && 0 <= i < n && i * m + j == k) by (nonlinear_arith)
            requires
                0 <= k < n * m,
                m > 0,
                i == k / m,
                j == k % m,
        ;
        assert(rel(ff@[j], fa@[i], r@[i * m + j]));
        assert(r@[k] == gf(ff@[j])(fa@[i]));
        assert(gs[j] == gf(ff@[j]));
        assert(spec_apply_seq(fa@, gs)[k] == (gs[k % (gs.len() as int)])(
            fa@[k / (gs.len() as int)],
        ));
        assert(spec_apply_seq(fa@, gs)[k] == gf(ff@[j])(fa@[i]));
    }
    assert(r@ =~= spec_apply_seq(fa@, gs));
}

} // verus!
