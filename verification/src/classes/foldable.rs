//! The Foldable class: reducing a container to a summary value by folding
//! over its elements in forward or reverse positional order.

use vstd::prelude::*;

use crate::classes::{Elems, OptionKind, VecKind};
use crate::kernel::monoid::Monoid;
use crate::kernel::semigroup::Semigroup;

verus! {

/// A shape whose held values can be folded into a summary value.
pub trait FoldableTy {}

impl FoldableTy for VecKind {}

impl FoldableTy for OptionKind {}

/// `accs` records a left fold of `s`: it starts at `start`, ends at `r`, and
/// takes one `rel` step per element in index order.
pub open spec fn fold_left_trace<T, B>(
    s: Seq<T>,
    start: B,
    r: B,
    accs: Seq<B>,
    rel: spec_fn(B, T, B) -> bool,
) -> bool {
    &&& accs.len() == s.len() + 1
    &&& accs[0] == start
    &&& accs[s.len() as int] == r
    &&& forall|i: int| #![trigger accs[i]] 0 <= i < s.len() ==> rel(accs[i], s[i], accs[i + 1])
}

/// `r` results from folding `s` from the left, starting at `start`, one
/// `rel` step per element in index order.
pub open spec fn seq_fold_left_rel<T, B>(
    s: Seq<T>,
    start: B,
    r: B,
    rel: spec_fn(B, T, B) -> bool,
) -> bool {
    exists|accs: Seq<B>| #[trigger] fold_left_trace(s, start, r, accs, rel)
}

/// `accs` records a right fold of `s`: position `i` holds the value
/// accumulated from the elements at positions `i` and beyond, so the fold
/// starts at `start` past the end and ends at `r` in front.
pub open spec fn fold_right_trace<T, B>(
    s: Seq<T>,
    start: B,
    r: B,
    accs: Seq<B>,
    rel: spec_fn(T, B, B) -> bool,
) -> bool {
    &&& accs.len() == s.len() + 1
    &&& accs[s.len() as int] == start
    &&& accs[0] == r
    &&& forall|i: int| #![trigger accs[i]] 0 <= i < s.len() ==> rel(s[i], accs[i + 1], accs[i])
}

/// `r` results from folding `s` from the right, starting at `start`, one
/// `rel` step per element in reverse index order.
pub open spec fn seq_fold_right_rel<T, B>(
    s: Seq<T>,
    start: B,
    r: B,
    rel: spec_fn(T, B, B) -> bool,
) -> bool {
    exists|accs: Seq<B>| #[trigger] fold_right_trace(s, start, r, accs, rel)
}

/// The step relation of a left fold with `f`: one call of `f` on the
/// accumulator and an element.
pub open spec fn fold_left_step<T, B, F: Fn(B, &T) -> B>(f: F) -> spec_fn(B, T, B) -> bool {
    |x: B, t: T, y: B| call_ensures(f, (x, &t), y)
}

/// The step relation of a right fold with `f`: one call of `f` on an element
/// and the accumulator.
pub open spec fn fold_right_step<T, B, F: Fn(&T, B) -> B>(f: F) -> spec_fn(T, B, B) -> bool {
    |t: T, x: B, y: B| call_ensures(f, (&t, x), y)
}

/// A left fold under one step relation is a left fold under any weaker step
/// relation.
pub proof fn lemma_seq_fold_left_rel_mono<T, B>(
    s: Seq<T>,
    start: B,
    r: B,
    rel1: spec_fn(B, T, B) -> bool,
    rel2: spec_fn(B, T, B) -> bool,
)
    requires
        seq_fold_left_rel(s, start, r, rel1),
        forall|x: B, t: T, y: B| #[trigger] rel1(x, t, y) ==> rel2(x, t, y),
    ensures
        seq_fold_left_rel(s, start, r, rel2),
{
    let accs = choose|accs: Seq<B>| #[trigger] fold_left_trace(s, start, r, accs, rel1);
    assert(fold_left_trace(s, start, r, accs, rel2));
}

/// A container of `T` values whose shape supports folding, in either
/// direction: a `Vec` takes one fold step per element, an `Option` zero or
/// one.
pub trait FoldableInstance<T>: Elems<T> {
    /// The witness of this container's shape.
    type Kind: FoldableTy;

    /// Fold the held values from the left: `f(f(start, first), ...)`.
    fn fold_left<B, F: Fn(B, &T) -> B>(self, start: B, f: F) -> (r: B)
        requires
            forall|b: B, i: int|
                0 <= i < self.elems().len() && seq_fold_left_rel(
                    self.elems().take(i),
                    start,
                    b,
                    fold_left_step(f),
                ) ==> call_requires(f, (b, &self.elems()[i])),
        ensures
            seq_fold_left_rel(self.elems(), start, r, fold_left_step(f)),
    ;

    /// Fold the held values from the right: `f(first, ... f(last, start))`.
    fn fold_right<B, F: Fn(&T, B) -> B>(self, start: B, f: F) -> (r: B)
        requires
            forall|b: B, i: int|
                0 <= i < self.elems().len() && seq_fold_right_rel(
                    self.elems().skip(i + 1),
                    start,
                    b,
                    fold_right_step(f),
                ) ==> call_requires(f, (&self.elems()[i], b)),
        ensures
            seq_fold_right_rel(self.elems(), start, r, fold_right_step(f)),
    ;
}

impl<T> FoldableInstance<T> for Vec<T> {
    type Kind = VecKind;

    fn fold_left<B, F: Fn(B, &T) -> B>(self, start: B, f: F) -> (r: B) {
        let ghost rel = fold_left_step::<T, B, F>(f);
        let ghost mut accs: Seq<B> = seq![start];
        let mut acc = start;
        let mut idx: usize = 0;
        while idx < self.len()
            invariant
                idx <= self@.len(),
                accs.len() == idx + 1,
                accs[0] == start,
                accs[idx as int] == acc,
                rel == fold_left_step::<T, B, F>(f),
                forall|i: int| 0 <= i < idx ==> rel(accs[i], self@[i], #[trigger] accs[i + 1]),
                forall|b: B, i: int|
                    0 <= i < self.elems().len() && seq_fold_left_rel(
                        self.elems().take(i),
                        start,
                        b,
                        fold_left_step(f),
                    ) ==> call_requires(f, (b, &self.elems()[i])),
            decreases self@.len() - idx,
        {
            proof {
                assert(self.elems() == self@);
                assert(self.elems()[idx as int] == self@[idx as int]);
                assert(self@.take(idx as int).len() == idx);
                assert(fold_left_trace(self@.take(idx as int), start, acc, accs, rel)) by {
                    assert(forall|i: int|
                        0 <= i < idx ==> self@.take(idx as int)[i] == self@[i]);
                }
                assert(seq_fold_left_rel(self@.take(idx as int), start, acc, rel));
            }
            let ghost accp = acc;
            acc = f(acc, &self[idx]);
            proof {
                assert(rel(accp, self@[idx as int], acc));
                accs = accs.push(acc);
            }
            idx += 1;
        }
        proof {
            assert(fold_left_trace(self@, start, acc, accs, rel));
            assert(seq_fold_left_rel(self@, start, acc, rel));
            assert(self.elems() == self@);
        }
        acc
    }

    fn fold_right<B, F: Fn(&T, B) -> B>(self, start: B, f: F) -> (r: B) {
        let ghost rel = fold_right_step::<T, B, F>(f);
        let ghost mut accs: Seq<B> = seq![start];
        let mut acc = start;
        let mut idx: usize = self.len();
        while idx > 0
            invariant
                idx <= self@.len(),
                accs.len() == self@.len() - idx + 1,
                accs[accs.len() - 1] == start,
                accs[0] == acc,
                rel == fold_right_step::<T, B, F>(f),
                forall|i2: int|
                    0 <= i2 < accs.len() - 1 ==> rel(
                        self@[i2 + idx],
                        accs[i2 + 1],
                        #[trigger] accs[i2],
                    ),
                forall|b: B, i: int|
                    0 <= i < self.elems().len() && seq_fold_right_rel(
                        self.elems().skip(i + 1),
                        start,
                        b,
                        fold_right_step(f),
                    ) ==> call_requires(f, (&self.elems()[i], b)),
            decreases idx,
        {
            proof {
                assert(self.elems() == self@);
                assert(self.elems()[idx - 1] == self@[idx - 1]);
                assert(fold_right_trace(self@.skip(idx as int), start, acc, accs, rel)) by {
                    let sk = self@.skip(idx as int);
                    assert(forall|i2: int| 0 <= i2 < sk.len() ==> sk[i2] == self@[i2 + idx]);
                }
                assert(seq_fold_right_rel(self@.skip(idx as int), start, acc, rel));
            }
            let ghost accp = acc;
            acc = f(&self[idx - 1], acc);
            proof {
                assert(rel(self@[idx - 1], accp, acc));
                accs = seq![acc] + accs;
                assert(accs[0] == acc);
                assert(accs[accs.len() - 1] == start);
                assert(forall|i2: int|
                    1 <= i2 < accs.len() ==> accs[i2] == accs.drop_first()[i2 - 1]);
            }
            idx -= 1;
        }
        proof {
            assert(fold_right_trace(self@, start, acc, accs, rel));
            assert(seq_fold_right_rel(self@, start, acc, rel));
            assert(self.elems() == self@);
        }
        acc
    }
}

impl<T> FoldableInstance<T> for Option<T> {
    type Kind = OptionKind;

    fn fold_left<B, F: Fn(B, &T) -> B>(self, start: B, f: F) -> (r: B) {
        let ghost rel = fold_left_step::<T, B, F>(f);
        match self {
            Option::None => {
                proof {
                    let s = Elems::<T>::elems(Option::<T>::None);
                    assert(fold_left_trace(s, start, start, seq![start], rel));
                    assert(seq_fold_left_rel(s, start, start, rel));
                }
                start
            },
            Option::Some(a) => {
                proof {
                    let s = Elems::<T>::elems(Option::Some(a));
                    assert(s[0] == a);
                    assert(s.take(0) =~= Seq::<T>::empty());
                    assert(fold_left_trace(s.take(0), start, start, seq![start], rel));
                    assert(seq_fold_left_rel(s.take(0), start, start, rel));
                }
                let ghost start0 = start;
                let r = f(start, &a);
                proof {
                    let s = Elems::<T>::elems(Option::Some(a));
                    assert(rel(start0, a, r));
                    assert(fold_left_trace(s, start0, r, seq![start0, r], rel));
                    assert(seq_fold_left_rel(s, start0, r, rel));
                }
                r
            },
        }
    }

    fn fold_right<B, F: Fn(&T, B) -> B>(self, start: B, f: F) -> (r: B) {
        let ghost rel = fold_right_step::<T, B, F>(f);
        match self {
            Option::None => {
                proof {
                    let s = Elems::<T>::elems(Option::<T>::None);
                    assert(fold_right_trace(s, start, start, seq![start], rel));
                    assert(seq_fold_right_rel(s, start, start, rel));
                }
                start
            },
            Option::Some(a) => {
                proof {
                    let s = Elems::<T>::elems(Option::Some(a));
                    assert(s[0] == a);
                    assert(s.skip(1) =~= Seq::<T>::empty());
                    assert(fold_right_trace(s.skip(1), start, start, seq![start], rel));
                    assert(seq_fold_right_rel(s.skip(1), start, start, rel));
                }
                let ghost start0 = start;
                let r = f(&a, start);
                proof {
                    let s = Elems::<T>::elems(Option::Some(a));
                    assert(rel(a, start0, r));
                    assert(fold_right_trace(s, start0, r, seq![r, start0], rel));
                    assert(seq_fold_right_rel(s, start0, r, rel));
                }
                r
            },
        }
    }
}

/// Entry point for the reduction operations of the Foldable class.
#[derive(Clone, Copy, Default)]
pub struct Foldable;

impl Foldable {
    /// Fold `fa` from the left; the witness argument selects the shape.
    pub fn fold_left<K: FoldableTy, A, B, C: FoldableInstance<A, Kind = K>, F: Fn(B, &A) -> B>(
        _k: K,
        fa: C,
        start: B,
        f: F,
    ) -> (r: B)
        requires
            forall|b: B, i: int|
                0 <= i < fa.elems().len() && seq_fold_left_rel(
                    fa.elems().take(i),
                    start,
                    b,
                    fold_left_step(f),
                ) ==> call_requires(f, (b, &fa.elems()[i])),
        ensures
            seq_fold_left_rel(fa.elems(), start, r, fold_left_step(f)),
    {
        fa.fold_left(start, f)
    }

    /// Fold `fa` from the right; the witness argument selects the shape.
    pub fn fold_right<K: FoldableTy, A, B, C: FoldableInstance<A, Kind = K>, F: Fn(&A, B) -> B>(
        _k: K,
        fa: C,
        start: B,
        f: F,
    ) -> (r: B)
        requires
            forall|b: B, i: int|
                0 <= i < fa.elems().len() && seq_fold_right_rel(
                    fa.elems().skip(i + 1),
                    start,
                    b,
                    fold_right_step(f),
                ) ==> call_requires(f, (&fa.elems()[i], b)),
        ensures
            seq_fold_right_rel(fa.elems(), start, r, fold_right_step(f)),
    {
        fa.fold_right(start, f)
    }

    /// Fold `fa` with its element monoid: starting from the identity, each
    /// element is combined, on the left, with the accumulator.
    pub fn fold<K: FoldableTy, A: Monoid + Copy, C: FoldableInstance<A, Kind = K>>(
        _k: K,
        fa: C,
    ) -> (r: A)
        ensures
            exists|e: A|
                #[trigger] A::empty_ens(e) && seq_fold_left_rel(
                    fa.elems(),
                    e,
                    r,
                    |x: A, t: A, y: A| t.combine_ens(x, y),
                ),
    {
        let start = A::empty();
        let ghost e = start;
        let step = |acc: A, x: &A| -> (y: A)
            ensures
                (*x).combine_ens(acc, y),
            { (*x).combine(acc) };
        let r = fa.fold_left(start, step);
        proof {
            let rel1 = fold_left_step::<A, A, _>(step);
            let rel2 = |x: A, t: A, y: A| t.combine_ens(x, y);
            assert forall|x: A, t: A, y: A| #[trigger] rel1(x, t, y) implies rel2(x, t, y) by {
                assert(call_ensures(step, (x, &t), y));
            }
            lemma_seq_fold_left_rel_mono(fa.elems(), e, r, rel1, rel2);
        }
        r
    }
}

} // verus!
