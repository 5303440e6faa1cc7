//! The Bifunctor class: mapping two functions over the two slots of a
//! two-slot shape.

use vstd::prelude::*;

use crate::classes::{ResultKind, Tuple2Kind};

verus! {

/// A two-slot shape that supports mapping each slot independently.
pub trait BifunctorTy {}

impl BifunctorTy for Tuple2Kind {}

impl BifunctorTy for ResultKind {}

/// A two-slot container holding `T1` values in its first slot and `T2`
/// values in its second, supporting a map of each slot.
///
/// `bimap_rel` pins the operation down per shape: a pair maps both
/// components; a result maps the success value with the first function or
/// the error value with the second, the untouched slot passing through
/// structurally.
pub trait BifunctorInstance<T1, T2, B, C>: Sized {
    /// The witness of this container's shape.
    type Kind: BifunctorTy;

    /// The container with slots of `B` and `C`, of the identical shape.
    type BiMapped;

    /// The first-slot values, in positional order.
    spec fn firsts(self) -> Seq<T1>;

    /// The second-slot values, in positional order.
    spec fn seconds(self) -> Seq<T2>;

    /// `r` is this container with each first-slot value sent through `rel1`
    /// and each second-slot value sent through `rel2`.
    spec fn bimap_rel(
        self,
        r: Self::BiMapped,
        rel1: spec_fn(T1, B) -> bool,
        rel2: spec_fn(T2, C) -> bool,
    ) -> bool;

    /// Apply `f1` to the first slot and `f2` to the second slot.
    fn bimap<F1: Fn(&T1) -> B, F2: Fn(&T2) -> C>(self, f1: F1, f2: F2) -> (r: Self::BiMapped)
        requires
            forall|i: int| 0 <= i < self.firsts().len() ==> call_requires(f1, (&self.firsts()[i],)),
            forall|i: int|
                0 <= i < self.seconds().len() ==> call_requires(f2, (&self.seconds()[i],)),
        ensures
            self.bimap_rel(
                r,
                |a: T1, b: B| call_ensures(f1, (&a,), b),
                |x: T2, y: C| call_ensures(f2, (&x,), y),
            ),
    ;
}

impl<T1, T2, B, C> BifunctorInstance<T1, T2, B, C> for (T1, T2) {
    type Kind = Tuple2Kind;

    type BiMapped = (B, C);

    open spec fn firsts(self) -> Seq<T1> {
        seq![self.0]
    }

    open spec fn seconds(self) -> Seq<T2> {
        seq![self.1]
    }

    /// Both components are sent through their relations.
    open spec fn bimap_rel(
        self,
        r: (B, C),
        rel1: spec_fn(T1, B) -> bool,
        rel2: spec_fn(T2, C) -> bool,
    ) -> bool {
        rel1(self.0, r.0) && rel2(self.1, r.1)
    }

    fn bimap<F1: Fn(&T1) -> B, F2: Fn(&T2) -> C>(self, f1: F1, f2: F2) -> (r: (B, C)) {
        let (a, x) = self;
        proof {
            assert(BifunctorInstance::<T1, T2, B, C>::firsts((a, x))[0] == a);
            assert(BifunctorInstance::<T1, T2, B, C>::seconds((a, x))[0] == x);
        }
        (f1(&a), f2(&x))
    }
}

impl<T1, T2, B, C> BifunctorInstance<T1, T2, B, C> for Result<T1, T2> {
    type Kind = ResultKind;

    type BiMapped = Result<B, C>;

    open spec fn firsts(self) -> Seq<T1> {
        match self {
            Result::Ok(a) => seq![a],
            Result::Err(_) => Seq::empty(),
        }
    }

    open spec fn seconds(self) -> Seq<T2> {
        match self {
            Result::Ok(_) => Seq::empty(),
            Result::Err(e) => seq![e],
        }
    }

    /// A success value is sent through `rel1`; an error value through
    /// `rel2`; the tag is kept.
    open spec fn bimap_rel(
        self,
        r: Result<B, C>,
        rel1: spec_fn(T1, B) -> bool,
        rel2: spec_fn(T2, C) -> bool,
    ) -> bool {
        match self {
            Result::Ok(a) => r matches Ok(b) && rel1(a, b),
            Result::Err(e) => r matches Err(d) && rel2(e, d),
        }
    }

    fn bimap<F1: Fn(&T1) -> B, F2: Fn(&T2) -> C>(self, f1: F1, f2: F2) -> (r: Result<B, C>) {
        match self {
            Result::Ok(a) => {
                proof {
                    assert(BifunctorInstance::<T1, T2, B, C>::firsts(
                        Result::<T1, T2>::Ok(a),
                    )[0] == a);
                }
                Result::Ok(f1(&a))
            },
            Result::Err(e) => {
                proof {
                    assert(BifunctorInstance::<T1, T2, B, C>::seconds(
                        Result::<T1, T2>::Err(e),
                    )[0] == e);
                }
                Result::Err(f2(&e))
            },
        }
    }
}

/// Entry point for the two-slot mapping operation of the Bifunctor class.
#[derive(Clone, Copy)]
pub struct Bifunctor;

impl Bifunctor {
    /// Apply `f1` to the first slot of `fab` and `f2` to its second slot;
    /// the witness argument selects the shape.
    pub fn bimap<
        K: BifunctorTy,
        T1,
        T2,
        B,
        C,
        D: BifunctorInstance<T1, T2, B, C, Kind = K>,
        F1: Fn(&T1) -> B,
        F2: Fn(&T2) -> C,
    >(_k: K, fab: D, f1: F1, f2: F2) -> (r: D::BiMapped)
        requires
            forall|i: int| 0 <= i < fab.firsts().len() ==> call_requires(f1, (&fab.firsts()[i],)),
            forall|i: int| 0 <= i < fab.seconds().len() ==> call_requires(f2, (&fab.seconds()[i],)),
        ensures
            fab.bimap_rel(
                r,
                |a: T1, b: B| call_ensures(f1, (&a,), b),
                |x: T2, y: C| call_ensures(f2, (&x,), y),
            ),
    {
        fab.bimap(f1, f2)
    }
}

} // verus!
