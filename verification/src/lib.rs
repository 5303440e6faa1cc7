//! A library of algebraic typeclasses (Functor, Applicative, Monad,
//! Semigroup, Monoid, Foldable, Bifunctor, SemigroupK/MonoidK,
//! ApplicativeError, Alternative) with verified instances for the built-in
//! shapes: optional values, results, sequences and pairs, and, at the value
//! level, also strings, integers, hash maps and hash sets.
//!
//! Each operation carries a contract that pins down its behaviour per shape,
//! and the algebraic laws (identity, composition, associativity, homomorphism)
//! are stated and proved as proof functions next to the instances they govern.

pub mod classes;
pub mod kernel;
