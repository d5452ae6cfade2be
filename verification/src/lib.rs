//! Arithmetic in a degree-twelve extension of a prime field, built as a
//! tower: a quadratic extension, a cubic one on it, a quadratic one on that.
//!
//! `tower` holds the mathematical model: the elements as tuples of residues
//! and the numbers that fix one tower. `alg_fp`, `alg_fp2`, `alg_fp6` and
//! `alg_fp12` define the operations on the model and prove the ring laws at
//! each level from those of the level below. `fp`, `fp2`, `fp6` and `fp12`
//! are the executable types; every function states what it returns over the
//! model. `laws`, `frobenius` and `field` state what holds of the tower as
//! a whole; `bits`, `codec`, `convert`, `order` and `random` carry elements
//! to and from bits, bytes, integers and each other. `params` is what an
//! instantiation supplies, `mersenne61` one instantiation.

pub mod tower;
pub mod params;
pub mod mersenne61;
pub mod alg_fp;
pub mod alg_fp2;
pub mod alg_fp6;
pub mod alg_fp12;
pub mod bits;
pub mod fp;
pub mod fp2;
pub mod fp6;
pub mod fp12;
pub mod laws;
pub mod frobenius;
pub mod field;
pub mod mersenne61_frobenius;
pub mod codec;
pub mod convert;
pub mod order;
pub mod random;
