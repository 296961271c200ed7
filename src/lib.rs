//! Persistence primitives for game entity data, and the dice mechanics built
//! on a pluggable source of random numbers.
//!
//! The data side defines a typed query model (`Param`, `Params`, `SqlQuery`),
//! its translation into an embedded engine's native values, and a 16-byte
//! identifier type. The dice side defines sources of random values, dice
//! rolled from them, and the grading of action rolls.
use vstd::prelude::*;

pub mod bytes;
pub mod descriptor;
pub mod dice;
pub mod param;
pub mod rng;
pub mod roll;
pub mod store;
pub mod uuid;
pub mod value;

verus! {

/// Entity identifier type.
pub type Entity = uuid::Uuid;

/// Marker for data components.
pub trait Component {}

} // verus!
