//! Dice with a fixed number of sides, rolled from a pluggable source of random values.
use vstd::prelude::*;
use crate::rng::{DFRngError, Random, UniformThreadRandom};

verus! {

/// A die that can be rolled once or as a pool.
pub trait Dice {
    /// The number of sides.
    spec fn face_count(&self) -> u8;

    /// Whether a roll of this die can show `face`.
    spec fn can_show(&self, face: u8) -> bool;

    /// Rolls the die once.
    fn roll(&mut self) -> (r: u8)
        ensures
            old(self).can_show(r),
            final(self).face_count() == old(self).face_count(),
            forall|f: u8| #[trigger] final(self).can_show(f) == old(self).can_show(f),
    ;

    /// Rolls the die `pool` times.
    fn roll_pool(&mut self, pool: usize) -> (r: Vec<u8>)
        ensures
            r@.len() == pool,
            forall|i: int| 0 <= i < pool ==> old(self).can_show(#[trigger] r@[i]),
            final(self).face_count() == old(self).face_count(),
            forall|f: u8| #[trigger] final(self).can_show(f) == old(self).can_show(f),
    ;

    /// The number of sides.
    fn sides(&self) -> (r: u8)
        ensures
            r == self.face_count(),
    ;
}

/// A four-sided die.
pub type D4<R> = D<4, R>;

/// A six-sided die.
pub type D6<R> = D<6, R>;

/// An eight-sided die.
pub type D8<R> = D<8, R>;

/// A ten-sided die.
pub type D10<R> = D<10, R>;

/// A twelve-sided die.
pub type D12<R> = D<12, R>;

/// A twenty-sided die.
pub type D20<R> = D<20, R>;

/// A hundred-sided die.
pub type D100<R> = D<100, R>;

/// A die with `SIDES` sides whose rolls come from `R`.
pub struct D<const SIDES: u8, R: Random<u8>> {
    rng: R,
}

impl<const SIDES: u8, R: Random<u8>> D<SIDES, R> {
    /// The source of the die's rolls.
    pub closed spec fn source(&self) -> R {
        self.rng
    }

    /// A die rolled from `rng`.
    pub fn new(rng: R) -> (r: Self)
        ensures
            r.source() == rng,
    {
        D { rng }
    }
}

impl<const SIDES: u8> D<SIDES, UniformThreadRandom> {
    /// A die whose faces 1 to `SIDES` come up uniformly; fails for a die
    /// without sides.
    pub fn uniform() -> (r: Result<Self, DFRngError>)
        ensures
            r is Ok <==> 1 <= SIDES,
            r matches Ok(d) ==> forall|f: u8| #[trigger] d.can_show(f) <==> 1 <= f <= SIDES,
    {
        match UniformThreadRandom::new(1, SIDES) {
            Ok(rng) => Ok(D { rng }),
            Err(e) => Err(e),
        }
    }
}

impl<const SIDES: u8, R: Random<u8>> Dice for D<SIDES, R> {
    open spec fn face_count(&self) -> u8 {
        SIDES
    }

    open spec fn can_show(&self, face: u8) -> bool {
        self.source().yields(face)
    }

    fn roll(&mut self) -> (r: u8) {
        let rolls = self.roll_pool(1);
        rolls[0]
    }

    fn roll_pool(&mut self, pool: usize) -> (r: Vec<u8>) {
        self.rng.take(pool)
    }

    fn sides(&self) -> (r: u8) {
        SIDES
    }
}

} // verus!
