//! Sources of random values.
use vstd::prelude::*;
use rand::Rng;

verus! {

#[verifier::external_type_specification]
#[verifier::external_body]
pub struct ExThreadRng(rand::rngs::ThreadRng);

#[verifier::external_type_specification]
#[verifier::external_body]
pub struct ExUniformError(rand::distr::uniform::Error);

/// Relies on `rand::distr::Uniform::new_inclusive`, which refuses a range
/// whose lower bound exceeds its upper bound.
#[verifier::external_body]
fn check_uniform_range(low: u8, high: u8) -> (r: Result<(), rand::distr::uniform::Error>)
    ensures
        r is Ok <==> low <= high,
{
    rand::distr::Uniform::new_inclusive(low, high).map(|_| ())
}

/// Relies on `rand::rngs::ThreadRng::default`, a handle on the thread-local generator.
#[verifier::external_body]
fn thread_rng() -> (r: rand::rngs::ThreadRng) {
    rand::rngs::ThreadRng::default()
}

/// Relies on `rand::Rng::random_range`: a uniform sample of the inclusive
/// range, which must not be empty.
#[verifier::external_body]
fn sample_inclusive(rng: &mut rand::rngs::ThreadRng, low: u8, high: u8) -> (r: u8)
    requires
        low <= high,
    ensures
        low <= r <= high,
{
    rng.random_range(low..=high)
}

/// A source of values of type `T`.
pub trait Random<T> {
    /// Whether this source can hand out `v`.
    spec fn yields(&self, v: T) -> bool;

    /// The next value.
    fn next(&mut self) -> (r: T)
        ensures
            old(self).yields(r),
            forall|v: T| #[trigger] final(self).yields(v) == old(self).yields(v),
    ;

    /// The next `n` values.
    fn take(&mut self, n: usize) -> (r: Vec<T>)
        ensures
            r@.len() == n,
            forall|i: int| 0 <= i < n ==> old(self).yields(#[trigger] r@[i]),
            forall|v: T| #[trigger] final(self).yields(v) == old(self).yields(v),
    ;
}

/// Errors of random number generation.
#[derive(Debug)]
pub enum RngError {
    /// The bounds of a distribution describe an empty range.
    InvalidDistribution(rand::distr::uniform::Error),
}

/// Errors of this library's random number generation.
#[derive(Debug)]
#[non_exhaustive]
pub enum DFRngError {
    /// An error of the random number generator.
    RngError(RngError),
}

/// The bounds of a non-empty inclusive range.
struct Bounds {
    low: u8,
    high: u8,
}

impl Bounds {
    #[verifier::type_invariant]
    spec fn non_empty(&self) -> bool {
        self.low <= self.high
    }
}

/// Values drawn uniformly from an inclusive range by the thread-local generator.
pub struct UniformThreadRandom {
    bounds: Bounds,
    rng: rand::rngs::ThreadRng,
}

impl UniformThreadRandom {
    /// The lower bound of the range.
    pub closed spec fn low_bound(&self) -> u8 {
        self.bounds.low
    }

    /// The upper bound of the range.
    pub closed spec fn high_bound(&self) -> u8 {
        self.bounds.high
    }

    /// A generator of values between `low` and `high` inclusive; fails when
    /// `low` exceeds `high`.
    pub fn new(low: u8, high: u8) -> (r: Result<UniformThreadRandom, DFRngError>)
        ensures
            r is Ok <==> low <= high,
            r matches Ok(g) ==> g.low_bound() == low && g.high_bound() == high,
    {
        match check_uniform_range(low, high) {
            Ok(()) => Ok(UniformThreadRandom { bounds: Bounds { low, high }, rng: thread_rng() }),
            Err(e) => Err(DFRngError::RngError(RngError::InvalidDistribution(e))),
        }
    }
}

impl Random<u8> for UniformThreadRandom {
    open spec fn yields(&self, v: u8) -> bool {
        self.low_bound() <= v <= self.high_bound()
    }

    fn next(&mut self) -> (r: u8) {
        proof {
            use_type_invariant(&self.bounds);
        }
        sample_inclusive(&mut self.rng, self.bounds.low, self.bounds.high)
    }

    fn take(&mut self, n: usize) -> (r: Vec<u8>) {
        let mut r: Vec<u8> = Vec::new();
        let mut i: usize = 0;
        while i < n
            invariant
                i <= n,
                r@.len() == i,
                forall|v: u8| #[trigger] self.yields(v) == old(self).yields(v),
                forall|j: int| 0 <= j < i ==> old(self).yields(#[trigger] r@[j]),
            decreases n - i,
        {
            let v = self.next();
            r.push(v);
            i = i + 1;
        }
        r
    }
}

/// A source that hands out copies of one value.
pub struct Repeat<T: Clone>(pub T);

impl<T: Clone> Random<T> for Repeat<T> {
    open spec fn yields(&self, v: T) -> bool {
        cloned(self.0, v)
    }

    fn next(&mut self) -> (r: T) {
        self.0.clone()
    }

    fn take(&mut self, n: usize) -> (r: Vec<T>) {
        let mut r: Vec<T> = Vec::new();
        let mut i: usize = 0;
        while i < n
            invariant
                i <= n,
                r@.len() == i,
                *self == *old(self),
                forall|j: int| 0 <= j < i ==> old(self).yields(#[trigger] r@[j]),
            decreases n - i,
        {
            r.push(self.0.clone());
            i = i + 1;
        }
        r
    }
}

} // verus!
