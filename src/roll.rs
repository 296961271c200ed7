//! Action rolls with six-sided dice: the highest die of a pool decides the
//! result, two sixes make a critical, and a roll with no dice takes the lower
//! of two dice.
use vstd::prelude::*;
use crate::dice::{D, Dice};
use crate::rng::Random;

verus! {

/// The result of a roll, with the dice that were rolled.
#[derive(Clone, Debug, PartialEq, Eq, PartialOrd, Ord)]
pub enum Outcome {
    /// The best die shows 1 to 3.
    Failure(Vec<u8>),
    /// The best die shows 4 or 5.
    Partial(Vec<u8>),
    /// The best die shows 6.
    Success(Vec<u8>),
    /// Two or more dice show 6.
    Critical(Vec<u8>),
}

/// The kind of an outcome, without its dice.
pub enum Grade {
    /// See [`Outcome::Failure`].
    Failure,
    /// See [`Outcome::Partial`].
    Partial,
    /// See [`Outcome::Success`].
    Success,
    /// See [`Outcome::Critical`].
    Critical,
}

impl Outcome {
    /// The kind of this outcome.
    pub open spec fn grade(self) -> Grade {
        match self {
            Outcome::Failure(_) => Grade::Failure,
            Outcome::Partial(_) => Grade::Partial,
            Outcome::Success(_) => Grade::Success,
            Outcome::Critical(_) => Grade::Critical,
        }
    }

    /// The dice of this outcome.
    pub open spec fn dice(self) -> Seq<u8> {
        match self {
            Outcome::Failure(d) => d@,
            Outcome::Partial(d) => d@,
            Outcome::Success(d) => d@,
            Outcome::Critical(d) => d@,
        }
    }
}

/// Whether `v` is a face of a six-sided die.
pub open spec fn is_d6_face(v: u8) -> bool {
    1 <= v <= 6
}

/// The grade that a single die showing `v` gives.
pub open spec fn face_grade(v: u8) -> Grade {
    if v <= 3 {
        Grade::Failure
    } else if v <= 5 {
        Grade::Partial
    } else {
        Grade::Success
    }
}

/// The number of dice showing 6.
pub open spec fn sixes(s: Seq<u8>) -> nat
    decreases s.len(),
{
    if s.len() == 0 {
        0
    } else {
        sixes(s.drop_last()) + if s.last() == 6 { 1nat } else { 0nat }
    }
}

/// The highest die, or 1 for no dice.
pub open spec fn highest(s: Seq<u8>) -> u8
    decreases s.len(),
{
    if s.len() == 0 {
        1
    } else if s.last() > highest(s.drop_last()) {
        s.last()
    } else {
        highest(s.drop_last())
    }
}

/// The lowest die of a non-empty sequence.
pub open spec fn lowest(s: Seq<u8>) -> u8
    decreases s.len(),
{
    if s.len() <= 1 {
        s[0]
    } else if s.last() < lowest(s.drop_last()) {
        s.last()
    } else {
        lowest(s.drop_last())
    }
}

/// The grade of a pool: critical on two sixes or more, else the grade of
/// the highest die.
pub open spec fn pool_grade(s: Seq<u8>) -> Grade {
    if sixes(s) >= 2 {
        Grade::Critical
    } else {
        face_grade(highest(s))
    }
}

proof fn lemma_single_die(v: u8)
    requires
        is_d6_face(v),
    ensures
        pool_grade(seq![v]) == face_grade(v),
{
    let s = seq![v];
    assert(s.drop_last() =~= Seq::<u8>::empty());
    assert(sixes(Seq::<u8>::empty()) == 0);
    assert(highest(Seq::<u8>::empty()) == 1);
    assert(sixes(s) <= 1);
    assert(highest(s) == v);
}

/// A roll of six-sided dice.
pub trait DiceRoll: Dice {
    /// Rolls a pool of `pool` dice; with no dice, rolls two and keeps the lower.
    fn try_roll(&mut self, pool: usize) -> (r: Outcome)
        requires
            forall|f: u8| #[trigger] old(self).can_show(f) ==> is_d6_face(f),
        ensures
            r.dice().len() == if pool == 0 {
                2
            } else {
                pool
            },
            forall|i: int| 0 <= i < r.dice().len() ==> old(self).can_show(#[trigger] r.dice()[i]),
            r.grade() == if pool == 0 {
                face_grade(lowest(r.dice()))
            } else {
                pool_grade(r.dice())
            },
    ;
}

impl<R: Random<u8>> DiceRoll for D<6, R> {
    fn try_roll(&mut self, pool: usize) -> (r: Outcome) {
        if pool == 0 {
            let rolls = self.roll_pool(2);
            check_untrained_d6_roll(rolls)
        } else if pool == 1 {
            let v = self.roll();
            proof {
                lemma_single_die(v);
            }
            let r = check_d6_roll(v);
            assert(r.dice() =~= seq![v]);
            r
        } else {
            let rolls = self.roll_pool(pool);
            check_d6_pool(rolls)
        }
    }
}

/// Grades a roll with no dice: the lower of the dice decides.
pub fn check_untrained_d6_roll(rolls: Vec<u8>) -> (r: Outcome)
    requires
        rolls@.len() >= 1,
        forall|i: int| 0 <= i < rolls@.len() ==> is_d6_face(#[trigger] rolls@[i]),
    ensures
        r.grade() == face_grade(lowest(rolls@)),
        r.dice() == rolls@,
{
    let mut low: u8 = rolls[0];
    let mut i: usize = 1;
    while i < rolls.len()
        invariant
            1 <= i <= rolls@.len(),
            low == lowest(rolls@.take(i as int)),
            is_d6_face(low),
            forall|j: int| 0 <= j < rolls@.len() ==> is_d6_face(#[trigger] rolls@[j]),
        decreases rolls.len() - i,
    {
        assert(rolls@.take(i + 1).drop_last() =~= rolls@.take(i as int));
        if rolls[i] < low {
            low = rolls[i];
        }
        i = i + 1;
    }
    assert(rolls@.take(rolls@.len() as int) =~= rolls@);
    match check_d6_roll(low) {
        Outcome::Success(_) => Outcome::Success(rolls),
        Outcome::Partial(_) => Outcome::Partial(rolls),
        _ => Outcome::Failure(rolls),
    }
}

/// Grades a single die.
pub fn check_d6_roll(roll: u8) -> (r: Outcome)
    requires
        is_d6_face(roll),
    ensures
        r.grade() == face_grade(roll),
        r.dice() == seq![roll],
{
    let r = if roll <= 3 {
        Outcome::Failure(vec![roll])
    } else if roll <= 5 {
        Outcome::Partial(vec![roll])
    } else {
        Outcome::Success(vec![roll])
    };
    assert(r.dice() =~= seq![roll]);
    r
}

/// Grades a pool of dice: critical on two sixes or more, else the highest
/// die decides; an empty pool fails.
pub fn check_d6_pool(rolls: Vec<u8>) -> (r: Outcome)
    requires
        forall|i: int| 0 <= i < rolls@.len() ==> is_d6_face(#[trigger] rolls@[i]),
    ensures
        r.grade() == pool_grade(rolls@),
        r.dice() == rolls@,
{
    let mut top: u8 = 1;
    let mut six_count: usize = 0;
    let mut i: usize = 0;
    while i < rolls.len()
        invariant
            i <= rolls@.len(),
            top == highest(rolls@.take(i as int)),
            six_count == sixes(rolls@.take(i as int)),
            six_count <= i,
            is_d6_face(top),
            forall|j: int| 0 <= j < rolls@.len() ==> is_d6_face(#[trigger] rolls@[j]),
        decreases rolls.len() - i,
    {
        assert(rolls@.take(i + 1).drop_last() =~= rolls@.take(i as int));
        if rolls[i] > top {
            top = rolls[i];
        }
        if rolls[i] == 6 {
            six_count = six_count + 1;
        }
        i = i + 1;
    }
    assert(rolls@.take(rolls@.len() as int) =~= rolls@);
    if six_count >= 2 {
        Outcome::Critical(rolls)
    } else if top <= 3 {
        Outcome::Failure(rolls)
    } else if top <= 5 {
        Outcome::Partial(rolls)
    } else {
        Outcome::Success(rolls)
    }
}

} // verus!
