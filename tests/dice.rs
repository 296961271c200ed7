use darkforge::dice::{Dice, D, D20, D6};
use darkforge::rng::{Random, Repeat, UniformThreadRandom};
use darkforge::roll::{check_d6_pool, check_d6_roll, check_untrained_d6_roll, DiceRoll, Outcome};

#[test]
fn one_die_grades_by_its_face() {
    let cases = [
        (6u8, Outcome::Success(vec![6])),
        (5, Outcome::Partial(vec![5])),
        (4, Outcome::Partial(vec![4])),
        (3, Outcome::Failure(vec![3])),
        (2, Outcome::Failure(vec![2])),
        (1, Outcome::Failure(vec![1])),
    ];
    for (face, expect) in cases {
        assert_eq!(expect, D6::new(Repeat(face)).try_roll(1));
        assert_eq!(expect, check_d6_roll(face));
    }
}

#[test]
fn two_sixes_are_critical() {
    assert_eq!(Outcome::Critical(vec![6, 6]), D6::new(Repeat(6u8)).try_roll(2));
    assert_eq!(Outcome::Critical(vec![1, 2, 3, 4, 5, 6, 6]), check_d6_pool(vec![1, 2, 3, 4, 5, 6, 6]));
}

#[test]
fn pool_takes_the_highest_die() {
    assert_eq!(Outcome::Success(vec![1, 2, 3, 4, 5, 6]), check_d6_pool(vec![1, 2, 3, 4, 5, 6]));
    assert_eq!(Outcome::Partial(vec![1, 2, 3, 4, 5]), check_d6_pool(vec![1, 2, 3, 4, 5]));
    assert_eq!(Outcome::Partial(vec![1, 2, 3, 4]), check_d6_pool(vec![1, 2, 3, 4]));
    assert_eq!(Outcome::Failure(vec![1, 2, 3]), check_d6_pool(vec![1, 2, 3]));
    assert_eq!(Outcome::Failure(vec![1, 2]), check_d6_pool(vec![1, 2]));
    assert_eq!(Outcome::Failure(vec![1, 1]), check_d6_pool(vec![1, 1]));
    assert_eq!(Outcome::Failure(vec![]), check_d6_pool(vec![]));
}

#[test]
fn no_dice_takes_the_lower_of_two() {
    assert_eq!(Outcome::Failure(vec![1, 6]), check_untrained_d6_roll(vec![1, 6]));
    assert_eq!(Outcome::Partial(vec![4, 6]), check_untrained_d6_roll(vec![4, 6]));
    assert_eq!(Outcome::Success(vec![6, 6]), check_untrained_d6_roll(vec![6, 6]));
    assert_eq!(Outcome::Partial(vec![5, 5]), D6::new(Repeat(5u8)).try_roll(0));
}

#[test]
fn repeat_hands_out_copies() {
    let mut r = Repeat(42u8);
    assert_eq!(42, r.next());
    assert_eq!(vec![42, 42, 42], r.take(3));
    assert_eq!(Vec::<u8>::new(), r.take(0));
}

#[test]
fn uniform_generator_refuses_an_empty_range() {
    assert!(UniformThreadRandom::new(100, 1).is_err());
    assert!(UniformThreadRandom::new(1, 1).is_ok());
    assert!(D::<0, UniformThreadRandom>::uniform().is_err());
}

#[test]
fn uniform_dice_stay_on_their_faces() {
    let mut d20 = D20::<UniformThreadRandom>::uniform().expect("should have built a die");
    assert_eq!(20, d20.sides());
    let mut seen = [false; 21];
    for v in d20.roll_pool(2000) {
        assert!((1..=20).contains(&v));
        seen[v as usize] = true;
    }
    assert!(seen[1..].iter().all(|s| *s));
    let v = d20.roll();
    assert!((1..=20).contains(&v));
    let mut one = UniformThreadRandom::new(3, 3).expect("should have built a generator");
    assert_eq!(vec![3, 3, 3], one.take(3));
}

#[test]
fn uniform_d6_rolls_grade_consistently() {
    let mut d6 = D6::<UniformThreadRandom>::uniform().expect("should have built a die");
    for pool in 0..8usize {
        let outcome = d6.try_roll(pool);
        let dice = match &outcome {
            Outcome::Failure(d) | Outcome::Partial(d) | Outcome::Success(d) | Outcome::Critical(d) => d.clone(),
        };
        assert_eq!(if pool == 0 { 2 } else { pool }, dice.len());
        if pool == 0 {
            assert_eq!(outcome, check_untrained_d6_roll(dice));
        } else {
            assert_eq!(outcome, check_d6_pool(dice));
        }
    }
}
