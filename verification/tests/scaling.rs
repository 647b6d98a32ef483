//! Tests for damage vectors and the scaling transform.

use damage_model::damage::{Damage, DamageSet, DamageType};
use damage_model::rational::Ratio;

fn rat(num: u64, den: u64) -> Ratio {
    Ratio::new(num, den).unwrap()
}

#[test]
fn lib_correct_damage_scaling_calculations() {
    let pairs = vec![
        (DamageType::Slash, 40u64),
        (DamageType::Impact, 30u64),
        (DamageType::Puncture, 30u64),
    ];
    let damage = DamageSet::from_pairs(&pairs).unwrap();

    let scaled_damage = damage.scaled();
    assert!(scaled_damage.magnitude(DamageType::Slash).same_value(&rat(75, 2)));
    assert!(scaled_damage.magnitude(DamageType::Impact).same_value(&rat(125, 4)));
    assert!(scaled_damage.magnitude(DamageType::Puncture).same_value(&rat(125, 4)));
}

#[test]
fn main_correct_damage_scaling_calculations() {
    let damage = Damage {
        slash: 40,
        impact: 30,
        puncture: 30,
        ..Default::default()
    };
    let scaled_damage = damage.scaled_damage();
    assert!(rat(scaled_damage.slash, scaled_damage.den).same_value(&rat(75, 2)));
    assert!(rat(scaled_damage.impact, scaled_damage.den).same_value(&rat(125, 4)));
    assert!(rat(scaled_damage.puncture, scaled_damage.den).same_value(&rat(125, 4)));
}

#[test]
fn scaled_zero_vector_unchanged() {
    let damage = DamageSet::empty();
    let scaled = damage.scaled();
    assert_eq!(scaled.total().num(), 0);
    assert_eq!(scaled.total().den(), 1);
    assert!(scaled.magnitude(DamageType::Viral).same_value(&rat(0, 1)));
}

#[test]
fn scaled_single_element_identity() {
    let pairs = vec![(DamageType::Puncture, 10u64)];
    let damage = DamageSet::from_pairs(&pairs).unwrap();
    let scaled = damage.scaled();
    assert!(scaled.magnitude(DamageType::Puncture).same_value(&rat(10, 1)));
    assert!(scaled.total().same_value(&rat(10, 1)));
}

#[test]
fn scaled_idempotent_when_total_preserved() {
    let pairs = vec![
        (DamageType::Slash, 40u64),
        (DamageType::Impact, 30u64),
        (DamageType::Puncture, 30u64),
    ];
    let damage = DamageSet::from_pairs(&pairs).unwrap();
    let once = damage.scaled();
    // This vector's rounded unit counts are 6 + 5 + 5 = 16, so the total is
    // preserved and a second scaling changes nothing.
    assert!(once.total().same_value(&rat(100, 1)));
    let twice = once.scaled();
    assert!(twice.magnitude(DamageType::Slash).same_value(&once.magnitude(DamageType::Slash)));
    assert!(twice.magnitude(DamageType::Impact).same_value(&once.magnitude(DamageType::Impact)));
    assert!(
        twice.magnitude(DamageType::Puncture).same_value(&once.magnitude(DamageType::Puncture))
    );
}

#[test]
fn scaled_total_within_tolerance_example() {
    // Three equal magnitudes of 1: each rounds down to 5 of 16 grid steps,
    // so the scaled total is 45/16 = 2.8125, within three half grid units
    // (the grid unit is 3/16) of the original total 3.
    let pairs = vec![
        (DamageType::Cold, 1u64),
        (DamageType::Heat, 1u64),
        (DamageType::Toxin, 1u64),
    ];
    let damage = DamageSet::from_pairs(&pairs).unwrap();
    let scaled = damage.scaled();
    assert!(scaled.total().same_value(&rat(45, 16)));
}

#[test]
fn scaling_twice_can_differ_when_total_moves() {
    // The same three-way split: the first scaling shrinks the total from 3
    // to 45/16, so the second scaling snaps to a different grid and the
    // magnitudes move again. Idempotence genuinely needs its hypothesis.
    let pairs = vec![
        (DamageType::Cold, 1u64),
        (DamageType::Heat, 1u64),
        (DamageType::Toxin, 1u64),
    ];
    let damage = DamageSet::from_pairs(&pairs).unwrap();
    let once = damage.scaled();
    let twice = once.scaled();
    assert!(once.magnitude(DamageType::Cold).same_value(&rat(15, 16)));
    assert!(twice.magnitude(DamageType::Cold).same_value(&rat(225, 256)));
    assert!(!twice.magnitude(DamageType::Cold).same_value(&once.magnitude(DamageType::Cold)));
}

#[test]
fn from_pairs_last_pair_wins() {
    let pairs = vec![(DamageType::Cold, 5u64), (DamageType::Cold, 7u64)];
    let damage = DamageSet::from_pairs(&pairs).unwrap();
    assert!(damage.magnitude(DamageType::Cold).same_value(&rat(7, 1)));
    assert!(damage.total().same_value(&rat(7, 1)));
}

#[test]
fn from_pairs_overflow_refused() {
    let pairs = vec![(DamageType::Cold, u64::MAX), (DamageType::Heat, 1u64)];
    assert!(DamageSet::from_pairs(&pairs).is_none());
}

#[test]
fn from_damage_zero_denominator_refused() {
    let config = Damage {
        den: 0,
        ..Default::default()
    };
    assert!(DamageSet::from_damage(&config).is_none());
}

#[test]
fn ratio_zero_denominator_refused() {
    assert!(Ratio::new(1, 0).is_none());
    assert!(Ratio::new(0, 0).is_none());
}

#[test]
fn fractional_magnitudes_scale_exactly() {
    // {slash: 20.0, impact: 15.0, puncture: 15.0} written over denominator 2
    // is half the reference vector and must scale to half its result.
    let config = Damage {
        slash: 40,
        impact: 30,
        puncture: 30,
        den: 2,
        ..Default::default()
    };
    let damage = DamageSet::from_damage(&config).unwrap();
    let scaled = damage.scaled();
    assert!(scaled.magnitude(DamageType::Slash).same_value(&rat(75, 4)));
    assert!(scaled.magnitude(DamageType::Impact).same_value(&rat(125, 8)));
    assert!(scaled.total().same_value(&rat(50, 1)));
}

#[test]
fn total_damage_sums_all_elements() {
    let config = Damage {
        slash: 40,
        impact: 30,
        puncture: 30,
        ..Default::default()
    };
    assert!(config.total_damage().same_value(&rat(100, 1)));
    let empty = Damage::default();
    assert!(empty.total_damage().same_value(&rat(0, 1)));
}
