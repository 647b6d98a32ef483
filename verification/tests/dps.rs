//! Tests for weapon profiles, dps and bonus application.

use damage_model::damage::{DamageSet, DamageType};
use damage_model::rational::Ratio;
use damage_model::weapon::{Bonus, Weapon, WeaponError};

fn rat(num: u64, den: u64) -> Ratio {
    Ratio::new(num, den).unwrap()
}

fn puncture_ten() -> DamageSet {
    let pairs = vec![(DamageType::Puncture, 10u64)];
    DamageSet::from_pairs(&pairs).unwrap()
}

#[test]
fn weapon_dps_calculations() {
    let weapon = Weapon::new(
        puncture_ten(),
        rat(0, 1),
        rat(15, 10),
        rat(2, 1),
        rat(0, 1),
        rat(1, 1),
    )
    .unwrap();

    assert!(weapon.dps().same_value(&rat(25, 1)));
}

#[test]
fn weapon_dps_apply_elemental_bonus() {
    let weapon = Weapon::new(
        puncture_ten(),
        rat(0, 1),
        rat(15, 10),
        rat(2, 1),
        rat(0, 1),
        rat(1, 1),
    )
    .unwrap()
    .apply_bonus(&Bonus { element: DamageType::Cold, fraction: rat(8, 10) });
    // 18.0 * 2.5
    assert!(weapon.dps().same_value(&rat(45, 1)));
}

#[test]
fn apply_bonus_adds_fraction_of_total() {
    let weapon = Weapon::new(
        puncture_ten(),
        rat(0, 1),
        rat(15, 10),
        rat(2, 1),
        rat(0, 1),
        rat(1, 1),
    )
    .unwrap();
    let boosted = weapon.apply_bonus(&Bonus { element: DamageType::Cold, fraction: rat(8, 10) });
    let damage = boosted.damage();
    assert!(damage.magnitude(DamageType::Puncture).same_value(&rat(10, 1)));
    assert!(damage.magnitude(DamageType::Cold).same_value(&rat(8, 1)));
    assert!(damage.magnitude(DamageType::Slash).same_value(&rat(0, 1)));
    assert!(damage.total().same_value(&rat(18, 1)));
}

#[test]
fn dps_without_amplification_is_scaled_total() {
    let pairs = vec![
        (DamageType::Slash, 40u64),
        (DamageType::Impact, 30u64),
        (DamageType::Puncture, 30u64),
    ];
    let damage = DamageSet::from_pairs(&pairs).unwrap();
    let weapon = Weapon::new(damage, rat(0, 1), rat(0, 1), rat(1, 1), rat(0, 1), rat(1, 1))
        .unwrap();
    // The scaled vector is {37.5, 31.25, 31.25}, whose total is 100.
    assert!(weapon.dps().same_value(&rat(100, 1)));
}

#[test]
fn dps_scales_linearly_with_fire_rate() {
    let slow = Weapon::new(
        puncture_ten(),
        rat(0, 1),
        rat(15, 10),
        rat(2, 1),
        rat(0, 1),
        rat(1, 1),
    )
    .unwrap();
    let fast = Weapon::new(
        puncture_ten(),
        rat(0, 1),
        rat(15, 10),
        rat(2, 1),
        rat(0, 1),
        rat(3, 1),
    )
    .unwrap();
    assert!(slow.dps().same_value(&rat(25, 1)));
    assert!(fast.dps().same_value(&rat(75, 1)));
}

#[test]
fn dps_scales_linearly_with_multishot() {
    let single = Weapon::new(
        puncture_ten(),
        rat(0, 1),
        rat(15, 10),
        rat(2, 1),
        rat(0, 1),
        rat(1, 1),
    )
    .unwrap();
    let double = Weapon::new(
        puncture_ten(),
        rat(1, 1),
        rat(15, 10),
        rat(2, 1),
        rat(0, 1),
        rat(1, 1),
    )
    .unwrap();
    assert!(single.dps().same_value(&rat(25, 1)));
    assert!(double.dps().same_value(&rat(50, 1)));
}

#[test]
fn default_weapon_deals_nothing() {
    let weapon = Weapon::default();
    assert!(weapon.dps().same_value(&rat(0, 1)));
}

#[test]
fn construction_rejects_zero_fire_rate() {
    let r = Weapon::new(
        puncture_ten(),
        rat(0, 1),
        rat(0, 1),
        rat(1, 1),
        rat(0, 1),
        rat(0, 5),
    );
    assert!(matches!(r, Err(WeaponError::FireRateNotPositive)));
}

#[test]
fn construction_rejects_crit_multiplier_below_one() {
    let r = Weapon::new(
        puncture_ten(),
        rat(0, 1),
        rat(0, 1),
        rat(1, 2),
        rat(0, 1),
        rat(1, 1),
    );
    assert!(matches!(r, Err(WeaponError::CritMultiplierBelowOne)));
}

#[test]
fn status_chance_takes_no_part_in_dps() {
    let none = Weapon::new(
        puncture_ten(),
        rat(0, 1),
        rat(15, 10),
        rat(2, 1),
        rat(0, 1),
        rat(1, 1),
    )
    .unwrap();
    let full = Weapon::new(
        puncture_ten(),
        rat(0, 1),
        rat(15, 10),
        rat(2, 1),
        rat(1, 1),
        rat(1, 1),
    )
    .unwrap();
    assert!(none.dps().same_value(&full.dps()));
}
