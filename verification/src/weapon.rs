//! Weapon profiles and the expected damage-per-second figure they yield.
//!
//! A profile composes a damage vector with multishot, crit chance, crit
//! multiplier, status chance and fire rate. Its dps is
//! `total(scaled(damage)) * (1 + crit_chance * (crit_multi - 1))
//!  * (1 + multishot) * fire_rate`, computed exactly over rationals; status
//! chance is carried but takes no part in the formula, which models direct
//! damage only.

use vstd::prelude::*;

use crate::damage::{bonus_model, DamageModel, DamageSet, DamageType};
use crate::rational::{Ratio, RatioModel};

verus! {

/// Why a weapon profile could not be built.
#[derive(Clone, Copy, PartialEq, Eq, Structural, Debug)]
pub enum WeaponError {
    /// The fire rate was zero; a weapon must fire to deal damage over time.
    FireRateNotPositive,
    /// The crit multiplier was below one, which would shrink critical hits.
    CritMultiplierBelowOne,
}

/// An additive elemental bonus: the given fraction of a profile's pre-bonus
/// total damage, added to the magnitude of one element.
pub struct Bonus {
    pub element: DamageType,
    pub fraction: Ratio,
}

/// Mathematical view of a weapon profile.
#[verifier::ext_equal]
pub ghost struct WeaponModel {
    pub damage: DamageModel,
    pub multishot: RatioModel,
    pub crit_chance: RatioModel,
    pub crit_multi: RatioModel,
    pub status_chance: RatioModel,
    pub fire_rate: RatioModel,
}

impl WeaponModel {
    /// All parts denote numbers, the crit multiplier is at least one, and
    /// the fire rate is positive.
    pub open spec fn valid(self) -> bool {
        &&& self.damage.valid()
        &&& self.multishot.valid()
        &&& self.crit_chance.valid()
        &&& self.crit_multi.valid()
        &&& self.status_chance.valid()
        &&& self.fire_rate.valid()
        &&& self.crit_multi.num >= self.crit_multi.den
        &&& self.fire_rate.num >= 1
    }

    /// The expected-value crit multiplier `1 + crit_chance * (crit_multi - 1)`
    /// as an exact fraction: a `crit_chance` share of hits deal `crit_multi`
    /// times the damage, the rest deal it once. The formula stays valid for
    /// crit chances above one (guaranteed multi-crits stack linearly).
    pub open spec fn crit_factor(self) -> RatioModel {
        RatioModel {
            num: self.crit_chance.den * self.crit_multi.den + self.crit_chance.num * (
            self.crit_multi.num - self.crit_multi.den),
            den: self.crit_chance.den * self.crit_multi.den,
        }
    }

    /// `1 + multishot` as an exact fraction: the average number of
    /// projectiles per trigger pull.
    pub open spec fn shot_factor(self) -> RatioModel {
        RatioModel {
            num: self.multishot.den + self.multishot.num,
            den: self.multishot.den,
        }
    }

    /// The exact expected damage per second:
    /// `total(scaled(damage)) * crit_factor * (1 + multishot) * fire_rate`.
    pub open spec fn dps(self) -> RatioModel {
        self.damage.scaled().total_ratio().times(self.crit_factor()).times(self.shot_factor())
            .times(self.fire_rate)
    }
}

/// A weapon profile: a damage vector plus rate-of-fire, crit and multishot
/// parameters. Built by [`Weapon::new`], which refuses a zero fire rate and
/// a crit multiplier below one, so every profile in existence is valid.
pub struct Weapon {
    damage: DamageSet,
    multishot: Ratio,
    crit_chance: Ratio,
    crit_multi: Ratio,
    status_chance: Ratio,
    fire_rate: Ratio,
}

impl View for Weapon {
    type V = WeaponModel;

    closed spec fn view(&self) -> WeaponModel {
        WeaponModel {
            damage: self.damage@,
            multishot: self.multishot@,
            crit_chance: self.crit_chance@,
            crit_multi: self.crit_multi@,
            status_chance: self.status_chance@,
            fire_rate: self.fire_rate@,
        }
    }
}

impl Default for Weapon {
    /// A profile that hits for nothing once a second: empty damage vector,
    /// no multishot, no crits (multiplier one), no status, fire rate one.
    fn default() -> (w: Self)
        ensures
            w.wf(),
            w@.damage == (DamageModel { mags: Seq::new(13, |i: int| 0int), den: 1int }),
            w@.multishot == (RatioModel { num: 0int, den: 1int }),
            w@.crit_chance == (RatioModel { num: 0int, den: 1int }),
            w@.crit_multi == (RatioModel { num: 1int, den: 1int }),
            w@.status_chance == (RatioModel { num: 0int, den: 1int }),
            w@.fire_rate == (RatioModel { num: 1int, den: 1int }),
    {
        Weapon {
            damage: DamageSet::empty(),
            multishot: Ratio::from_int(0),
            crit_chance: Ratio::from_int(0),
            crit_multi: Ratio::from_int(1),
            status_chance: Ratio::from_int(0),
            fire_rate: Ratio::from_int(1),
        }
    }
}

impl Weapon {
    /// The stored profile is valid.
    pub open spec fn wf(self) -> bool {
        self@.valid()
    }

    /// Builds a profile from its six fields. Construction fails rather than
    /// let an invalid range slip through: a zero fire rate is refused first,
    /// then a crit multiplier below one.
    pub fn new(
        damage: DamageSet,
        multishot: Ratio,
        crit_chance: Ratio,
        crit_multi: Ratio,
        status_chance: Ratio,
        fire_rate: Ratio,
    ) -> (r: Result<Weapon, WeaponError>)
        requires
            damage.wf(),
            multishot.wf(),
            crit_chance.wf(),
            crit_multi.wf(),
            status_chance.wf(),
            fire_rate.wf(),
        ensures
            r is Ok <==> fire_rate@.num >= 1 && crit_multi@.num >= crit_multi@.den,
            r is Ok ==> r->Ok_0@ == (WeaponModel {
                damage: damage@,
                multishot: multishot@,
                crit_chance: crit_chance@,
                crit_multi: crit_multi@,
                status_chance: status_chance@,
                fire_rate: fire_rate@,
            }) && r->Ok_0.wf(),
            fire_rate@.num == 0 ==> r == Err::<Weapon, WeaponError>(
                WeaponError::FireRateNotPositive,
            ),
            fire_rate@.num >= 1 && crit_multi@.num < crit_multi@.den ==> r == Err::<
                Weapon,
                WeaponError,
            >(WeaponError::CritMultiplierBelowOne),
    {
        if fire_rate.num() == 0 {
            Err(WeaponError::FireRateNotPositive)
        } else if crit_multi.num() < crit_multi.den() {
            Err(WeaponError::CritMultiplierBelowOne)
        } else {
            Ok(
                Weapon {
                    damage,
                    multishot,
                    crit_chance,
                    crit_multi,
                    status_chance,
                    fire_rate,
                },
            )
        }
    }

    /// The expected-value crit multiplier of this profile.
    fn crit_factor(&self) -> (r: Ratio)
        requires
            self.wf(),
            self@.crit_factor().num <= u64::MAX,
        ensures
            r@ == self@.crit_factor(),
            r.wf(),
    {
        let a = self.crit_chance.num();
        let b = self.crit_chance.den();
        let c = self.crit_multi.num();
        let d = self.crit_multi.den();
        proof {
            assert(b as int * d as int >= 1 && a as int * (c as int - d as int) >= 0)
                by (nonlinear_arith)
                requires
                    b as int >= 1,
                    d as int >= 1,
                    a as int >= 0,
                    c as int >= d as int,
            ;
        }
        Ratio::from_num_den(b * d + a * (c - d), b * d)
    }

    /// `1 + multishot` for this profile.
    fn shot_factor(&self) -> (r: Ratio)
        requires
            self.wf(),
            self@.shot_factor().num <= u64::MAX,
        ensures
            r@ == self@.shot_factor(),
            r.wf(),
    {
        Ratio::from_num_den(self.multishot.den() + self.multishot.num(), self.multishot.den())
    }

    /// The expected damage per second of this profile, exactly:
    /// `total(scaled(damage)) * crit_factor * (1 + multishot) * fire_rate`.
    /// Status chance takes no part: only direct damage is modelled.
    pub fn dps(&self) -> (r: Ratio)
        requires
            self.wf(),
            33 * self@.damage.total() <= u64::MAX,
            16 * self@.damage.den <= u64::MAX,
            self@.crit_factor().num <= u64::MAX,
            self@.shot_factor().num <= u64::MAX,
            self@.dps().num <= u64::MAX,
            self@.dps().den <= u64::MAX,
        ensures
            r@ == self@.dps(),
            r.wf(),
    {
        let st = self.damage.scaled().total();
        let cf = self.crit_factor();
        let sf = self.shot_factor();
        let ghost tn = st@.num;
        let ghost td = st@.den;
        let ghost kn = cf@.num;
        let ghost kd = cf@.den;
        let ghost sn = sf@.num;
        let ghost fd = sf@.den;
        let ghost gn = self@.fire_rate.num;
        let ghost gd = self@.fire_rate.den;
        proof {
            assert(tn * kn <= ((tn * kn) * sn) * gn && (tn * kn) * sn <= ((tn * kn) * sn) * gn
                && tn * kn >= 0 && (tn * kn) * sn >= 0) by (nonlinear_arith)
                requires
                    tn >= 0,
                    kn >= 0,
                    sn >= 1,
                    gn >= 1,
            ;
            assert(td * kd <= ((td * kd) * fd) * gd && (td * kd) * fd <= ((td * kd) * fd) * gd
                && td * kd >= 1 && (td * kd) * fd >= 1) by (nonlinear_arith)
                requires
                    td >= 1,
                    kd >= 1,
                    fd >= 1,
                    gd >= 1,
            ;
        }
        let x = st.mul(&cf);
        let y = x.mul(&sf);
        y.mul(&self.fire_rate)
    }

    /// The profile's damage vector.
    pub fn damage(&self) -> (d: &DamageSet)
        ensures
            d@ == self@.damage,
            self.wf() ==> d.wf(),
    {
        &self.damage
    }

    /// The profile's multishot count.
    pub fn multishot(&self) -> (r: Ratio)
        ensures
            r@ == self@.multishot,
    {
        self.multishot
    }

    /// The profile's crit chance.
    pub fn crit_chance(&self) -> (r: Ratio)
        ensures
            r@ == self@.crit_chance,
    {
        self.crit_chance
    }

    /// The profile's crit multiplier.
    pub fn crit_multi(&self) -> (r: Ratio)
        ensures
            r@ == self@.crit_multi,
    {
        self.crit_multi
    }

    /// The profile's status chance; carried in the profile, unused by dps.
    pub fn status_chance(&self) -> (r: Ratio)
        ensures
            r@ == self@.status_chance,
    {
        self.status_chance
    }

    /// The profile's fire rate.
    pub fn fire_rate(&self) -> (r: Ratio)
        ensures
            r@ == self@.fire_rate,
    {
        self.fire_rate
    }

    /// A profile identical to this one, except that the bonus fraction of
    /// this profile's pre-bonus total damage has been added to the bonus
    /// element's magnitude. The input profile is left untouched.
    pub fn apply_bonus(&self, bonus: &Bonus) -> (r: Weapon)
        requires
            self.wf(),
            bonus.fraction.wf(),
            self@.damage.den * bonus.fraction@.den <= u64::MAX,
            self@.damage.total() * (bonus.fraction@.den + bonus.fraction@.num) <= u64::MAX,
        ensures
            r.wf(),
            r@ == (WeaponModel {
                damage: bonus_model(self@.damage, bonus.element, bonus.fraction@),
                multishot: self@.multishot,
                crit_chance: self@.crit_chance,
                crit_multi: self@.crit_multi,
                status_chance: self@.status_chance,
                fire_rate: self@.fire_rate,
            }),
    {
        Weapon {
            damage: self.damage.with_bonus(bonus.element, &bonus.fraction),
            multishot: self.multishot,
            crit_chance: self.crit_chance,
            crit_multi: self.crit_multi,
            status_chance: self.status_chance,
            fire_rate: self.fire_rate,
        }
    }
}

} // verus!
