//! General laws of the damage model, each proved from the contracts of the
//! scaling transform and the dps calculator.

use vstd::arithmetic::div_mod::lemma_fundamental_div_mod_converse;
use vstd::prelude::*;

use crate::damage::{
    lemma_round_units_bounds, lemma_round_units_full, lemma_round_units_zero, lemma_scaled_total,
    round_units, DamageModel,
};
use crate::sums::{count_positive, lemma_elem_le_sum, lemma_sum_all_zero, lemma_sum_single};
use crate::weapon::WeaponModel;

verus! {

/// Scaling is stable: scaling a vector twice gives the same rational
/// magnitudes as scaling it once, for every vector with nonzero total whose
/// first scaling preserves the total. (When rounding changes the total, the
/// second scaling snaps to a different grid and the law does not apply.)
pub proof fn lemma_scaled_idempotent(d: DamageModel)
    requires
        d.valid(),
        d.total() > 0,
        d.scaled().total_ratio().same_value(d.total_ratio()),
    ensures
        d.scaled().scaled().same_value(d.scaled()),
{
    let t = d.total();
    let s = d.scaled();
    assert(s.total() == 16 * t) by (nonlinear_arith)
        requires
            s.total() * d.den == t * (16 * d.den),
            d.den >= 1,
    ;
    assert forall|i: int| 0 <= i < 13 implies s.scaled().mags[i] * s.den == s.mags[i]
        * s.scaled().den by {
        lemma_elem_le_sum(d.mags, i);
        lemma_round_units_bounds(d.mags[i], t);
        let n = round_units(d.mags[i], t);
        assert(32 * (n * t) + 16 * t == n * (32 * t) + 16 * t) by (nonlinear_arith);
        lemma_fundamental_div_mod_converse(32 * (n * t) + 16 * t, 32 * t, n, 16 * t);
        assert(round_units(s.mags[i], s.total()) == n);
        assert((n * (16 * t)) * (16 * d.den) == (n * t) * (16 * (16 * d.den)))
            by (nonlinear_arith);
    }
}

/// The total survives scaling up to rounding: with `k` nonzero elements, the
/// scaled total differs from the original by at most `k` half grid units,
/// well within the tolerance of one grid unit (`total / 16`) per nonzero
/// element. Totals are compared as numerators: the original total `t` over
/// denominator `den` equals `16 * t` over the scaled denominator `16 * den`,
/// and the scaled total numerator `2 * scaled_total` stays within `k * t` of
/// `2 * 16 * t`.
pub proof fn lemma_scaled_total_within_tolerance(d: DamageModel)
    requires
        d.valid(),
        d.total() > 0,
    ensures
        32 * d.total() - count_positive(d.mags) * d.total() <= 2 * d.scaled().total(),
        2 * d.scaled().total() <= 32 * d.total() + count_positive(d.mags) * d.total(),
{
    lemma_scaled_total(d);
}

/// Scaling the zero vector returns the zero vector unchanged: there is no
/// grid to snap to, and no division happens.
pub proof fn lemma_scaled_zero_vector(d: DamageModel)
    requires
        d.valid(),
        forall|i: int| 0 <= i < 13 ==> d.mags[i] == 0,
    ensures
        d.scaled() == d,
{
    lemma_sum_all_zero(d.mags);
}

/// A vector with a single nonzero element scales to itself as a rational
/// vector: the whole total sits in one element, which snaps to exactly
/// sixteen grid steps of `total / 16`.
pub proof fn lemma_scaled_single_element(d: DamageModel, j: int)
    requires
        d.valid(),
        0 <= j < 13,
        d.mags[j] >= 1,
        forall|i: int| 0 <= i < 13 && i != j ==> d.mags[i] == 0,
    ensures
        d.scaled().same_value(d),
{
    lemma_sum_single(d.mags, j);
    let t = d.total();
    assert forall|i: int| 0 <= i < 13 implies d.scaled().mags[i] * d.den == d.mags[i]
        * d.scaled().den by {
        assert(d.scaled().den == 16 * d.den);
        if i == j {
            assert(d.mags[j] == t);
            lemma_round_units_full(t);
            assert(d.scaled().mags[i] == 16 * t);
            assert((16 * t) * d.den == t * (16 * d.den)) by (nonlinear_arith);
        } else {
            assert(d.mags[i] == 0);
            lemma_round_units_zero(t);
            assert(d.scaled().mags[i] == 0 * t);
            assert(d.scaled().mags[i] * d.den == 0 && d.mags[i] * d.scaled().den == 0);
        }
    }
}

/// With no crits (chance zero, multiplier one), no multishot and unit fire
/// rate, dps is exactly the total of the scaled damage vector: nothing
/// amplifies the per-hit damage.
pub proof fn lemma_dps_no_amplification(w: WeaponModel)
    requires
        w.valid(),
        w.crit_chance.num == 0,
        w.crit_multi.num == w.crit_multi.den,
        w.multishot.num == 0,
        w.fire_rate.num == w.fire_rate.den,
    ensures
        w.dps().same_value(w.damage.scaled().total_ratio()),
{
    let tn = w.damage.scaled().total_ratio().num;
    let td = w.damage.scaled().total_ratio().den;
    let k = w.crit_chance.den * w.crit_multi.den;
    let f = w.multishot.den;
    let g = w.fire_rate.num;
    assert(w.crit_factor().num == k) by (nonlinear_arith)
        requires
            w.crit_chance.num == 0,
            w.crit_multi.num == w.crit_multi.den,
            k == w.crit_chance.den * w.crit_multi.den,
            w.crit_factor().num == k + w.crit_chance.num * (w.crit_multi.num - w.crit_multi.den),
    ;
    assert((((tn * k) * f) * g) * td == tn * (((td * k) * f) * g)) by (nonlinear_arith);
}

/// dps is linear in fire rate: for two profiles that differ only in fire
/// rate, `dps(w1) * fire_rate(w2)` and `dps(w2) * fire_rate(w1)` are the
/// same rational number.
pub proof fn lemma_dps_linear_in_fire_rate(w1: WeaponModel, w2: WeaponModel)
    requires
        w1.valid(),
        w2.valid(),
        w1.damage == w2.damage,
        w1.multishot == w2.multishot,
        w1.crit_chance == w2.crit_chance,
        w1.crit_multi == w2.crit_multi,
        w1.status_chance == w2.status_chance,
    ensures
        w1.dps().times(w2.fire_rate).same_value(w2.dps().times(w1.fire_rate)),
{
    let n = w1.damage.scaled().total_ratio().times(w1.crit_factor()).times(w1.shot_factor()).num;
    let d0 = w1.damage.scaled().total_ratio().times(w1.crit_factor()).times(w1.shot_factor()).den;
    let g1 = w1.fire_rate.num;
    let h1 = w1.fire_rate.den;
    let g2 = w2.fire_rate.num;
    let h2 = w2.fire_rate.den;
    assert(((n * g1) * g2) * ((d0 * h2) * h1) == ((n * g2) * g1) * ((d0 * h1) * h2))
        by (nonlinear_arith);
}

/// dps is linear in `1 + multishot`: for two profiles that differ only in
/// multishot, `dps(w1) * (1 + multishot(w2))` and `dps(w2) *
/// (1 + multishot(w1))` are the same rational number.
pub proof fn lemma_dps_linear_in_multishot(w1: WeaponModel, w2: WeaponModel)
    requires
        w1.valid(),
        w2.valid(),
        w1.damage == w2.damage,
        w1.crit_chance == w2.crit_chance,
        w1.crit_multi == w2.crit_multi,
        w1.status_chance == w2.status_chance,
        w1.fire_rate == w2.fire_rate,
    ensures
        w1.dps().times(w2.shot_factor()).same_value(w2.dps().times(w1.shot_factor())),
{
    let m = w1.damage.scaled().total_ratio().times(w1.crit_factor()).num;
    let d1 = w1.damage.scaled().total_ratio().times(w1.crit_factor()).den;
    let s1 = w1.shot_factor().num;
    let f1 = w1.shot_factor().den;
    let s2 = w2.shot_factor().num;
    let f2 = w2.shot_factor().den;
    let g = w1.fire_rate.num;
    let h = w1.fire_rate.den;
    assert(((((m * s1) * g) * s2) * (((d1 * f2) * h) * f1)) == ((((m * s2) * g) * s1) * (((d1
        * f1) * h) * f2))) by (nonlinear_arith);
}

} // verus!
