//! Damage vectors over the thirteen fixed damage elements, and the scaling
//! transform that snaps a vector onto a sixteen-step grid proportional to
//! its total.
//!
//! A vector stores one non-negative magnitude per element, all over one
//! shared denominator, so every magnitude is an exact rational number.
//! Scaling a vector with total `t` replaces each magnitude `m` by
//! `round(16 * m / t) * (t / 16)`, rounding to the nearest integer with ties
//! away from zero; the zero vector is returned unchanged.

use vstd::arithmetic::div_mod::{
    lemma_div_is_ordered, lemma_div_pos_is_pos, lemma_fundamental_div_mod,
    lemma_fundamental_div_mod_converse,
};
use vstd::arithmetic::mul::lemma_mul_inequality;
use vstd::prelude::*;

use crate::rational::{Ratio, RatioModel};
use crate::sums::{
    count_positive, lemma_count_positive_le_len, lemma_elem_le_sum, lemma_sum_mul_pointwise,
    lemma_sum_nonneg, lemma_sum_take_le, lemma_sum_take_succ, sum_int,
};

verus! {

/// One of the thirteen fixed damage elements.
#[derive(Clone, Copy, PartialEq, Eq, Structural, Debug, Hash)]
pub enum DamageType {
    Impact,
    Puncture,
    Slash,
    Cold,
    Electricity,
    Heat,
    Toxin,
    Blast,
    Corrosive,
    Gas,
    Magnetic,
    Radiation,
    Viral,
}

/// The position of each element in a damage vector's magnitude sequence.
pub open spec fn index_spec(e: DamageType) -> int {
    match e {
        DamageType::Impact => 0,
        DamageType::Puncture => 1,
        DamageType::Slash => 2,
        DamageType::Cold => 3,
        DamageType::Electricity => 4,
        DamageType::Heat => 5,
        DamageType::Toxin => 6,
        DamageType::Blast => 7,
        DamageType::Corrosive => 8,
        DamageType::Gas => 9,
        DamageType::Magnetic => 10,
        DamageType::Radiation => 11,
        DamageType::Viral => 12,
    }
}

/// The position of each element in a damage vector's magnitude sequence.
pub fn index_of(e: DamageType) -> (i: usize)
    ensures
        i == index_spec(e),
        i < 13,
{
    match e {
        DamageType::Impact => 0,
        DamageType::Puncture => 1,
        DamageType::Slash => 2,
        DamageType::Cold => 3,
        DamageType::Electricity => 4,
        DamageType::Heat => 5,
        DamageType::Toxin => 6,
        DamageType::Blast => 7,
        DamageType::Corrosive => 8,
        DamageType::Gas => 9,
        DamageType::Magnetic => 10,
        DamageType::Radiation => 11,
        DamageType::Viral => 12,
    }
}

/// The nearest integer to `16 * m / t`, ties away from zero; meaningful for
/// `t >= 1` and `m >= 0`. This is how many grid steps of size `t / 16` the
/// magnitude `m` snaps to.
pub open spec fn round_units(m: int, t: int) -> int {
    (32 * m + t) / (2 * t)
}

/// Mathematical view of a damage vector: thirteen magnitude numerators over
/// one shared denominator. The magnitude of the element at position `i` is
/// the rational `mags[i] / den`.
#[verifier::ext_equal]
pub ghost struct DamageModel {
    pub mags: Seq<int>,
    pub den: int,
}

impl DamageModel {
    /// Thirteen non-negative magnitudes over a positive denominator, with a
    /// total that a machine word can hold.
    pub open spec fn valid(self) -> bool {
        &&& self.mags.len() == 13
        &&& self.den >= 1
        &&& forall|i: int| 0 <= i < 13 ==> self.mags[i] >= 0
        &&& sum_int(self.mags) <= u64::MAX
    }

    /// The vector's total magnitude numerator (over the same denominator).
    pub open spec fn total(self) -> int {
        sum_int(self.mags)
    }

    /// The vector's total, as a rational number.
    pub open spec fn total_ratio(self) -> RatioModel {
        RatioModel { num: self.total(), den: self.den }
    }

    /// How many grid steps each magnitude snaps to.
    pub open spec fn units(self) -> Seq<int> {
        Seq::new(self.mags.len(), |i: int| round_units(self.mags[i], self.total()))
    }

    /// The scaled vector: each magnitude becomes its number of grid steps
    /// times the step `total / 16`. Numerators are taken times the total and
    /// the denominator times 16. The zero vector is returned unchanged.
    pub open spec fn scaled(self) -> DamageModel {
        if self.total() == 0 {
            self
        } else {
            DamageModel {
                mags: Seq::new(
                    self.mags.len(),
                    |i: int| round_units(self.mags[i], self.total()) * self.total(),
                ),
                den: 16 * self.den,
            }
        }
    }

    /// Two vectors hold the same rational magnitudes, element by element.
    pub open spec fn same_value(self, other: DamageModel) -> bool {
        &&& self.mags.len() == other.mags.len()
        &&& forall|i: int|
            0 <= i < self.mags.len() ==> self.mags[i] * other.den == other.mags[i] * self.den
    }
}

/// A magnitude between zero and the total snaps to between zero and sixteen
/// grid steps.
pub proof fn lemma_round_units_bounds(m: int, t: int)
    requires
        0 <= m <= t,
        t >= 1,
    ensures
        0 <= round_units(m, t) <= 16,
{
    lemma_div_pos_is_pos(32 * m + t, 2 * t);
    lemma_div_is_ordered(32 * m + t, 33 * t, 2 * t);
    lemma_fundamental_div_mod_converse(33 * t, 2 * t, 16, t);
}

/// A zero magnitude snaps to zero grid steps.
pub proof fn lemma_round_units_zero(t: int)
    requires
        t >= 1,
    ensures
        round_units(0, t) == 0,
{
    lemma_fundamental_div_mod_converse(t, 2 * t, 0, t);
}

/// A full total snaps to exactly sixteen grid steps.
pub proof fn lemma_round_units_full(t: int)
    requires
        t >= 1,
    ensures
        round_units(t, t) == 16,
{
    lemma_fundamental_div_mod_converse(33 * t, 2 * t, 16, t);
}

/// The grid steps of a vector, summed, stay within half a step per nonzero
/// element of the sixteen steps that make up the total: with `k` nonzero
/// elements, `|2 * t * sum(units) - 32 * sum(mags)| <= k * t`.
pub proof fn lemma_units_sum_bounds(m: Seq<int>, u: Seq<int>, t: int)
    requires
        t >= 1,
        m.len() == u.len(),
        forall|i: int| 0 <= i < m.len() ==> m[i] >= 0,
        forall|i: int| 0 <= i < m.len() ==> u[i] == round_units(m[i], t),
    ensures
        32 * sum_int(m) - count_positive(m) * t <= 2 * t * sum_int(u) <= 32 * sum_int(m)
            + count_positive(m) * t,
        sum_int(u) >= 0,
    decreases m.len(),
{
    if m.len() == 0 {
        assert(2 * t * sum_int(u) == 0) by (nonlinear_arith)
            requires
                sum_int(u) == 0,
        ;
    } else {
        let md = m.drop_last();
        let ud = u.drop_last();
        lemma_units_sum_bounds(md, ud, t);
        let last_m = m.last();
        let last_u = u.last();
        if last_m == 0 {
            lemma_round_units_zero(t);
            assert(last_u == 0);
        } else {
            lemma_fundamental_div_mod(32 * last_m + t, 2 * t);
            assert(32 * last_m - t <= 2 * t * last_u <= 32 * last_m + t);
        }
        lemma_div_pos_is_pos(32 * last_m + t, 2 * t);
        assert(2 * t * sum_int(u) == 2 * t * sum_int(ud) + 2 * t * last_u) by (nonlinear_arith)
            requires
                sum_int(u) == sum_int(ud) + last_u,
        ;
        assert(count_positive(m) * t == count_positive(md) * t + (if last_m > 0 {
            t
        } else {
            0int
        })) by (nonlinear_arith)
            requires
                count_positive(m) == count_positive(md) + (if last_m > 0 {
                    1int
                } else {
                    0int
                }),
        ;
    }
}

/// The total of a scaled vector: it is the unit count times the original
/// total, stays within half a grid step per nonzero element of the original
/// total, and never exceeds 22 times the original total.
pub proof fn lemma_scaled_total(d: DamageModel)
    requires
        d.valid(),
        d.total() >= 1,
    ensures
        d.scaled().total() == sum_int(d.units()) * d.total(),
        sum_int(d.units()) >= 0,
        32 * d.total() - count_positive(d.mags) * d.total() <= 2 * d.scaled().total() <= 32
            * d.total() + count_positive(d.mags) * d.total(),
        d.scaled().total() <= 22 * d.total(),
{
    let t = d.total();
    let u = d.units();
    lemma_units_sum_bounds(d.mags, u, t);
    lemma_sum_mul_pointwise(u, d.scaled().mags, t);
    let us = sum_int(u);
    assert(2 * d.scaled().total() == 2 * t * us) by (nonlinear_arith)
        requires
            d.scaled().total() == us * t,
    ;
    lemma_count_positive_le_len(d.mags);
    lemma_mul_inequality(count_positive(d.mags), 13, t);
    assert(us <= 22) by (nonlinear_arith)
        requires
            2 * t * us <= 32 * t + 13 * t,
            t >= 1,
    ;
    lemma_mul_inequality(us, 22, t);
    assert(us * t <= 22 * t);
}

/// Scaling preserves validity whenever the arithmetic fits: the scaled
/// magnitudes are non-negative and their total still fits a machine word.
pub proof fn lemma_scaled_valid(d: DamageModel)
    requires
        d.valid(),
        33 * d.total() <= u64::MAX,
        16 * d.den <= u64::MAX,
    ensures
        d.scaled().valid(),
{
    if d.total() != 0 {
        let t = d.total();
        lemma_sum_nonneg(d.mags);
        lemma_scaled_total(d);
        assert forall|i: int| 0 <= i < 13 implies d.scaled().mags[i] >= 0 by {
            lemma_elem_le_sum(d.mags, i);
            lemma_round_units_bounds(d.mags[i], t);
            assert(round_units(d.mags[i], t) * t >= 0) by (nonlinear_arith)
                requires
                    round_units(d.mags[i], t) >= 0,
                    t >= 1,
            ;
        }
    }
}

/// A damage configuration: one magnitude numerator per element, all over the
/// shared denominator `den`. Unspecified fields default to zero magnitudes
/// over a denominator of one.
pub struct Damage {
    pub impact: u64,
    pub puncture: u64,
    pub slash: u64,
    pub cold: u64,
    pub electricity: u64,
    pub fire: u64,
    pub toxin: u64,
    pub blast: u64,
    pub corrosive: u64,
    pub gas: u64,
    pub magnetic: u64,
    pub radiation: u64,
    pub viral: u64,
    pub den: u64,
}

/// The magnitude numerators of a configuration, in element order.
pub open spec fn damage_mags(d: Damage) -> Seq<int> {
    seq![
        d.impact as int,
        d.puncture as int,
        d.slash as int,
        d.cold as int,
        d.electricity as int,
        d.fire as int,
        d.toxin as int,
        d.blast as int,
        d.corrosive as int,
        d.gas as int,
        d.magnetic as int,
        d.radiation as int,
        d.viral as int,
    ]
}

/// The vector a configuration denotes.
pub open spec fn damage_model(d: Damage) -> DamageModel {
    DamageModel { mags: damage_mags(d), den: d.den as int }
}

impl Default for Damage {
    /// The zero vector: every magnitude zero, over a denominator of one.
    fn default() -> (d: Self)
        ensures
            damage_model(d) == (DamageModel { mags: Seq::new(13, |i: int| 0int), den: 1int }),
            damage_model(d).valid(),
    {
        let d = Damage {
            impact: 0,
            puncture: 0,
            slash: 0,
            cold: 0,
            electricity: 0,
            fire: 0,
            toxin: 0,
            blast: 0,
            corrosive: 0,
            gas: 0,
            magnetic: 0,
            radiation: 0,
            viral: 0,
            den: 1,
        };
        proof {
            assert(damage_model(d).mags =~= Seq::new(13, |i: int| 0int));
            crate::sums::lemma_sum_all_zero(damage_mags(d));
        }
        d
    }
}

/// The value the latest pair in `ps` gives the element at position `i`, or
/// zero when no pair names that element.
pub open spec fn pairs_value(ps: Seq<(DamageType, u64)>, i: int) -> int
    decreases ps.len(),
{
    if ps.len() == 0 {
        0
    } else if index_spec(ps.last().0) == i {
        ps.last().1 as int
    } else {
        pairs_value(ps.drop_last(), i)
    }
}

/// The vector a list of element/magnitude pairs denotes: each element holds
/// the last magnitude given for it, over a denominator of one.
pub open spec fn pairs_model(ps: Seq<(DamageType, u64)>) -> DamageModel {
    DamageModel { mags: Seq::new(13, |i: int| pairs_value(ps, i)), den: 1 }
}

/// The vector `d` with the fraction `frac` of `d`'s own total added to the
/// magnitude of element `e`: numerators are rescaled onto the common
/// denominator `den * frac.den`, and the named element also gains
/// `frac.num * total`.
pub open spec fn bonus_model(d: DamageModel, e: DamageType, frac: RatioModel) -> DamageModel {
    DamageModel {
        mags: Seq::new(
            d.mags.len(),
            |i: int|
                d.mags[i] * frac.den + if i == index_spec(e) {
                    frac.num * sum_int(d.mags)
                } else {
                    0int
                },
        ),
        den: d.den * frac.den,
    }
}

/// A damage vector: thirteen magnitude numerators, in element order, over
/// one shared positive denominator.
pub struct DamageSet {
    nums: Vec<u64>,
    den: u64,
}

impl View for DamageSet {
    type V = DamageModel;

    closed spec fn view(&self) -> DamageModel {
        DamageModel {
            mags: self.nums@.map_values(|v: u64| v as int),
            den: self.den as int,
        }
    }
}

impl DamageSet {
    /// The stored vector denotes a valid damage vector.
    pub open spec fn wf(self) -> bool {
        self@.valid()
    }

    /// The zero vector: every magnitude zero, over a denominator of one.
    pub fn empty() -> (r: DamageSet)
        ensures
            r.wf(),
            r@ == (DamageModel { mags: Seq::new(13, |i: int| 0int), den: 1int }),
    {
        let mut nums: Vec<u64> = Vec::new();
        let mut i: usize = 0;
        while i < 13
            invariant
                i <= 13,
                nums@.len() == i,
                forall|j: int| 0 <= j < i ==> nums@[j] == 0u64,
            decreases 13 - i,
        {
            nums.push(0);
            i += 1;
        }
        let r = DamageSet { nums, den: 1 };
        proof {
            assert(r@.mags =~= Seq::new(13, |j: int| 0int));
            crate::sums::lemma_sum_all_zero(r@.mags);
            assert(r@ =~= (DamageModel { mags: Seq::new(13, |j: int| 0int), den: 1int }));
        }
        r
    }

    /// Builds the vector a configuration denotes. Refused when the
    /// denominator is zero or the total magnitude overflows a machine word.
    pub fn from_damage(d: &Damage) -> (r: Option<DamageSet>)
        ensures
            r is Some <==> d.den >= 1 && sum_int(damage_mags(*d)) <= u64::MAX,
            r is Some ==> r->0@ == damage_model(*d) && r->0.wf(),
    {
        let mut nums: Vec<u64> = Vec::new();
        nums.push(d.impact);
        nums.push(d.puncture);
        nums.push(d.slash);
        nums.push(d.cold);
        nums.push(d.electricity);
        nums.push(d.fire);
        nums.push(d.toxin);
        nums.push(d.blast);
        nums.push(d.corrosive);
        nums.push(d.gas);
        nums.push(d.magnetic);
        nums.push(d.radiation);
        nums.push(d.viral);
        proof {
            assert(nums@.map_values(|v: u64| v as int) =~= damage_mags(*d));
        }
        let total = sum_to_u128(&nums);
        if d.den >= 1 && total <= u64::MAX as u128 {
            let r = DamageSet { nums, den: d.den };
            proof {
                assert(r@ =~= damage_model(*d));
            }
            Some(r)
        } else {
            None
        }
    }

    /// Builds a vector from element/magnitude pairs over a denominator of
    /// one; a later pair for the same element replaces the earlier one, and
    /// unnamed elements are zero. Refused when the total magnitude overflows
    /// a machine word.
    pub fn from_pairs(pairs: &Vec<(DamageType, u64)>) -> (r: Option<DamageSet>)
        ensures
            r is Some <==> sum_int(pairs_model(pairs@).mags) <= u64::MAX,
            r is Some ==> r->0@ == pairs_model(pairs@) && r->0.wf(),
    {
        let mut base = DamageSet::empty();
        proof {
            assert(pairs@.take(0).len() == 0);
            assert forall|j: int| 0 <= j < 13 implies base.nums@[j] as int == pairs_value(
                pairs@.take(0),
                j,
            ) by {
                assert(base.nums@[j] as int == base@.mags[j]);
            }
        }
        let mut k: usize = 0;
        while k < pairs.len()
            invariant
                k <= pairs@.len(),
                base.nums@.len() == 13,
                base.den == 1,
                forall|j: int|
                    0 <= j < 13 ==> base.nums@[j] as int == pairs_value(pairs@.take(k as int), j),
            decreases pairs@.len() - k,
        {
            let (e, v) = pairs[k];
            let i = index_of(e);
            base.nums[i] = v;
            proof {
                assert(pairs@.take(k as int + 1).drop_last() =~= pairs@.take(k as int));
                assert(pairs@.take(k as int + 1).last() == pairs@[k as int]);
            }
            k += 1;
        }
        proof {
            assert(pairs@.take(pairs@.len() as int) =~= pairs@);
        }
        let total = sum_to_u128(&base.nums);
        proof {
            assert(base@.mags =~= pairs_model(pairs@).mags);
        }
        if total <= u64::MAX as u128 {
            proof {
                assert(base@ =~= pairs_model(pairs@));
            }
            Some(base)
        } else {
            None
        }
    }

    /// The magnitude stored for one element, as a rational number.
    pub fn magnitude(&self, e: DamageType) -> (r: Ratio)
        requires
            self.wf(),
        ensures
            r@.num == self@.mags[index_spec(e)],
            r@.den == self@.den,
            r.wf(),
    {
        let i = index_of(e);
        Ratio::from_num_den(self.nums[i], self.den)
    }

    /// The total magnitude numerator of the vector.
    fn total_num(&self) -> (t: u64)
        requires
            self.wf(),
        ensures
            t == self@.total(),
    {
        let mut acc: u64 = 0;
        let mut i: usize = 0;
        while i < 13
            invariant
                self.wf(),
                i <= 13,
                acc == sum_int(self@.mags.take(i as int)),
            decreases 13 - i,
        {
            proof {
                lemma_sum_take_succ(self@.mags, i as int);
                lemma_sum_take_le(self@.mags, i as int + 1);
                lemma_sum_nonneg(self@.mags.take(i as int));
            }
            acc = acc + self.nums[i];
            i += 1;
        }
        proof {
            assert(self@.mags.take(13) =~= self@.mags);
        }
        acc
    }

    /// The total damage of the vector, as a rational number: the sum of all
    /// thirteen magnitudes.
    pub fn total(&self) -> (r: Ratio)
        requires
            self.wf(),
        ensures
            r@ == self@.total_ratio(),
            r.wf(),
    {
        Ratio::from_num_den(self.total_num(), self.den)
    }

    /// The vector with the fraction `frac` of this vector's own total added
    /// to the magnitude of element `e`; every other magnitude is unchanged
    /// as a rational number.
    pub fn with_bonus(&self, e: DamageType, frac: &Ratio) -> (r: DamageSet)
        requires
            self.wf(),
            frac.wf(),
            self@.den * frac@.den <= u64::MAX,
            self@.total() * (frac@.den + frac@.num) <= u64::MAX,
        ensures
            r@ == bonus_model(self@, e, frac@),
            r.wf(),
    {
        let q = frac.den();
        let p = frac.num();
        let t = self.total_num();
        let idx = index_of(e);
        let ghost tq = self@.total() * (frac@.den + frac@.num);
        proof {
            assert(t as int * q as int <= tq && p as int * t as int <= tq && t as int * q as int
                + p as int * t as int == tq) by (nonlinear_arith)
                requires
                    tq == t as int * (q as int + p as int),
                    t as int >= 0,
                    q as int >= 1,
                    p as int >= 0,
            ;
        }
        let mut nums: Vec<u64> = Vec::new();
        let mut i: usize = 0;
        while i < 13
            invariant
                self.wf(),
                frac.wf(),
                t == self@.total(),
                q == frac@.den,
                p == frac@.num,
                idx == index_spec(e),
                tq == t as int * (q as int + p as int),
                tq <= u64::MAX,
                t as int * q as int <= tq,
                p as int * t as int <= tq,
                t as int * q as int + p as int * t as int == tq,
                i <= 13,
                nums@.len() == i,
                forall|j: int| 0 <= j < i ==> nums@[j] as int == bonus_model(self@, e, frac@).mags[j],
            decreases 13 - i,
        {
            let m = self.nums[i];
            proof {
                lemma_elem_le_sum(self@.mags, i as int);
                lemma_mul_inequality(m as int, t as int, q as int);
            }
            let mut v = m * q;
            if i == idx {
                v = v + p * t;
            }
            nums.push(v);
            i += 1;
        }
        let r = DamageSet { nums, den: self.den * q };
        proof {
            assert(self@.den * frac@.den >= 1) by (nonlinear_arith)
                requires
                    self@.den >= 1,
                    frac@.den >= 1,
            ;
            let scaled_mags = Seq::new(13nat, |j: int| self@.mags[j] * q as int);
            lemma_sum_mul_pointwise(self@.mags, scaled_mags, q as int);
            crate::sums::lemma_sum_update(
                scaled_mags,
                idx as int,
                scaled_mags[idx as int] + p as int * t as int,
            );
            assert(r@.mags =~= scaled_mags.update(
                idx as int,
                scaled_mags[idx as int] + p as int * t as int,
            ));
            assert(sum_int(r@.mags) == t as int * q as int + p as int * t as int)
                by (nonlinear_arith)
                requires
                    sum_int(r@.mags) == sum_int(scaled_mags) + p as int * t as int,
                    sum_int(scaled_mags) == t as int * q as int,
            ;
            assert(r@ =~= bonus_model(self@, e, frac@));
        }
        r
    }

    /// The scaled vector: each magnitude snapped onto the grid of sixteen
    /// steps that make up the vector's total. The zero vector is returned
    /// unchanged.
    pub fn scaled(&self) -> (r: DamageSet)
        requires
            self.wf(),
            33 * self@.total() <= u64::MAX,
            16 * self@.den <= u64::MAX,
        ensures
            r@ == self@.scaled(),
            r.wf(),
    {
        let t = self.total_num();
        if t == 0 {
            let mut nums: Vec<u64> = Vec::new();
            let mut i: usize = 0;
            while i < 13
                invariant
                    self.wf(),
                    i <= 13,
                    nums@.len() == i,
                    forall|j: int| 0 <= j < i ==> nums@[j] == self.nums@[j],
                decreases 13 - i,
            {
                nums.push(self.nums[i]);
                i += 1;
            }
            let r = DamageSet { nums, den: self.den };
            proof {
                assert(r@ =~= self@.scaled());
            }
            r
        } else {
            let mut nums: Vec<u64> = Vec::new();
            let mut i: usize = 0;
            while i < 13
                invariant
                    self.wf(),
                    t == self@.total(),
                    t >= 1,
                    33 * self@.total() <= u64::MAX,
                    i <= 13,
                    nums@.len() == i,
                    forall|j: int|
                        0 <= j < i ==> nums@[j] as int == round_units(self@.mags[j], t as int) * (
                        t as int),
                decreases 13 - i,
            {
                let m = self.nums[i];
                proof {
                    lemma_elem_le_sum(self@.mags, i as int);
                    lemma_round_units_bounds(m as int, t as int);
                }
                let n = (32 * m + t) / (2 * t);
                proof {
                    assert(n as int * t as int <= 16 * t as int) by (nonlinear_arith)
                        requires
                            n as int <= 16,
                            t as int >= 1,
                    ;
                }
                nums.push(n * t);
                i += 1;
            }
            let r = DamageSet { nums, den: 16 * self.den };
            proof {
                lemma_scaled_valid(self@);
                assert(r@ =~= self@.scaled());
            }
            r
        }
    }
}

/// The exact sum of at most thirteen machine words, in a wide word.
fn sum_to_u128(v: &Vec<u64>) -> (s: u128)
    requires
        v@.len() <= 13,
    ensures
        s == sum_int(v@.map_values(|x: u64| x as int)),
{
    let ghost mags = v@.map_values(|x: u64| x as int);
    let mut acc: u128 = 0;
    let mut i: usize = 0;
    while i < v.len()
        invariant
            v@.len() <= 13,
            i <= v@.len(),
            mags == v@.map_values(|x: u64| x as int),
            acc == sum_int(mags.take(i as int)),
            acc <= i as int * (u64::MAX as int),
        decreases v@.len() - i,
    {
        proof {
            lemma_sum_take_succ(mags, i as int);
            assert((i as int + 1) * (u64::MAX as int) == i as int * (u64::MAX as int) + (
            u64::MAX as int)) by (nonlinear_arith);
            lemma_mul_inequality(i as int, 13, u64::MAX as int);
        }
        acc = acc + (v[i] as u128);
        i += 1;
    }
    proof {
        assert(mags.take(v@.len() as int) =~= mags);
    }
    acc
}

impl Damage {
    /// The total damage of the configuration, as a rational number.
    pub fn total_damage(&self) -> (r: Ratio)
        requires
            damage_model(*self).valid(),
        ensures
            r@ == damage_model(*self).total_ratio(),
            r.wf(),
    {
        let set = DamageSet::from_damage(self).unwrap();
        set.total()
    }

    /// The scaled configuration: each magnitude snapped onto the grid of
    /// sixteen steps that make up the total. The zero vector is returned
    /// unchanged.
    pub fn scaled_damage(&self) -> (r: Damage)
        requires
            damage_model(*self).valid(),
            33 * damage_model(*self).total() <= u64::MAX,
            16 * damage_model(*self).den <= u64::MAX,
        ensures
            damage_model(r) == damage_model(*self).scaled(),
            damage_model(r).valid(),
    {
        let set = DamageSet::from_damage(self).unwrap();
        let s = set.scaled();
        let r = Damage {
            impact: s.nums[0],
            puncture: s.nums[1],
            slash: s.nums[2],
            cold: s.nums[3],
            electricity: s.nums[4],
            fire: s.nums[5],
            toxin: s.nums[6],
            blast: s.nums[7],
            corrosive: s.nums[8],
            gas: s.nums[9],
            magnetic: s.nums[10],
            radiation: s.nums[11],
            viral: s.nums[12],
            den: s.den,
        };
        proof {
            assert(damage_model(r) =~= s@);
        }
        r
    }
}

} // verus!
