//! Exact non-negative rational numbers: the scalar type of the damage model.

use vstd::prelude::*;

verus! {

/// Mathematical view of a [`Ratio`]: the exact fraction `num / den`.
#[verifier::ext_equal]
pub ghost struct RatioModel {
    pub num: int,
    pub den: int,
}

impl RatioModel {
    /// A non-negative numerator over a positive denominator.
    pub open spec fn valid(self) -> bool {
        self.den >= 1 && self.num >= 0
    }

    /// Two fractions denote the same rational number (cross multiplication).
    pub open spec fn same_value(self, other: RatioModel) -> bool {
        self.num * other.den == other.num * self.den
    }

    /// The exact product of two fractions.
    pub open spec fn times(self, other: RatioModel) -> RatioModel {
        RatioModel { num: self.num * other.num, den: self.den * other.den }
    }
}

/// An exact non-negative rational number, stored as `num / den` with `den >= 1`.
#[derive(Clone, Copy)]
pub struct Ratio {
    num: u64,
    den: u64,
}

impl View for Ratio {
    type V = RatioModel;

    closed spec fn view(&self) -> RatioModel {
        RatioModel { num: self.num as int, den: self.den as int }
    }
}

impl Ratio {
    /// The denominator is positive, so the stored pair denotes a number.
    pub open spec fn wf(self) -> bool {
        self@.valid()
    }

    /// Builds `num / den`; a zero denominator denotes no number and is refused.
    pub fn new(num: u64, den: u64) -> (r: Option<Ratio>)
        ensures
            r is Some <==> den >= 1,
            r is Some ==> r->0@ == (RatioModel { num: num as int, den: den as int }),
            r is Some ==> r->0.wf(),
    {
        if den >= 1 {
            Some(Ratio { num, den })
        } else {
            None
        }
    }

    /// Builds `num / den` from parts already known to form a fraction.
    pub fn from_num_den(num: u64, den: u64) -> (r: Ratio)
        requires
            den >= 1,
        ensures
            r@ == (RatioModel { num: num as int, den: den as int }),
            r.wf(),
    {
        Ratio { num, den }
    }

    /// The whole number `n`, as the fraction `n / 1`.
    pub fn from_int(n: u64) -> (r: Ratio)
        ensures
            r@ == (RatioModel { num: n as int, den: 1int }),
            r.wf(),
    {
        Ratio { num: n, den: 1 }
    }

    /// The numerator of the stored fraction.
    pub fn num(&self) -> (n: u64)
        ensures
            n == self@.num,
    {
        self.num
    }

    /// The denominator of the stored fraction.
    pub fn den(&self) -> (d: u64)
        ensures
            d == self@.den,
    {
        self.den
    }

    /// Whether the two fractions denote the same rational number.
    pub fn same_value(&self, other: &Ratio) -> (r: bool)
        ensures
            r == self@.same_value(other@),
    {
        proof {
            vstd::arithmetic::mul::lemma_mul_upper_bound(
                self.num as int,
                u64::MAX as int,
                other.den as int,
                u64::MAX as int,
            );
            vstd::arithmetic::mul::lemma_mul_upper_bound(
                other.num as int,
                u64::MAX as int,
                self.den as int,
                u64::MAX as int,
            );
        }
        (self.num as u128) * (other.den as u128) == (other.num as u128) * (self.den as u128)
    }

    /// The exact product of two fractions.
    pub fn mul(&self, other: &Ratio) -> (r: Ratio)
        requires
            self@.num * other@.num <= u64::MAX,
            self@.den * other@.den <= u64::MAX,
        ensures
            r@ == self@.times(other@),
            self.wf() && other.wf() ==> r.wf(),
    {
        proof {
            assert((self@.den >= 1 && other@.den >= 1 ==> self@.den * other@.den >= 1) && (
            self@.num >= 0 && other@.num >= 0 ==> self@.num * other@.num >= 0))
                by (nonlinear_arith);
        }
        Ratio { num: self.num * other.num, den: self.den * other.den }
    }
}

} // verus!
