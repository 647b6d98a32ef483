//! Sums over integer sequences, with the small facts about them that the
//! damage model needs: bounds on elements and prefixes, pointwise scaling,
//! and the effect of updating one entry.

use vstd::prelude::*;

verus! {

/// The sum of all elements of an integer sequence.
pub open spec fn sum_int(s: Seq<int>) -> int
    decreases s.len(),
{
    if s.len() == 0 {
        0
    } else {
        sum_int(s.drop_last()) + s.last()
    }
}

/// How many elements of the sequence are strictly positive.
pub open spec fn count_positive(s: Seq<int>) -> int
    decreases s.len(),
{
    if s.len() == 0 {
        0
    } else {
        count_positive(s.drop_last()) + if s.last() > 0 {
            1int
        } else {
            0int
        }
    }
}

/// A sum of non-negative elements is non-negative.
pub proof fn lemma_sum_nonneg(s: Seq<int>)
    requires
        forall|i: int| 0 <= i < s.len() ==> s[i] >= 0,
    ensures
        sum_int(s) >= 0,
    decreases s.len(),
{
    if s.len() > 0 {
        lemma_sum_nonneg(s.drop_last());
    }
}

/// Extending a prefix by one element adds that element to its sum.
pub proof fn lemma_sum_take_succ(s: Seq<int>, i: int)
    requires
        0 <= i < s.len(),
    ensures
        sum_int(s.take(i + 1)) == sum_int(s.take(i)) + s[i],
{
    assert(s.take(i + 1).drop_last() =~= s.take(i));
    assert(s.take(i + 1).last() == s[i]);
}

/// With non-negative elements, a prefix sums to no more than the whole.
pub proof fn lemma_sum_take_le(s: Seq<int>, i: int)
    requires
        forall|j: int| 0 <= j < s.len() ==> s[j] >= 0,
        0 <= i <= s.len(),
    ensures
        sum_int(s.take(i)) <= sum_int(s),
    decreases s.len(),
{
    if i == s.len() {
        assert(s.take(i) =~= s);
    } else {
        assert(s.take(i) =~= s.drop_last().take(i));
        lemma_sum_take_le(s.drop_last(), i);
    }
}

/// With non-negative elements, each element is at most the sum.
pub proof fn lemma_elem_le_sum(s: Seq<int>, i: int)
    requires
        forall|j: int| 0 <= j < s.len() ==> s[j] >= 0,
        0 <= i < s.len(),
    ensures
        s[i] <= sum_int(s),
{
    lemma_sum_take_succ(s, i);
    lemma_sum_nonneg(s.take(i));
    lemma_sum_take_le(s, i + 1);
}

/// Scaling every element by a common factor scales the sum by that factor.
pub proof fn lemma_sum_mul_pointwise(a: Seq<int>, b: Seq<int>, c: int)
    requires
        a.len() == b.len(),
        forall|i: int| 0 <= i < a.len() ==> b[i] == a[i] * c,
    ensures
        sum_int(b) == sum_int(a) * c,
    decreases a.len(),
{
    if a.len() == 0 {
        assert(sum_int(a) * c == 0) by (nonlinear_arith)
            requires
                sum_int(a) == 0,
        ;
    } else {
        lemma_sum_mul_pointwise(a.drop_last(), b.drop_last(), c);
        assert(sum_int(a.drop_last()) * c + a.last() * c == (sum_int(a.drop_last()) + a.last())
            * c) by (nonlinear_arith);
    }
}

/// Raising one entry raises the sum by the same amount.
pub proof fn lemma_sum_update(s: Seq<int>, j: int, v: int)
    requires
        0 <= j < s.len(),
    ensures
        sum_int(s.update(j, v)) == sum_int(s) - s[j] + v,
    decreases s.len(),
{
    if j == s.len() - 1 {
        assert(s.update(j, v).drop_last() =~= s.drop_last());
    } else {
        assert(s.update(j, v).drop_last() =~= s.drop_last().update(j, v));
        lemma_sum_update(s.drop_last(), j, v);
    }
}

/// In a sequence whose other elements are all zero, the sum is the one
/// remaining element.
pub proof fn lemma_sum_single(s: Seq<int>, j: int)
    requires
        0 <= j < s.len(),
        forall|i: int| 0 <= i < s.len() && i != j ==> s[i] == 0,
    ensures
        sum_int(s) == s[j],
    decreases s.len(),
{
    if j == s.len() - 1 {
        lemma_sum_all_zero(s.drop_last());
    } else {
        lemma_sum_single(s.drop_last(), j);
    }
}

/// The sum of an all-zero sequence is zero.
pub proof fn lemma_sum_all_zero(s: Seq<int>)
    requires
        forall|i: int| 0 <= i < s.len() ==> s[i] == 0,
    ensures
        sum_int(s) == 0,
    decreases s.len(),
{
    if s.len() > 0 {
        lemma_sum_all_zero(s.drop_last());
    }
}

/// No more elements are positive than there are elements.
pub proof fn lemma_count_positive_le_len(s: Seq<int>)
    ensures
        0 <= count_positive(s) <= s.len(),
    decreases s.len(),
{
    if s.len() > 0 {
        lemma_count_positive_le_len(s.drop_last());
    }
}

} // verus!
