use vstd::prelude::*;

verus! {

/// Sum of a list of percentages, taken in full precision.
pub open spec fn pct_sum(s: Seq<u32>) -> int
    decreases s.len(),
{
    if s.len() == 0 {
        0
    } else {
        pct_sum(s.drop_last()) + s.last()
    }
}

/// The amount that a milestone of `pct` percent receives out of `total`:
/// the whole hundredths of `total`, times `pct`. The remainder of the
/// division (`total % 100`) goes to no milestone.
pub open spec fn amount_of(total: u128, pct: u32) -> int {
    (total / 100) as int * pct
}

/// A prefix of a list never sums to more than the whole list.
pub proof fn lemma_pct_sum_prefix(s: Seq<u32>, k: int)
    requires
        0 <= k <= s.len(),
    ensures
        pct_sum(s.subrange(0, k)) <= pct_sum(s),
    decreases s.len(),
{
    if k < s.len() {
        assert(s.drop_last() =~= s.subrange(0, s.len() - 1));
        assert(s.drop_last().subrange(0, k) =~= s.subrange(0, k));
        lemma_pct_sum_prefix(s.drop_last(), k);
    } else {
        assert(s.subrange(0, k) =~= s);
    }
}

/// A sum of percentages is never negative.
pub proof fn lemma_pct_sum_nonneg(s: Seq<u32>)
    ensures
        pct_sum(s) >= 0,
    decreases s.len(),
{
    if s.len() > 0 {
        lemma_pct_sum_nonneg(s.drop_last());
    }
}

/// Every entry of a list is at most its sum.
pub proof fn lemma_pct_entry_le_sum(s: Seq<u32>, i: int)
    requires
        0 <= i < s.len(),
    ensures
        s[i] <= pct_sum(s),
    decreases s.len(),
{
    if i < s.len() - 1 {
        lemma_pct_entry_le_sum(s.drop_last(), i);
    } else {
        lemma_pct_sum_nonneg(s.drop_last());
    }
}

/// `(total / 100) * percentage`, with floor division.
pub fn milestone_amount(total: u128, percentage: u32) -> (r: u128)
    requires
        percentage <= 100,
    ensures
        r == amount_of(total, percentage),
        r <= total,
{
    let q: u128 = total / 100;
    proof {
        assert(q * percentage <= q * 100) by (nonlinear_arith)
            requires
                percentage <= 100,
        ;
    }
    q * (percentage as u128)
}

/// Whether the percentages add up to exactly one hundred.
pub fn validate_percentages(percentages: &Vec<u32>) -> (r: bool)
    ensures
        r == (pct_sum(percentages@) == 100),
{
    let mut acc: u32 = 0;
    let mut i: usize = 0;
    while i < percentages.len()
        invariant
            0 <= i <= percentages@.len(),
            acc as int == pct_sum(percentages@.subrange(0, i as int)),
            acc <= 100,
        decreases percentages@.len() - i,
    {
        let p = percentages[i];
        assert(percentages@.subrange(0, i + 1).drop_last() =~= percentages@.subrange(0, i as int));
        if p > 100 - acc {
            proof {
                lemma_pct_sum_prefix(percentages@, i + 1);
            }
            return false;
        }
        acc = acc + p;
        i = i + 1;
    }
    assert(percentages@.subrange(0, i as int) =~= percentages@);
    acc == 100
}

/// Whether there is at least one milestone and exactly one description for
/// each.
pub fn validate_shape(percentages: &Vec<u32>, descriptions: &Vec<Vec<u8>>) -> (r: bool)
    ensures
        r == (percentages@.len() == descriptions@.len() && percentages@.len() >= 1),
{
    percentages.len() == descriptions.len() && percentages.len() >= 1
}

} // verus!
