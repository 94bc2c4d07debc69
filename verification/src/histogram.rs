//! Counting samples into histogram bins.
//!
//! The caller maps each sample to a raw bin index (the floor of its offset
//! from the lowest sample over the bin width); indices outside the bins are
//! clamped onto the first or last bin, so that every sample is counted once.

use vstd::prelude::*;

verus! {

/// The bin that a raw index falls into among `num_bins` bins.
pub open spec fn spec_clamp_bin(raw: int, num_bins: nat) -> nat {
    if raw < 0 {
        0
    } else if raw >= num_bins {
        (num_bins - 1) as nat
    } else {
        raw as nat
    }
}

/// How many of the raw indices fall into bin `bin`.
pub open spec fn bin_count(raw: Seq<isize>, num_bins: nat, bin: nat) -> nat
    decreases raw.len(),
{
    if raw.len() == 0 {
        0
    } else {
        bin_count(raw.drop_last(), num_bins, bin) + if spec_clamp_bin(
            raw.last() as int,
            num_bins,
        ) == bin {
            1nat
        } else {
            0nat
        }
    }
}

/// The sum of the counts.
pub open spec fn sum_of(counts: Seq<usize>) -> nat
    decreases counts.len(),
{
    if counts.len() == 0 {
        0
    } else {
        sum_of(counts.drop_last()) + counts.last() as nat
    }
}

/// The number of raw indices that fall into one of the bins `0..k`.
pub open spec fn count_below(raw: Seq<isize>, num_bins: nat, k: nat) -> nat
    decreases k,
{
    if k == 0 {
        0
    } else {
        count_below(raw, num_bins, (k - 1) as nat) + bin_count(raw, num_bins, (k - 1) as nat)
    }
}

/// The bin of a raw index: negative indices go to the first bin, indices past
/// the last bin to the last one.
pub fn clamp_bin(raw: isize, num_bins: usize) -> (bin: usize)
    requires
        0 < num_bins <= isize::MAX,
    ensures
        bin == spec_clamp_bin(raw as int, num_bins as nat),
        bin < num_bins,
        raw < 0 ==> bin == 0,
        0 <= raw < num_bins ==> bin == raw,
        raw >= num_bins ==> bin == num_bins - 1,
{
    let last = (num_bins - 1) as isize;
    if raw < 0 {
        0
    } else if raw > last {
        num_bins - 1
    } else {
        raw as usize
    }
}

/// An index inside the bins keeps its own bin: only indices below the first
/// bin are moved onto the first one, and only indices past the last bin onto
/// the last one.
pub proof fn lemma_clamp_keeps_in_range_index(raw: int, num_bins: nat)
    requires
        num_bins > 0,
    ensures
        0 <= raw < num_bins ==> spec_clamp_bin(raw, num_bins) == raw,
        raw < 0 ==> spec_clamp_bin(raw, num_bins) == 0,
        raw >= num_bins ==> spec_clamp_bin(raw, num_bins) == num_bins - 1,
        spec_clamp_bin(raw, num_bins) < num_bins,
{
}

proof fn lemma_bin_count_is_filter(
    raw: Seq<isize>,
    num_bins: nat,
    bin: nat,
    pred: spec_fn(isize) -> bool,
)
    requires
        forall|x: isize| #[trigger] pred(x) == (spec_clamp_bin(x as int, num_bins) == bin),
    ensures
        bin_count(raw, num_bins, bin) == raw.filter(pred).len(),
    decreases raw.len(),
{
    reveal(Seq::filter);
    if raw.len() > 0 {
        lemma_bin_count_is_filter(raw.drop_last(), num_bins, bin, pred);
    }
}

/// Whether bin `bin` of `num_bins` holds the raw index `x`: the index names
/// the bin, or it lies below the first bin and `bin` is the first, or past the
/// last bin and `bin` is the last.
pub open spec fn holds_index(bin: int, num_bins: int, x: int) -> bool {
    x == bin || (bin == 0 && x < 0) || (bin + 1 == num_bins && x >= num_bins)
}

/// Bin `bin` holds exactly the raw indices equal to `bin`; besides those, the
/// first bin holds the indices below it and the last bin the indices past it.
pub proof fn lemma_bin_holds_its_indices(raw: Seq<isize>, num_bins: nat, bin: int)
    requires
        0 <= bin < num_bins,
    ensures
        bin_count(raw, num_bins, bin as nat) == raw.filter(
            |x: isize| holds_index(bin, num_bins as int, x as int),
        ).len(),
{
    let pred = |x: isize| holds_index(bin, num_bins as int, x as int);
    assert forall|x: isize| #[trigger] pred(x) == (spec_clamp_bin(x as int, num_bins) == bin as nat) by {
        lemma_clamp_keeps_in_range_index(x as int, num_bins);
    }
    lemma_bin_count_is_filter(raw, num_bins, bin as nat, pred);
}

proof fn lemma_bin_count_bounded(raw: Seq<isize>, num_bins: nat, bin: nat)
    ensures
        bin_count(raw, num_bins, bin) <= raw.len(),
    decreases raw.len(),
{
    if raw.len() > 0 {
        lemma_bin_count_bounded(raw.drop_last(), num_bins, bin);
    }
}

proof fn lemma_count_below_step(raw: Seq<isize>, num_bins: nat, k: nat)
    requires
        raw.len() > 0,
    ensures
        count_below(raw, num_bins, k) == count_below(raw.drop_last(), num_bins, k) + if spec_clamp_bin(
            raw.last() as int,
            num_bins,
        ) < k {
            1nat
        } else {
            0nat
        },
    decreases k,
{
    if k > 0 {
        lemma_count_below_step(raw, num_bins, (k - 1) as nat);
    }
}

proof fn lemma_count_below_empty(raw: Seq<isize>, num_bins: nat, k: nat)
    requires
        raw.len() == 0,
    ensures
        count_below(raw, num_bins, k) == 0,
    decreases k,
{
    if k > 0 {
        lemma_count_below_empty(raw, num_bins, (k - 1) as nat);
    }
}

/// Every raw index falls into exactly one bin: summed over all the bins, the
/// counts make up the number of samples.
pub proof fn lemma_every_sample_counted_once(raw: Seq<isize>, num_bins: nat)
    requires
        num_bins > 0,
    ensures
        count_below(raw, num_bins, num_bins) == raw.len(),
    decreases raw.len(),
{
    if raw.len() > 0 {
        lemma_every_sample_counted_once(raw.drop_last(), num_bins);
        lemma_count_below_step(raw, num_bins, num_bins);
    } else {
        lemma_count_below_empty(raw, num_bins, num_bins);
    }
}

proof fn lemma_sum_of_counts(counts: Seq<usize>, raw: Seq<isize>, num_bins: nat, k: nat)
    requires
        k <= counts.len() == num_bins,
        forall|b: int| 0 <= b < num_bins ==> counts[b] == bin_count(raw, num_bins, b as nat),
    ensures
        sum_of(counts.take(k as int)) == count_below(raw, num_bins, k),
    decreases k,
{
    if k > 0 {
        lemma_sum_of_counts(counts, raw, num_bins, (k - 1) as nat);
        assert(counts.take(k as int).drop_last() =~= counts.take(k - 1));
    }
}

/// The number of raw indices in each of `num_bins` bins, out-of-range indices
/// clamped onto the edge bins. The counts add up to the number of samples.
pub fn count_bins(raw: &[isize], num_bins: usize) -> (counts: Vec<usize>)
    requires
        0 < num_bins <= isize::MAX,
    ensures
        counts@.len() == num_bins,
        forall|b: int|
            0 <= b < num_bins ==> #[trigger] counts@[b] == bin_count(raw@, num_bins as nat, b as nat),
        forall|b: int|
            0 <= b < num_bins ==> #[trigger] counts@[b] == raw@.filter(
                |x: isize| holds_index(b, num_bins as int, x as int),
            ).len(),
        sum_of(counts@) == raw@.len(),
{
    let mut counts: Vec<usize> = Vec::new();
    let mut b: usize = 0;
    while b < num_bins
        invariant
            b <= num_bins,
            counts@.len() == b,
            forall|j: int| 0 <= j < b ==> counts@[j] == 0,
        decreases num_bins - b,
    {
        counts.push(0);
        b = b + 1;
    }
    let mut i: usize = 0;
    while i < raw.len()
        invariant
            0 < num_bins <= isize::MAX,
            i <= raw@.len(),
            counts@.len() == num_bins,
            forall|j: int|
                0 <= j < num_bins ==> #[trigger] counts@[j] == bin_count(
                    raw@.take(i as int),
                    num_bins as nat,
                    j as nat,
                ),
        decreases raw@.len() - i,
    {
        let bin = clamp_bin(raw[i], num_bins);
        proof {
            assert(raw@.take(i + 1).drop_last() =~= raw@.take(i as int));
            lemma_bin_count_bounded(raw@.take(i as int), num_bins as nat, bin as nat);
        }
        let c = counts[bin];
        counts.set(bin, c + 1);
        i = i + 1;
    }
    proof {
        assert(raw@.take(raw@.len() as int) =~= raw@);
        lemma_every_sample_counted_once(raw@, num_bins as nat);
        lemma_sum_of_counts(counts@, raw@, num_bins as nat, num_bins as nat);
        assert(counts@.take(num_bins as int) =~= counts@);
        assert forall|b: int| 0 <= b < num_bins implies #[trigger] counts@[b] == raw@.filter(
            |x: isize| holds_index(b, num_bins as int, x as int),
        ).len() by {
            lemma_bin_holds_its_indices(raw@, num_bins as nat, b);
        }
    }
    counts
}

/// The largest count, or one where there are no counts.
pub fn max_count(counts: &[usize]) -> (max: usize)
    ensures
        counts@.len() == 0 ==> max == 1,
        counts@.len() > 0 ==> (forall|i: int| 0 <= i < counts@.len() ==> counts@[i] <= max) && (
        exists|i: int| 0 <= i < counts@.len() && counts@[i] == max),
{
    if counts.len() == 0 {
        return 1;
    }
    let mut max = counts[0];
    let mut i: usize = 1;
    while i < counts.len()
        invariant
            1 <= i <= counts@.len(),
            forall|j: int| 0 <= j < i ==> counts@[j] <= max,
            exists|j: int| 0 <= j < i && counts@[j] == max,
        decreases counts@.len() - i,
    {
        if counts[i] > max {
            max = counts[i];
        }
        i = i + 1;
    }
    max
}

} // verus!
