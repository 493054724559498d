//! Correctness oracle: the host-side reference histogram and the element-wise
//! comparison that gates every benchmark iteration.

use vstd::prelude::*;
use crate::error::HarnessError;

verus! {

/// One host-side input value, in the two forms the harness needs: `word` is
/// the 32-bit encoding handed to the device untouched, and `bin` is the bucket
/// index the value falls in (the value rounded down to a whole number).
/// Callers that start from fractional data compute both forms before handing
/// the data over; the harness itself never re-derives one from the other.
pub struct Sample {
    pub word: u32,
    pub bin: u32,
}

/// The bucket indices of a sample sequence, in order.
pub open spec fn bins_of(s: Seq<Sample>) -> Seq<u32> {
    Seq::new(s.len(), |i: int| s[i].bin)
}

/// The device-bound words of a sample sequence, in order.
pub open spec fn words_of(s: Seq<Sample>) -> Seq<u32> {
    Seq::new(s.len(), |i: int| s[i].word)
}

/// How many elements of `s` equal `v`.
pub open spec fn count_eq(s: Seq<u32>, v: u32) -> nat
    decreases s.len(),
{
    if s.len() == 0 {
        0
    } else {
        count_eq(s.drop_last(), v) + (if s.last() == v {
            1nat
        } else {
            0nat
        })
    }
}

/// No value occurs more often than the sequence is long.
pub proof fn lemma_count_eq_le_len(s: Seq<u32>, v: u32)
    ensures
        count_eq(s, v) <= s.len(),
    decreases s.len(),
{
    if s.len() > 0 {
        lemma_count_eq_le_len(s.drop_last(), v);
    }
}

/// The sum of a count vector.
pub open spec fn seq_sum(s: Seq<u32>) -> nat
    decreases s.len(),
{
    if s.len() == 0 {
        0
    } else {
        seq_sum(s.drop_last()) + s.last() as nat
    }
}

/// The sum of `count_eq(bins, v)` over all buckets `v < b`.
pub open spec fn sum_counts(bins: Seq<u32>, b: nat) -> nat
    decreases b,
{
    if b == 0 {
        0
    } else {
        sum_counts(bins, (b - 1) as nat) + count_eq(bins, (b - 1) as u32)
    }
}

/// Element-wise equality of two count vectors: same length and the same value
/// at every position.
pub open spec fn spec_equivalent(a: Seq<u32>, b: Seq<u32>) -> bool {
    a.len() == b.len() && (forall|i: int| 0 <= i < a.len() ==> a[i] == b[i])
}

/// How many of the first `n` positions of `a` and `b` hold different values.
pub open spec fn mismatches_upto(a: Seq<u32>, b: Seq<u32>, n: nat) -> nat
    decreases n,
{
    if n == 0 {
        0
    } else {
        mismatches_upto(a, b, (n - 1) as nat) + (if a[n - 1] != b[n - 1] {
            1nat
        } else {
            0nat
        })
    }
}

/// The number of positions, over the length both sequences share, where the
/// two disagree.
pub open spec fn spec_mismatch_count(a: Seq<u32>, b: Seq<u32>) -> nat {
    mismatches_upto(a, b, if a.len() <= b.len() {
        a.len()
    } else {
        b.len()
    })
}

/// Buckets every sample by its `bin` field: the result has one counter per
/// bucket and counts, for each bucket, how many samples fall in it. This is
/// the ground truth a device result is compared against.
pub fn compute_reference(input: &Vec<Sample>, bin_count: usize) -> (r: Vec<u32>)
    requires
        bin_count <= u32::MAX,
        forall|i: int| 0 <= i < input@.len() ==> (#[trigger] input@[i].bin) < bin_count,
        input@.len() <= u32::MAX,
    ensures
        r@.len() == bin_count,
        forall|b: int| 0 <= b < bin_count ==> r@[b] == count_eq(bins_of(input@), b as u32),
{
    let mut out: Vec<u32> = Vec::new();
    while out.len() < bin_count
        invariant
            out@.len() <= bin_count,
            forall|b: int| 0 <= b < out@.len() ==> out@[b] == 0,
        decreases bin_count - out.len(),
    {
        out.push(0);
    }
    let ghost bins = bins_of(input@);
    let mut i: usize = 0;
    while i < input.len()
        invariant
            i <= input@.len(),
            input@.len() <= u32::MAX,
            bin_count <= u32::MAX,
            bins == bins_of(input@),
            out@.len() == bin_count,
            forall|k: int| 0 <= k < input@.len() ==> (#[trigger] input@[k].bin) < bin_count,
            forall|b: int| 0 <= b < bin_count ==> out@[b] == count_eq(bins.take(i as int), b as u32),
        decreases input@.len() - i,
    {
        let bucket = input[i].bin as usize;
        proof {
            assert(bins.take(i + 1).drop_last() =~= bins.take(i as int));
            assert(forall|b: int| 0 <= b < bin_count ==> #[trigger] count_eq(
                bins.take(i + 1),
                b as u32,
            ) == count_eq(bins.take(i as int), b as u32) + (if bins[i as int] == b as u32 {
                1nat
            } else {
                0nat
            }));
            lemma_count_eq_le_len(bins.take(i as int), bins[i as int]);
        }
        let current = out[bucket];
        out.set(bucket, current + 1);
        i += 1;
    }
    proof {
        assert(bins.take(input@.len() as int) =~= bins);
    }
    out
}

/// Compares an expected and an observed count vector; true exactly when they
/// agree in length and at every position. Counts are integers, so exact
/// equality is the right notion -- no tolerance is involved.
pub fn are_equivalent(expected: &Vec<u32>, observed: &Vec<u32>) -> (r: bool)
    ensures
        r == spec_equivalent(expected@, observed@),
{
    if expected.len() != observed.len() {
        return false;
    }
    let mut i: usize = 0;
    while i < expected.len()
        invariant
            i <= expected@.len(),
            expected@.len() == observed@.len(),
            forall|j: int| 0 <= j < i ==> expected@[j] == observed@[j],
        decreases expected@.len() - i,
    {
        if expected[i] != observed[i] {
            return false;
        }
        i += 1;
    }
    true
}

/// Counts the positions, over the length the two vectors share, where they
/// disagree. Diagnostic only: pass or fail is always decided by
/// `are_equivalent`.
pub fn diff_count(expected: &Vec<u32>, observed: &Vec<u32>) -> (r: usize)
    ensures
        r == spec_mismatch_count(expected@, observed@),
{
    let limit: usize = if expected.len() <= observed.len() {
        expected.len()
    } else {
        observed.len()
    };
    let mut count: usize = 0;
    let mut i: usize = 0;
    while i < limit
        invariant
            i <= limit,
            limit <= expected@.len(),
            limit <= observed@.len(),
            count == mismatches_upto(expected@, observed@, i as nat),
            count <= i,
        decreases limit - i,
    {
        if expected[i] != observed[i] {
            count += 1;
        }
        i += 1;
    }
    count
}

/// Summing a count vector that agrees with `count_eq` bucket by bucket gives
/// the sum of those per-bucket counts.
proof fn lemma_seq_sum_matches_sum_counts(bins: Seq<u32>, counts: Seq<u32>)
    requires
        forall|b: int| 0 <= b < counts.len() ==> counts[b] == count_eq(bins, b as u32),
    ensures
        seq_sum(counts) == sum_counts(bins, counts.len()),
    decreases counts.len(),
{
    if counts.len() > 0 {
        lemma_seq_sum_matches_sum_counts(bins, counts.drop_last());
    }
}

/// Dropping the last element of `bins` lowers `sum_counts` by one exactly
/// when that element lies below the bucket bound.
proof fn lemma_sum_counts_drop_last(bins: Seq<u32>, b: nat)
    requires
        bins.len() > 0,
        b <= u32::MAX + 1,
    ensures
        sum_counts(bins, b) == sum_counts(bins.drop_last(), b) + (if (bins.last() as nat) < b {
            1nat
        } else {
            0nat
        }),
    decreases b,
{
    if b > 0 {
        lemma_sum_counts_drop_last(bins, (b - 1) as nat);
    }
}

/// With every bucket index below the bound, the per-bucket counts sum to the
/// input length: every input is counted exactly once.
proof fn lemma_sum_counts_total(bins: Seq<u32>, b: nat)
    requires
        b <= u32::MAX + 1,
        forall|i: int| 0 <= i < bins.len() ==> (#[trigger] bins[i] as nat) < b,
    ensures
        sum_counts(bins, b) == bins.len(),
    decreases bins.len(),
{
    if bins.len() == 0 {
        assert(bins =~= Seq::<u32>::empty());
        lemma_sum_counts_empty(b);
    } else {
        assert((bins[bins.len() - 1] as nat) < b);
        assert(bins.last() == bins[bins.len() - 1]);
        assert(forall|i: int|
            0 <= i < bins.drop_last().len() ==> #[trigger] bins.drop_last()[i] == bins[i]);
        lemma_sum_counts_drop_last(bins, b);
        lemma_sum_counts_total(bins.drop_last(), b);
    }
}

/// An empty input has nothing in any bucket.
proof fn lemma_sum_counts_empty(b: nat)
    ensures
        sum_counts(Seq::<u32>::empty(), b) == 0,
    decreases b,
{
    if b > 0 {
        lemma_sum_counts_empty((b - 1) as nat);
    }
}

/// The outcome of holding a device result against the host-computed
/// reference. Derived anew on every dispatch, never persisted.
pub struct ValidationResult {
    pub expected: Vec<u32>,
    pub observed: Vec<u32>,
    pub mismatch_count: usize,
    pub success: bool,
}

/// Packages the comparison of an expected and an observed count vector:
/// success is exact element-wise equality, and the mismatch count is recorded
/// for diagnostics only.
pub fn validate(expected: Vec<u32>, observed: Vec<u32>) -> (r: ValidationResult)
    ensures
        r.expected == expected,
        r.observed == observed,
        r.success == spec_equivalent(expected@, observed@),
        r.mismatch_count == spec_mismatch_count(expected@, observed@),
{
    let success = are_equivalent(&expected, &observed);
    let mismatch_count = diff_count(&expected, &observed);
    ValidationResult { expected, observed, mismatch_count, success }
}

/// Turns a failed validation into the fatal `ValidationFailure` error, and
/// lets a successful one pass: exactly the decision the benchmark driver
/// applies after every iteration.
pub fn check_validation(v: &ValidationResult) -> (r: Result<(), HarnessError>)
    ensures
        r is Ok <==> v.success,
        !v.success ==> (r matches Err(HarnessError::ValidationFailure { mismatch_count })
            && mismatch_count == v.mismatch_count),
{
    if v.success {
        Ok(())
    } else {
        Err(HarnessError::ValidationFailure { mismatch_count: v.mismatch_count })
    }
}

/// Law: a count vector that matches the reference bucket counts for inputs
/// that all fall below the bucket bound sums to the number of inputs --
/// `compute_reference` counts every input exactly once.
pub proof fn lemma_reference_counts_every_input_once(bins: Seq<u32>, counts: Seq<u32>)
    requires
        counts.len() <= u32::MAX + 1,
        forall|i: int| 0 <= i < bins.len() ==> (#[trigger] bins[i] as int) < counts.len(),
        forall|b: int| 0 <= b < counts.len() ==> counts[b] == count_eq(bins, b as u32),
    ensures
        seq_sum(counts) == bins.len(),
{
    lemma_seq_sum_matches_sum_counts(bins, counts);
    assert(forall|i: int| 0 <= i < bins.len() ==> (#[trigger] bins[i] as nat) < counts.len());
    lemma_sum_counts_total(bins, counts.len());
}

/// Law: equivalence is reflexive -- comparing any count vector against itself
/// succeeds.
pub proof fn lemma_equivalent_reflexive(a: Seq<u32>)
    ensures
        spec_equivalent(a, a),
{
}

/// Law: two count vectors of different lengths are never equivalent.
pub proof fn lemma_equivalent_demands_equal_lengths(a: Seq<u32>, b: Seq<u32>)
    requires
        a.len() != b.len(),
    ensures
        !spec_equivalent(a, b),
{
}

/// A prefix holds no mismatch exactly when the two sequences agree at every
/// position of it.
proof fn lemma_mismatches_upto_zero(a: Seq<u32>, b: Seq<u32>, n: nat)
    ensures
        (mismatches_upto(a, b, n) == 0) <==> (forall|i: int| 0 <= i < n ==> a[i] == b[i]),
    decreases n,
{
    if n > 0 {
        lemma_mismatches_upto_zero(a, b, (n - 1) as nat);
    }
}

/// Law: for equal-length count vectors, equivalence is the same as a
/// mismatch count of zero -- the diagnostic count and the pass/fail check
/// can never disagree.
pub proof fn lemma_equivalent_iff_no_mismatch(a: Seq<u32>, b: Seq<u32>)
    requires
        a.len() == b.len(),
    ensures
        spec_equivalent(a, b) <==> spec_mismatch_count(a, b) == 0,
{
    lemma_mismatches_upto_zero(a, b, a.len());
}

} // verus!

