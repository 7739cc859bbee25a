//! Concurrency sizing: derives a safe parallelism cap from the average
//! item size across the candidate set and a user-supplied ceiling.
//!
//! Smaller files are latency-bound and benefit from higher fan-out;
//! larger files are bandwidth-bound, where excess concurrency risks
//! saturating the link or tripping rate limits. The result is
//! `min(ceiling, tier)`, floored at one.

use vstd::prelude::*;

verus! {

/// Sum of a sequence of item sizes, as a mathematical integer.
pub open spec fn spec_sum(sizes: Seq<u64>) -> int
    decreases sizes.len(),
{
    if sizes.len() == 0 {
        0
    } else {
        spec_sum(sizes.drop_last()) + sizes.last()
    }
}

/// Average item size: zero for an empty set, otherwise the integer
/// quotient of the total by the count.
pub open spec fn spec_average(sizes: Seq<u64>) -> int {
    if sizes.len() == 0 {
        0
    } else {
        spec_sum(sizes) / sizes.len() as int
    }
}

/// Fan-out tier for uploads, chosen by average item size in bytes.
pub open spec fn spec_upload_tier(avg: int) -> int {
    if avg < 1_000_000 {
        100
    } else if avg < 10_000_000 {
        50
    } else if avg < 100_000_000 {
        20
    } else {
        10
    }
}

/// Fan-out tier for downloads, chosen by average item size in bytes.
pub open spec fn spec_download_tier(avg: int) -> int {
    if avg < 1_000_000 {
        50
    } else if avg < 10_000_000 {
        30
    } else if avg < 100_000_000 {
        10
    } else {
        5
    }
}

/// The tier capped by the user ceiling, then floored at one.
pub open spec fn spec_clamp(ceiling: int, tier: int) -> int {
    let capped = if ceiling < tier {
        ceiling
    } else {
        tier
    };
    if capped < 1 {
        1
    } else {
        capped
    }
}

/// The sum of item sizes is never negative.
pub proof fn lemma_sum_nonneg(sizes: Seq<u64>)
    ensures
        spec_sum(sizes) >= 0,
    decreases sizes.len(),
{
    if sizes.len() > 0 {
        lemma_sum_nonneg(sizes.drop_last());
    }
}

/// The sum may equally be unfolded at the front.
pub proof fn lemma_sum_unfold_front(s: Seq<u64>)
    requires
        s.len() > 0,
    ensures
        spec_sum(s) == s[0] + spec_sum(s.drop_first()),
    decreases s.len(),
{
    if s.len() == 1 {
        assert(s.drop_first() =~= Seq::<u64>::empty());
        assert(s.drop_last() =~= Seq::<u64>::empty());
    } else {
        lemma_sum_unfold_front(s.drop_last());
        assert(s.drop_last().drop_first() =~= s.drop_first().drop_last());
        assert(s.drop_first().last() == s.last());
    }
}

proof fn lemma_sum_take_step(sizes: Seq<u64>, i: int)
    requires
        0 <= i < sizes.len(),
    ensures
        spec_sum(sizes.take(i + 1)) == spec_sum(sizes.take(i)) + sizes[i],
{
    assert(sizes.take(i + 1).drop_last() =~= sizes.take(i));
    assert(sizes.take(i + 1).last() == sizes[i]);
}

proof fn lemma_sum_take_le(sizes: Seq<u64>, i: int)
    requires
        0 <= i <= sizes.len(),
    ensures
        spec_sum(sizes.take(i)) <= spec_sum(sizes),
    decreases sizes.len() - i,
{
    if i == sizes.len() {
        assert(sizes.take(i) =~= sizes);
    } else {
        lemma_sum_take_step(sizes, i);
        lemma_sum_take_le(sizes, i + 1);
    }
}

/// Total of the given sizes; the caller guarantees the total fits a
/// machine word.
pub fn sum_sizes(sizes: &Vec<u64>) -> (total: u64)
    requires
        spec_sum(sizes@) <= u64::MAX,
    ensures
        total == spec_sum(sizes@),
{
    let mut total: u64 = 0;
    let mut i: usize = 0;
    while i < sizes.len()
        invariant
            0 <= i <= sizes@.len(),
            total == spec_sum(sizes@.take(i as int)),
            spec_sum(sizes@) <= u64::MAX,
        decreases sizes@.len() - i,
    {
        proof {
            lemma_sum_take_step(sizes@, i as int);
            lemma_sum_take_le(sizes@, i + 1);
            lemma_sum_nonneg(sizes@.take(i + 1));
            lemma_sum_nonneg(sizes@.take(i as int));
        }
        total = total + sizes[i];
        i = i + 1;
    }
    proof {
        assert(sizes@.take(sizes@.len() as int) =~= sizes@);
    }
    total
}

/// Effective upload parallelism: `min(ceiling, tier)` floored at one,
/// where the tier is chosen by the average size of the candidate set.
pub fn calculate_optimal_concurrency(sizes: &Vec<u64>, max_concurrency: usize) -> (r: usize)
    requires
        spec_sum(sizes@) <= u64::MAX,
    ensures
        r == spec_clamp(max_concurrency as int, spec_upload_tier(spec_average(sizes@))),
{
    let avg = average_size(sizes);
    let tier: usize = if avg < 1_000_000 {
        100
    } else if avg < 10_000_000 {
        50
    } else if avg < 100_000_000 {
        20
    } else {
        10
    };
    let capped = if max_concurrency < tier {
        max_concurrency
    } else {
        tier
    };
    if capped < 1 {
        1
    } else {
        capped
    }
}

/// Effective download parallelism, over the same tiers' download column.
pub fn calculate_download_concurrency(sizes: &Vec<u64>, max_concurrency: usize) -> (r:
    usize)
    requires
        spec_sum(sizes@) <= u64::MAX,
    ensures
        r == spec_clamp(max_concurrency as int, spec_download_tier(spec_average(sizes@))),
{
    let avg = average_size(sizes);
    let tier: usize = if avg < 1_000_000 {
        50
    } else if avg < 10_000_000 {
        30
    } else if avg < 100_000_000 {
        10
    } else {
        5
    };
    let capped = if max_concurrency < tier {
        max_concurrency
    } else {
        tier
    };
    if capped < 1 {
        1
    } else {
        capped
    }
}

/// Average size of the given items, zero when there are none.
pub fn average_size(sizes: &Vec<u64>) -> (avg: u64)
    requires
        spec_sum(sizes@) <= u64::MAX,
    ensures
        avg == spec_average(sizes@),
{
    proof {
        lemma_sum_nonneg(sizes@);
    }
    let total = sum_sizes(sizes);
    if sizes.len() == 0 {
        0
    } else {
        total / (sizes.len() as u64)
    }
}

/// The tuned value always lies between one and the ceiling-capped tier:
/// with a ceiling of at least one, the result is exactly
/// `min(ceiling, tier)` and never leaves `[1, min(ceiling, tier)]`.
pub proof fn lemma_tuner_in_range(avg: int, ceiling: int, tier: int)
    requires
        ceiling >= 1,
        tier == spec_upload_tier(avg) || tier == spec_download_tier(avg),
    ensures
        spec_clamp(ceiling, tier) == if ceiling < tier {
            ceiling
        } else {
            tier
        },
        1 <= spec_clamp(ceiling, tier),
        spec_clamp(ceiling, tier) <= tier,
        spec_clamp(ceiling, tier) <= ceiling,
{
}

/// Monotonicity of the tuned value: a larger average item size never
/// yields a larger effective concurrency, for either direction's tiers.
pub proof fn lemma_tuner_monotone(avg1: int, avg2: int, ceiling: int)
    requires
        avg1 <= avg2,
    ensures
        spec_clamp(ceiling, spec_upload_tier(avg2)) <= spec_clamp(
            ceiling,
            spec_upload_tier(avg1),
        ),
        spec_clamp(ceiling, spec_download_tier(avg2)) <= spec_clamp(
            ceiling,
            spec_download_tier(avg1),
        ),
{
}

} // verus!
