//! Abstract memory sizes and their saturating sums.

use vstd::prelude::*;

verus! {

/// The size in bytes for a reference on the stack
pub const REFERENCE_SIZE: u64 = 8;

/// The size of a struct in bytes
pub const STRUCT_SIZE: u64 = 2;

/// The size of a vector (without its containing data) in bytes
pub const VEC_SIZE: u64 = 8;

/// The saturating sum of two sizes.
pub open spec fn size_sum(first: u64, second: u64) -> u64 {
    if first + second > u64::MAX {
        u64::MAX
    } else {
        (first + second) as u64
    }
}

/// The exact sum of a sequence of sizes.
pub open spec fn sum(sizes: Seq<u64>) -> nat
    decreases sizes.len(),
{
    if sizes.len() == 0 {
        0
    } else {
        sum(sizes.drop_last()) + sizes.last() as nat
    }
}

/// `seed` plus all of `sizes`, held at `u64::MAX` where the exact sum is larger.
pub open spec fn saturating_total(seed: u64, sizes: Seq<u64>) -> u64 {
    if seed + sum(sizes) > u64::MAX {
        u64::MAX
    } else {
        (seed + sum(sizes)) as u64
    }
}

/// The sum of no sizes is zero, and one more size adds itself.
pub proof fn lemma_sum_push(sizes: Seq<u64>, size: u64)
    ensures
        sum(Seq::<u64>::empty()) == 0,
        sum(sizes.push(size)) == sum(sizes) + size,
{
    assert(sizes.push(size).drop_last() =~= sizes);
}

/// Adds the sizes to `seed` one after the other, each addition saturating.
pub fn total_size(seed: u64, sizes: &[u64]) -> (total: u64)
    ensures
        total == saturating_total(seed, sizes@),
{
    let mut total: u64 = seed;
    let mut i: usize = 0;
    assert(sizes@.take(0) =~= Seq::<u64>::empty());
    while i < sizes.len()
        invariant
            i <= sizes.len(),
            total == saturating_total(seed, sizes@.take(i as int)),
        decreases sizes.len() - i,
    {
        proof {
            lemma_sum_push(sizes@.take(i as int), sizes@[i as int]);
            assert(sizes@.take(i as int).push(sizes@[i as int]) =~= sizes@.take(i + 1));
        }
        total = total.saturating_add(sizes[i]);
        i += 1;
    }
    assert(sizes@.take(i as int) =~= sizes@);
    total
}

} // verus!
