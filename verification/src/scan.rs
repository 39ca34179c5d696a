//! What the walk over a package tree has to decide.

use vstd::prelude::*;

use crate::text::{ends_with, has_suffix};

verus! {

/// The sum of the first `n` sizes.
pub open spec fn sum_upto(sizes: Seq<u64>, n: int) -> nat
    decreases n,
{
    if n <= 0 {
        0
    } else {
        sum_upto(sizes, n - 1) + sizes[n - 1] as nat
    }
}

/// Tells whether a file of this name is taken for a package: its name has
/// to end in `.rpm`.
pub fn is_rpm_file(name: &str) -> (r: bool)
    ensures
        r == has_suffix(name@, ".rpm"@),
{
    ends_with(name, ".rpm")
}

/// Adds up the sizes of the package files.  `None` where the sum is more
/// than 64 bits hold.
pub fn total_size(sizes: &Vec<u64>) -> (r: Option<u64>)
    ensures
        match r {
            Some(total) => total == sum_upto(sizes@, sizes.len() as int),
            None => sum_upto(sizes@, sizes.len() as int) > u64::MAX,
        },
{
    let mut total: u64 = 0;
    let mut i: usize = 0;
    while i < sizes.len()
        invariant
            i <= sizes.len(),
            total == sum_upto(sizes@, i as int),
        decreases sizes.len() - i,
    {
        if sizes[i] > u64::MAX - total {
            proof {
                lemma_sum_grows(sizes@, i + 1, sizes.len() as int);
            }
            return None;
        }
        total = total + sizes[i];
        i += 1;
    }
    Some(total)
}

/// A longer sum is no smaller.
pub proof fn lemma_sum_grows(sizes: Seq<u64>, m: int, n: int)
    requires
        m <= n,
    ensures
        sum_upto(sizes, m) <= sum_upto(sizes, n),
    decreases n - m,
{
    if m < n {
        lemma_sum_grows(sizes, m, n - 1);
    }
}

} // verus!
