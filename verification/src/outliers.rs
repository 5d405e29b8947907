//! Structural half of the 3-sigma outlier detector.
//!
//! The detector computes the series mean and population standard deviation,
//! forms the bounds mean ± 3·sigma, and reports every sample at or outside
//! them. The numeric host evaluates the bound test per sample; the selection
//! itself — every flagged sample reported with its original index, in index
//! order, and no other — is verified here.

use vstd::prelude::*;

verus! {

/// The report built from the first `n` samples: each flagged position,
/// paired with its sample, in position order.
pub open spec fn selected_prefix(values: Seq<u64>, flags: Seq<bool>, n: int) -> Seq<(usize, u64)>
    decreases n,
{
    if n <= 0 {
        Seq::empty()
    } else {
        let rest = selected_prefix(values, flags, n - 1);
        if flags[n - 1] {
            rest.push(((n - 1) as usize, values[n - 1]))
        } else {
            rest
        }
    }
}

/// Selects the flagged samples: the report pairs each index whose flag is
/// set with its sample, in original index order, and contains nothing else.
pub fn select_outliers(values: &Vec<u64>, flags: &Vec<bool>) -> (r: Vec<(usize, u64)>)
    requires
        values@.len() == flags@.len(),
    ensures
        r@ == selected_prefix(values@, flags@, values@.len() as int),
{
    let n = values.len();
    let mut r: Vec<(usize, u64)> = Vec::new();
    let mut i: usize = 0;
    while i < n
        invariant
            n == values@.len() == flags@.len(),
            i <= n,
            r@ == selected_prefix(values@, flags@, i as int),
        decreases n - i,
    {
        if flags[i] {
            r.push((i, values[i]));
        }
        i = i + 1;
    }
    r
}

} // verus!
