//! Structural half of the spectral estimator.
//!
//! The discrete Fourier transform here is the radix-2 divide-and-conquer
//! form: the input is padded with trailing zero samples up to the next power
//! of two, and each recursion level splits its buffer into the samples at
//! even and at odd positions. Those two structural steps — padding and the
//! even/odd split — are verified exactly; the butterfly arithmetic on the
//! sample codes is the numeric host's.

use vstd::prelude::*;

verus! {

/// Whether `n` is a power of two.
pub open spec fn is_pow2(n: int) -> bool
    decreases n,
{
    if n <= 0 {
        false
    } else if n == 1 {
        true
    } else {
        n % 2 == 0 && is_pow2(n / 2)
    }
}

/// The least power of two that is at least `n` (and at least 1): the
/// transform length for an input of `n` samples.
pub fn next_pow2(n: usize) -> (p: usize)
    requires
        n <= usize::MAX / 2 + 1,
    ensures
        is_pow2(p as int),
        p >= n,
        p == 1 || p / 2 < n,
{
    let mut p: usize = 1;
    while p < n
        invariant
            n <= usize::MAX / 2 + 1,
            1 <= p,
            is_pow2(p as int),
            p == 1 || p / 2 < n,
        decreases (if p < n {
            n - p
        } else {
            0
        }),
    {
        proof {
            assert(is_pow2(2 * p as int));
        }
        p = p * 2;
    }
    p
}

/// Pads a buffer with trailing `fill` samples up to the next power of two:
/// the result keeps the input as its prefix, every added sample is `fill`,
/// and the result's length is the least power of two at or above the input's
/// length (so an input whose length is already a power of two is unchanged).
pub fn pad_to_pow2(v: &Vec<u64>, fill: u64) -> (r: Vec<u64>)
    requires
        v@.len() <= usize::MAX / 2 + 1,
    ensures
        is_pow2(r@.len() as int),
        r@.len() >= v@.len(),
        r@.len() == 1 || r@.len() / 2 < v@.len(),
        r@.subrange(0, v@.len() as int) == v@,
        forall|i: int| v@.len() <= i < r@.len() ==> r@[i] == fill,
{
    let target = next_pow2(v.len());
    let mut r = v.clone();
    while r.len() < target
        invariant
            r@.len() <= target,
            r@.subrange(0, v@.len() as int) == v@,
            r@.len() >= v@.len(),
            forall|i: int| v@.len() <= i < r@.len() ==> r@[i] == fill,
        decreases target - r@.len(),
    {
        r.push(fill);
        proof {
            assert(r@.subrange(0, v@.len() as int) == v@);
        }
    }
    r
}

/// Splits a buffer into the samples at even positions and the samples at odd
/// positions, each kept in order: the decimation step of the radix-2
/// transform.
pub fn split_even_odd(v: &Vec<u64>) -> (r: (Vec<u64>, Vec<u64>))
    ensures
        r.0@.len() == (v@.len() + 1) / 2,
        r.1@.len() == v@.len() / 2,
        forall|k: int| 0 <= k < r.0@.len() ==> r.0@[k] == v@[2 * k],
        forall|k: int| 0 <= k < r.1@.len() ==> r.1@[k] == v@[2 * k + 1],
{
    let n = v.len();
    let mut evens: Vec<u64> = Vec::new();
    let mut odds: Vec<u64> = Vec::new();
    let mut i: usize = 0;
    while i < n
        invariant
            n == v@.len(),
            i <= n,
            evens@.len() == (i + 1) / 2,
            odds@.len() == i / 2,
            forall|k: int| 0 <= k < evens@.len() ==> evens@[k] == v@[2 * k],
            forall|k: int| 0 <= k < odds@.len() ==> odds@[k] == v@[2 * k + 1],
        decreases n - i,
    {
        if i % 2 == 0 {
            evens.push(v[i]);
        } else {
            odds.push(v[i]);
        }
        i = i + 1;
    }
    (evens, odds)
}

} // verus!
