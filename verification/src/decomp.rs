//! Structural half of the trend/seasonal/residual decomposition.
//!
//! The pipeline takes the moving-average trend (window = one fifth of the
//! series length), subtracts it from the aligned prefix of the series,
//! determines a period — given explicitly, or estimated from the spectrum —
//! and averages the detrended series column-wise over consecutive chunks of
//! one period each, discarding an incomplete trailing chunk. The chunk
//! layout, the tiling of the seasonal profile, and the period validation are
//! verified here; averaging the columns is the numeric host's.

use vstd::prelude::*;

use crate::EngineError;

verus! {

/// How the seasonal period is determined: given by the caller, or estimated
/// automatically from the detrended series' spectrum.
#[derive(Clone, Copy, Debug, PartialEq, Eq, Structural)]
pub enum PeriodChoice {
    Explicit(usize),
    Auto,
}

/// The period a choice denotes, once the automatic estimate is known.
pub open spec fn chosen_period(choice: PeriodChoice, estimate: int) -> int {
    match choice {
        PeriodChoice::Explicit(p) => p as int,
        PeriodChoice::Auto => estimate,
    }
}

/// The trend window: one fifth of the series length, rounded down.
pub fn trend_window(len: usize) -> (w: usize)
    ensures
        w == len as int / 5,
{
    len / 5
}

/// Validates the period the decomposition will use: an explicit choice is
/// taken as given, otherwise the automatic estimate is taken; a period of
/// zero, or longer than the detrended series, is out of range and reported
/// as `InvalidPeriod`.
pub fn resolve_period(choice: PeriodChoice, estimate: usize, detrended_len: usize) -> (r: Result<
    usize,
    EngineError,
>)
    ensures
        r is Ok <==> 1 <= chosen_period(choice, estimate as int) <= detrended_len,
        r matches Ok(p) ==> p == chosen_period(choice, estimate as int),
        r is Err ==> r == Err::<usize, EngineError>(EngineError::InvalidPeriod),
{
    let p = match choice {
        PeriodChoice::Explicit(p) => p,
        PeriodChoice::Auto => estimate,
    };
    if 1 <= p && p <= detrended_len {
        Ok(p)
    } else {
        Err(EngineError::InvalidPeriod)
    }
}

/// A cell of a complete chunk lies inside the buffer.
proof fn lemma_chunk_cell(c: int, j: int, p: int, chunks: int, len: int)
    by (nonlinear_arith)
    requires
        0 <= c < chunks,
        0 <= j < p,
        chunks * p <= len,
    ensures
        0 <= c * p + j < len,
{
}

/// Splits a buffer into consecutive chunks of length `p`, discards an
/// incomplete trailing chunk, and returns the columns: column `j` holds the
/// sample at position `j` of each complete chunk, in chunk order. Averaging
/// column `j` over its `len / p` entries gives position `j` of the seasonal
/// profile.
pub fn column_chunks(v: &Vec<u64>, p: usize) -> (cols: Vec<Vec<u64>>)
    requires
        1 <= p <= v@.len(),
    ensures
        cols@.len() == p,
        forall|j: int|
            0 <= j < p ==> #[trigger] cols@[j]@.len() == v@.len() as int / p as int,
        forall|j: int, c: int|
            0 <= j < p && 0 <= c < v@.len() as int / p as int ==> #[trigger] cols@[j]@[c] == v@[c
                * p + j],
{
    let len = v.len();
    let chunks = len / p;
    proof {
        broadcast use vstd::arithmetic::div_mod::lemma_fundamental_div_mod;
        broadcast use vstd::arithmetic::div_mod::lemma_mod_division_less_than_divisor;

        assert(chunks * p <= len) by (nonlinear_arith)
            requires
                p >= 1,
                len as int == p * (len as int / p as int) + len as int % p as int,
                0 <= len as int % p as int,
                chunks == len as int / p as int,
        ;
    }
    let mut cols: Vec<Vec<u64>> = Vec::new();
    let mut j: usize = 0;
    while j < p
        invariant
            1 <= p <= v@.len(),
            len == v@.len(),
            chunks == len as int / p as int,
            chunks * p <= len,
            j <= p,
            cols@.len() == j,
            forall|a: int| 0 <= a < j ==> #[trigger] cols@[a]@.len() == chunks,
            forall|a: int, c: int|
                0 <= a < j && 0 <= c < chunks ==> #[trigger] cols@[a]@[c] == v@[c * p + a],
        decreases p - j,
    {
        let mut col: Vec<u64> = Vec::new();
        let mut c: usize = 0;
        while c < chunks
            invariant
                1 <= p <= v@.len(),
                len == v@.len(),
                chunks * p <= len,
                j < p,
                c <= chunks,
                col@.len() == c,
                forall|k: int| 0 <= k < c ==> col@[k] == v@[k * p + j],
            decreases chunks - c,
        {
            proof {
                lemma_chunk_cell(c as int, j as int, p as int, chunks as int, len as int);
            }
            col.push(v[c * p + j]);
            c = c + 1;
        }
        cols.push(col);
        j = j + 1;
    }
    cols
}

/// Tiles a seasonal profile end to end until it covers `n` samples,
/// truncating the final repetition: sample `i` of the result is sample
/// `i mod p` of the profile.
pub fn tile(profile: &Vec<u64>, n: usize) -> (r: Vec<u64>)
    requires
        profile@.len() >= 1,
    ensures
        r@.len() == n,
        forall|i: int| 0 <= i < n ==> #[trigger] r@[i] == profile@[i % profile@.len() as int],
{
    let p = profile.len();
    let mut r: Vec<u64> = Vec::new();
    let mut i: usize = 0;
    while i < n
        invariant
            p == profile@.len(),
            p >= 1,
            i <= n,
            r@.len() == i,
            forall|k: int| 0 <= k < i ==> #[trigger] r@[k] == profile@[k % p as int],
        decreases n - i,
    {
        r.push(profile[i % p]);
        i = i + 1;
    }
    r
}

} // verus!
