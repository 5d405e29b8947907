//! The ordered sequence of samples that every other component consumes.
//!
//! A `TimeSeries` owns its backing vector exclusively; derived series (trend,
//! seasonal, residual, spectrum magnitudes) are new independent instances.
//! Samples are opaque 64-bit codes; the structural operations here — pairing
//! two series position by position, and cutting a series into sliding
//! windows — are exact, and the error decisions (`LengthMismatch`,
//! `EmptySeries`, `InvalidWindow`) are stated as equivalences.

use vstd::prelude::*;

use crate::EngineError;

verus! {

/// An ordered sequence of sample codes; the index is the implicit time step.
#[derive(Clone, Debug)]
pub struct TimeSeries {
    pub data: Vec<u64>,
}

impl View for TimeSeries {
    type V = Seq<u64>;

    closed spec fn view(&self) -> Seq<u64> {
        self.data@
    }
}

impl TimeSeries {
    /// Wraps an explicit sequence of samples.
    pub fn new(data: Vec<u64>) -> (s: TimeSeries)
        ensures
            s@ == data@,
    {
        TimeSeries { data }
    }

    /// The series with no samples.
    pub fn empty() -> (s: TimeSeries)
        ensures
            s@ == Seq::<u64>::empty(),
    {
        TimeSeries { data: Vec::new() }
    }

    /// Appends one sample at the end; the only mutation a series admits.
    pub fn push(&mut self, value: u64)
        ensures
            final(self)@ == old(self)@.push(value),
    {
        self.data.push(value);
    }

    /// The number of samples.
    pub fn len(&self) -> (n: usize)
        ensures
            n == self@.len(),
    {
        self.data.len()
    }

    /// The samples as a plain vector, in order.
    pub fn as_flat_vec(&self) -> (v: Vec<u64>)
        ensures
            v@ == self@,
    {
        self.data.clone()
    }

    /// The first `n` samples as a new series: the alignment step of the
    /// decomposition, which drops the trailing edge of the input so that the
    /// moving-average trend can be subtracted position by position.
    pub fn prefix(&self, n: usize) -> (r: TimeSeries)
        requires
            n <= self@.len(),
        ensures
            r@ == self@.subrange(0, n as int),
    {
        let mut data: Vec<u64> = Vec::new();
        let mut i: usize = 0;
        while i < n
            invariant
                n <= self@.len(),
                i <= n,
                data@.len() == i,
                forall|k: int| 0 <= k < i ==> data@[k] == self@[k],
            decreases n - i,
        {
            data.push(self.data[i]);
            i = i + 1;
        }
        proof {
            assert(data@ =~= self@.subrange(0, n as int));
        }
        TimeSeries { data }
    }

    /// Guards the statistics (mean, standard deviation), which divide by the
    /// length: an empty series is reported, never a silent division by zero.
    pub fn check_not_empty(&self) -> (r: Result<usize, EngineError>)
        ensures
            r is Ok <==> self@.len() > 0,
            r matches Ok(n) ==> n == self@.len(),
            r is Err ==> r == Err::<usize, EngineError>(EngineError::EmptySeries),
    {
        if self.data.len() > 0 {
            Ok(self.data.len())
        } else {
            Err(EngineError::EmptySeries)
        }
    }
}

/// Pairs two series position by position, left to right. Elementwise
/// arithmetic is defined only for equal lengths: on unequal lengths the
/// result is a `LengthMismatch` error, never a silent truncation.
pub fn zip_same_len(a: &TimeSeries, b: &TimeSeries) -> (r: Result<
    Vec<(u64, u64)>,
    EngineError,
>)
    ensures
        r is Ok <==> a@.len() == b@.len(),
        r is Err <==> a@.len() != b@.len(),
        r is Err ==> r == Err::<Vec<(u64, u64)>, EngineError>(EngineError::LengthMismatch),
        r matches Ok(v) ==> {
            &&& v@.len() == a@.len()
            &&& forall|i: int| 0 <= i < v@.len() ==> v@[i] == (a@[i], b@[i])
        },
{
    if a.data.len() != b.data.len() {
        return Err(EngineError::LengthMismatch);
    }
    let n = a.data.len();
    let mut v: Vec<(u64, u64)> = Vec::new();
    let mut i: usize = 0;
    while i < n
        invariant
            n == a@.len() == b@.len(),
            i <= n,
            v@.len() == i,
            forall|k: int| 0 <= k < i ==> v@[k] == (a@[k], b@[k]),
        decreases n - i,
    {
        v.push((a.data[i], b.data[i]));
        i = i + 1;
    }
    Ok(v)
}

/// Cuts a series into every window of `width` consecutive samples, in order:
/// window `i` holds samples `i .. i + width`. This is the layout under the
/// simple moving average; a window of zero, or wider than the series, is an
/// `InvalidWindow` error.
pub fn sliding_windows(s: &TimeSeries, width: usize) -> (r: Result<Vec<Vec<u64>>, EngineError>)
    ensures
        r is Ok <==> 1 <= width <= s@.len(),
        r is Err ==> r == Err::<Vec<Vec<u64>>, EngineError>(EngineError::InvalidWindow),
        r matches Ok(w) ==> {
            &&& w@.len() == s@.len() - width + 1
            &&& forall|i: int|
                0 <= i < w@.len() ==> #[trigger] w@[i]@ == s@.subrange(i, i + width)
        },
{
    let n = s.data.len();
    if width < 1 || width > n {
        return Err(EngineError::InvalidWindow);
    }
    let count = n - width + 1;
    let mut w: Vec<Vec<u64>> = Vec::new();
    let mut i: usize = 0;
    while i < count
        invariant
            n == s@.len(),
            1 <= width <= n,
            count == n - width + 1,
            i <= count,
            w@.len() == i,
            forall|k: int| 0 <= k < i ==> #[trigger] w@[k]@ == s@.subrange(k, k + width),
        decreases count - i,
    {
        let mut win: Vec<u64> = Vec::new();
        let mut j: usize = 0;
        while j < width
            invariant
                n == s@.len(),
                1 <= width <= n,
                i + width <= n,
                j <= width,
                win@.len() == j,
                forall|k: int| 0 <= k < j ==> win@[k] == s@[i + k],
            decreases width - j,
        {
            win.push(s.data[i + j]);
            j = j + 1;
        }
        proof {
            assert(win@ =~= s@.subrange(i as int, i + width));
        }
        w.push(win);
        i = i + 1;
    }
    Ok(w)
}

} // verus!
