//! Structural core of a small univariate time-series engine.
//!
//! The engine decomposes a series into trend, seasonal and residual parts,
//! detects 3-sigma outliers, and fits a Gaussian-process regressor. Sample
//! values are carried throughout as opaque 64-bit codes: this crate fixes and
//! verifies every structural aspect of the engine — container shapes, window
//! and chunk layouts, padding, pairing, index permutations, and the error
//! decisions — while the numeric host that embeds the crate interprets the
//! codes and supplies the scalar arithmetic.

use vstd::prelude::*;

pub mod decomp;
pub mod kernel;
pub mod matrix;
pub mod outliers;
pub mod series;
pub mod spectral;

verus! {

/// The error taxonomy of the engine. Every failure is a local, recoverable
/// condition reported to the caller; no operation aborts the process.
#[derive(Clone, Copy, Debug, PartialEq, Eq, Structural)]
pub enum EngineError {
    /// An elementwise operation was asked of two series of unequal length.
    LengthMismatch,
    /// A statistic (mean, standard deviation) was asked of an empty series.
    EmptySeries,
    /// A moving-average window of zero, or wider than the series.
    InvalidWindow,
    /// A seasonal period of zero, or longer than the detrended series.
    InvalidPeriod,
    /// A covariance matrix that has no inverse.
    NotInvertible,
}

} // verus!
