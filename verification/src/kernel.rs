//! Covariance kernels and the layout of their Gram matrices.
//!
//! A kernel is a closed tagged variant — RBF, periodic, or locally periodic —
//! whose parameters (length scale `l`, signal deviation `sigma`, period `p`)
//! are sample codes the numeric host interprets; the variant set is fixed and
//! dispatched exhaustively. The Gram form evaluates a kernel over every pair
//! in the Cartesian product of two coordinate sequences; the enumeration of
//! those pairs in row-major order is verified here, so a Gram matrix of
//! shape (|X|, |X'|) places the kernel of (X[i], X'[j]) at cell (i, j).

use vstd::prelude::*;

verus! {

/// A covariance function on pairs of scalar coordinates: stateless,
/// immutable, evaluated by the numeric host.
#[derive(Clone, Copy, Debug)]
pub enum Kernel {
    RBF { l: u64, sigma: u64 },
    Periodic { l: u64, sigma: u64, p: u64 },
    LocallyPeriodic { l: u64, sigma: u64, p: u64 },
}

/// The kernel evaluation plans: batch structure shared by every variant.
#[derive(Clone, Copy, Debug)]
pub struct Kernels;

impl Kernels {
    /// Enumerates the Cartesian product of two coordinate sequences in
    /// row-major order: pair (i, j) — coordinate `i` of `x` against
    /// coordinate `j` of `y` — stands at position `i·|y| + j`. Mapping a
    /// kernel over this enumeration yields the flat entries of the Gram
    /// matrix of shape (|x|, |y|).
    pub fn pairs(x: &Vec<u64>, y: &Vec<u64>) -> (r: Vec<(u64, u64)>)
        ensures
            r@.len() == x@.len() * y@.len(),
            forall|i: int, j: int|
                0 <= i < x@.len() && 0 <= j < y@.len() ==> #[trigger] r@[i * y@.len() + j] == (
                x@[i],
                y@[j],
                ),
    {
        let xn = x.len();
        let yn = y.len();
        let mut r: Vec<(u64, u64)> = Vec::new();
        let mut i: usize = 0;
        while i < xn
            invariant
                xn == x@.len(),
                yn == y@.len(),
                i <= xn,
                r@.len() == i * yn,
                forall|a: int, b: int|
                    0 <= a < i && 0 <= b < yn ==> #[trigger] r@[a * yn + b] == (x@[a], y@[b]),
            decreases xn - i,
        {
            let mut j: usize = 0;
            while j < yn
                invariant
                    xn == x@.len(),
                    yn == y@.len(),
                    i < xn,
                    j <= yn,
                    r@.len() == i * yn + j,
                    forall|a: int, b: int|
                        0 <= a < i && 0 <= b < yn ==> #[trigger] r@[a * yn + b] == (x@[a], y@[b]),
                    forall|b: int| 0 <= b < j ==> #[trigger] r@[i * yn + b] == (x@[i as int], y@[b]),
                decreases yn - j,
            {
                r.push((x[i], y[j]));
                proof {
                    assert forall|a: int, b: int|
                        0 <= a < i && 0 <= b < yn implies #[trigger] r@[a * yn + b] == (
                        x@[a],
                        y@[b],
                    ) by {
                        crate::matrix::lemma_cell_below(a, b, i as int, j as int, yn as int);
                    };
                }
                j = j + 1;
            }
            proof {
                assert((i + 1) * yn == i * yn + yn) by (nonlinear_arith);
            }
            i = i + 1;
        }
        r
    }
}

} // verus!
