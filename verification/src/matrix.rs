//! Dense rectangular matrices of sample codes, stored row-major.
//!
//! The shape is fixed at construction. The structural operations — entry
//! lookup, transposition, assembling a matrix from a flat entry vector — are
//! exact; the outcome of a numeric inversion attempt is folded into the
//! engine's error taxonomy by `inversion_result`, so a singular matrix is
//! reported as `NotInvertible` and never returned uninverted.

use vstd::prelude::*;

use crate::EngineError;

verus! {

/// A row-major grid of sample codes with a fixed (rows, cols) shape.
#[derive(Clone, Debug)]
pub struct Matrix {
    pub rows: usize,
    pub cols: usize,
    pub data: Vec<u64>,
}

impl Matrix {
    /// Shape and storage agree: one code per grid cell.
    pub open spec fn wf(&self) -> bool {
        self.data@.len() == self.rows * self.cols
    }

    /// The code in row `i`, column `j`.
    pub open spec fn entry(&self, i: int, j: int) -> u64 {
        self.data@[i * self.cols + j]
    }

    /// Builds a matrix from its flat row-major entries.
    pub fn new(rows: usize, cols: usize, data: Vec<u64>) -> (m: Matrix)
        requires
            data@.len() == rows * cols,
        ensures
            m.wf(),
            m.rows == rows,
            m.cols == cols,
            m.data@ == data@,
    {
        Matrix { rows, cols, data }
    }

    /// Reads one entry.
    pub fn get(&self, i: usize, j: usize) -> (v: u64)
        requires
            self.wf(),
            i < self.rows,
            j < self.cols,
        ensures
            v == self.entry(i as int, j as int),
    {
        let n = self.data.len();
        proof {
            lemma_row_major_index(self.rows as int, self.cols as int, i as int, j as int);
            assert(i * self.cols + j < n);
        }
        self.data[i * self.cols + j]
    }

    /// The transposed matrix: entry (i, j) of the result is entry (j, i) of
    /// the original.
    pub fn transpose(&self) -> (t: Matrix)
        requires
            self.wf(),
        ensures
            t.wf(),
            t.rows == self.cols,
            t.cols == self.rows,
            forall|i: int, j: int|
                0 <= i < t.rows && 0 <= j < t.cols ==> #[trigger] t.entry(i, j) == self.entry(
                    j,
                    i,
                ),
    {
        let mut data: Vec<u64> = Vec::new();
        let mut i: usize = 0;
        while i < self.cols
            invariant
                self.wf(),
                i <= self.cols,
                data@.len() == i * self.rows,
                forall|a: int, b: int|
                    0 <= a < i && 0 <= b < self.rows ==> #[trigger] data@[a * self.rows + b]
                        == self.entry(b, a),
            decreases self.cols - i,
        {
            let mut j: usize = 0;
            while j < self.rows
                invariant
                    self.wf(),
                    i < self.cols,
                    j <= self.rows,
                    data@.len() == i * self.rows + j,
                    forall|a: int, b: int|
                        0 <= a < i && 0 <= b < self.rows ==> #[trigger] data@[a * self.rows + b]
                            == self.entry(b, a),
                    forall|b: int|
                        0 <= b < j ==> #[trigger] data@[i * self.rows + b] == self.entry(b, i as int),
                decreases self.rows - j,
            {
                let v = self.get(j, i);
                data.push(v);
                proof {
                    lemma_row_major_len(self.cols as int, self.rows as int, i as int, j as int);
                    assert forall|a: int, b: int|
                        0 <= a < i && 0 <= b < self.rows implies #[trigger] data@[a * self.rows
                        + b] == self.entry(b, a) by {
                        lemma_cell_below(a, b, i as int, j as int, self.rows as int);
                    };
                }
                j = j + 1;
            }
            proof {
                assert((i + 1) * self.rows == i * self.rows + self.rows) by (nonlinear_arith);
            }
            i = i + 1;
        }
        Matrix { rows: self.cols, cols: self.rows, data }
    }
}

/// A row-major cell index stays inside the storage of its grid.
proof fn lemma_row_major_index(rows: int, cols: int, i: int, j: int)
    by (nonlinear_arith)
    requires
        0 <= i < rows,
        0 <= j < cols,
    ensures
        0 <= i * cols + j < rows * cols,
{
}

/// Appending one cell to `i` full rows of width `cols` keeps the count below
/// the machine bound of the full grid.
proof fn lemma_row_major_len(rows: int, cols: int, i: int, j: int)
    by (nonlinear_arith)
    requires
        0 <= i < rows,
        0 <= j < cols,
    ensures
        i * cols + j + 1 <= rows * cols,
        i * cols + j + 1 == if j + 1 == cols {
            (i + 1) * cols
        } else {
            i * cols + (j + 1)
        },
{
}

/// A cell of an earlier row stands strictly before the cell being written.
pub(crate) proof fn lemma_cell_below(a: int, b: int, i: int, j: int, width: int)
    by (nonlinear_arith)
    requires
        0 <= a < i,
        0 <= b < width,
        0 <= j,
    ensures
        0 <= a * width + b < i * width + j,
{
}

/// Folds the outcome of a numeric inversion attempt into the error taxonomy:
/// a produced inverse passes through unchanged, and the absence of one — a
/// singular or ill-conditioned input — is reported as `NotInvertible` rather
/// than the original matrix being handed back silently.
pub fn inversion_result(outcome: Option<Matrix>) -> (r: Result<Matrix, EngineError>)
    ensures
        r is Ok <==> outcome is Some,
        outcome matches Some(m) ==> (r matches Ok(o) && o == m),
        r is Err ==> r == Err::<Matrix, EngineError>(EngineError::NotInvertible),
{
    match outcome {
        Some(m) => Ok(m),
        None => Err(EngineError::NotInvertible),
    }
}

} // verus!
