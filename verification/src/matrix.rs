//! A row-major matrix, the container behind a Nelder-Mead simplex.
//!
//! A simplex over `ndim` coordinates is a matrix of `ndim + 1` row
//! vertices.  The matrix stores its entries in one flat vector, row by
//! row, and exposes bounds-checked access by row and column.

use vstd::prelude::*;

verus! {

/// A fixed-size matrix of `nrows` rows by `ncols` columns, stored flat in
/// row-major order.
pub struct Matrix<T> {
    nrows: usize,
    ncols: usize,
    v: Vec<T>,
}

impl<T> View for Matrix<T> {
    type V = Seq<T>;

    closed spec fn view(&self) -> Seq<T> {
        self.v@
    }
}

impl<T: Copy> Matrix<T> {
    /// The number of rows, for contracts.
    pub closed spec fn rows(&self) -> int {
        self.nrows as int
    }

    /// The number of columns, for contracts.
    pub closed spec fn cols(&self) -> int {
        self.ncols as int
    }

    /// Well-formedness: the flat storage holds exactly one entry per
    /// row-column position, and the entry count fits the address space.
    pub closed spec fn wf(&self) -> bool {
        self.v@.len() == self.nrows * self.ncols && self.nrows * self.ncols <= usize::MAX
    }

    /// Build an `nrows` by `ncols` matrix with every entry set to `fill`.
    pub fn new(nrows: usize, ncols: usize, fill: T) -> (m: Self)
        requires
            nrows * ncols <= usize::MAX,
        ensures
            m.wf(),
            m.rows() == nrows,
            m.cols() == ncols,
            m@.len() == nrows * ncols,
            forall|k: int| 0 <= k < m@.len() ==> m@[k] == fill,
    {
        let total: usize = nrows * ncols;
        let mut v: Vec<T> = Vec::new();
        let mut i: usize = 0;
        while i < total
            invariant
                i <= total,
                v@.len() == i,
                forall|k: int| 0 <= k < i ==> v@[k] == fill,
            decreases total - i,
        {
            v.push(fill);
            i = i + 1;
        }
        Matrix { nrows, ncols, v }
    }

    /// The number of rows.
    pub fn nrows(&self) -> (n: usize)
        ensures
            n == self.rows(),
    {
        self.nrows
    }

    /// The number of columns.
    pub fn ncols(&self) -> (n: usize)
        ensures
            n == self.cols(),
    {
        self.ncols
    }

    /// The position of row `row`, column `col` in the flat storage.
    pub fn vpos(&self, row: usize, col: usize) -> (pos: usize)
        requires
            self.wf(),
            row < self.rows(),
            col < self.cols(),
        ensures
            pos == row * self.cols() + col,
            pos < self@.len(),
    {
        proof {
            let r: int = self.nrows as int;
            let c: int = self.ncols as int;
            assert((row as int) * c + (col as int) < r * c) by (nonlinear_arith)
                requires
                    (row as int) < r,
                    (col as int) < c,
                    0 <= row as int,
                    0 <= col as int,
            ;
        }
        row * self.ncols + col
    }

    /// Read the entry at row `row`, column `col`.
    pub fn get(&self, row: usize, col: usize) -> (x: T)
        requires
            self.wf(),
            row < self.rows(),
            col < self.cols(),
        ensures
            x == self@[row * self.cols() + col],
    {
        let pos: usize = self.vpos(row, col);
        self.v[pos]
    }

    /// Overwrite the entry at row `row`, column `col` with `new_val`.
    pub fn set(&mut self, row: usize, col: usize, new_val: T)
        requires
            old(self).wf(),
            row < old(self).rows(),
            col < old(self).cols(),
        ensures
            final(self).wf(),
            final(self).rows() == old(self).rows(),
            final(self).cols() == old(self).cols(),
            final(self)@ == old(self)@.update(row * old(self).cols() + col, new_val),
    {
        let pos: usize = self.vpos(row, col);
        self.v.set(pos, new_val);
    }

    /// Exchange the entries at row `row1`, column `col1` and row `row2`,
    /// column `col2`.
    pub fn swap(&mut self, row1: usize, col1: usize, row2: usize, col2: usize)
        requires
            old(self).wf(),
            row1 < old(self).rows(),
            col1 < old(self).cols(),
            row2 < old(self).rows(),
            col2 < old(self).cols(),
        ensures
            final(self).wf(),
            final(self).rows() == old(self).rows(),
            final(self).cols() == old(self).cols(),
            final(self)@ == old(self)@
                .update(row1 * old(self).cols() + col1, old(self)@[row2 * old(self).cols() + col2])
                .update(row2 * old(self).cols() + col2, old(self)@[row1 * old(self).cols() + col1]),
    {
        let x1: T = self.get(row1, col1);
        let x2: T = self.get(row2, col2);
        self.set(row1, col1, x2);
        self.set(row2, col2, x1);
    }
}

} // verus!
