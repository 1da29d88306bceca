//! The dense matrix container: a row-major `rows x cols` grid of scalars
//! backed by one contiguous buffer of length `rows * cols`.

use vstd::prelude::*;

verus! {

/// Row `i` of the grid occupies buffer positions `[i * cols, (i + 1) * cols)`.
#[derive(Debug)]
pub struct Matrix<T> {
    pub buf: Vec<T>,
    pub rows: usize,
    pub cols: usize,
}

/// An in-bounds position of an `r x c` grid maps into the flat buffer.
pub proof fn lemma_grid_index(i: int, j: int, r: int, c: int)
    requires
        0 <= i < r,
        0 <= j < c,
    ensures
        0 <= i * c + j < r * c,
{
    assert(0 <= i * c + j < r * c) by (nonlinear_arith)
        requires
            0 <= i < r,
            0 <= j < c,
    ;
}

/// Two in-bounds positions that map to the same buffer position are equal.
pub proof fn lemma_grid_index_injective(i1: int, j1: int, i2: int, j2: int, c: int)
    requires
        0 <= j1 < c,
        0 <= j2 < c,
        0 <= i1,
        0 <= i2,
        i1 * c + j1 == i2 * c + j2,
    ensures
        i1 == i2 && j1 == j2,
{
    assert(i1 == i2 && j1 == j2) by (nonlinear_arith)
        requires
            0 <= j1 < c,
            0 <= j2 < c,
            0 <= i1,
            0 <= i2,
            i1 * c + j1 == i2 * c + j2,
    ;
}

impl<T> Matrix<T> {
    /// The contiguous backing buffer, row-major.
    pub open spec fn flat(self) -> Seq<T> {
        self.buf@
    }

    /// Number of rows.
    pub open spec fn nrows(self) -> int {
        self.rows as int
    }

    /// Number of columns.
    pub open spec fn ncols(self) -> int {
        self.cols as int
    }

    /// The container invariant: the buffer holds exactly `rows * cols` scalars.
    pub open spec fn wf(self) -> bool {
        self.flat().len() == self.nrows() * self.ncols()
    }

    /// The scalar at row `i`, column `j`.
    pub open spec fn ent(self, i: int, j: int) -> T {
        self.flat()[i * self.ncols() + j]
    }

    /// Row `i` as a sequence of `cols` scalars.
    pub open spec fn row_seq(self, i: int) -> Seq<T> {
        Seq::new(self.ncols() as nat, |j: int| self.ent(i, j))
    }

    /// Column `j` as a sequence of `rows` scalars.
    pub open spec fn col_seq(self, j: int) -> Seq<T> {
        Seq::new(self.nrows() as nat, |i: int| self.ent(i, j))
    }

    /// Same shape: equal row and column counts.
    pub open spec fn same_dims(self, o: Matrix<T>) -> bool {
        self.nrows() == o.nrows() && self.ncols() == o.ncols()
    }

    /// Builds a matrix from a flat row-major buffer and its dimensions.
    pub fn from_vec(v: Vec<T>, rows: usize, cols: usize) -> (m: Matrix<T>)
        requires
            v@.len() == rows * cols,
        ensures
            m.wf(),
            m.nrows() == rows,
            m.ncols() == cols,
            m.flat() == v@,
    {
        Matrix { buf: v, rows, cols }
    }

    /// Row count.
    pub fn rows(&self) -> (r: usize)
        ensures
            r == self.nrows(),
    {
        self.rows
    }

    /// Column count.
    pub fn cols(&self) -> (c: usize)
        ensures
            c == self.ncols(),
    {
        self.cols
    }

    /// The backing buffer.
    pub fn buf(&self) -> (b: &Vec<T>)
        ensures
            b@ == self.flat(),
    {
        &self.buf
    }
}

impl<T: Copy> Matrix<T> {
    /// Builds a `rows x cols` matrix whose scalars all equal `value`.
    pub fn fill(value: T, rows: usize, cols: usize) -> (m: Matrix<T>)
        requires
            rows * cols <= usize::MAX,
        ensures
            m.wf(),
            m.nrows() == rows,
            m.ncols() == cols,
            forall|i: int, j: int|
                0 <= i < rows && 0 <= j < cols ==> m.ent(i, j) == value,
    {
        let n: usize = rows * cols;
        let mut v: Vec<T> = Vec::new();
        let mut k: usize = 0;
        while k < n
            invariant
                k <= n,
                v@.len() == k,
                forall|p: int| 0 <= p < k ==> v@[p] == value,
            decreases n - k,
        {
            v.push(value);
            k = k + 1;
        }
        let m = Matrix { buf: v, rows, cols };
        proof {
            assert forall|i: int, j: int|
                0 <= i < rows && 0 <= j < cols implies #[trigger] m.ent(i, j) == value by {
                lemma_grid_index(i, j, rows as int, cols as int);
            }
        }
        m
    }

    /// Bounds-checked element access: the scalar at `(row, col)`, or `None`
    /// when the position lies outside the grid.
    pub fn get(&self, row: usize, col: usize) -> (r: Option<T>)
        requires
            self.wf(),
        ensures
            r is Some <==> row < self.nrows() && col < self.ncols(),
            r is Some ==> r->0 == self.ent(row as int, col as int),
    {
        if row < self.rows && col < self.cols {
            let n: usize = self.buf.len();
            proof {
                lemma_grid_index(row as int, col as int, self.nrows(), self.ncols());
            }
            Some(self.buf[row * self.cols + col])
        } else {
            None
        }
    }

    /// Writes `value` at position `(row, col)`.
    pub fn set(&mut self, row: usize, col: usize, value: T)
        requires
            old(self).wf(),
            row < old(self).nrows(),
            col < old(self).ncols(),
        ensures
            final(self).wf(),
            final(self).same_dims(*old(self)),
            final(self).flat() == old(self).flat().update(
                row * old(self).ncols() + col,
                value,
            ),
            final(self).ent(row as int, col as int) == value,
            forall|i: int, j: int|
                0 <= i < old(self).nrows() && 0 <= j < old(self).ncols()
                    && !(i == row && j == col) ==> final(self).ent(i, j) == old(self).ent(i, j),
    {
        let n: usize = self.buf.len();
        proof {
            lemma_grid_index(row as int, col as int, self.nrows(), self.ncols());
        }
        let k: usize = row * self.cols + col;
        self.buf[k] = value;
        proof {
            assert forall|i: int, j: int|
                0 <= i < self.nrows() && 0 <= j < self.ncols()
                    && !(i == row && j == col) implies self.ent(i, j) == old(self).ent(i, j) by {
                lemma_grid_index(i, j, self.nrows(), self.ncols());
                if i * self.ncols() + j == row * self.ncols() + col {
                    lemma_grid_index_injective(i, j, row as int, col as int, self.ncols());
                }
            }
        }
    }

    /// Copies row `i` out of the grid.
    pub fn row(&self, i: usize) -> (r: Vec<T>)
        requires
            self.wf(),
            i < self.nrows(),
        ensures
            r@ == self.row_seq(i as int),
    {
        let n: usize = self.buf.len();
        let mut r: Vec<T> = Vec::new();
        let mut j: usize = 0;
        while j < self.cols
            invariant
                self.wf(),
                n == self.flat().len(),
                i < self.nrows(),
                j <= self.ncols(),
                r@.len() == j,
                forall|p: int| 0 <= p < j ==> r@[p] == self.ent(i as int, p),
            decreases self.ncols() - j,
        {
            proof {
                lemma_grid_index(i as int, j as int, self.nrows(), self.ncols());
            }
            r.push(self.buf[i * self.cols + j]);
            j = j + 1;
        }
        proof {
            assert(r@ =~= self.row_seq(i as int));
        }
        r
    }

    /// Copies column `j` out of the grid.
    pub fn col(&self, j: usize) -> (r: Vec<T>)
        requires
            self.wf(),
            j < self.ncols(),
        ensures
            r@ == self.col_seq(j as int),
    {
        let n: usize = self.buf.len();
        let mut r: Vec<T> = Vec::new();
        let mut i: usize = 0;
        while i < self.rows
            invariant
                self.wf(),
                n == self.flat().len(),
                j < self.ncols(),
                i <= self.nrows(),
                r@.len() == i,
                forall|p: int| 0 <= p < i ==> r@[p] == self.ent(p, j as int),
            decreases self.nrows() - i,
        {
            proof {
                lemma_grid_index(i as int, j as int, self.nrows(), self.ncols());
            }
            r.push(self.buf[i * self.cols + j]);
            i = i + 1;
        }
        proof {
            assert(r@ =~= self.col_seq(j as int));
        }
        r
    }
}

/// Copies a vector of scalars element by element.
pub fn copy_vec<T: Copy>(v: &Vec<T>) -> (r: Vec<T>)
    ensures
        r@ == v@,
{
    let mut r: Vec<T> = Vec::new();
    let mut i: usize = 0;
    while i < v.len()
        invariant
            i <= v@.len(),
            r@ == v@.take(i as int),
        decreases v@.len() - i,
    {
        r.push(v[i]);
        proof {
            assert(r@ =~= v@.take(i as int + 1));
        }
        i = i + 1;
    }
    proof {
        assert(v@.take(v@.len() as int) =~= v@);
    }
    r
}

impl<T: Copy> Clone for Matrix<T> {
    /// An independent matrix with the same dimensions and the same scalars.
    fn clone(&self) -> (r: Self)
        ensures
            r.nrows() == self.nrows(),
            r.ncols() == self.ncols(),
            r.flat() == self.flat(),
    {
        Matrix { buf: copy_vec(&self.buf), rows: self.rows, cols: self.cols }
    }
}

} // verus!
