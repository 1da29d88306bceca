//! Matrix products and row broadcasts: matrix-vector and matrix-matrix
//! multiplication with transpose flags, the scaled multiply-accumulate
//! contract beneath them, and the elementwise matrix operations.

use vstd::prelude::*;
use crate::element::{Element, fits};
use crate::matrix::Matrix;
use crate::ops::{all_fit, scal_sum, scal_diff, scal_prod, scal_quot, zip_sum, zip_diff};
use crate::vectors::vals;

verus! {

/// The one failure mode of the product engines: an operand whose shape
/// does not meet the operation's documented length contract.
#[derive(Clone, Copy, Debug, PartialEq, Eq, Structural)]
pub enum OpsError {
    DimensionMismatch,
}

/// Sum of the first `k` pairwise products of `a` and `b`.
pub open spec fn dot_prefix(a: Seq<int>, b: Seq<int>, k: int) -> int
    decreases k,
{
    if k <= 0 {
        0
    } else {
        dot_prefix(a, b, k - 1) + a[k - 1] * b[k - 1]
    }
}

/// The dot product of two equal-length sequences of values.
pub open spec fn dot(a: Seq<int>, b: Seq<int>) -> int
    recommends
        a.len() == b.len(),
{
    dot_prefix(a, b, a.len() as int)
}

/// Every pairwise product and every partial sum of the dot product lies in
/// the range of the scalar kind `T`: the accumulation can be carried out on
/// machine scalars.
pub open spec fn dot_fits<T: Element>(a: Seq<int>, b: Seq<int>) -> bool {
    (forall|k: int| 0 <= k <= a.len() ==> fits::<T>(#[trigger] dot_prefix(a, b, k)))
        && (forall|j: int| 0 <= j < a.len() ==> fits::<T>(#[trigger] (a[j] * b[j])))
}

/// The values of row `i` of `m`.
pub open spec fn row_vals<T: Element>(m: Matrix<T>, i: int) -> Seq<int> {
    vals(m.row_seq(i))
}

/// The values of column `j` of `m`.
pub open spec fn col_vals<T: Element>(m: Matrix<T>, j: int) -> Seq<int> {
    vals(m.col_seq(j))
}

/// Row `i` of `op(m)`: a row of `m`, or a column of `m` when the transpose
/// flag is set.
pub open spec fn op_row_vals<T: Element>(m: Matrix<T>, trans: bool, i: int) -> Seq<int> {
    if trans {
        col_vals(m, i)
    } else {
        row_vals(m, i)
    }
}

/// Column `j` of `op(m)`: a column of `m`, or a row of `m` when the
/// transpose flag is set.
pub open spec fn op_col_vals<T: Element>(m: Matrix<T>, trans: bool, j: int) -> Seq<int> {
    if trans {
        row_vals(m, j)
    } else {
        col_vals(m, j)
    }
}

/// Length of `op(m) * x`.
pub open spec fn gemv_out_len<T: Element>(m: Matrix<T>, trans: bool) -> int {
    if trans {
        m.ncols()
    } else {
        m.nrows()
    }
}

/// Length a vector must have to be multiplied by `op(m)`.
pub open spec fn gemv_in_len<T: Element>(m: Matrix<T>, trans: bool) -> int {
    if trans {
        m.nrows()
    } else {
        m.ncols()
    }
}

/// The shape contract of `alpha * op(m) * x + beta * y`.
pub open spec fn gemv_dims_ok<T: Element>(
    m: Matrix<T>,
    trans: bool,
    x: Seq<int>,
    y: Seq<int>,
) -> bool {
    x.len() == gemv_in_len(m, trans) && y.len() == gemv_out_len(m, trans)
}

/// Entry `i` of `alpha * op(m) * x + beta * y`.
pub open spec fn gemv_val<T: Element>(
    m: Matrix<T>,
    trans: bool,
    alpha: int,
    x: Seq<int>,
    beta: int,
    y: Seq<int>,
    i: int,
) -> int {
    alpha * dot(op_row_vals(m, trans, i), x) + beta * y[i]
}

/// Entry `i` of the multiply-accumulate stays on machine scalars throughout.
pub open spec fn gemv_fits_at<T: Element>(
    m: Matrix<T>,
    trans: bool,
    alpha: int,
    x: Seq<int>,
    beta: int,
    y: Seq<int>,
    i: int,
) -> bool {
    dot_fits::<T>(op_row_vals(m, trans, i), x)
        && fits::<T>(alpha * dot(op_row_vals(m, trans, i), x))
        && fits::<T>(beta * y[i])
        && fits::<T>(gemv_val(m, trans, alpha, x, beta, y, i))
}

/// Every entry of the multiply-accumulate stays on machine scalars.
pub open spec fn gemv_fits<T: Element>(
    m: Matrix<T>,
    trans: bool,
    alpha: int,
    x: Seq<int>,
    beta: int,
    y: Seq<int>,
) -> bool {
    forall|i: int|
        0 <= i < gemv_out_len(m, trans) ==> #[trigger] gemv_fits_at::<T>(
            m,
            trans,
            alpha,
            x,
            beta,
            y,
            i,
        )
}

/// The dot product of two equal-length vectors of scalars.
pub fn dot_el<T: Element>(a: &Vec<T>, b: &Vec<T>) -> (r: T)
    requires
        a@.len() == b@.len(),
        dot_fits::<T>(vals(a@), vals(b@)),
    ensures
        r.val() == dot(vals(a@), vals(b@)),
{
    let n: usize = a.len();
    let mut acc: T = T::zero_el();
    let mut i: usize = 0;
    while i < n
        invariant
            n == a@.len(),
            n == b@.len(),
            dot_fits::<T>(vals(a@), vals(b@)),
            i <= n,
            acc.val() == dot_prefix(vals(a@), vals(b@), i as int),
        decreases n - i,
    {
        assert(fits::<T>(vals(a@)[i as int] * vals(b@)[i as int]));
        assert(fits::<T>(dot_prefix(vals(a@), vals(b@), i + 1)));
        assert(dot_prefix(vals(a@), vals(b@), i + 1) == dot_prefix(vals(a@), vals(b@), i as int)
            + vals(a@)[i as int] * vals(b@)[i as int]);
        let p = a[i].mul_el(b[i]);
        acc = acc.add_el(p);
        i = i + 1;
    }
    acc
}

impl<T: Element> Matrix<T> {
    /// Computes `alpha * op(self) * x + beta * y`, the most general
    /// multiply-accumulate contract, where `op` is the identity or the
    /// transpose depending on `trans`. Fails with a dimension mismatch, and
    /// only then, when the shape contract is violated.
    pub fn mul_dgemv(&self, trans: bool, alpha: T, x: &Vec<T>, beta: T, y: &Vec<T>) -> (res:
        Result<Vec<T>, OpsError>)
        requires
            self.wf(),
            gemv_dims_ok(*self, trans, vals(x@), vals(y@)) ==> gemv_fits::<T>(
                *self,
                trans,
                alpha.val(),
                vals(x@),
                beta.val(),
                vals(y@),
            ),
        ensures
            res is Ok <==> gemv_dims_ok(*self, trans, vals(x@), vals(y@)),
            res matches Ok(r) ==> r@.len() == y@.len() && forall|i: int|
                0 <= i < y@.len() ==> (#[trigger] r@[i]).val() == gemv_val(
                    *self,
                    trans,
                    alpha.val(),
                    vals(x@),
                    beta.val(),
                    vals(y@),
                    i,
                ),
            res matches Err(e) ==> e == OpsError::DimensionMismatch,
    {
        let ok = if !trans {
            self.cols() == x.len() && self.rows() == y.len()
        } else {
            self.rows() == x.len() && self.cols() == y.len()
        };
        if !ok {
            return Err(OpsError::DimensionMismatch);
        }
        let n: usize = y.len();
        let mut r: Vec<T> = Vec::new();
        let mut i: usize = 0;
        while i < n
            invariant
                self.wf(),
                gemv_dims_ok(*self, trans, vals(x@), vals(y@)),
                n == y@.len(),
                n == gemv_out_len(*self, trans),
                gemv_fits::<T>(*self, trans, alpha.val(), vals(x@), beta.val(), vals(y@)),
                i <= n,
                r@.len() == i,
                forall|p: int|
                    0 <= p < i ==> (#[trigger] r@[p]).val() == gemv_val(
                        *self,
                        trans,
                        alpha.val(),
                        vals(x@),
                        beta.val(),
                        vals(y@),
                        p,
                    ),
            decreases n - i,
        {
            assert(gemv_fits_at::<T>(
                *self,
                trans,
                alpha.val(),
                vals(x@),
                beta.val(),
                vals(y@),
                i as int,
            ));
            let w: Vec<T> = if trans {
                self.col(i)
            } else {
                self.row(i)
            };
            proof {
                assert(vals(w@) =~= op_row_vals(*self, trans, i as int));
            }
            let t = dot_el(&w, x);
            let a1 = alpha.mul_el(t);
            let b1 = beta.mul_el(y[i]);
            r.push(a1.add_el(b1));
            i = i + 1;
        }
        Ok(r)
    }
}

/// Every row of `op(m)` can be dotted with `x` on machine scalars.
pub open spec fn mv_fits<T: Element>(m: Matrix<T>, trans: bool, x: Seq<int>) -> bool {
    forall|i: int|
        0 <= i < gemv_out_len(m, trans) ==> #[trigger] dot_fits::<T>(op_row_vals(m, trans, i), x)
}

/// Entry `i` of `op(m) * x` scaled by `alpha` stays on machine scalars.
pub open spec fn msv_fits_at<T: Element>(
    m: Matrix<T>,
    trans: bool,
    alpha: int,
    x: Seq<int>,
    i: int,
) -> bool {
    dot_fits::<T>(op_row_vals(m, trans, i), x)
        && fits::<T>(alpha * dot(op_row_vals(m, trans, i), x))
}

/// Every entry of `alpha * op(m) * x` stays on machine scalars.
pub open spec fn msv_fits<T: Element>(m: Matrix<T>, trans: bool, alpha: int, x: Seq<int>) -> bool {
    forall|i: int|
        0 <= i < gemv_out_len(m, trans) ==> #[trigger] msv_fits_at::<T>(m, trans, alpha, x, i)
}

/// Entry `i` of `m * x - y` stays on machine scalars.
pub open spec fn mvmv_fits_at<T: Element>(m: Matrix<T>, x: Seq<int>, y: Seq<int>, i: int) -> bool {
    dot_fits::<T>(row_vals(m, i), x) && fits::<T>(dot(row_vals(m, i), x) - y[i])
}

/// Every entry of `m * x - y` stays on machine scalars.
pub open spec fn mvmv_fits<T: Element>(m: Matrix<T>, x: Seq<int>, y: Seq<int>) -> bool {
    forall|i: int| 0 <= i < m.nrows() ==> #[trigger] mvmv_fits_at::<T>(m, x, y, i)
}

impl<T: Element> Matrix<T> {
    /// Computes `self * v` through the multiply-accumulate engine with
    /// `alpha = 1`, `beta = 0`. Fails with a dimension mismatch, and only
    /// then, when `v` is not as long as a row.
    pub fn mul_vec(&self, v: &Vec<T>) -> (res: Result<Vec<T>, OpsError>)
        requires
            self.wf(),
            vals(v@).len() == self.ncols() ==> mv_fits::<T>(*self, false, vals(v@)),
        ensures
            res is Ok <==> v@.len() == self.ncols(),
            res matches Ok(r) ==> r@.len() == self.nrows() && forall|i: int|
                0 <= i < self.nrows() ==> (#[trigger] r@[i]).val() == dot(
                    row_vals(*self, i),
                    vals(v@),
                ),
            res matches Err(e) ==> e == OpsError::DimensionMismatch,
    {
        let y: Vec<T> = crate::vectors::zero(self.rows());
        proof {
            if gemv_dims_ok(*self, false, vals(v@), vals(y@)) {
                assert forall|i: int|
                    0 <= i < gemv_out_len(*self, false) implies #[trigger] gemv_fits_at::<T>(
                    *self,
                    false,
                    1,
                    vals(v@),
                    0,
                    vals(y@),
                    i,
                ) by {
                    T::range_holds_zero_one();
                    assert(dot_fits::<T>(op_row_vals(*self, false, i), vals(v@)));
                    assert(fits::<T>(dot_prefix(op_row_vals(*self, false, i), vals(v@),
                        op_row_vals(*self, false, i).len() as int)));
                    assert(vals(y@)[i] == 0);
                }
            }
        }
        let res = self.mul_dgemv(false, T::one_el(), v, T::zero_el(), &y);
        proof {
            if let Ok(r) = &res {
                assert forall|i: int|
                    0 <= i < self.nrows() implies (#[trigger] r@[i]).val() == dot(
                    row_vals(*self, i),
                    vals(v@),
                ) by {
                    assert(r@[i].val() == gemv_val(*self, false, 1, vals(v@), 0, vals(y@), i));
                    assert(vals(y@)[i] == 0);
                }
            }
        }
        res
    }

    /// Computes `transpose(self) * v` through the multiply-accumulate
    /// engine with `alpha = 1`, `beta = 0`. Fails with a dimension
    /// mismatch, and only then, when `v` is not as long as a column.
    pub fn transp_mul_vec(&self, v: &Vec<T>) -> (res: Result<Vec<T>, OpsError>)
        requires
            self.wf(),
            vals(v@).len() == self.nrows() ==> mv_fits::<T>(*self, true, vals(v@)),
        ensures
            res is Ok <==> v@.len() == self.nrows(),
            res matches Ok(r) ==> r@.len() == self.ncols() && forall|i: int|
                0 <= i < self.ncols() ==> (#[trigger] r@[i]).val() == dot(
                    col_vals(*self, i),
                    vals(v@),
                ),
            res matches Err(e) ==> e == OpsError::DimensionMismatch,
    {
        let y: Vec<T> = crate::vectors::zero(self.cols());
        proof {
            if gemv_dims_ok(*self, true, vals(v@), vals(y@)) {
                assert forall|i: int|
                    0 <= i < gemv_out_len(*self, true) implies #[trigger] gemv_fits_at::<T>(
                    *self,
                    true,
                    1,
                    vals(v@),
                    0,
                    vals(y@),
                    i,
                ) by {
                    T::range_holds_zero_one();
                    assert(dot_fits::<T>(op_row_vals(*self, true, i), vals(v@)));
                    assert(fits::<T>(dot_prefix(op_row_vals(*self, true, i), vals(v@),
                        op_row_vals(*self, true, i).len() as int)));
                    assert(vals(y@)[i] == 0);
                }
            }
        }
        let res = self.mul_dgemv(true, T::one_el(), v, T::zero_el(), &y);
        proof {
            if let Ok(r) = &res {
                assert forall|i: int|
                    0 <= i < self.ncols() implies (#[trigger] r@[i]).val() == dot(
                    col_vals(*self, i),
                    vals(v@),
                ) by {
                    assert(r@[i].val() == gemv_val(*self, true, 1, vals(v@), 0, vals(y@), i));
                    assert(vals(y@)[i] == 0);
                }
            }
        }
        res
    }

    /// Computes `alpha * op(self) * x`: the multiply-accumulate against an
    /// all-zero accumulator of the right length. Fails with a dimension
    /// mismatch, and only then, when the shape contract is violated.
    pub fn mul_scalar_vec(&self, trans: bool, alpha: T, x: &Vec<T>) -> (res: Result<
        Vec<T>,
        OpsError,
    >)
        requires
            self.wf(),
            vals(x@).len() == gemv_in_len(*self, trans) ==> msv_fits::<T>(
                *self,
                trans,
                alpha.val(),
                vals(x@),
            ),
        ensures
            res is Ok <==> x@.len() == gemv_in_len(*self, trans),
            res matches Ok(r) ==> r@.len() == gemv_out_len(*self, trans) && forall|i: int|
                0 <= i < gemv_out_len(*self, trans) ==> (#[trigger] r@[i]).val() == alpha.val()
                    * dot(op_row_vals(*self, trans, i), vals(x@)),
            res matches Err(e) ==> e == OpsError::DimensionMismatch,
    {
        let n: usize = if trans {
            self.cols()
        } else {
            self.rows()
        };
        let y: Vec<T> = crate::vectors::zero(n);
        proof {
            if gemv_dims_ok(*self, trans, vals(x@), vals(y@)) {
                assert forall|i: int|
                    0 <= i < gemv_out_len(*self, trans) implies #[trigger] gemv_fits_at::<T>(
                    *self,
                    trans,
                    alpha.val(),
                    vals(x@),
                    0,
                    vals(y@),
                    i,
                ) by {
                    T::range_holds_zero_one();
                    assert(msv_fits_at::<T>(*self, trans, alpha.val(), vals(x@), i));
                    assert(vals(y@)[i] == 0);
                }
            }
        }
        let res = self.mul_dgemv(trans, alpha, x, T::zero_el(), &y);
        proof {
            if let Ok(r) = &res {
                assert forall|i: int|
                    0 <= i < gemv_out_len(*self, trans) implies (#[trigger] r@[i]).val()
                    == alpha.val() * dot(op_row_vals(*self, trans, i), vals(x@)) by {
                    assert(r@[i].val() == gemv_val(*self, trans, alpha.val(), vals(x@), 0,
                        vals(y@), i));
                    assert(vals(y@)[i] == 0);
                }
            }
        }
        res
    }

    /// Computes `self * x - y`, the fused multiply-then-subtract. Fails
    /// with a dimension mismatch, and only then, when `x` is not as long as
    /// a row or `y` not as long as a column.
    pub fn mul_vec_minus_vec(&self, x: &Vec<T>, y: &Vec<T>) -> (res: Result<Vec<T>, OpsError>)
        requires
            self.wf(),
            vals(x@).len() == self.ncols() && vals(y@).len() == self.nrows() ==> mvmv_fits::<T>(
                *self,
                vals(x@),
                vals(y@),
            ),
        ensures
            res is Ok <==> x@.len() == self.ncols() && y@.len() == self.nrows(),
            res matches Ok(r) ==> r@.len() == self.nrows() && forall|i: int|
                0 <= i < self.nrows() ==> (#[trigger] r@[i]).val() == dot(
                    row_vals(*self, i),
                    vals(x@),
                ) - vals(y@)[i],
            res matches Err(e) ==> e == OpsError::DimensionMismatch,
    {
        if !(self.cols() == x.len() && self.rows() == y.len()) {
            return Err(OpsError::DimensionMismatch);
        }
        let n: usize = y.len();
        let mut r: Vec<T> = Vec::new();
        let mut i: usize = 0;
        while i < n
            invariant
                self.wf(),
                x@.len() == self.ncols(),
                n == y@.len(),
                n == self.nrows(),
                mvmv_fits::<T>(*self, vals(x@), vals(y@)),
                i <= n,
                r@.len() == i,
                forall|p: int|
                    0 <= p < i ==> (#[trigger] r@[p]).val() == dot(row_vals(*self, p), vals(x@))
                        - vals(y@)[p],
            decreases n - i,
        {
            assert(mvmv_fits_at::<T>(*self, vals(x@), vals(y@), i as int));
            let w: Vec<T> = self.row(i);
            proof {
                assert(vals(w@) =~= row_vals(*self, i as int));
                assert(fits::<T>(dot_prefix(row_vals(*self, i as int), vals(x@),
                    row_vals(*self, i as int).len() as int)));
            }
            let t = dot_el(&w, x);
            r.push(t.sub_el(y[i]));
            i = i + 1;
        }
        Ok(r)
    }
}

/// Every entry of `a` shifted by the matching entry of `x` stays on
/// machine scalars.
pub open spec fn row_sum_fits<T: Element>(m: Matrix<T>, x: Seq<int>) -> bool {
    forall|i: int, j: int|
        0 <= i < m.nrows() && 0 <= j < m.ncols() ==> fits::<T>(
            (#[trigger] m.ent(i, j)).val() + x[j],
        )
}

/// Every entry of `a` less the matching entry of `x` stays on machine
/// scalars.
pub open spec fn row_diff_fits<T: Element>(m: Matrix<T>, x: Seq<int>) -> bool {
    forall|i: int, j: int|
        0 <= i < m.nrows() && 0 <= j < m.ncols() ==> fits::<T>(
            (#[trigger] m.ent(i, j)).val() - x[j],
        )
}

/// Entry `(i, j)` of `op(a) * op(b)` stays on machine scalars.
pub open spec fn gemm_fits_at<T: Element>(
    a: Matrix<T>,
    lhs_t: bool,
    b: Matrix<T>,
    rhs_t: bool,
    i: int,
    j: int,
) -> bool {
    dot_fits::<T>(op_row_vals(a, lhs_t, i), op_col_vals(b, rhs_t, j))
}

/// Every entry of `op(a) * op(b)` stays on machine scalars.
pub open spec fn gemm_fits<T: Element>(
    a: Matrix<T>,
    lhs_t: bool,
    b: Matrix<T>,
    rhs_t: bool,
) -> bool {
    forall|i: int, j: int|
        0 <= i < gemv_out_len(a, lhs_t) && 0 <= j < gemv_in_len(b, rhs_t)
            ==> #[trigger] gemm_fits_at::<T>(a, lhs_t, b, rhs_t, i, j)
}

impl<T: Element> Matrix<T> {
    /// Adds `rhs` into this matrix, entry by entry over the shared
    /// row-major buffer.
    pub fn iadd(&mut self, rhs: &Matrix<T>)
        requires
            old(self).wf(),
            rhs.wf(),
            old(self).same_dims(*rhs),
            all_fit::<T>(zip_sum(vals(old(self).flat()), vals(rhs.flat()))),
        ensures
            final(self).wf(),
            final(self).same_dims(*old(self)),
            vals(final(self).flat()) == zip_sum(vals(old(self).flat()), vals(rhs.flat())),
    {
        let n: usize = self.buf.len();
        let mut k: usize = 0;
        while k < n
            invariant
                n == old(self).flat().len(),
                n == rhs.flat().len(),
                self.buf@.len() == n,
                self.rows == old(self).rows,
                self.cols == old(self).cols,
                all_fit::<T>(zip_sum(vals(old(self).flat()), vals(rhs.flat()))),
                k <= n,
                forall|p: int|
                    0 <= p < k ==> (#[trigger] self.buf@[p]).val() == zip_sum(
                        vals(old(self).flat()),
                        vals(rhs.flat()),
                    )[p],
                forall|p: int| k <= p < n ==> self.buf@[p] == old(self).buf@[p],
            decreases n - k,
        {
            assert(fits::<T>(zip_sum(vals(old(self).flat()), vals(rhs.flat()))[k as int]));
            let v = self.buf[k].add_el(rhs.buf[k]);
            self.buf[k] = v;
            k = k + 1;
        }
        proof {
            assert(vals(self.flat()) =~= zip_sum(vals(old(self).flat()), vals(rhs.flat())));
        }
    }

    /// Subtracts `rhs` from this matrix, entry by entry over the shared
    /// row-major buffer.
    pub fn isub(&mut self, rhs: &Matrix<T>)
        requires
            old(self).wf(),
            rhs.wf(),
            old(self).same_dims(*rhs),
            all_fit::<T>(zip_diff(vals(old(self).flat()), vals(rhs.flat()))),
        ensures
            final(self).wf(),
            final(self).same_dims(*old(self)),
            vals(final(self).flat()) == zip_diff(vals(old(self).flat()), vals(rhs.flat())),
    {
        let n: usize = self.buf.len();
        let mut k: usize = 0;
        while k < n
            invariant
                n == old(self).flat().len(),
                n == rhs.flat().len(),
                self.buf@.len() == n,
                self.rows == old(self).rows,
                self.cols == old(self).cols,
                all_fit::<T>(zip_diff(vals(old(self).flat()), vals(rhs.flat()))),
                k <= n,
                forall|p: int|
                    0 <= p < k ==> (#[trigger] self.buf@[p]).val() == zip_diff(
                        vals(old(self).flat()),
                        vals(rhs.flat()),
                    )[p],
                forall|p: int| k <= p < n ==> self.buf@[p] == old(self).buf@[p],
            decreases n - k,
        {
            assert(fits::<T>(zip_diff(vals(old(self).flat()), vals(rhs.flat()))[k as int]));
            let v = self.buf[k].sub_el(rhs.buf[k]);
            self.buf[k] = v;
            k = k + 1;
        }
        proof {
            assert(vals(self.flat()) =~= zip_diff(vals(old(self).flat()), vals(rhs.flat())));
        }
    }

    /// The elementwise sum of two matrices of one shape: a clone of this
    /// matrix with `rhs` then added in place.
    pub fn add(&self, rhs: &Matrix<T>) -> (m: Matrix<T>)
        requires
            self.wf(),
            rhs.wf(),
            self.same_dims(*rhs),
            all_fit::<T>(zip_sum(vals(self.flat()), vals(rhs.flat()))),
        ensures
            m.wf(),
            m.same_dims(*self),
            vals(m.flat()) == zip_sum(vals(self.flat()), vals(rhs.flat())),
    {
        let mut x = self.clone();
        x.iadd(rhs);
        x
    }

    /// The elementwise difference of two matrices of one shape: a clone of
    /// this matrix with `rhs` then subtracted in place.
    pub fn sub(&self, rhs: &Matrix<T>) -> (m: Matrix<T>)
        requires
            self.wf(),
            rhs.wf(),
            self.same_dims(*rhs),
            all_fit::<T>(zip_diff(vals(self.flat()), vals(rhs.flat()))),
        ensures
            m.wf(),
            m.same_dims(*self),
            vals(m.flat()) == zip_diff(vals(self.flat()), vals(rhs.flat())),
    {
        let mut x = self.clone();
        x.isub(rhs);
        x
    }
}

impl<T: Element> Matrix<T> {
    /// Adds `scalar` to every entry.
    pub fn add_scalar(&self, scalar: T) -> (m: Matrix<T>)
        requires
            self.wf(),
            all_fit::<T>(scal_sum(vals(self.flat()), scalar.val())),
        ensures
            m.wf(),
            m.same_dims(*self),
            vals(m.flat()) == scal_sum(vals(self.flat()), scalar.val()),
    {
        let n: usize = self.buf.len();
        let mut v: Vec<T> = Vec::new();
        let mut k: usize = 0;
        while k < n
            invariant
                n == self.flat().len(),
                all_fit::<T>(scal_sum(vals(self.flat()), scalar.val())),
                k <= n,
                v@.len() == k,
                forall|p: int|
                    0 <= p < k ==> (#[trigger] v@[p]).val() == scal_sum(
                        vals(self.flat()),
                        scalar.val(),
                    )[p],
            decreases n - k,
        {
            assert(fits::<T>(scal_sum(vals(self.flat()), scalar.val())[k as int]));
            v.push(self.buf[k].add_el(scalar));
            k = k + 1;
        }
        let m = Matrix::from_vec(v, self.rows(), self.cols());
        proof {
            assert(vals(m.flat()) =~= scal_sum(vals(self.flat()), scalar.val()));
        }
        m
    }

    /// Subtracts `scalar` from every entry.
    pub fn sub_scalar(&self, scalar: T) -> (m: Matrix<T>)
        requires
            self.wf(),
            all_fit::<T>(scal_diff(vals(self.flat()), scalar.val())),
        ensures
            m.wf(),
            m.same_dims(*self),
            vals(m.flat()) == scal_diff(vals(self.flat()), scalar.val()),
    {
        let n: usize = self.buf.len();
        let mut v: Vec<T> = Vec::new();
        let mut k: usize = 0;
        while k < n
            invariant
                n == self.flat().len(),
                all_fit::<T>(scal_diff(vals(self.flat()), scalar.val())),
                k <= n,
                v@.len() == k,
                forall|p: int|
                    0 <= p < k ==> (#[trigger] v@[p]).val() == scal_diff(
                        vals(self.flat()),
                        scalar.val(),
                    )[p],
            decreases n - k,
        {
            assert(fits::<T>(scal_diff(vals(self.flat()), scalar.val())[k as int]));
            v.push(self.buf[k].sub_el(scalar));
            k = k + 1;
        }
        let m = Matrix::from_vec(v, self.rows(), self.cols());
        proof {
            assert(vals(m.flat()) =~= scal_diff(vals(self.flat()), scalar.val()));
        }
        m
    }

    /// Scales every entry by `scalar`.
    pub fn mul_scalar(&self, scalar: T) -> (m: Matrix<T>)
        requires
            self.wf(),
            all_fit::<T>(scal_prod(vals(self.flat()), scalar.val())),
        ensures
            m.wf(),
            m.same_dims(*self),
            vals(m.flat()) == scal_prod(vals(self.flat()), scalar.val()),
    {
        let n: usize = self.buf.len();
        let mut v: Vec<T> = Vec::new();
        let mut k: usize = 0;
        while k < n
            invariant
                n == self.flat().len(),
                all_fit::<T>(scal_prod(vals(self.flat()), scalar.val())),
                k <= n,
                v@.len() == k,
                forall|p: int|
                    0 <= p < k ==> (#[trigger] v@[p]).val() == scal_prod(
                        vals(self.flat()),
                        scalar.val(),
                    )[p],
            decreases n - k,
        {
            assert(fits::<T>(scal_prod(vals(self.flat()), scalar.val())[k as int]));
            v.push(self.buf[k].mul_el(scalar));
            k = k + 1;
        }
        let m = Matrix::from_vec(v, self.rows(), self.cols());
        proof {
            assert(vals(m.flat()) =~= scal_prod(vals(self.flat()), scalar.val()));
        }
        m
    }

    /// Divides every entry by `scalar` (truncating quotient).
    pub fn div_scalar(&self, scalar: T) -> (m: Matrix<T>)
        requires
            self.wf(),
            scalar.val() != 0,
            all_fit::<T>(scal_quot(vals(self.flat()), scalar.val())),
        ensures
            m.wf(),
            m.same_dims(*self),
            vals(m.flat()) == scal_quot(vals(self.flat()), scalar.val()),
    {
        let n: usize = self.buf.len();
        let mut v: Vec<T> = Vec::new();
        let mut k: usize = 0;
        while k < n
            invariant
                n == self.flat().len(),
                scalar.val() != 0,
                all_fit::<T>(scal_quot(vals(self.flat()), scalar.val())),
                k <= n,
                v@.len() == k,
                forall|p: int|
                    0 <= p < k ==> (#[trigger] v@[p]).val() == scal_quot(
                        vals(self.flat()),
                        scalar.val(),
                    )[p],
            decreases n - k,
        {
            assert(fits::<T>(scal_quot(vals(self.flat()), scalar.val())[k as int]));
            v.push(self.buf[k].div_el(scalar));
            k = k + 1;
        }
        let m = Matrix::from_vec(v, self.rows(), self.cols());
        proof {
            assert(vals(m.flat()) =~= scal_quot(vals(self.flat()), scalar.val()));
        }
        m
    }
}

impl<T: Element> Matrix<T> {
    /// Adds `rhs` to every row of the matrix. Requires a vector as long as a row.
    pub fn add_row(&self, rhs: &Vec<T>) -> (m: Matrix<T>)
        requires
            self.wf(),
            rhs@.len() == self.ncols(),
            row_sum_fits::<T>(*self, vals(rhs@)),
        ensures
            m.wf(),
            m.same_dims(*self),
            forall|i: int, j: int|
                0 <= i < self.nrows() && 0 <= j < self.ncols() ==> (#[trigger] m.ent(i, j)).val()
                    == self.ent(i, j).val() + vals(rhs@)[j],
    {
        let rows: usize = self.rows();
        let cols: usize = self.cols();
        let mut m = self.clone();
        let mut i: usize = 0;
        while i < rows
            invariant
                rows == self.nrows(),
                cols == self.ncols(),
                self.wf(),
                rhs@.len() == cols,
                row_sum_fits::<T>(*self, vals(rhs@)),
                m.wf(),
                m.same_dims(*self),
                i <= rows,
                forall|p: int, q: int|
                    0 <= p < i && 0 <= q < cols ==> (#[trigger] m.ent(p, q)).val() == self.ent(
                        p,
                        q,
                    ).val() + vals(rhs@)[q],
                forall|p: int, q: int|
                    i <= p < rows && 0 <= q < cols ==> #[trigger] m.ent(p, q) == self.ent(p, q),
            decreases rows - i,
        {
            let mut j: usize = 0;
            while j < cols
                invariant
                    rows == self.nrows(),
                    cols == self.ncols(),
                    self.wf(),
                    rhs@.len() == cols,
                    row_sum_fits::<T>(*self, vals(rhs@)),
                    m.wf(),
                    m.same_dims(*self),
                    i < rows,
                    j <= cols,
                    forall|p: int, q: int|
                        0 <= p < i && 0 <= q < cols ==> (#[trigger] m.ent(p, q)).val() == self.ent(
                            p,
                            q,
                        ).val() + vals(rhs@)[q],
                    forall|q: int|
                        0 <= q < j ==> (#[trigger] m.ent(i as int, q)).val() == self.ent(
                            i as int,
                            q,
                        ).val() + vals(rhs@)[q],
                    forall|p: int, q: int|
                        0 <= p < rows && 0 <= q < cols && (p > i || (p == i && q >= j))
                            ==> #[trigger] m.ent(p, q) == self.ent(p, q),
                decreases cols - j,
            {
                assert(fits::<T>(self.ent(i as int, j as int).val() + vals(rhs@)[j as int]));
                let cur = m.get(i, j).unwrap();
                m.set(i, j, cur.add_el(rhs[j]));
                j = j + 1;
            }
            i = i + 1;
        }
        m
    }

    /// Subtracts `rhs` from every row of the matrix. Requires a vector as long as a row.
    pub fn sub_row(&self, rhs: &Vec<T>) -> (m: Matrix<T>)
        requires
            self.wf(),
            rhs@.len() == self.ncols(),
            row_diff_fits::<T>(*self, vals(rhs@)),
        ensures
            m.wf(),
            m.same_dims(*self),
            forall|i: int, j: int|
                0 <= i < self.nrows() && 0 <= j < self.ncols() ==> (#[trigger] m.ent(i, j)).val()
                    == self.ent(i, j).val() - vals(rhs@)[j],
    {
        let rows: usize = self.rows();
        let cols: usize = self.cols();
        let mut m = self.clone();
        let mut i: usize = 0;
        while i < rows
            invariant
                rows == self.nrows(),
                cols == self.ncols(),
                self.wf(),
                rhs@.len() == cols,
                row_diff_fits::<T>(*self, vals(rhs@)),
                m.wf(),
                m.same_dims(*self),
                i <= rows,
                forall|p: int, q: int|
                    0 <= p < i && 0 <= q < cols ==> (#[trigger] m.ent(p, q)).val() == self.ent(
                        p,
                        q,
                    ).val() - vals(rhs@)[q],
                forall|p: int, q: int|
                    i <= p < rows && 0 <= q < cols ==> #[trigger] m.ent(p, q) == self.ent(p, q),
            decreases rows - i,
        {
            let mut j: usize = 0;
            while j < cols
                invariant
                    rows == self.nrows(),
                    cols == self.ncols(),
                    self.wf(),
                    rhs@.len() == cols,
                    row_diff_fits::<T>(*self, vals(rhs@)),
                    m.wf(),
                    m.same_dims(*self),
                    i < rows,
                    j <= cols,
                    forall|p: int, q: int|
                        0 <= p < i && 0 <= q < cols ==> (#[trigger] m.ent(p, q)).val() == self.ent(
                            p,
                            q,
                        ).val() - vals(rhs@)[q],
                    forall|q: int|
                        0 <= q < j ==> (#[trigger] m.ent(i as int, q)).val() == self.ent(
                            i as int,
                            q,
                        ).val() - vals(rhs@)[q],
                    forall|p: int, q: int|
                        0 <= p < rows && 0 <= q < cols && (p > i || (p == i && q >= j))
                            ==> #[trigger] m.ent(p, q) == self.ent(p, q),
                decreases cols - j,
            {
                assert(fits::<T>(self.ent(i as int, j as int).val() - vals(rhs@)[j as int]));
                let cur = m.get(i, j).unwrap();
                m.set(i, j, cur.sub_el(rhs[j]));
                j = j + 1;
            }
            i = i + 1;
        }
        m
    }
}

impl<T: Element> Matrix<T> {
    /// The general matrix product `op(self) * op(rhs)`, with an independent
    /// transpose flag for each operand. Fails with a dimension mismatch,
    /// and only then, when the effective inner dimensions differ.
    pub fn mul(&self, rhs: &Matrix<T>, lhs_t: bool, rhs_t: bool) -> (res: Result<
        Matrix<T>,
        OpsError,
    >)
        requires
            self.wf(),
            rhs.wf(),
            gemv_in_len(*self, lhs_t) == gemv_out_len(*rhs, rhs_t) ==> gemv_out_len(*self, lhs_t)
                * gemv_in_len(*rhs, rhs_t) <= usize::MAX && gemm_fits::<T>(
                *self,
                lhs_t,
                *rhs,
                rhs_t,
            ),
        ensures
            res is Ok <==> gemv_in_len(*self, lhs_t) == gemv_out_len(*rhs, rhs_t),
            res matches Ok(m) ==> m.wf() && m.nrows() == gemv_out_len(*self, lhs_t) && m.ncols()
                == gemv_in_len(*rhs, rhs_t) && forall|i: int, j: int|
                0 <= i < m.nrows() && 0 <= j < m.ncols() ==> (#[trigger] m.ent(i, j)).val() == dot(
                    op_row_vals(*self, lhs_t, i),
                    op_col_vals(*rhs, rhs_t, j),
                ),
            res matches Err(e) ==> e == OpsError::DimensionMismatch,
    {
        let inner_l: usize = if lhs_t {
            self.rows()
        } else {
            self.cols()
        };
        let inner_r: usize = if rhs_t {
            rhs.cols()
        } else {
            rhs.rows()
        };
        if inner_l != inner_r {
            return Err(OpsError::DimensionMismatch);
        }
        let r: usize = if lhs_t {
            self.cols()
        } else {
            self.rows()
        };
        let c: usize = if rhs_t {
            rhs.rows()
        } else {
            rhs.cols()
        };
        let mut m = Matrix::fill(T::zero_el(), r, c);
        let mut i: usize = 0;
        while i < r
            invariant
                self.wf(),
                rhs.wf(),
                r == gemv_out_len(*self, lhs_t),
                c == gemv_in_len(*rhs, rhs_t),
                gemv_in_len(*self, lhs_t) == gemv_out_len(*rhs, rhs_t),
                gemm_fits::<T>(*self, lhs_t, *rhs, rhs_t),
                m.wf(),
                m.nrows() == r,
                m.ncols() == c,
                i <= r,
                forall|p: int, q: int|
                    0 <= p < i && 0 <= q < c ==> (#[trigger] m.ent(p, q)).val() == dot(
                        op_row_vals(*self, lhs_t, p),
                        op_col_vals(*rhs, rhs_t, q),
                    ),
            decreases r - i,
        {
            let a_i: Vec<T> = if lhs_t {
                self.col(i)
            } else {
                self.row(i)
            };
            proof {
                assert(vals(a_i@) =~= op_row_vals(*self, lhs_t, i as int));
            }
            let mut j: usize = 0;
            while j < c
                invariant
                    self.wf(),
                    rhs.wf(),
                    r == gemv_out_len(*self, lhs_t),
                    c == gemv_in_len(*rhs, rhs_t),
                    gemv_in_len(*self, lhs_t) == gemv_out_len(*rhs, rhs_t),
                    gemm_fits::<T>(*self, lhs_t, *rhs, rhs_t),
                    m.wf(),
                    m.nrows() == r,
                    m.ncols() == c,
                    i < r,
                    j <= c,
                    vals(a_i@) == op_row_vals(*self, lhs_t, i as int),
                    a_i@.len() == gemv_in_len(*self, lhs_t),
                    forall|p: int, q: int|
                        0 <= p < i && 0 <= q < c ==> (#[trigger] m.ent(p, q)).val() == dot(
                            op_row_vals(*self, lhs_t, p),
                            op_col_vals(*rhs, rhs_t, q),
                        ),
                    forall|q: int|
                        0 <= q < j ==> (#[trigger] m.ent(i as int, q)).val() == dot(
                            op_row_vals(*self, lhs_t, i as int),
                            op_col_vals(*rhs, rhs_t, q),
                        ),
                decreases c - j,
            {
                let b_j: Vec<T> = if rhs_t {
                    rhs.row(j)
                } else {
                    rhs.col(j)
                };
                proof {
                    assert(vals(b_j@) =~= op_col_vals(*rhs, rhs_t, j as int));
                    assert(gemm_fits_at::<T>(*self, lhs_t, *rhs, rhs_t, i as int, j as int));
                }
                let t = dot_el(&a_i, &b_j);
                m.set(i, j, t);
                j = j + 1;
            }
            i = i + 1;
        }
        Ok(m)
    }
}

impl<T: Element> PartialEq for Matrix<T> {
    /// Two matrices are equal when their shapes and all their scalar
    /// values agree.
    fn eq(&self, other: &Matrix<T>) -> (r: bool) {
        if self.rows != other.rows || self.cols != other.cols {
            return false;
        }
        let n: usize = self.buf.len();
        if n != other.buf.len() {
            assert(vals(self.flat()).len() != vals(other.flat()).len());
            return false;
        }
        let mut k: usize = 0;
        while k < n
            invariant
                n == self.flat().len(),
                n == other.flat().len(),
                k <= n,
                forall|p: int|
                    0 <= p < k ==> (#[trigger] self.buf@[p]).val() == other.buf@[p].val(),
            decreases n - k,
        {
            if !self.buf[k].eq_el(other.buf[k]) {
                assert(vals(self.flat())[k as int] != vals(other.flat())[k as int]);
                return false;
            }
            k = k + 1;
        }
        proof {
            assert(vals(self.flat()) =~= vals(other.flat()));
        }
        true
    }
}

impl<T: Element> vstd::std_specs::cmp::PartialEqSpecImpl for Matrix<T> {
    open spec fn obeys_eq_spec() -> bool {
        true
    }

    open spec fn eq_spec(&self, other: &Matrix<T>) -> bool {
        self.nrows() == other.nrows() && self.ncols() == other.ncols() && vals(self.flat())
            == vals(other.flat())
    }
}

} // verus!
