//! Elementwise and scalar-broadcast engines over vectors, allocating and
//! in-place, together with the outer product.

use vstd::prelude::*;
use crate::element::{Element, SignedElement, abs_val, fits, trunc_div};
use crate::matrix::Matrix;
use crate::vectors::vals;

verus! {

/// Length of the zipped region of two sequences: the shorter length.
pub open spec fn zip_len(a: Seq<int>, b: Seq<int>) -> nat {
    if a.len() <= b.len() {
        a.len()
    } else {
        b.len()
    }
}

/// Pairwise sums over the zipped region.
pub open spec fn zip_sum(a: Seq<int>, b: Seq<int>) -> Seq<int> {
    Seq::new(zip_len(a, b), |i: int| a[i] + b[i])
}

/// Pairwise differences over the zipped region.
pub open spec fn zip_diff(a: Seq<int>, b: Seq<int>) -> Seq<int> {
    Seq::new(zip_len(a, b), |i: int| a[i] - b[i])
}

/// Pairwise products over the zipped region.
pub open spec fn zip_prod(a: Seq<int>, b: Seq<int>) -> Seq<int> {
    Seq::new(zip_len(a, b), |i: int| a[i] * b[i])
}

/// Pairwise truncating quotients over the zipped region.
pub open spec fn zip_quot(a: Seq<int>, b: Seq<int>) -> Seq<int> {
    Seq::new(zip_len(a, b), |i: int| trunc_div(a[i], b[i]))
}

/// Every value of `s` shifted by the scalar `c`.
pub open spec fn scal_sum(a: Seq<int>, c: int) -> Seq<int> {
    Seq::new(a.len(), |i: int| a[i] + c)
}

/// Every value of `s` less the scalar `c`.
pub open spec fn scal_diff(a: Seq<int>, c: int) -> Seq<int> {
    Seq::new(a.len(), |i: int| a[i] - c)
}

/// Every value of `s` scaled by the scalar `c`.
pub open spec fn scal_prod(a: Seq<int>, c: int) -> Seq<int> {
    Seq::new(a.len(), |i: int| a[i] * c)
}

/// The truncating quotient of every value of `s` by the scalar `c`.
pub open spec fn scal_quot(a: Seq<int>, c: int) -> Seq<int> {
    Seq::new(a.len(), |i: int| trunc_div(a[i], c))
}

/// The magnitudes of the values of `s`.
pub open spec fn seq_abs(a: Seq<int>) -> Seq<int> {
    Seq::new(a.len(), |i: int| abs_val(a[i]))
}

/// Every value of `s` lies in the range of the scalar kind `T`.
pub open spec fn all_fit<T: Element>(s: Seq<int>) -> bool {
    forall|i: int| 0 <= i < s.len() ==> fits::<T>(#[trigger] s[i])
}

/// No zero stands in the zipped region of the divisor.
pub open spec fn zip_nonzero(a: Seq<int>, b: Seq<int>) -> bool {
    forall|i: int| 0 <= i < zip_len(a, b) ==> #[trigger] b[i] != 0
}

/// Every product of a value of `a` with a value of `b` lies in the range
/// of the scalar kind `T`.
pub open spec fn outer_fits<T: Element>(a: Seq<int>, b: Seq<int>) -> bool {
    forall|i: int, j: int|
        0 <= i < a.len() && 0 <= j < b.len() ==> fits::<T>(#[trigger] (a[i] * b[j]))
}

/// Elementwise binary operations between two vectors. A length mismatch is
/// not an error here: the zip semantics truncate to the shorter operand.
pub trait VectorVectorOps<T: Element>: View<V = Seq<T>> {
    /// Pairwise difference, truncated to the shorter operand.
    fn sub(&self, rhs: &Vec<T>) -> (r: Vec<T>)
        requires
            all_fit::<T>(zip_diff(vals(self@), vals(rhs@))),
        ensures
            vals(r@) == zip_diff(vals(self@), vals(rhs@)),
    ;

    /// Pairwise sum, truncated to the shorter operand.
    fn add(&self, rhs: &Vec<T>) -> (r: Vec<T>)
        requires
            all_fit::<T>(zip_sum(vals(self@), vals(rhs@))),
        ensures
            vals(r@) == zip_sum(vals(self@), vals(rhs@)),
    ;

    /// Pairwise (elementwise, not dot) product, truncated to the shorter
    /// operand.
    fn mul(&self, rhs: &Vec<T>) -> (r: Vec<T>)
        requires
            all_fit::<T>(zip_prod(vals(self@), vals(rhs@))),
        ensures
            vals(r@) == zip_prod(vals(self@), vals(rhs@)),
    ;

    /// Pairwise truncating quotient, truncated to the shorter operand.
    fn div(&self, rhs: &Vec<T>) -> (r: Vec<T>)
        requires
            zip_nonzero(vals(self@), vals(rhs@)),
            all_fit::<T>(zip_quot(vals(self@), vals(rhs@))),
        ensures
            vals(r@) == zip_quot(vals(self@), vals(rhs@)),
    ;

    /// Applies `f` to every element independently; no accumulation across
    /// elements takes place.
    fn mutate<F: Fn(T) -> T>(&self, f: F) -> (r: Vec<T>)
        requires
            forall|i: int| 0 <= i < self@.len() ==> f.requires((#[trigger] self@[i],)),
        ensures
            r@.len() == self@.len(),
            forall|i: int|
                0 <= i < self@.len() ==> f.ensures((self@[i],), #[trigger] r@[i]),
    ;

    /// The outer product: entry `(i, j)` is `self[i] * rhs[j]`.
    fn col_mul_row(&self, rhs: &Vec<T>) -> (m: Matrix<T>)
        requires
            self@.len() * rhs@.len() <= usize::MAX,
            outer_fits::<T>(vals(self@), vals(rhs@)),
        ensures
            m.wf(),
            m.nrows() == self@.len(),
            m.ncols() == rhs@.len(),
            forall|i: int, j: int|
                0 <= i < self@.len() && 0 <= j < rhs@.len()
                    ==> (#[trigger] m.ent(i, j)).val() == vals(self@)[i] * vals(rhs@)[j],
    ;
}

/// Scalar-broadcast operations over a vector: the scalar meets every
/// element, and the result keeps the receiver's length.
pub trait VectorScalarOps<T: Element>: View<V = Seq<T>> {
    /// Scales every element by `scalar`.
    fn mul_scalar(&self, scalar: T) -> (r: Vec<T>)
        requires
            all_fit::<T>(scal_prod(vals(self@), scalar.val())),
        ensures
            vals(r@) == scal_prod(vals(self@), scalar.val()),
    ;

    /// Divides every element by `scalar` (truncating quotient).
    fn div_scalar(&self, scalar: T) -> (r: Vec<T>)
        requires
            scalar.val() != 0,
            all_fit::<T>(scal_quot(vals(self@), scalar.val())),
        ensures
            vals(r@) == scal_quot(vals(self@), scalar.val()),
    ;

    /// Adds `scalar` to every element.
    fn add_scalar(&self, scalar: T) -> (r: Vec<T>)
        requires
            all_fit::<T>(scal_sum(vals(self@), scalar.val())),
        ensures
            vals(r@) == scal_sum(vals(self@), scalar.val()),
    ;

    /// Subtracts `scalar` from every element.
    fn sub_scalar(&self, scalar: T) -> (r: Vec<T>)
        requires
            all_fit::<T>(scal_diff(vals(self@), scalar.val())),
        ensures
            vals(r@) == scal_diff(vals(self@), scalar.val()),
    ;
}

/// The in-place mutation engine: the receiver's storage is overwritten,
/// and both operands must share one length.
pub trait VectorVectorOpsInPlace<T: Element>: View<V = Seq<T>> {
    /// Adds `rhs` into the receiver.
    fn iadd(&mut self, rhs: &Vec<T>)
        requires
            old(self)@.len() == rhs@.len(),
            all_fit::<T>(zip_sum(vals(old(self)@), vals(rhs@))),
        ensures
            vals(final(self)@) == zip_sum(vals(old(self)@), vals(rhs@)),
    ;

    /// Subtracts `rhs` from the receiver.
    fn isub(&mut self, rhs: &Vec<T>)
        requires
            old(self)@.len() == rhs@.len(),
            all_fit::<T>(zip_diff(vals(old(self)@), vals(rhs@))),
        ensures
            vals(final(self)@) == zip_diff(vals(old(self)@), vals(rhs@)),
    ;

    /// Multiplies the receiver elementwise by `rhs`.
    fn imul(&mut self, rhs: &Vec<T>)
        requires
            old(self)@.len() == rhs@.len(),
            all_fit::<T>(zip_prod(vals(old(self)@), vals(rhs@))),
        ensures
            vals(final(self)@) == zip_prod(vals(old(self)@), vals(rhs@)),
    ;
}

/// Mapping a vector into a vector of another scalar kind.
pub trait Ops<T: Copy>: View<V = Seq<T>> {
    /// Applies `f` to every element, collecting the results in order.
    fn map<F: Fn(&T) -> U, U>(&self, f: F) -> (r: Vec<U>)
        requires
            forall|i: int| 0 <= i < self@.len() ==> f.requires((&(#[trigger] self@[i]),)),
        ensures
            r@.len() == self@.len(),
            forall|i: int|
                0 <= i < self@.len() ==> f.ensures((&self@[i],), #[trigger] r@[i]),
    ;
}

/// Absolute value, which exists on the signed scalar kinds only.
pub trait OpsSigned<T: SignedElement>: View<V = Seq<T>> {
    /// The magnitude of every element.
    fn abs(&self) -> (r: Vec<T>)
        requires
            all_fit::<T>(seq_abs(vals(self@))),
        ensures
            vals(r@) == seq_abs(vals(self@)),
    ;
}

impl<T: Element> VectorVectorOps<T> for Vec<T> {
    fn sub(&self, rhs: &Vec<T>) -> (r: Vec<T>) {
        let n: usize = if self.len() <= rhs.len() {
            self.len()
        } else {
            rhs.len()
        };
        let mut r: Vec<T> = Vec::new();
        let mut i: usize = 0;
        while i < n
            invariant
                n == zip_len(vals(self@), vals(rhs@)),
                all_fit::<T>(zip_diff(vals(self@), vals(rhs@))),
                i <= n,
                r@.len() == i,
                forall|p: int|
                    0 <= p < i ==> (#[trigger] r@[p]).val() == zip_diff(
                        vals(self@),
                        vals(rhs@),
                    )[p],
            decreases n - i,
        {
            assert(fits::<T>(zip_diff(vals(self@), vals(rhs@))[i as int]));
            r.push(self[i].sub_el(rhs[i]));
            i = i + 1;
        }
        proof {
            assert(vals(r@) =~= zip_diff(vals(self@), vals(rhs@)));
        }
        r
    }

    fn add(&self, rhs: &Vec<T>) -> (r: Vec<T>) {
        let n: usize = if self.len() <= rhs.len() {
            self.len()
        } else {
            rhs.len()
        };
        let mut r: Vec<T> = Vec::new();
        let mut i: usize = 0;
        while i < n
            invariant
                n == zip_len(vals(self@), vals(rhs@)),
                all_fit::<T>(zip_sum(vals(self@), vals(rhs@))),
                i <= n,
                r@.len() == i,
                forall|p: int|
                    0 <= p < i ==> (#[trigger] r@[p]).val() == zip_sum(
                        vals(self@),
                        vals(rhs@),
                    )[p],
            decreases n - i,
        {
            assert(fits::<T>(zip_sum(vals(self@), vals(rhs@))[i as int]));
            r.push(self[i].add_el(rhs[i]));
            i = i + 1;
        }
        proof {
            assert(vals(r@) =~= zip_sum(vals(self@), vals(rhs@)));
        }
        r
    }

    fn mul(&self, rhs: &Vec<T>) -> (r: Vec<T>) {
        let n: usize = if self.len() <= rhs.len() {
            self.len()
        } else {
            rhs.len()
        };
        let mut r: Vec<T> = Vec::new();
        let mut i: usize = 0;
        while i < n
            invariant
                n == zip_len(vals(self@), vals(rhs@)),
                all_fit::<T>(zip_prod(vals(self@), vals(rhs@))),
                i <= n,
                r@.len() == i,
                forall|p: int|
                    0 <= p < i ==> (#[trigger] r@[p]).val() == zip_prod(
                        vals(self@),
                        vals(rhs@),
                    )[p],
            decreases n - i,
        {
            assert(fits::<T>(zip_prod(vals(self@), vals(rhs@))[i as int]));
            r.push(self[i].mul_el(rhs[i]));
            i = i + 1;
        }
        proof {
            assert(vals(r@) =~= zip_prod(vals(self@), vals(rhs@)));
        }
        r
    }

    fn div(&self, rhs: &Vec<T>) -> (r: Vec<T>) {
        let n: usize = if self.len() <= rhs.len() {
            self.len()
        } else {
            rhs.len()
        };
        let mut r: Vec<T> = Vec::new();
        let mut i: usize = 0;
        while i < n
            invariant
                n == zip_len(vals(self@), vals(rhs@)),
                zip_nonzero(vals(self@), vals(rhs@)),
                all_fit::<T>(zip_quot(vals(self@), vals(rhs@))),
                i <= n,
                r@.len() == i,
                forall|p: int|
                    0 <= p < i ==> (#[trigger] r@[p]).val() == zip_quot(
                        vals(self@),
                        vals(rhs@),
                    )[p],
            decreases n - i,
        {
            assert(fits::<T>(zip_quot(vals(self@), vals(rhs@))[i as int]));
            assert(vals(rhs@)[i as int] != 0);
            r.push(self[i].div_el(rhs[i]));
            i = i + 1;
        }
        proof {
            assert(vals(r@) =~= zip_quot(vals(self@), vals(rhs@)));
        }
        r
    }

    fn mutate<F: Fn(T) -> T>(&self, f: F) -> (r: Vec<T>) {
        let n: usize = self.len();
        let mut r: Vec<T> = Vec::new();
        let mut i: usize = 0;
        while i < n
            invariant
                n == self@.len(),
                forall|p: int| 0 <= p < n ==> f.requires((#[trigger] self@[p],)),
                i <= n,
                r@.len() == i,
                forall|p: int| 0 <= p < i ==> f.ensures((self@[p],), #[trigger] r@[p]),
            decreases n - i,
        {
            r.push(f(self[i]));
            i = i + 1;
        }
        r
    }

    fn col_mul_row(&self, rhs: &Vec<T>) -> (m: Matrix<T>) {
        let rows: usize = self.len();
        let cols: usize = rhs.len();
        let mut m = Matrix::fill(T::zero_el(), rows, cols);
        let mut i: usize = 0;
        while i < rows
            invariant
                rows == self@.len(),
                cols == rhs@.len(),
                outer_fits::<T>(vals(self@), vals(rhs@)),
                m.wf(),
                m.nrows() == rows,
                m.ncols() == cols,
                i <= rows,
                forall|p: int, q: int|
                    0 <= p < i && 0 <= q < cols ==> (#[trigger] m.ent(p, q)).val() == vals(
                        self@,
                    )[p] * vals(rhs@)[q],
            decreases rows - i,
        {
            let mut j: usize = 0;
            while j < cols
                invariant
                    rows == self@.len(),
                    cols == rhs@.len(),
                    outer_fits::<T>(vals(self@), vals(rhs@)),
                    m.wf(),
                    m.nrows() == rows,
                    m.ncols() == cols,
                    i < rows,
                    j <= cols,
                    forall|p: int, q: int|
                        0 <= p < i && 0 <= q < cols ==> (#[trigger] m.ent(p, q)).val() == vals(
                            self@,
                        )[p] * vals(rhs@)[q],
                    forall|q: int|
                        0 <= q < j ==> (#[trigger] m.ent(i as int, q)).val() == vals(
                            self@,
                        )[i as int] * vals(rhs@)[q],
                decreases cols - j,
            {
                assert(fits::<T>(vals(self@)[i as int] * vals(rhs@)[j as int]));
                m.set(i, j, self[i].mul_el(rhs[j]));
                j = j + 1;
            }
            i = i + 1;
        }
        m
    }
}

impl<T: Element> VectorScalarOps<T> for Vec<T> {
    fn mul_scalar(&self, scalar: T) -> (r: Vec<T>) {
        let n: usize = self.len();
        let mut r: Vec<T> = Vec::new();
        let mut i: usize = 0;
        while i < n
            invariant
                n == self@.len(),
                all_fit::<T>(scal_prod(vals(self@), scalar.val())),
                i <= n,
                r@.len() == i,
                forall|p: int|
                    0 <= p < i ==> (#[trigger] r@[p]).val() == scal_prod(
                        vals(self@),
                        scalar.val(),
                    )[p],
            decreases n - i,
        {
            assert(fits::<T>(scal_prod(vals(self@), scalar.val())[i as int]));
            r.push(self[i].mul_el(scalar));
            i = i + 1;
        }
        proof {
            assert(vals(r@) =~= scal_prod(vals(self@), scalar.val()));
        }
        r
    }

    fn div_scalar(&self, scalar: T) -> (r: Vec<T>) {
        let n: usize = self.len();
        let mut r: Vec<T> = Vec::new();
        let mut i: usize = 0;
        while i < n
            invariant
                n == self@.len(),
                scalar.val() != 0,
                all_fit::<T>(scal_quot(vals(self@), scalar.val())),
                i <= n,
                r@.len() == i,
                forall|p: int|
                    0 <= p < i ==> (#[trigger] r@[p]).val() == scal_quot(
                        vals(self@),
                        scalar.val(),
                    )[p],
            decreases n - i,
        {
            assert(fits::<T>(scal_quot(vals(self@), scalar.val())[i as int]));
            r.push(self[i].div_el(scalar));
            i = i + 1;
        }
        proof {
            assert(vals(r@) =~= scal_quot(vals(self@), scalar.val()));
        }
        r
    }

    fn add_scalar(&self, scalar: T) -> (r: Vec<T>) {
        let n: usize = self.len();
        let mut r: Vec<T> = Vec::new();
        let mut i: usize = 0;
        while i < n
            invariant
                n == self@.len(),
                all_fit::<T>(scal_sum(vals(self@), scalar.val())),
                i <= n,
                r@.len() == i,
                forall|p: int|
                    0 <= p < i ==> (#[trigger] r@[p]).val() == scal_sum(
                        vals(self@),
                        scalar.val(),
                    )[p],
            decreases n - i,
        {
            assert(fits::<T>(scal_sum(vals(self@), scalar.val())[i as int]));
            r.push(self[i].add_el(scalar));
            i = i + 1;
        }
        proof {
            assert(vals(r@) =~= scal_sum(vals(self@), scalar.val()));
        }
        r
    }

    fn sub_scalar(&self, scalar: T) -> (r: Vec<T>) {
        let n: usize = self.len();
        let mut r: Vec<T> = Vec::new();
        let mut i: usize = 0;
        while i < n
            invariant
                n == self@.len(),
                all_fit::<T>(scal_diff(vals(self@), scalar.val())),
                i <= n,
                r@.len() == i,
                forall|p: int|
                    0 <= p < i ==> (#[trigger] r@[p]).val() == scal_diff(
                        vals(self@),
                        scalar.val(),
                    )[p],
            decreases n - i,
        {
            assert(fits::<T>(scal_diff(vals(self@), scalar.val())[i as int]));
            r.push(self[i].sub_el(scalar));
            i = i + 1;
        }
        proof {
            assert(vals(r@) =~= scal_diff(vals(self@), scalar.val()));
        }
        r
    }
}

impl<T: Element> VectorVectorOpsInPlace<T> for Vec<T> {
    fn iadd(&mut self, rhs: &Vec<T>) {
        let n: usize = self.len();
        let mut i: usize = 0;
        while i < n
            invariant
                n == rhs@.len(),
                old(self)@.len() == n,
                self@.len() == n,
                all_fit::<T>(zip_sum(vals(old(self)@), vals(rhs@))),
                i <= n,
                forall|p: int|
                    0 <= p < i ==> (#[trigger] self@[p]).val() == zip_sum(
                        vals(old(self)@),
                        vals(rhs@),
                    )[p],
                forall|p: int| i <= p < n ==> self@[p] == old(self)@[p],
            decreases n - i,
        {
            assert(fits::<T>(zip_sum(vals(old(self)@), vals(rhs@))[i as int]));
            let v = self[i].add_el(rhs[i]);
            self[i] = v;
            i = i + 1;
        }
        proof {
            assert(vals(self@) =~= zip_sum(vals(old(self)@), vals(rhs@)));
        }
    }

    fn isub(&mut self, rhs: &Vec<T>) {
        let n: usize = self.len();
        let mut i: usize = 0;
        while i < n
            invariant
                n == rhs@.len(),
                old(self)@.len() == n,
                self@.len() == n,
                all_fit::<T>(zip_diff(vals(old(self)@), vals(rhs@))),
                i <= n,
                forall|p: int|
                    0 <= p < i ==> (#[trigger] self@[p]).val() == zip_diff(
                        vals(old(self)@),
                        vals(rhs@),
                    )[p],
                forall|p: int| i <= p < n ==> self@[p] == old(self)@[p],
            decreases n - i,
        {
            assert(fits::<T>(zip_diff(vals(old(self)@), vals(rhs@))[i as int]));
            let v = self[i].sub_el(rhs[i]);
            self[i] = v;
            i = i + 1;
        }
        proof {
            assert(vals(self@) =~= zip_diff(vals(old(self)@), vals(rhs@)));
        }
    }

    fn imul(&mut self, rhs: &Vec<T>) {
        let n: usize = self.len();
        let mut i: usize = 0;
        while i < n
            invariant
                n == rhs@.len(),
                old(self)@.len() == n,
                self@.len() == n,
                all_fit::<T>(zip_prod(vals(old(self)@), vals(rhs@))),
                i <= n,
                forall|p: int|
                    0 <= p < i ==> (#[trigger] self@[p]).val() == zip_prod(
                        vals(old(self)@),
                        vals(rhs@),
                    )[p],
                forall|p: int| i <= p < n ==> self@[p] == old(self)@[p],
            decreases n - i,
        {
            assert(fits::<T>(zip_prod(vals(old(self)@), vals(rhs@))[i as int]));
            let v = self[i].mul_el(rhs[i]);
            self[i] = v;
            i = i + 1;
        }
        proof {
            assert(vals(self@) =~= zip_prod(vals(old(self)@), vals(rhs@)));
        }
    }
}

impl<T: Copy> Ops<T> for Vec<T> {
    fn map<F: Fn(&T) -> U, U>(&self, f: F) -> (r: Vec<U>) {
        let n: usize = self.len();
        let mut r: Vec<U> = Vec::new();
        let mut i: usize = 0;
        while i < n
            invariant
                n == self@.len(),
                forall|p: int| 0 <= p < n ==> f.requires((&(#[trigger] self@[p]),)),
                i <= n,
                r@.len() == i,
                forall|p: int| 0 <= p < i ==> f.ensures((&self@[p],), #[trigger] r@[p]),
            decreases n - i,
        {
            r.push(f(&self[i]));
            i = i + 1;
        }
        r
    }
}

impl<T: SignedElement> OpsSigned<T> for Vec<T> {
    fn abs(&self) -> (r: Vec<T>) {
        let n: usize = self.len();
        let mut r: Vec<T> = Vec::new();
        let mut i: usize = 0;
        while i < n
            invariant
                n == self@.len(),
                all_fit::<T>(seq_abs(vals(self@))),
                i <= n,
                r@.len() == i,
                forall|p: int|
                    0 <= p < i ==> (#[trigger] r@[p]).val() == seq_abs(vals(self@))[p],
            decreases n - i,
        {
            assert(fits::<T>(seq_abs(vals(self@))[i as int]));
            r.push(self[i].abs_el());
            i = i + 1;
        }
        proof {
            assert(vals(r@) =~= seq_abs(vals(self@)));
        }
        r
    }
}

} // verus!
