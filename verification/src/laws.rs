//! The algebraic laws the engines obey, stated over the same spec
//! functions that the operations' contracts use.

use vstd::prelude::*;
use crate::element::{Element, trunc_div};
use crate::ops::{scal_diff, scal_prod, scal_quot, scal_sum, zip_diff, zip_prod, zip_sum};
use crate::vectors::vals;
use vstd::arithmetic::div_mod::lemma_div_multiples_vanish;

verus! {

/// Two vectors of scalars whose mathematical values agree are equal.
pub proof fn lemma_vals_injective<T: Element>(s1: Seq<T>, s2: Seq<T>)
    requires
        vals(s1) == vals(s2),
    ensures
        s1 == s2,
{
    assert(vals(s1).len() == s1.len());
    assert(vals(s2).len() == s2.len());
    assert forall|i: int| 0 <= i < s1.len() implies s1[i] == s2[i] by {
        assert(vals(s1)[i] == s1[i].val());
        assert(vals(s2)[i] == s2[i].val());
        s1[i].val_injective(s2[i]);
    }
    assert(s1 =~= s2);
}

/// Law: for equal-length vectors, adding and then subtracting the same
/// vector returns the original values: `a.add(b).sub(b) == a`.
pub proof fn lemma_add_sub_roundtrip(a: Seq<int>, b: Seq<int>)
    requires
        a.len() == b.len(),
    ensures
        zip_diff(zip_sum(a, b), b) == a,
{
    assert(zip_diff(zip_sum(a, b), b) =~= a);
}

/// Law: adding and then subtracting the same scalar returns the original
/// values: `m.add_scalar(s).sub_scalar(s) == m`, on vectors and matrices
/// alike, since both state their contracts over the flat value sequence.
pub proof fn lemma_add_scalar_sub_scalar_roundtrip(a: Seq<int>, c: int)
    ensures
        scal_diff(scal_sum(a, c), c) == a,
{
    assert(scal_diff(scal_sum(a, c), c) =~= a);
}

/// A truncating quotient of an exact multiple recovers the factor.
pub proof fn lemma_trunc_div_exact(x: int, c: int)
    requires
        c != 0,
    ensures
        trunc_div(x * c, c) == x,
{
    let a = x * c;
    if c > 0 {
        if a == 0 {
            assert(x == 0) by (nonlinear_arith)
                requires
                    x * c == 0,
                    c > 0,
            ;
        } else if a > 0 {
            assert(a == c * x) by (nonlinear_arith)
                requires
                    a == x * c,
            ;
            lemma_div_multiples_vanish(x, c);
        } else {
            assert(a * -1 == c * (-x)) by (nonlinear_arith)
                requires
                    a == x * c,
            ;
            lemma_div_multiples_vanish(-x, c);
        }
    } else {
        let d = -c;
        if a == 0 {
            assert(x == 0) by (nonlinear_arith)
                requires
                    x * c == 0,
                    c < 0,
            ;
        } else if a > 0 {
            assert(a == d * (-x)) by (nonlinear_arith)
                requires
                    a == x * c,
                    d == -c,
            ;
            lemma_div_multiples_vanish(-x, d);
        } else {
            assert(a * -1 == d * x) by (nonlinear_arith)
                requires
                    a == x * c,
                    d == -c,
            ;
            lemma_div_multiples_vanish(x, d);
        }
    }
}

/// Law: scaling by a nonzero scalar and then dividing by it returns the
/// original values: `m.mul_scalar(s).div_scalar(s) == m` when `s != 0`.
pub proof fn lemma_mul_scalar_div_scalar_roundtrip(a: Seq<int>, c: int)
    requires
        c != 0,
    ensures
        scal_quot(scal_prod(a, c), c) == a,
{
    assert forall|i: int| 0 <= i < a.len() implies scal_quot(scal_prod(a, c), c)[i] == a[i] by {
        lemma_trunc_div_exact(a[i], c);
    }
    assert(scal_quot(scal_prod(a, c), c) =~= a);
}

/// Law: the allocating elementwise sum is clone-then-mutate: a copy of the
/// receiver holds the receiver's values, so the in-place sum applied to
/// the copy leaves exactly the values the allocating sum returns.
pub proof fn lemma_alloc_add_is_clone_iadd(a: Seq<int>, copy_of_a: Seq<int>, b: Seq<int>)
    requires
        a.len() == b.len(),
        copy_of_a == a,
    ensures
        zip_sum(copy_of_a, b) == zip_sum(a, b),
        zip_sum(a, b).len() == a.len(),
{
}

/// Law: the allocating elementwise difference is clone-then-mutate, as
/// `lemma_alloc_add_is_clone_iadd` states for the sum.
pub proof fn lemma_alloc_sub_is_clone_isub(a: Seq<int>, copy_of_a: Seq<int>, b: Seq<int>)
    requires
        a.len() == b.len(),
        copy_of_a == a,
    ensures
        zip_diff(copy_of_a, b) == zip_diff(a, b),
        zip_diff(a, b).len() == a.len(),
{
}

/// Law: the allocating elementwise product is clone-then-mutate, as
/// `lemma_alloc_add_is_clone_iadd` states for the sum.
pub proof fn lemma_alloc_mul_is_clone_imul(a: Seq<int>, copy_of_a: Seq<int>, b: Seq<int>)
    requires
        a.len() == b.len(),
        copy_of_a == a,
    ensures
        zip_prod(copy_of_a, b) == zip_prod(a, b),
        zip_prod(a, b).len() == a.len(),
{
}

} // verus!
