//! Functions to operate on vectors.

use vstd::prelude::*;
use crate::element::Element;

verus! {

/// The mathematical values of a sequence of scalars.
pub open spec fn vals<T: Element>(s: Seq<T>) -> Seq<int> {
    s.map_values(|e: T| e.val())
}

/// The value/count pairs of a sequence of grouped scalars.
pub open spec fn pairs<T: Element>(s: Seq<(T, usize)>) -> Seq<(int, int)> {
    s.map_values(|p: (T, usize)| (p.0.val(), p.1 as int))
}

/// Run-length encoding of a sequence: each run of equal adjacent values
/// becomes one (value, length) pair, in order.
pub open spec fn rle(s: Seq<int>) -> Seq<(int, int)>
    decreases s.len(),
{
    if s.len() == 0 {
        Seq::empty()
    } else {
        let p = rle(s.drop_last());
        let x = s.last();
        if p.len() > 0 && p.last().0 == x {
            p.update(p.len() - 1, (x, p.last().1 + 1))
        } else {
            p.push((x, 1))
        }
    }
}

/// Groups equal adjacent elements into one element and counts them.
pub fn group<T: Element>(v: &Vec<T>) -> (r: Vec<(T, usize)>)
    ensures
        pairs(r@) == rle(vals(v@)),
{
    let n: usize = v.len();
    let mut r: Vec<(T, usize)> = Vec::new();
    let mut i: usize = 0;
    while i < n
        invariant
            n == v@.len(),
            i <= n,
            pairs(r@) == rle(vals(v@).take(i as int)),
            forall|k: int| 0 <= k < r@.len() ==> (#[trigger] r@[k]).1 <= i,
        decreases n - i,
    {
        let x = v[i];
        if r.len() == 0 {
            r.push((x, 1));
        } else {
            let mut last = r.pop().unwrap();
            if last.0.eq_el(x) {
                last.1 = last.1 + 1;
                r.push(last);
            } else {
                r.push(last);
                r.push((x, 1));
            }
        }
        proof {
            let s1 = vals(v@).take(i + 1);
            assert(s1.drop_last() =~= vals(v@).take(i as int));
            assert(s1.last() == x.val());
            assert(pairs(r@) =~= rle(s1));
        }
        i = i + 1;
    }
    proof {
        assert(vals(v@).take(n as int) =~= vals(v@));
    }
    r
}

/// Creates a vector of `n` elements that all equal zero.
pub fn zero<T: Element>(n: usize) -> (r: Vec<T>)
    ensures
        r@.len() == n,
        forall|i: int| 0 <= i < n ==> vals(r@)[i] == 0,
{
    let mut r: Vec<T> = Vec::new();
    let mut i: usize = 0;
    while i < n
        invariant
            i <= n,
            r@.len() == i,
            forall|p: int| 0 <= p < i ==> (#[trigger] r@[p]).val() == 0,
        decreases n - i,
    {
        r.push(T::zero_el());
        i = i + 1;
    }
    r
}

/// Creates a vector of `n` random elements.
///
/// Relies on rand::random_iter: each element is drawn from the standard
/// uniform distribution of `T`. Nothing holds of the drawn values, so the
/// contract promises the length alone.
#[verifier::external_body]
pub fn random<T>(n: usize) -> (r: Vec<T>)
    where
        rand::distr::StandardUniform: rand::distr::Distribution<T>,
    ensures
        r@.len() == n,
{
    rand::random_iter().take(n).collect()
}

/// How many elements `copy_memory` moves: bounded by both lengths and by `n`.
pub open spec fn copy_count<T>(dst: Seq<T>, src: Seq<T>, n: int) -> int {
    vstd::math::min(vstd::math::min(dst.len() as int, src.len() as int), n)
}

/// Copies the first elements of `src` over the first elements of `dst`:
/// as many as both lengths and `n` allow, and returns that count.
pub fn copy_memory<T: Copy>(dst: &mut Vec<T>, src: &Vec<T>, n: usize) -> (c: usize)
    ensures
        c == copy_count(old(dst)@, src@, n as int),
        final(dst)@.len() == old(dst)@.len(),
        forall|i: int| 0 <= i < c ==> final(dst)@[i] == src@[i],
        forall|i: int| c <= i < old(dst)@.len() ==> final(dst)@[i] == old(dst)@[i],
{
    let mut c: usize = dst.len();
    if src.len() < c {
        c = src.len();
    }
    if n < c {
        c = n;
    }
    let mut i: usize = 0;
    while i < c
        invariant
            i <= c,
            c <= dst@.len(),
            c <= src@.len(),
            dst@.len() == old(dst)@.len(),
            forall|p: int| 0 <= p < i ==> dst@[p] == src@[p],
            forall|p: int| i <= p < dst@.len() ==> dst@[p] == old(dst)@[p],
        decreases c - i,
    {
        dst[i] = src[i];
        i = i + 1;
    }
    c
}

} // verus!
