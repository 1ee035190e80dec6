//! Exact arithmetic on dense count vectors.
//!
//! A feature map is viewed as a dense vector of label counts, and the
//! similarity engine's contracts are stated over [`dot_upto`], the dot
//! product of the first `n` coordinates. This module proves the facts the
//! engine needs: the dot product is symmetric, non-negative on non-negative
//! vectors, zero against a zero vector, and bounded by the Cauchy-Schwarz
//! inequality, which keeps the cosine score inside the unit interval.

use vstd::prelude::*;

verus! {

/// Dot product of the first `n` coordinates of `a` and `b`.
pub open spec fn dot_upto(a: Seq<int>, b: Seq<int>, n: int) -> int
    decreases n,
{
    if n <= 0 {
        0
    } else {
        dot_upto(a, b, n - 1) + a[n - 1] * b[n - 1]
    }
}

/// The dot product only reads coordinates below `n`.
pub proof fn lemma_dot_upto_agree(a1: Seq<int>, a2: Seq<int>, b: Seq<int>, n: int)
    requires
        forall|i: int| 0 <= i < n ==> a1[i] == a2[i],
    ensures
        dot_upto(a1, b, n) == dot_upto(a2, b, n),
    decreases n,
{
    if n > 0 {
        lemma_dot_upto_agree(a1, a2, b, n - 1);
    }
}

/// The dot product is symmetric.
pub proof fn lemma_dot_upto_comm(a: Seq<int>, b: Seq<int>, n: int)
    ensures
        dot_upto(a, b, n) == dot_upto(b, a, n),
    decreases n,
{
    if n > 0 {
        lemma_dot_upto_comm(a, b, n - 1);
    }
}

/// Raising one coordinate of the left vector adds that step times the
/// matching coordinate of the right vector.
pub proof fn lemma_dot_upto_update(a: Seq<int>, b: Seq<int>, n: int, k: int, d: int)
    requires
        0 <= k < n,
        n <= a.len(),
    ensures
        dot_upto(a.update(k, a[k] + d), b, n) == dot_upto(a, b, n) + d * b[k],
    decreases n,
{
    let a2 = a.update(k, a[k] + d);
    if k == n - 1 {
        assert(forall|i: int| 0 <= i < n - 1 ==> a2[i] == a[i]);
        lemma_dot_upto_agree(a2, a, b, n - 1);
        assert(a2[n - 1] * b[n - 1] == a[n - 1] * b[n - 1] + d * b[n - 1]) by (nonlinear_arith)
            requires
                a2[n - 1] == a[n - 1] + d,
        ;
    } else {
        lemma_dot_upto_update(a, b, n - 1, k, d);
    }
}

/// A dot product of coordinatewise non-negative vectors is non-negative.
pub proof fn lemma_dot_upto_nonneg(a: Seq<int>, b: Seq<int>, n: int)
    requires
        forall|i: int| 0 <= i < n ==> a[i] >= 0 && b[i] >= 0,
    ensures
        dot_upto(a, b, n) >= 0,
    decreases n,
{
    if n > 0 {
        lemma_dot_upto_nonneg(a, b, n - 1);
        assert(a[n - 1] * b[n - 1] >= 0) by (nonlinear_arith)
            requires
                a[n - 1] >= 0 && b[n - 1] >= 0,
        ;
    }
}

/// Against a vector whose coordinates are all zero, the dot product is zero.
pub proof fn lemma_dot_upto_zero_left(a: Seq<int>, b: Seq<int>, n: int)
    requires
        forall|i: int| 0 <= i < n ==> a[i] == 0,
    ensures
        dot_upto(a, b, n) == 0,
    decreases n,
{
    if n > 0 {
        lemma_dot_upto_zero_left(a, b, n - 1);
    }
}

/// A non-negative vector whose dot product with itself is zero is zero in
/// every coordinate below `n`.
pub proof fn lemma_self_dot_zero(a: Seq<int>, n: int)
    requires
        forall|i: int| 0 <= i < n ==> a[i] >= 0,
        dot_upto(a, a, n) == 0,
    ensures
        forall|i: int| 0 <= i < n ==> a[i] == 0,
    decreases n,
{
    if n > 0 {
        assert(a[n - 1] * a[n - 1] >= 0 && (a[n - 1] * a[n - 1] == 0 ==> a[n - 1] == 0))
            by (nonlinear_arith);
        lemma_dot_upto_nonneg(a, a, n - 1);
        lemma_self_dot_zero(a, n - 1);
    }
}

/// Bilinear bound behind the Cauchy-Schwarz induction step:
/// `2 x y <a,b> <= y^2 <a,a> + x^2 <b,b>`.
proof fn lemma_cs_bilinear(a: Seq<int>, b: Seq<int>, n: int, x: int, y: int)
    ensures
        2 * x * y * dot_upto(a, b, n) <= y * y * dot_upto(a, a, n) + x * x * dot_upto(b, b, n),
    decreases n,
{
    if n > 0 {
        lemma_cs_bilinear(a, b, n - 1, x, y);
        let p = a[n - 1];
        let q = b[n - 1];
        let sab = dot_upto(a, b, n - 1);
        let saa = dot_upto(a, a, n - 1);
        let sbb = dot_upto(b, b, n - 1);
        let u = y * p;
        let v = x * q;
        assert(2 * u * v <= u * u + v * v) by (nonlinear_arith);
        assert(2 * x * y * (sab + p * q) == 2 * x * y * sab + 2 * u * v) by (nonlinear_arith)
            requires
                u == y * p && v == x * q,
        ;
        assert(y * y * (saa + p * p) == y * y * saa + u * u) by (nonlinear_arith)
            requires
                u == y * p,
        ;
        assert(x * x * (sbb + q * q) == x * x * sbb + v * v) by (nonlinear_arith)
            requires
                v == x * q,
        ;
    }
}

/// Cauchy-Schwarz: the squared dot product never exceeds the product of the
/// squared norms.
pub proof fn lemma_cauchy_schwarz(a: Seq<int>, b: Seq<int>, n: int)
    ensures
        dot_upto(a, b, n) * dot_upto(a, b, n) <= dot_upto(a, a, n) * dot_upto(b, b, n),
    decreases n,
{
    if n > 0 {
        lemma_cauchy_schwarz(a, b, n - 1);
        lemma_cs_bilinear(a, b, n - 1, a[n - 1], b[n - 1]);
        let p = a[n - 1];
        let q = b[n - 1];
        let sab = dot_upto(a, b, n - 1);
        let saa = dot_upto(a, a, n - 1);
        let sbb = dot_upto(b, b, n - 1);
        assert((sab + p * q) * (sab + p * q) == sab * sab + 2 * p * q * sab + (p * q) * (p * q))
            by (nonlinear_arith);
        assert((saa + p * p) * (sbb + q * q) == saa * sbb + q * q * saa + p * p * sbb + (p * q) * (
        p * q)) by (nonlinear_arith);
        assert((sab + p * q) * (sab + p * q) <= (saa + p * p) * (sbb + q * q));
    }
}

} // verus!
