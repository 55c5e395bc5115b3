//! Row-major pixel grids: the index arithmetic shared by the surface model
//! and the image ingestion pipeline.

use vstd::prelude::*;

verus! {

/// A row-major index lies inside the grid's backing sequence.
pub proof fn lemma_grid_index_bound(x: int, y: int, w: int, h: int)
    requires
        0 <= x < w,
        0 <= y < h,
    ensures
        0 <= y * w + x < w * h,
{
    assert(0 <= y * w + x < w * h) by (nonlinear_arith)
        requires
            0 <= x < w,
            0 <= y < h,
    ;
}

/// A quotient stays under `b` while the dividend stays under `b * c`.
pub proof fn lemma_div_strict_bound(a: int, b: int, c: int)
    requires
        0 <= a < b * c,
        0 < c,
    ensures
        0 <= a / c < b,
{
    vstd::arithmetic::div_mod::lemma_fundamental_div_mod(a, c);
    vstd::arithmetic::div_mod::lemma_mod_bound(a, c);
    assert(0 <= a / c < b) by (nonlinear_arith)
        requires
            a == c * (a / c) + a % c,
            0 <= a % c < c,
            0 <= a < b * c,
            0 < c,
    ;
}

/// A flat index of a `w` by `h` grid splits into a column under `w` and a
/// row under `h`.
pub proof fn lemma_flat_index(k: int, w: int, h: int)
    requires
        0 <= k < w * h,
        0 < w,
    ensures
        0 <= k % w < w,
        0 <= k / w < h,
        k == (k / w) * w + k % w,
{
    vstd::arithmetic::div_mod::lemma_fundamental_div_mod(k, w);
    vstd::arithmetic::div_mod::lemma_mod_bound(k, w);
    assert(w * h == h * w) by (nonlinear_arith);
    lemma_div_strict_bound(k, h, w);
    assert(k == (k / w) * w + k % w) by (nonlinear_arith)
        requires
            k == w * (k / w) + k % w,
    ;
}

/// A product grows with each factor.
pub proof fn lemma_mul_le(a: int, b: int, c: int, d: int)
    requires
        0 <= a <= c,
        0 <= b <= d,
    ensures
        a * b <= c * d,
{
    assert(a * b <= c * d) by (nonlinear_arith)
        requires
            0 <= a <= c,
            0 <= b <= d,
    ;
}

/// Scaling a coordinate under `t` into a grid of `s` cells lands inside it.
pub proof fn lemma_scaled_coord_bound(x: int, s: int, t: int)
    requires
        0 <= x < t,
        0 < s,
    ensures
        0 <= x * s / t < s,
{
    assert(0 <= x * s < s * t) by (nonlinear_arith)
        requires
            0 <= x < t,
            0 < s,
    ;
    lemma_div_strict_bound(x * s, s, t);
}

} // verus!
