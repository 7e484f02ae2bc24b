//! Sampling planner: chooses the stride between sampled pixels so that
//! the sampled grid fits inside the terminal.

use vstd::prelude::*;

verus! {

/// The sampling interval along each axis, in source pixels.
pub struct SamplingStride {
    pub stride_x: usize,
    pub stride_y: usize,
}

/// `ceil(a / b)` for `a >= 1`, `b >= 1`.
pub open spec fn ceil_div(a: int, b: int) -> int {
    (a - 1) / b + 1
}

/// How many grid points `0, s, 2s, ...` fall strictly below `len`.
pub open spec fn sample_count(len: int, s: int) -> int {
    ceil_div(len, s)
}

/// With `s = ceil(len / cap)`, the sampled grid along that axis fits in
/// `cap` cells: `ceil(len / s) <= cap`.
pub proof fn lemma_stride_fits(len: int, cap: int)
    requires
        len >= 1,
        cap >= 1,
    ensures
        ceil_div(len, cap) >= 1,
        sample_count(len, ceil_div(len, cap)) <= cap,
{
    let q = (len - 1) / cap;
    let r = (len - 1) % cap;
    vstd::arithmetic::div_mod::lemma_fundamental_div_mod(len - 1, cap);
    vstd::arithmetic::div_mod::lemma_mod_bound(len - 1, cap);
    vstd::arithmetic::div_mod::lemma_div_is_ordered(0, len - 1, cap);
    let s = q + 1;
    assert(s * cap >= len) by (nonlinear_arith)
        requires
            len - 1 == cap * q + r,
            0 <= r < cap,
            s == q + 1,
    ;
    let t = (len - 1) / s;
    let r2 = (len - 1) % s;
    vstd::arithmetic::div_mod::lemma_fundamental_div_mod(len - 1, s);
    vstd::arithmetic::div_mod::lemma_mod_bound(len - 1, s);
    assert(t + 1 <= cap) by (nonlinear_arith)
        requires
            len - 1 == s * t + r2,
            0 <= r2 < s,
            s * cap >= len,
            cap >= 1,
            s >= 1,
    ;
}

/// No out-of-bounds sampling: every sampled grid origin `k * s` with
/// `k` below the sample count lies strictly inside `[0, len)`.
pub proof fn lemma_sample_in_bounds(len: int, s: int, k: int)
    requires
        len >= 1,
        s >= 1,
        0 <= k < sample_count(len, s),
    ensures
        0 <= k * s < len,
{
    let q = (len - 1) / s;
    let r = (len - 1) % s;
    vstd::arithmetic::div_mod::lemma_fundamental_div_mod(len - 1, s);
    vstd::arithmetic::div_mod::lemma_mod_bound(len - 1, s);
    assert(0 <= k * s <= len - 1) by (nonlinear_arith)
        requires
            0 <= k <= q,
            s >= 1,
            len - 1 == s * q + r,
            0 <= r < s,
    ;
}

/// Computes the stride for each axis: `ceil(image extent / terminal
/// extent)`, never below 1.  The resulting sampled grid never exceeds
/// the terminal's capacity in either direction.
pub fn plan(width: usize, height: usize, columns: usize, rows: usize) -> (st: SamplingStride)
    requires
        width >= 1,
        height >= 1,
        columns >= 1,
        rows >= 1,
    ensures
        st.stride_x == ceil_div(width as int, columns as int),
        st.stride_y == ceil_div(height as int, rows as int),
        st.stride_x >= 1,
        st.stride_y >= 1,
        sample_count(width as int, st.stride_x as int) <= columns,
        sample_count(height as int, st.stride_y as int) <= rows,
{
    let sx = (width - 1) / columns + 1;
    let sy = (height - 1) / rows + 1;
    proof {
        lemma_stride_fits(width as int, columns as int);
        lemma_stride_fits(height as int, rows as int);
    }
    SamplingStride { stride_x: sx, stride_y: sy }
}

} // verus!
