//! Luminance classification: nearest-value lookup in the fixed table.
//!
//! A luminance is an exact rational `num / den` in `[0, 1]`.  The
//! distance between it and table entry `i` is measured on the common
//! denominator `den * 10000`, so every comparison is exact integer
//! arithmetic.  The search is the ascending binary search described by
//! the design: it tracks the closest probed entry, moving only on a
//! strict improvement, and stops early on an exact match.

use vstd::prelude::*;
use crate::palette::{lum, lum_at, glyph, glyph_at, lemma_lum_sorted, lemma_lum_bounds};

verus! {

/// `|a - b|`.
pub open spec fn abs_diff(a: int, b: int) -> int {
    if a >= b {
        a - b
    } else {
        b - a
    }
}

/// Scaled distance between table entry `i` and the luminance
/// `num / den`: `|lum(i) * den - num * 10000|`.
pub open spec fn dist(i: int, num: int, den: int) -> int {
    abs_diff(lum(i) * den, num * 10000)
}

/// One step of the tracked binary search, as a function: from window
/// `[left, right]` with current closest entry `best`, the index the
/// search finally settles on.
pub open spec fn search_from(left: int, right: int, best: int, num: int, den: int) -> int
    decreases right + 1 - left,
{
    if left > right || left < 0 || right > 91 {
        best
    } else {
        let mid = (left + right) / 2;
        let next = if dist(mid, num, den) < dist(best, num, den) {
            mid
        } else {
            best
        };
        if lum(mid) * den < num * 10000 {
            search_from(mid + 1, right, next, num, den)
        } else if lum(mid) * den > num * 10000 {
            if mid == 0 {
                next
            } else {
                search_from(left, mid - 1, next, num, den)
            }
        } else {
            next
        }
    }
}

/// The index the search chooses for the luminance `num / den`.
pub open spec fn nearest_index_spec(num: int, den: int) -> int {
    search_from(0, 91, 0, num, den)
}

/// Nearest-value search over the whole table.
///
/// The result is the table index the tracked binary search settles on;
/// its entry minimizes the distance to `num / den` over all 92
/// entries.  Luminance zero chooses index 0 and any luminance of at
/// least 9999/10000 chooses index 91.
pub fn nearest_index(num: u64, den: u64) -> (idx: usize)
    requires
        1 <= den <= 1000000000000u64,
        num <= den,
    ensures
        idx < 92,
        idx as int == nearest_index_spec(num as int, den as int),
        forall|j: int|
            0 <= j < 92 ==> dist(idx as int, num as int, den as int) <= #[trigger] dist(
                j,
                num as int,
                den as int,
            ),
        num == 0 ==> idx == 0,
        10000 * num >= 9999 * den ==> idx == 91,
{
    let target: u64 = num * 10000;
    let mut left: usize = 0;
    let mut right: usize = 91;
    let mut best: usize = 0;
    while left <= right
        invariant
            1 <= den <= 1000000000000u64,
            num <= den,
            target == num * 10000,
            left <= 92,
            right <= 91,
            best < 92,
            search_from(left as int, right as int, best as int, num as int, den as int)
                == nearest_index_spec(num as int, den as int),
            forall|j: int|
                0 <= j < 92 && !(left <= j <= right) ==> dist(
                    best as int,
                    num as int,
                    den as int,
                ) <= #[trigger] dist(j, num as int, den as int),
        decreases right + 1 - left,
    {
        proof {
            lemma_lum_sorted();
            lemma_lum_bounds();
        }
        let ghost l0 = left as int;
        let ghost r0 = right as int;
        let ghost b0 = best as int;
        let mid = (left + right) / 2;
        proof {
            vstd::arithmetic::mul::lemma_mul_upper_bound(
                lum(mid as int),
                9999,
                den as int,
                1000000000000,
            );
            vstd::arithmetic::mul::lemma_mul_upper_bound(
                lum(b0),
                9999,
                den as int,
                1000000000000,
            );
            vstd::arithmetic::mul::lemma_mul_inequality(0, lum(mid as int), den as int);
            vstd::arithmetic::mul::lemma_mul_inequality(0, lum(b0), den as int);
        }
        let lv = lum_at(mid) as u64 * den;
        let lb = lum_at(best) as u64 * den;
        let dm = if lv >= target {
            lv - target
        } else {
            target - lv
        };
        let db = if lb >= target {
            lb - target
        } else {
            target - lb
        };
        proof {
            assert(dm as int == dist(mid as int, num as int, den as int));
            assert(db as int == dist(b0, num as int, den as int));
        }
        if dm < db {
            best = mid;
        }
        let ghost nb = best as int;
        if lv < target {
            proof {
                assert forall|j: int| l0 <= j <= mid as int implies dist(
                    nb,
                    num as int,
                    den as int,
                ) <= #[trigger] dist(j, num as int, den as int) by {
                    vstd::arithmetic::mul::lemma_mul_inequality(
                        lum(j),
                        lum(mid as int),
                        den as int,
                    );
                }
                assert(search_from(l0, r0, b0, num as int, den as int) == search_from(
                    mid as int + 1,
                    r0,
                    nb,
                    num as int,
                    den as int,
                ));
            }
            left = mid + 1;
        } else if lv > target {
            proof {
                assert(lum(0) * den as int == 0) by {
                    vstd::arithmetic::mul::lemma_mul_basics(den as int);
                }
                assert(mid >= 1);
                assert forall|j: int| mid as int <= j <= r0 implies dist(
                    nb,
                    num as int,
                    den as int,
                ) <= #[trigger] dist(j, num as int, den as int) by {
                    vstd::arithmetic::mul::lemma_mul_inequality(
                        lum(mid as int),
                        lum(j),
                        den as int,
                    );
                }
                assert(search_from(l0, r0, b0, num as int, den as int) == search_from(
                    l0,
                    mid as int - 1,
                    nb,
                    num as int,
                    den as int,
                ));
            }
            right = mid - 1;
        } else {
            proof {
                assert(dist(mid as int, num as int, den as int) == 0);
                assert forall|j: int| 0 <= j < 92 implies dist(nb, num as int, den as int)
                    <= #[trigger] dist(j, num as int, den as int) by {
                    vstd::arithmetic::mul::lemma_mul_inequality(0, lum(j), den as int);
                }
                assert(search_from(l0, r0, b0, num as int, den as int) == nb);
                lemma_nearest_extremes(nb, num as int, den as int);
            }
            return best;
        }
    }
    proof {
        lemma_nearest_extremes(best as int, num as int, den as int);
    }
    best
}

/// A minimizing index must be 0 at luminance zero and 91 at any
/// luminance of at least 9999/10000: those entries are then strictly
/// closer than every other one.
proof fn lemma_nearest_extremes(i: int, num: int, den: int)
    requires
        1 <= den,
        0 <= num,
        0 <= i < 92,
        forall|j: int| 0 <= j < 92 ==> dist(i, num, den) <= #[trigger] dist(j, num, den),
    ensures
        num == 0 ==> i == 0,
        10000 * num >= 9999 * den ==> i == 91,
{
    lemma_lum_sorted();
    lemma_lum_bounds();
    vstd::arithmetic::mul::lemma_mul_basics(den);
    if num == 0 {
        assert(dist(i, num, den) <= dist(0, num, den));
        assert(lum(0) * den == 0);
        assert(dist(0, num, den) == 0);
        if i >= 1 {
            assert(lum(i) * den >= 751 * 1) by (nonlinear_arith)
                requires
                    lum(i) >= 751,
                    den >= 1,
            ;
            assert(false);
        }
    }
    if 10000 * num >= 9999 * den {
        assert(lum(91) == 9999);
        if i < 91 {
            assert(lum(i) * den <= 8037 * den) by {
                vstd::arithmetic::mul::lemma_mul_inequality(lum(i), 8037, den);
            }
            assert(9999 * den - 8037 * den == 1962 * den) by (nonlinear_arith);
            assert(1962 * den >= 1962) by (nonlinear_arith)
                requires
                    den >= 1,
            ;
            assert(dist(i, num, den) > dist(91, num, den));
            assert(false);
        }
    }
}

/// Monotonic classification: for luminances `na / den < nb / den`
/// whose chosen nearest table entries hold different values, the index
/// chosen for the smaller luminance is strictly smaller.
pub proof fn lemma_classification_monotonic(ia: int, ib: int, na: int, nb: int, den: int)
    requires
        1 <= den,
        0 <= na < nb,
        0 <= ia < 92,
        0 <= ib < 92,
        forall|j: int| 0 <= j < 92 ==> dist(ia, na, den) <= #[trigger] dist(j, na, den),
        forall|j: int| 0 <= j < 92 ==> dist(ib, nb, den) <= #[trigger] dist(j, nb, den),
        lum(ia) != lum(ib),
    ensures
        ia < ib,
{
    lemma_lum_sorted();
    let x = lum(ia) * den;
    let y = lum(ib) * den;
    let ta = na * 10000;
    let tb = nb * 10000;
    assert(dist(ia, na, den) <= dist(ib, na, den));
    assert(dist(ib, nb, den) <= dist(ia, nb, den));
    if lum(ia) > lum(ib) {
        assert(x >= y + den) by (nonlinear_arith)
            requires
                lum(ia) >= lum(ib) + 1,
                den >= 1,
                x == lum(ia) * den,
                y == lum(ib) * den,
        ;
        assert(2 * ta >= x + y);
        assert(2 * tb <= x + y);
        assert(false);
    }
    assert(lum(ia) < lum(ib));
    if ia >= ib {
        assert(lum(ib) <= lum(ia));
        assert(false);
    }
}

/// Maps the luminance `num / den` to its glyph: the palette character
/// aligned with the table entry the nearest-value search chooses.
/// That entry minimizes the distance to the luminance over the whole
/// table; luminance zero gives the sparsest glyph (a space) and any
/// luminance of at least 9999/10000 gives the densest (`@`).
pub fn luminance_glyph(num: u64, den: u64) -> (c: char)
    requires
        1 <= den <= 1000000000000u64,
        num <= den,
    ensures
        c == glyph(nearest_index_spec(num as int, den as int)),
        0 <= nearest_index_spec(num as int, den as int) < 92,
        forall|j: int|
            0 <= j < 92 ==> dist(nearest_index_spec(num as int, den as int), num as int, den as int)
                <= #[trigger] dist(j, num as int, den as int),
        num == 0 ==> c == ' ',
        10000 * num >= 9999 * den ==> c == '@',
{
    let idx = nearest_index(num, den);
    glyph_at(idx)
}

} // verus!
