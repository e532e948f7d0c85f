//! Finite sums over an interval and over a grid, with the rules that proofs
//! about them need.
use vstd::prelude::*;

verus! {

/// The sum of `f(0), .., f(n - 1)`.
pub open spec fn sum(f: spec_fn(int) -> int, n: int) -> int
    decreases n,
{
    if n <= 0 {
        0
    } else {
        sum(f, n - 1) + f(n - 1)
    }
}

/// The sum of `g(i, j)` over the cells of a `w` by `h` grid.
pub open spec fn grid_sum(g: spec_fn(int, int) -> int, w: int, h: int) -> int {
    sum(|j: int| sum(|i: int| g(i, j), w), h)
}

/// A sum of smaller terms is smaller.
pub proof fn lemma_sum_le(f: spec_fn(int) -> int, g: spec_fn(int) -> int, n: int)
    requires
        forall|k: int| 0 <= k < n ==> #[trigger] f(k) <= g(k),
    ensures
        sum(f, n) <= sum(g, n),
    decreases n,
{
    if n > 0 {
        lemma_sum_le(f, g, n - 1);
    }
}

/// The sum of terms that are sums is the sum of the sums.
pub proof fn lemma_sum_add(
    f: spec_fn(int) -> int,
    g: spec_fn(int) -> int,
    both: spec_fn(int) -> int,
    n: int,
)
    requires
        forall|k: int| 0 <= k < n ==> #[trigger] both(k) == f(k) + g(k),
    ensures
        sum(both, n) == sum(f, n) + sum(g, n),
    decreases n,
{
    if n > 0 {
        lemma_sum_add(f, g, both, n - 1);
    }
}

/// The sum of the terms one place further on differs from the sum itself by
/// the first and the last term.
pub proof fn lemma_sum_shift(f: spec_fn(int) -> int, moved: spec_fn(int) -> int, n: int)
    requires
        0 <= n,
        forall|k: int| 0 <= k < n ==> #[trigger] moved(k) == f(k + 1),
    ensures
        sum(moved, n) + f(0) == sum(f, n) + f(n),
    decreases n,
{
    if n > 0 {
        lemma_sum_shift(f, moved, n - 1);
    }
}

/// A sum over a grid of smaller terms is smaller.
pub proof fn lemma_grid_le(
    f: spec_fn(int, int) -> int,
    g: spec_fn(int, int) -> int,
    w: int,
    h: int,
)
    requires
        forall|i: int, j: int| 0 <= i < w && 0 <= j < h ==> #[trigger] f(i, j) <= g(i, j),
    ensures
        grid_sum(f, w, h) <= grid_sum(g, w, h),
{
    let rf = |j: int| sum(|i: int| f(i, j), w);
    let rg = |j: int| sum(|i: int| g(i, j), w);
    assert forall|j: int| 0 <= j < h implies #[trigger] rf(j) <= rg(j) by {
        let ff = |i: int| f(i, j);
        let gg = |i: int| g(i, j);
        assert forall|i: int| 0 <= i < w implies #[trigger] ff(i) <= gg(i) by {
            assert(f(i, j) <= g(i, j));
        }
        lemma_sum_le(ff, gg, w);
    }
    lemma_sum_le(rf, rg, h);
}

/// The sum over a grid of terms that are sums is the sum of the sums.
pub proof fn lemma_grid_add(
    f: spec_fn(int, int) -> int,
    g: spec_fn(int, int) -> int,
    both: spec_fn(int, int) -> int,
    w: int,
    h: int,
)
    requires
        forall|i: int, j: int|
            0 <= i < w && 0 <= j < h ==> #[trigger] both(i, j) == f(i, j) + g(i, j),
    ensures
        grid_sum(both, w, h) == grid_sum(f, w, h) + grid_sum(g, w, h),
{
    let rf = |j: int| sum(|i: int| f(i, j), w);
    let rg = |j: int| sum(|i: int| g(i, j), w);
    let rb = |j: int| sum(|i: int| both(i, j), w);
    assert forall|j: int| 0 <= j < h implies #[trigger] rb(j) == rf(j) + rg(j) by {
        let ff = |i: int| f(i, j);
        let gg = |i: int| g(i, j);
        let bb = |i: int| both(i, j);
        assert forall|i: int| 0 <= i < w implies #[trigger] bb(i) == ff(i) + gg(i) by {
            assert(both(i, j) == f(i, j) + g(i, j));
        }
        lemma_sum_add(ff, gg, bb, w);
    }
    lemma_sum_add(rf, rg, rb, h);
}

/// Where every term of `moved` is the term of `f` in the next or in the
/// previous column, and `f` is nowhere negative and zero outside the grid,
/// the sum of `moved` over the grid is at most that of `f`.
pub proof fn lemma_grid_shift_columns(
    f: spec_fn(int, int) -> int,
    moved: spec_fn(int, int) -> int,
    w: int,
    h: int,
    d: int,
)
    requires
        0 <= w,
        d == 1 || d == -1,
        forall|i: int, j: int| 0 <= i < w && 0 <= j < h ==> #[trigger] moved(i, j) == f(i + d, j),
        forall|i: int, j: int| 0 <= j < h ==> #[trigger] f(i, j) >= 0,
        forall|i: int, j: int| 0 <= j < h && (i < 0 || i >= w) ==> #[trigger] f(i, j) == 0,
    ensures
        grid_sum(moved, w, h) <= grid_sum(f, w, h),
{
    let rf = |j: int| sum(|i: int| f(i, j), w);
    let rm = |j: int| sum(|i: int| moved(i, j), w);
    assert forall|j: int| 0 <= j < h implies #[trigger] rm(j) <= rf(j) by {
        let mm = |i: int| moved(i, j);
        let ff = |i: int| f(i, j);
        if d == 1 {
            assert forall|i: int| 0 <= i < w implies #[trigger] mm(i) == ff(i + 1) by {
                assert(moved(i, j) == f(i + 1, j));
            }
            lemma_sum_shift(ff, mm, w);
            assert(f(w, j) == 0);
            assert(f(0, j) >= 0);
        } else {
            let back = |i: int| f(i - 1, j);
            assert forall|i: int| 0 <= i < w implies #[trigger] ff(i) == back(i + 1) by {}
            lemma_sum_shift(back, ff, w);
            assert forall|i: int| 0 <= i < w implies #[trigger] mm(i) <= back(i) by {
                assert(moved(i, j) == f(i - 1, j));
            }
            lemma_sum_le(mm, back, w);
            assert(f(-1, j) == 0);
            assert(f(w - 1, j) >= 0);
        }
    }
    lemma_sum_le(rm, rf, h);
}

/// Where every term of `moved` is the term of `f` in the next or in the
/// previous row, and `f` is nowhere negative and zero outside the grid, the
/// sum of `moved` over the grid is at most that of `f`.
pub proof fn lemma_grid_shift_rows(
    f: spec_fn(int, int) -> int,
    moved: spec_fn(int, int) -> int,
    w: int,
    h: int,
    d: int,
)
    requires
        0 <= h,
        d == 1 || d == -1,
        forall|i: int, j: int| 0 <= i < w && 0 <= j < h ==> #[trigger] moved(i, j) == f(i, j + d),
        forall|i: int, j: int| 0 <= i < w ==> #[trigger] f(i, j) >= 0,
        forall|i: int, j: int| 0 <= i < w && (j < 0 || j >= h) ==> #[trigger] f(i, j) == 0,
    ensures
        grid_sum(moved, w, h) <= grid_sum(f, w, h),
{
    let rf = |j: int| sum(|i: int| f(i, j), w);
    let rm = |j: int| sum(|i: int| moved(i, j), w);
    let zero = |i: int| 0int;
    assert forall|j: int| #[trigger] rf(j) >= 0 by {
        let ff = |i: int| f(i, j);
        assert forall|i: int| 0 <= i < w implies #[trigger] zero(i) <= ff(i) by {
            assert(f(i, j) >= 0);
        }
        lemma_sum_le(zero, ff, w);
        lemma_sum_zero(w);
    }
    assert forall|j: int| j < 0 || j >= h implies #[trigger] rf(j) == 0 by {
        let ff = |i: int| f(i, j);
        assert forall|i: int| 0 <= i < w implies #[trigger] ff(i) <= zero(i) by {
            assert(f(i, j) == 0);
        }
        lemma_sum_le(ff, zero, w);
        lemma_sum_zero(w);
    }
    if d == 1 {
        assert forall|j: int| 0 <= j < h implies #[trigger] rm(j) == rf(j + 1) by {
            let mm = |i: int| moved(i, j);
            let ff = |i: int| f(i, j + 1);
            assert forall|i: int| 0 <= i < w implies #[trigger] mm(i) <= ff(i) by {
                assert(moved(i, j) == f(i, j + 1));
            }
            assert forall|i: int| 0 <= i < w implies #[trigger] ff(i) <= mm(i) by {
                assert(moved(i, j) == f(i, j + 1));
            }
            lemma_sum_le(mm, ff, w);
            lemma_sum_le(ff, mm, w);
        }
        lemma_sum_shift(rf, rm, h);
        assert(rf(h) == 0);
        assert(rf(0) >= 0);
    } else {
        let back = |j: int| rf(j - 1);
        assert forall|j: int| 0 <= j < h implies #[trigger] rf(j) == back(j + 1) by {}
        lemma_sum_shift(back, rf, h);
        assert forall|j: int| 0 <= j < h implies #[trigger] rm(j) <= back(j) by {
            let mm = |i: int| moved(i, j);
            let ff = |i: int| f(i, j - 1);
            assert forall|i: int| 0 <= i < w implies #[trigger] mm(i) <= ff(i) by {
                assert(moved(i, j) == f(i, j - 1));
            }
            lemma_sum_le(mm, ff, w);
        }
        lemma_sum_le(rm, back, h);
        assert(rf(-1) == 0);
        assert(rf(h - 1) >= 0);
    }
}

/// A sum of zeros is zero.
pub proof fn lemma_sum_zero(n: int)
    ensures
        sum(|i: int| 0int, n) == 0,
    decreases n,
{
    if n > 0 {
        lemma_sum_zero(n - 1);
    }
}

} // verus!
