//! The relaxation does not increase the divergence that remains.
//!
//! For a given pressure, the equation of a fluid cell fails by its residual:
//! the sum of the pressures of its neighbors, minus its own pressure for
//! every neighbor that is not solid, minus its right-hand side.  In a closed
//! domain, where no cell is empty, the residual is the divergence that the
//! velocity of the cell would keep if it were corrected with that pressure,
//! in the units of the equation and but for rounding.
//!
//! This module proves that one pass of the relaxation never increases the
//! sum of the magnitudes of the residuals over the fluid cells, for every
//! pressure, divergence and labelling.  The proof rests on the way a pass
//! rounds: it adds to each pressure the residual over the number of open
//! neighbors, rounded toward zero and limited to what a scalar holds, so that
//! what is left of the residual has the sign of the residual; and each change
//! of a pressure spills into the residuals of at most as many fluid neighbors
//! as the cell has open ones.
use crate::definition::{GridLabel, SimulationUniform};
use crate::field::Lattice;
use crate::grid_label::label_or_solid;
use crate::projection::jacobi_iteration::{
    fluid_pressure, jacobi_at, jacobi_iterate, jacobi_spec, neighbor_sum, open_count, openness,
    relaxed, residual_at, rhs_at,
};
use crate::scalar::{abs_spec, lemma_trunc_div_bounds, sat, trunc_div};
use crate::summation::{
    grid_sum, lemma_grid_add, lemma_grid_le, lemma_grid_shift_columns, lemma_grid_shift_rows,
};
use vstd::prelude::*;

verus! {

/// Cell `(i, j)` lies inside the grid and is fluid.
pub open spec fn fluid_cell(labels: Lattice<GridLabel>, i: int, j: int) -> bool {
    label_or_solid(labels, i, j) == GridLabel::Fluid
}

/// The magnitude of the residual of cell `(i, j)` where the cell is fluid,
/// and zero elsewhere.
pub open spec fn remaining_at(
    p: Lattice<i64>,
    div: Lattice<i64>,
    labels: Lattice<GridLabel>,
    uniform: SimulationUniform,
    i: int,
    j: int,
) -> int {
    if fluid_cell(labels, i, j) {
        abs_spec(residual_at(p, div, labels, uniform, i, j))
    } else {
        0
    }
}

/// The sum of the magnitudes of the residuals over the fluid cells.
pub open spec fn remaining(
    p: Lattice<i64>,
    div: Lattice<i64>,
    labels: Lattice<GridLabel>,
    uniform: SimulationUniform,
) -> int {
    grid_sum(
        |i: int, j: int| remaining_at(p, div, labels, uniform, i, j),
        labels.width as int,
        labels.height as int,
    )
}

/// By how much a pass changes the pressure of cell `(i, j)`.
pub open spec fn delta_at(
    p: Lattice<i64>,
    div: Lattice<i64>,
    labels: Lattice<GridLabel>,
    uniform: SimulationUniform,
    i: int,
    j: int,
) -> int {
    if labels.has(i, j) && relaxed(labels, i, j) {
        sat(
            p.at(i, j) + trunc_div(
                residual_at(p, div, labels, uniform, i, j),
                open_count(labels, i, j),
            ),
        ) - p.at(i, j)
    } else {
        0
    }
}

/// The magnitude of the change of the pressure of cell `(i, j)`.
pub open spec fn step_at(
    p: Lattice<i64>,
    div: Lattice<i64>,
    labels: Lattice<GridLabel>,
    uniform: SimulationUniform,
    i: int,
    j: int,
) -> int {
    abs_spec(delta_at(p, div, labels, uniform, i, j))
}

/// The part of the residual of a fluid cell `(i, j)` that the change of its
/// own pressure does not remove.
pub open spec fn rest_at(
    p: Lattice<i64>,
    div: Lattice<i64>,
    labels: Lattice<GridLabel>,
    uniform: SimulationUniform,
    i: int,
    j: int,
) -> int {
    if fluid_cell(labels, i, j) {
        abs_spec(
            residual_at(p, div, labels, uniform, i, j) - open_count(labels, i, j) * delta_at(
                p,
                div,
                labels,
                uniform,
                i,
                j,
            ),
        )
    } else {
        0
    }
}

/// What the change of the pressure of cell `(k, l)` adds to the residual of
/// its neighbor `(i, j)` at most.
pub open spec fn spill_at(
    p: Lattice<i64>,
    div: Lattice<i64>,
    labels: Lattice<GridLabel>,
    uniform: SimulationUniform,
    i: int,
    j: int,
    k: int,
    l: int,
) -> int {
    if fluid_cell(labels, i, j) {
        step_at(p, div, labels, uniform, k, l)
    } else {
        0
    }
}

/// The magnitude of the change of the pressure of cell `(i, j)`, counted once
/// for every neighbor that is not solid.
pub open spec fn weight_at(
    p: Lattice<i64>,
    div: Lattice<i64>,
    labels: Lattice<GridLabel>,
    uniform: SimulationUniform,
    i: int,
    j: int,
) -> int {
    open_count(labels, i, j) * step_at(p, div, labels, uniform, i, j)
}

/// A pass changes the pressure of a cell by exactly `delta_at`.
proof fn lemma_new_pressure(
    p: Lattice<i64>,
    div: Lattice<i64>,
    labels: Lattice<GridLabel>,
    uniform: SimulationUniform,
    i: int,
    j: int,
)
    requires
        p.wf(),
        labels.wf(),
        p.same_shape(labels),
    ensures
        fluid_pressure(jacobi_spec(p, div, labels, uniform), labels, i, j) == fluid_pressure(
            p,
            labels,
            i,
            j,
        ) + delta_at(p, div, labels, uniform, i, j),
        labels.has(i, j) ==> jacobi_spec(p, div, labels, uniform).at(i, j) == p.at(i, j)
            + delta_at(p, div, labels, uniform, i, j),
{
    Lattice::lemma_tabulate(
        p.width,
        p.height,
        |i: int, j: int| jacobi_at(p, div, labels, uniform, i, j) as i64,
    );
}

/// The product of a count and a sum is the sum of the products.
proof fn lemma_distribute(n: int, a: int, b: int)
    by (nonlinear_arith)
    ensures
        n * (a + b) == n * a + n * b,
{
}

/// The residual of a fluid cell after a pass: what its own change left of
/// it, plus the changes of its neighbors.
proof fn lemma_residual_after(
    p: Lattice<i64>,
    div: Lattice<i64>,
    labels: Lattice<GridLabel>,
    uniform: SimulationUniform,
    i: int,
    j: int,
)
    requires
        p.wf(),
        labels.wf(),
        p.same_shape(labels),
        labels.has(i, j),
    ensures
        residual_at(jacobi_spec(p, div, labels, uniform), div, labels, uniform, i, j)
            == residual_at(p, div, labels, uniform, i, j) - open_count(labels, i, j) * delta_at(
            p,
            div,
            labels,
            uniform,
            i,
            j,
        ) + delta_at(p, div, labels, uniform, i - 1, j) + delta_at(
            p,
            div,
            labels,
            uniform,
            i + 1,
            j,
        ) + delta_at(p, div, labels, uniform, i, j - 1) + delta_at(
            p,
            div,
            labels,
            uniform,
            i,
            j + 1,
        ),
{
    let q = jacobi_spec(p, div, labels, uniform);
    lemma_new_pressure(p, div, labels, uniform, i, j);
    lemma_new_pressure(p, div, labels, uniform, i - 1, j);
    lemma_new_pressure(p, div, labels, uniform, i + 1, j);
    lemma_new_pressure(p, div, labels, uniform, i, j - 1);
    lemma_new_pressure(p, div, labels, uniform, i, j + 1);
    lemma_distribute(
        open_count(labels, i, j),
        p.at(i, j) as int,
        delta_at(p, div, labels, uniform, i, j),
    );
    assert(neighbor_sum(q, labels, i, j) == neighbor_sum(p, labels, i, j) + delta_at(
        p,
        div,
        labels,
        uniform,
        i - 1,
        j,
    ) + delta_at(p, div, labels, uniform, i + 1, j) + delta_at(p, div, labels, uniform, i, j - 1)
        + delta_at(p, div, labels, uniform, i, j + 1));
}

/// The residual of a cell after a pass is at most what its own change left
/// of it plus the magnitudes of the changes of its neighbors.
proof fn lemma_remaining_after(
    p: Lattice<i64>,
    div: Lattice<i64>,
    labels: Lattice<GridLabel>,
    uniform: SimulationUniform,
    i: int,
    j: int,
)
    requires
        p.wf(),
        labels.wf(),
        p.same_shape(labels),
        labels.has(i, j),
    ensures
        remaining_at(jacobi_spec(p, div, labels, uniform), div, labels, uniform, i, j) <= rest_at(
            p,
            div,
            labels,
            uniform,
            i,
            j,
        ) + spill_at(p, div, labels, uniform, i, j, i - 1, j) + spill_at(
            p,
            div,
            labels,
            uniform,
            i,
            j,
            i + 1,
            j,
        ) + spill_at(p, div, labels, uniform, i, j, i, j - 1) + spill_at(
            p,
            div,
            labels,
            uniform,
            i,
            j,
            i,
            j + 1,
        ),
{
    lemma_residual_after(p, div, labels, uniform, i, j);
}

/// A change that lies between zero and the quotient of a number by a
/// divisor, rounded toward zero, takes from the magnitude of the number the
/// divisor times its own magnitude.
proof fn lemma_limited_step(a: int, d: int, step: int)
    by (nonlinear_arith)
    requires
        d > 0,
        a >= 0 ==> 0 <= step <= trunc_div(a, d),
        a <= 0 ==> trunc_div(a, d) <= step <= 0,
    ensures
        abs_spec(a) == d * abs_spec(step) + abs_spec(a - d * step),
{
    lemma_trunc_div_bounds(a, d);
}

/// The residual of a cell before a pass: what its own change leaves of it,
/// plus the magnitude of that change for every neighbor that is not solid.
proof fn lemma_remaining_before(
    p: Lattice<i64>,
    div: Lattice<i64>,
    labels: Lattice<GridLabel>,
    uniform: SimulationUniform,
    i: int,
    j: int,
)
    requires
        labels.has(i, j),
    ensures
        remaining_at(p, div, labels, uniform, i, j) == rest_at(p, div, labels, uniform, i, j)
            + weight_at(p, div, labels, uniform, i, j),
{
    let n = open_count(labels, i, j);
    let r = residual_at(p, div, labels, uniform, i, j);
    if relaxed(labels, i, j) {
        lemma_trunc_div_bounds(r, n);
        lemma_limited_step(r, n, delta_at(p, div, labels, uniform, i, j));
    } else {
        assert(delta_at(p, div, labels, uniform, i, j) == 0);
        assert(n * 0 == 0) by (nonlinear_arith);
    }
}

/// A magnitude counted for some of four neighbors is at most that magnitude
/// counted for all of them that are counted at all.
proof fn lemma_share(a: bool, b: bool, c: bool, d: bool, n: int, q: int)
    by (nonlinear_arith)
    requires
        q >= 0,
        n == (if a { 1int } else { 0 }) + (if b { 1int } else { 0 }) + (if c { 1int } else { 0 })
            + (if d { 1int } else { 0 }),
    ensures
        n * q == (if a { q } else { 0 }) + (if b { q } else { 0 }) + (if c { q } else { 0 }) + (if d {
            q
        } else {
            0
        }),
{
}

/// The magnitude of the change of a cell, counted for every fluid neighbor,
/// is at most its weight.
proof fn lemma_spill_within_weight(
    p: Lattice<i64>,
    div: Lattice<i64>,
    labels: Lattice<GridLabel>,
    uniform: SimulationUniform,
    i: int,
    j: int,
)
    ensures
        spill_at(p, div, labels, uniform, i - 1, j, i, j) + spill_at(
            p,
            div,
            labels,
            uniform,
            i + 1,
            j,
            i,
            j,
        ) + spill_at(p, div, labels, uniform, i, j - 1, i, j) + spill_at(
            p,
            div,
            labels,
            uniform,
            i,
            j + 1,
            i,
            j,
        ) <= weight_at(p, div, labels, uniform, i, j),
{
    let q = step_at(p, div, labels, uniform, i, j);
    lemma_share(
        openness(labels, i - 1, j) == 1,
        openness(labels, i + 1, j) == 1,
        openness(labels, i, j - 1) == 1,
        openness(labels, i, j + 1) == 1,
        open_count(labels, i, j),
        q,
    );
}

/// Monotone reduction of the divergence: one pass of the relaxation does not
/// increase the sum, over the fluid cells, of the magnitudes of the
/// residuals.
pub proof fn lemma_remaining_does_not_grow(
    p: Lattice<i64>,
    div: Lattice<i64>,
    labels: Lattice<GridLabel>,
    uniform: SimulationUniform,
)
    requires
        p.wf(),
        labels.wf(),
        p.same_shape(labels),
    ensures
        remaining(jacobi_spec(p, div, labels, uniform), div, labels, uniform) <= remaining(
            p,
            div,
            labels,
            uniform,
        ),
{
    let w = labels.width as int;
    let h = labels.height as int;
    let q = jacobi_spec(p, div, labels, uniform);
    let after = |i: int, j: int| remaining_at(q, div, labels, uniform, i, j);
    let before = |i: int, j: int| remaining_at(p, div, labels, uniform, i, j);
    let rest = |i: int, j: int| rest_at(p, div, labels, uniform, i, j);
    // What each neighbor adds to a cell, seen from the cell ...
    let c1 = |i: int, j: int| spill_at(p, div, labels, uniform, i, j, i - 1, j);
    let c2 = |i: int, j: int| spill_at(p, div, labels, uniform, i, j, i + 1, j);
    let c3 = |i: int, j: int| spill_at(p, div, labels, uniform, i, j, i, j - 1);
    let c4 = |i: int, j: int| spill_at(p, div, labels, uniform, i, j, i, j + 1);
    // ... and what a cell adds to each neighbor, seen from the cell.
    let t1 = |i: int, j: int| spill_at(p, div, labels, uniform, i + 1, j, i, j);
    let t2 = |i: int, j: int| spill_at(p, div, labels, uniform, i - 1, j, i, j);
    let t3 = |i: int, j: int| spill_at(p, div, labels, uniform, i, j + 1, i, j);
    let t4 = |i: int, j: int| spill_at(p, div, labels, uniform, i, j - 1, i, j);
    let s1 = |i: int, j: int| rest(i, j) + c1(i, j);
    let s2 = |i: int, j: int| s1(i, j) + c2(i, j);
    let s3 = |i: int, j: int| s2(i, j) + c3(i, j);
    let s4 = |i: int, j: int| s3(i, j) + c4(i, j);
    let r1 = |i: int, j: int| rest(i, j) + t1(i, j);
    let r2 = |i: int, j: int| r1(i, j) + t2(i, j);
    let r3 = |i: int, j: int| r2(i, j) + t3(i, j);
    let r4 = |i: int, j: int| r3(i, j) + t4(i, j);

    assert forall|i: int, j: int| 0 <= i < w && 0 <= j < h implies #[trigger] after(i, j) <= s4(
        i,
        j,
    ) by {
        lemma_remaining_after(p, div, labels, uniform, i, j);
    }
    lemma_grid_le(after, s4, w, h);
    lemma_grid_add(rest, c1, s1, w, h);
    lemma_grid_add(s1, c2, s2, w, h);
    lemma_grid_add(s2, c3, s3, w, h);
    lemma_grid_add(s3, c4, s4, w, h);

    lemma_grid_shift_columns(t1, c1, w, h, -1);
    lemma_grid_shift_columns(t2, c2, w, h, 1);
    lemma_grid_shift_rows(t3, c3, w, h, -1);
    lemma_grid_shift_rows(t4, c4, w, h, 1);

    lemma_grid_add(rest, t1, r1, w, h);
    lemma_grid_add(r1, t2, r2, w, h);
    lemma_grid_add(r2, t3, r3, w, h);
    lemma_grid_add(r3, t4, r4, w, h);
    assert forall|i: int, j: int| 0 <= i < w && 0 <= j < h implies #[trigger] r4(i, j) <= before(
        i,
        j,
    ) by {
        lemma_remaining_before(p, div, labels, uniform, i, j);
        lemma_spill_within_weight(p, div, labels, uniform, i, j);
    }
    lemma_grid_le(r4, before, w, h);
}

/// Over any number of passes the sum of the magnitudes of the residuals never
/// increases from one pass to the next.
pub proof fn lemma_remaining_after_passes(
    p: Lattice<i64>,
    div: Lattice<i64>,
    labels: Lattice<GridLabel>,
    uniform: SimulationUniform,
    n: nat,
)
    requires
        p.wf(),
        labels.wf(),
        p.same_shape(labels),
    ensures
        forall|k: nat|
            k < n ==> remaining(
                #[trigger] jacobi_iterate(p, div, labels, uniform, (k + 1) as nat),
                div,
                labels,
                uniform,
            ) <= remaining(jacobi_iterate(p, div, labels, uniform, k), div, labels, uniform),
        remaining(jacobi_iterate(p, div, labels, uniform, n), div, labels, uniform) <= remaining(
            p,
            div,
            labels,
            uniform,
        ),
        jacobi_iterate(p, div, labels, uniform, n).wf(),
        jacobi_iterate(p, div, labels, uniform, n).same_shape(labels),
    decreases n,
{
    if n > 0 {
        let m = (n - 1) as nat;
        lemma_remaining_after_passes(p, div, labels, uniform, m);
        let before = jacobi_iterate(p, div, labels, uniform, m);
        lemma_remaining_does_not_grow(before, div, labels, uniform);
        Lattice::lemma_tabulate(
            before.width,
            before.height,
            |i: int, j: int| jacobi_at(before, div, labels, uniform, i, j) as i64,
        );
        assert forall|k: nat| k < n implies remaining(
            #[trigger] jacobi_iterate(p, div, labels, uniform, (k + 1) as nat),
            div,
            labels,
            uniform,
        ) <= remaining(jacobi_iterate(p, div, labels, uniform, k), div, labels, uniform) by {
            if k < m {
            } else {
                assert(k == m);
            }
        }
    }
}

} // verus!
