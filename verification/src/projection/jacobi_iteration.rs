//! Relaxation of the pressure.
//!
//! The pressure of the fluid cells satisfies a discrete Poisson equation: for
//! each fluid cell, the sum of the pressures of its neighbors that are not
//! solid, minus the pressure of the cell times the number of such neighbors,
//! equals the divergence of the cell scaled by the square of the cell size and
//! the density over the time step.  An empty neighbor has pressure zero.  A
//! solid neighbor takes the pressure of the cell itself, so that it drops out
//! of the equation.
//!
//! One pass moves the pressure of every fluid cell toward the value that
//! solves its equation for the current pressures of its neighbors.  A fluid
//! cell without a neighbor that is not solid keeps its pressure.
use crate::definition::{fits, GridLabel, PressureTextures, SimulationUniform};
use crate::field::{lemma_is_tabulation, Field, Lattice};
use crate::grid_label::{is_fluid, is_solid, label_or_solid, neighbor_label};
use crate::projection::convergence::{
    lemma_remaining_after_passes, lemma_remaining_does_not_grow, remaining,
};
use crate::scalar::{
    fx_div, fx_div_spec, fx_mul, fx_mul_spec, lemma_product_bound, sat, saturate, trunc_div,
};
use vstd::prelude::*;

verus! {

/// The pressure that cell `(i, j)` shows to its neighbors: its own where it
/// is fluid, and zero elsewhere.
pub open spec fn fluid_pressure(p: Lattice<i64>, labels: Lattice<GridLabel>, i: int, j: int)
    -> int {
    if label_or_solid(labels, i, j) == GridLabel::Fluid {
        p.at(i, j) as int
    } else {
        0
    }
}

/// One if cell `(i, j)` is not solid, else zero.
pub open spec fn openness(labels: Lattice<GridLabel>, i: int, j: int) -> int {
    if label_or_solid(labels, i, j) != GridLabel::Solid {
        1
    } else {
        0
    }
}

/// Number of neighbors of cell `(i, j)` that are not solid.
pub open spec fn open_count(labels: Lattice<GridLabel>, i: int, j: int) -> int {
    openness(labels, i - 1, j) + openness(labels, i + 1, j) + openness(labels, i, j - 1)
        + openness(labels, i, j + 1)
}

/// Sum of the pressures of the neighbors of cell `(i, j)`.
pub open spec fn neighbor_sum(p: Lattice<i64>, labels: Lattice<GridLabel>, i: int, j: int) -> int {
    fluid_pressure(p, labels, i - 1, j) + fluid_pressure(p, labels, i + 1, j) + fluid_pressure(
        p,
        labels,
        i,
        j - 1,
    ) + fluid_pressure(p, labels, i, j + 1)
}

/// The right-hand side of the equation of cell `(i, j)`: the divergence times
/// the square of the cell size times the density, over the time step.
pub open spec fn rhs_at(div: Lattice<i64>, uniform: SimulationUniform, i: int, j: int) -> int {
    fx_div_spec(
        fx_mul_spec(
            fx_mul_spec(fx_mul_spec(div.at(i, j) as int, uniform.dx as int), uniform.dx as int),
            uniform.rho as int,
        ),
        uniform.dt as int,
    )
}

/// By how much the equation of cell `(i, j)` fails to hold.
pub open spec fn residual_at(
    p: Lattice<i64>,
    div: Lattice<i64>,
    labels: Lattice<GridLabel>,
    uniform: SimulationUniform,
    i: int,
    j: int,
) -> int {
    neighbor_sum(p, labels, i, j) - open_count(labels, i, j) * (p.at(i, j) as int) - rhs_at(
        div,
        uniform,
        i,
        j,
    )
}

/// The pressure of cell `(i, j)` takes part in the relaxation.
pub open spec fn relaxed(labels: Lattice<GridLabel>, i: int, j: int) -> bool {
    labels.at(i, j) == GridLabel::Fluid && open_count(labels, i, j) > 0
}

/// The pressure of cell `(i, j)` after one pass.
pub open spec fn jacobi_at(
    p: Lattice<i64>,
    div: Lattice<i64>,
    labels: Lattice<GridLabel>,
    uniform: SimulationUniform,
    i: int,
    j: int,
) -> int {
    if relaxed(labels, i, j) {
        sat(
            p.at(i, j) + trunc_div(
                residual_at(p, div, labels, uniform, i, j),
                open_count(labels, i, j),
            ),
        )
    } else {
        p.at(i, j) as int
    }
}

/// The pressure after one pass.
pub open spec fn jacobi_spec(
    p: Lattice<i64>,
    div: Lattice<i64>,
    labels: Lattice<GridLabel>,
    uniform: SimulationUniform,
) -> Lattice<i64> {
    Lattice::tabulate(
        p.width,
        p.height,
        |i: int, j: int| jacobi_at(p, div, labels, uniform, i, j) as i64,
    )
}

/// The pressure after `n` passes.
pub open spec fn jacobi_iterate(
    p: Lattice<i64>,
    div: Lattice<i64>,
    labels: Lattice<GridLabel>,
    uniform: SimulationUniform,
    n: nat,
) -> Lattice<i64>
    decreases n,
{
    if n == 0 {
        p
    } else {
        jacobi_spec(jacobi_iterate(p, div, labels, uniform, (n - 1) as nat), div, labels, uniform)
    }
}

/// Reads the pressure that cell `(i, j)`, which may lie outside the grid,
/// shows to its neighbors.
pub fn fluid_pressure_of(p: &Field<i64>, labels: &Field<GridLabel>, i: i64, j: i64) -> (r: i64)
    requires
        p.wf(),
        labels.wf(),
        p@.same_shape(labels@),
    ensures
        r as int == fluid_pressure(p@, labels@, i as int, j as int),
{
    if i < 0 || j < 0 {
        return 0;
    }
    if (i as u64) >= (labels.width() as u64) || (j as u64) >= (labels.height() as u64) {
        return 0;
    }
    if is_fluid(labels.get(i as usize, j as usize)) {
        p.get(i as usize, j as usize)
    } else {
        0
    }
}

/// One if cell `(i, j)` is not solid, else zero.
pub fn openness_of(labels: &Field<GridLabel>, i: i64, j: i64) -> (r: i128)
    requires
        labels.wf(),
    ensures
        r as int == openness(labels@, i as int, j as int),
{
    if is_solid(neighbor_label(labels, i, j)) {
        0
    } else {
        1
    }
}

/// Computes the right-hand side of the equation of cell `(i, j)`.
pub fn rhs_cell(div: &Field<i64>, uniform: &SimulationUniform, i: usize, j: usize) -> (r: i64)
    requires
        div.wf(),
        div@.has(i as int, j as int),
        uniform.valid(),
    ensures
        r as int == rhs_at(div@, *uniform, i as int, j as int),
{
    fx_div(fx_mul(fx_mul(fx_mul(div.get(i, j), uniform.dx), uniform.dx), uniform.rho), uniform.dt)
}

/// Computes the pressure of cell `(i, j)` after one pass.
pub fn jacobi_cell(
    p: &Field<i64>,
    div: &Field<i64>,
    labels: &Field<GridLabel>,
    uniform: &SimulationUniform,
    i: usize,
    j: usize,
) -> (r: i64)
    requires
        fits(labels@.width, labels@.height),
        p.wf(),
        div.wf(),
        labels.wf(),
        p@.same_shape(labels@),
        div@.same_shape(labels@),
        labels@.has(i as int, j as int),
        uniform.valid(),
    ensures
        r as int == jacobi_at(p@, div@, labels@, *uniform, i as int, j as int),
{
    let own = p.get(i, j);
    if !is_fluid(labels.get(i, j)) {
        return own;
    }
    let ii = i as i64;
    let jj = j as i64;
    let count: i128 = openness_of(labels, ii - 1, jj) + openness_of(labels, ii + 1, jj)
        + openness_of(labels, ii, jj - 1) + openness_of(labels, ii, jj + 1);
    if count == 0 {
        return own;
    }
    let sum: i128 = (fluid_pressure_of(p, labels, ii - 1, jj) as i128) + (fluid_pressure_of(
        p,
        labels,
        ii + 1,
        jj,
    ) as i128) + (fluid_pressure_of(p, labels, ii, jj - 1) as i128) + (fluid_pressure_of(
        p,
        labels,
        ii,
        jj + 1,
    ) as i128);
    let rhs = rhs_cell(div, uniform, i, j);
    proof {
        lemma_product_bound(count as int, own as int, 4, 0x8000_0000_0000_0000);
    }
    let residual: i128 = sum - count * (own as i128) - (rhs as i128);
    saturate((own as i128) + residual / count)
}

/// Runs one pass of the relaxation.  The result is written to the scratch
/// buffer, which then becomes the current one.
///
/// The pass does not increase the sum, over the fluid cells, of the
/// magnitudes of the residuals of the pressure equation.
pub fn jacobi_iteration(
    pressure: &mut PressureTextures,
    div: &Field<i64>,
    labels: &Field<GridLabel>,
    uniform: &SimulationUniform,
)
    requires
        fits(labels@.width, labels@.height),
        labels.wf(),
        div.wf(),
        div@.same_shape(labels@),
        old(pressure).wf(labels@.width, labels@.height),
        uniform.valid(),
    ensures
        final(pressure).wf(labels@.width, labels@.height),
        final(pressure).p0@ == jacobi_spec(old(pressure).p0@, div@, labels@, *uniform),
        final(pressure).p1@ == old(pressure).p0@,
        remaining(final(pressure).p0@, div@, labels@, *uniform) <= remaining(
            old(pressure).p0@,
            div@,
            labels@,
            *uniform,
        ),
{
    let p0 = &pressure.p0;
    proof {
        p0.lemma_view_wf();
        labels.lemma_view_wf();
        lemma_remaining_does_not_grow(p0@, div@, labels@, *uniform);
    }
    pressure.p1.fill_with(
        |i: usize, j: usize| -> (r: i64)
            requires
                fits(labels@.width, labels@.height),
                p0.wf(),
                div.wf(),
                labels.wf(),
                p0@.same_shape(labels@),
                div@.same_shape(labels@),
                labels@.has(i as int, j as int),
                uniform.valid(),
            ensures
                r as int == jacobi_at(p0@, div@, labels@, *uniform, i as int, j as int)
            {
                let r = jacobi_cell(p0, div, labels, uniform, i, j);
                r
            },
    );
    proof {
        lemma_is_tabulation(
            pressure.p1@,
            |i: int, j: int| jacobi_at(pressure.p0@, div@, labels@, *uniform, i, j) as i64,
        );
    }
    std::mem::swap(&mut pressure.p0, &mut pressure.p1);
}

/// The scratch buffer after `n` passes: the pressure before the last pass,
/// or the former scratch where no pass ran.
pub open spec fn scratch_after(
    p: Lattice<i64>,
    scratch: Lattice<i64>,
    div: Lattice<i64>,
    labels: Lattice<GridLabel>,
    uniform: SimulationUniform,
    n: nat,
) -> Lattice<i64> {
    if n == 0 {
        scratch
    } else {
        jacobi_iterate(p, div, labels, uniform, (n - 1) as nat)
    }
}

/// Runs the configured number of passes of the relaxation.
///
/// From pass to pass the sum, over the fluid cells, of the magnitudes of the
/// residuals of the pressure equation never increases.
pub fn solve_pressure(
    pressure: &mut PressureTextures,
    div: &Field<i64>,
    labels: &Field<GridLabel>,
    uniform: &SimulationUniform,
    iterations: u32,
)
    requires
        fits(labels@.width, labels@.height),
        labels.wf(),
        div.wf(),
        div@.same_shape(labels@),
        old(pressure).wf(labels@.width, labels@.height),
        uniform.valid(),
    ensures
        final(pressure).wf(labels@.width, labels@.height),
        final(pressure).p0@ == jacobi_iterate(
            old(pressure).p0@,
            div@,
            labels@,
            *uniform,
            iterations as nat,
        ),
        final(pressure).p1@ == scratch_after(
            old(pressure).p0@,
            old(pressure).p1@,
            div@,
            labels@,
            *uniform,
            iterations as nat,
        ),
        forall|k: nat|
            k < iterations ==> remaining(
                #[trigger] jacobi_iterate(
                    old(pressure).p0@,
                    div@,
                    labels@,
                    *uniform,
                    (k + 1) as nat,
                ),
                div@,
                labels@,
                *uniform,
            ) <= remaining(
                jacobi_iterate(old(pressure).p0@, div@, labels@, *uniform, k),
                div@,
                labels@,
                *uniform,
            ),
        remaining(final(pressure).p0@, div@, labels@, *uniform) <= remaining(
            old(pressure).p0@,
            div@,
            labels@,
            *uniform,
        ),
{
    proof {
        pressure.p0.lemma_view_wf();
        labels.lemma_view_wf();
        lemma_remaining_after_passes(
            pressure.p0@,
            div@,
            labels@,
            *uniform,
            iterations as nat,
        );
    }
    let mut k: u32 = 0;
    while k < iterations
        invariant
            k <= iterations,
            fits(labels@.width, labels@.height),
            labels.wf(),
            div.wf(),
            div@.same_shape(labels@),
            pressure.wf(labels@.width, labels@.height),
            uniform.valid(),
            pressure.p0@ == jacobi_iterate(old(pressure).p0@, div@, labels@, *uniform, k as nat),
            pressure.p1@ == scratch_after(
                old(pressure).p0@,
                old(pressure).p1@,
                div@,
                labels@,
                *uniform,
                k as nat,
            ),
        decreases iterations - k,
    {
        jacobi_iteration(pressure, div, labels, uniform);
        k = k + 1;
    }
}

} // verus!
