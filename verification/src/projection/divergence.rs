//! Divergence of the velocity.
//!
//! The divergence of a fluid cell is the net outflow through its four faces,
//! divided by the cell size.  A face shared with a solid cell carries the
//! solid velocity recorded for it, and a face shared with an empty cell
//! contributes nothing.  Cells that are not fluid have divergence zero.
use crate::definition::{
    fits, DivergenceTextures, GridLabel, SimulationUniform, SolidVelocityTextures,
    VelocityTextures,
};
use crate::field::{lemma_is_tabulation, Field, Lattice};
use crate::grid_label::{label_or_solid, neighbor_label};
use crate::scalar::{fx_add, fx_add_spec, fx_div, fx_div_spec, fx_sub, fx_sub_spec};
use vstd::prelude::*;

verus! {

/// The velocity through a face of a fluid cell, given what lies on the other
/// side of the face.
pub open spec fn face_value(beyond: GridLabel, velocity: i64, solid_velocity: i64) -> int {
    match beyond {
        GridLabel::Solid => solid_velocity as int,
        GridLabel::Empty => 0,
        GridLabel::Fluid => velocity as int,
    }
}

/// The divergence of cell `(i, j)`.
pub open spec fn divergence_at(
    u: Lattice<i64>,
    v: Lattice<i64>,
    u_solid: Lattice<i64>,
    v_solid: Lattice<i64>,
    labels: Lattice<GridLabel>,
    dx: int,
    i: int,
    j: int,
) -> int {
    if labels.at(i, j) != GridLabel::Fluid {
        0
    } else {
        let left = face_value(label_or_solid(labels, i - 1, j), u.at(i, j), u_solid.at(i, j));
        let right = face_value(
            label_or_solid(labels, i + 1, j),
            u.at(i + 1, j),
            u_solid.at(i + 1, j),
        );
        let below = face_value(label_or_solid(labels, i, j - 1), v.at(i, j), v_solid.at(i, j));
        let above = face_value(
            label_or_solid(labels, i, j + 1),
            v.at(i, j + 1),
            v_solid.at(i, j + 1),
        );
        fx_add_spec(
            fx_div_spec(fx_sub_spec(right, left), dx),
            fx_div_spec(fx_sub_spec(above, below), dx),
        )
    }
}

/// The divergence of all cells.
pub open spec fn divergence_spec(
    u: Lattice<i64>,
    v: Lattice<i64>,
    u_solid: Lattice<i64>,
    v_solid: Lattice<i64>,
    labels: Lattice<GridLabel>,
    dx: int,
) -> Lattice<i64> {
    Lattice::tabulate(
        labels.width,
        labels.height,
        |i: int, j: int| divergence_at(u, v, u_solid, v_solid, labels, dx, i, j) as i64,
    )
}

/// Computes the velocity through a face of a fluid cell.
pub fn face_value_of(beyond: GridLabel, velocity: i64, solid_velocity: i64) -> (r: i64)
    ensures
        r as int == face_value(beyond, velocity, solid_velocity),
{
    match beyond {
        GridLabel::Solid => solid_velocity,
        GridLabel::Empty => 0,
        GridLabel::Fluid => velocity,
    }
}

/// Computes the divergence of cell `(i, j)`.
pub fn divergence_cell(
    velocity: &VelocityTextures,
    solid: &SolidVelocityTextures,
    labels: &Field<GridLabel>,
    dx: i64,
    i: usize,
    j: usize,
) -> (r: i64)
    requires
        fits(labels@.width, labels@.height),
        labels.wf(),
        velocity.wf(labels@.width, labels@.height),
        solid.wf(labels@.width, labels@.height),
        labels@.has(i as int, j as int),
        dx > 0,
    ensures
        r as int == divergence_at(
            velocity.u0@,
            velocity.v0@,
            solid.u_solid@,
            solid.v_solid@,
            labels@,
            dx as int,
            i as int,
            j as int,
        ),
{
    match labels.get(i, j) {
        GridLabel::Fluid => {},
        _ => {
            return 0;
        },
    }
    let ii = i as i64;
    let jj = j as i64;
    let left = face_value_of(
        neighbor_label(labels, ii - 1, jj),
        velocity.u0.get(i, j),
        solid.u_solid.get(i, j),
    );
    let right = face_value_of(
        neighbor_label(labels, ii + 1, jj),
        velocity.u0.get(i + 1, j),
        solid.u_solid.get(i + 1, j),
    );
    let below = face_value_of(
        neighbor_label(labels, ii, jj - 1),
        velocity.v0.get(i, j),
        solid.v_solid.get(i, j),
    );
    let above = face_value_of(
        neighbor_label(labels, ii, jj + 1),
        velocity.v0.get(i, j + 1),
        solid.v_solid.get(i, j + 1),
    );
    fx_add(fx_div(fx_sub(right, left), dx), fx_div(fx_sub(above, below), dx))
}

/// Computes the divergence of the current velocity in every cell.
pub fn divergence(
    target: &mut DivergenceTextures,
    velocity: &VelocityTextures,
    solid: &SolidVelocityTextures,
    labels: &Field<GridLabel>,
    uniform: &SimulationUniform,
)
    requires
        fits(labels@.width, labels@.height),
        labels.wf(),
        old(target).wf(labels@.width, labels@.height),
        velocity.wf(labels@.width, labels@.height),
        solid.wf(labels@.width, labels@.height),
        uniform.valid(),
    ensures
        final(target).wf(labels@.width, labels@.height),
        final(target).div@ == divergence_spec(
            velocity.u0@,
            velocity.v0@,
            solid.u_solid@,
            solid.v_solid@,
            labels@,
            uniform.dx as int,
        ),
{
    let dx = uniform.dx;
    target.div.fill_with(
        |i: usize, j: usize| -> (r: i64)
            requires
                fits(labels@.width, labels@.height),
                labels.wf(),
                velocity.wf(labels@.width, labels@.height),
                solid.wf(labels@.width, labels@.height),
                labels@.has(i as int, j as int),
                dx > 0,
            ensures
                r as int == divergence_at(
                    velocity.u0@,
                    velocity.v0@,
                    solid.u_solid@,
                    solid.v_solid@,
                    labels@,
                    dx as int,
                    i as int,
                    j as int,
                )
            {
                let r = divergence_cell(velocity, solid, labels, dx, i, j);
                r
            },
    );
    proof {
        lemma_is_tabulation(
            target.div@,
            |i: int, j: int|
                divergence_at(
                    velocity.u0@,
                    velocity.v0@,
                    solid.u_solid@,
                    solid.v_solid@,
                    labels@,
                    dx as int,
                    i,
                    j,
                ) as i64,
        );
    }
}

} // verus!
