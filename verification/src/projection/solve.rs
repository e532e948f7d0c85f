//! Correction of the velocity by the pressure gradient.
//!
//! A face that touches a solid cell takes the solid velocity recorded for
//! it.  Any other face that touches a fluid cell loses the pressure
//! difference across it, scaled by the time step over the density and the
//! cell size.  A face between two empty cells keeps its velocity.
use crate::definition::{
    fits, GridLabel, SimulationUniform, SolidVelocityTextures, VelocityTextures,
};
use crate::field::{lemma_is_tabulation, Field, Lattice};
use crate::grid_label::{
    u_face_fluid, u_face_is_fluid, u_face_is_solid, u_face_solid, v_face_fluid, v_face_is_fluid,
    v_face_is_solid, v_face_solid,
};
use crate::projection::jacobi_iteration::{fluid_pressure, fluid_pressure_of};
use crate::scalar::{fx_div, fx_div_spec, fx_mul, fx_mul_spec, fx_sub, fx_sub_spec};
use vstd::prelude::*;

verus! {

/// The change of velocity that a pressure difference across a face causes in
/// one time step.
pub open spec fn pressure_pull(difference: int, uniform: SimulationUniform) -> int {
    fx_div_spec(
        fx_div_spec(fx_mul_spec(uniform.dt as int, difference), uniform.rho as int),
        uniform.dx as int,
    )
}

/// The horizontal velocity of the vertical face `(i, j)` after the
/// correction.
pub open spec fn solve_u_at(
    u: Lattice<i64>,
    u_solid: Lattice<i64>,
    p: Lattice<i64>,
    labels: Lattice<GridLabel>,
    uniform: SimulationUniform,
    i: int,
    j: int,
) -> int {
    if u_face_solid(labels, i, j) {
        u_solid.at(i, j) as int
    } else if u_face_fluid(labels, i, j) {
        fx_sub_spec(
            u.at(i, j) as int,
            pressure_pull(
                fx_sub_spec(fluid_pressure(p, labels, i, j), fluid_pressure(p, labels, i - 1, j)),
                uniform,
            ),
        )
    } else {
        u.at(i, j) as int
    }
}

/// The vertical velocity of the horizontal face `(i, j)` after the
/// correction.
pub open spec fn solve_v_at(
    v: Lattice<i64>,
    v_solid: Lattice<i64>,
    p: Lattice<i64>,
    labels: Lattice<GridLabel>,
    uniform: SimulationUniform,
    i: int,
    j: int,
) -> int {
    if v_face_solid(labels, i, j) {
        v_solid.at(i, j) as int
    } else if v_face_fluid(labels, i, j) {
        fx_sub_spec(
            v.at(i, j) as int,
            pressure_pull(
                fx_sub_spec(fluid_pressure(p, labels, i, j), fluid_pressure(p, labels, i, j - 1)),
                uniform,
            ),
        )
    } else {
        v.at(i, j) as int
    }
}

/// The horizontal velocity after the correction.
pub open spec fn solve_u_spec(
    u: Lattice<i64>,
    u_solid: Lattice<i64>,
    p: Lattice<i64>,
    labels: Lattice<GridLabel>,
    uniform: SimulationUniform,
) -> Lattice<i64> {
    Lattice::tabulate(
        u.width,
        u.height,
        |i: int, j: int| solve_u_at(u, u_solid, p, labels, uniform, i, j) as i64,
    )
}

/// The vertical velocity after the correction.
pub open spec fn solve_v_spec(
    v: Lattice<i64>,
    v_solid: Lattice<i64>,
    p: Lattice<i64>,
    labels: Lattice<GridLabel>,
    uniform: SimulationUniform,
) -> Lattice<i64> {
    Lattice::tabulate(
        v.width,
        v.height,
        |i: int, j: int| solve_v_at(v, v_solid, p, labels, uniform, i, j) as i64,
    )
}

/// No penetration: every face that touches a solid cell has the solid
/// velocity recorded for it.
pub open spec fn no_penetration(
    u: Lattice<i64>,
    v: Lattice<i64>,
    u_solid: Lattice<i64>,
    v_solid: Lattice<i64>,
    labels: Lattice<GridLabel>,
) -> bool {
    &&& forall|i: int, j: int|
        u.has(i, j) && u_face_solid(labels, i, j) ==> #[trigger] u.at(i, j) == u_solid.at(i, j)
    &&& forall|i: int, j: int|
        v.has(i, j) && v_face_solid(labels, i, j) ==> #[trigger] v.at(i, j) == v_solid.at(i, j)
}

/// The corrected velocity does not penetrate the solid cells, whatever the
/// velocity and the pressure were.
pub proof fn lemma_solve_no_penetration(
    u: Lattice<i64>,
    v: Lattice<i64>,
    u_solid: Lattice<i64>,
    v_solid: Lattice<i64>,
    p: Lattice<i64>,
    labels: Lattice<GridLabel>,
    uniform: SimulationUniform,
)
    ensures
        no_penetration(
            solve_u_spec(u, u_solid, p, labels, uniform),
            solve_v_spec(v, v_solid, p, labels, uniform),
            u_solid,
            v_solid,
            labels,
        ),
{
    Lattice::lemma_tabulate(
        u.width,
        u.height,
        |i: int, j: int| solve_u_at(u, u_solid, p, labels, uniform, i, j) as i64,
    );
    Lattice::lemma_tabulate(
        v.width,
        v.height,
        |i: int, j: int| solve_v_at(v, v_solid, p, labels, uniform, i, j) as i64,
    );
}

/// Computes the change of velocity that a pressure difference causes.
pub fn pressure_pull_of(difference: i64, uniform: &SimulationUniform) -> (r: i64)
    requires
        uniform.valid(),
    ensures
        r as int == pressure_pull(difference as int, *uniform),
{
    fx_div(fx_div(fx_mul(uniform.dt, difference), uniform.rho), uniform.dx)
}

/// Computes the corrected horizontal velocity of the face `(i, j)`.
pub fn solve_u_cell(
    velocity: &VelocityTextures,
    solid: &SolidVelocityTextures,
    p: &Field<i64>,
    labels: &Field<GridLabel>,
    uniform: &SimulationUniform,
    i: usize,
    j: usize,
) -> (r: i64)
    requires
        fits(labels@.width, labels@.height),
        labels.wf(),
        p.wf(),
        p@.same_shape(labels@),
        velocity.wf(labels@.width, labels@.height),
        solid.wf(labels@.width, labels@.height),
        velocity.u0@.has(i as int, j as int),
        uniform.valid(),
    ensures
        r as int == solve_u_at(
            velocity.u0@,
            solid.u_solid@,
            p@,
            labels@,
            *uniform,
            i as int,
            j as int,
        ),
{
    if u_face_is_solid(labels, i, j) {
        return solid.u_solid.get(i, j);
    }
    let own = velocity.u0.get(i, j);
    if u_face_is_fluid(labels, i, j) {
        let ahead = fluid_pressure_of(p, labels, i as i64, j as i64);
        let behind = fluid_pressure_of(p, labels, i as i64 - 1, j as i64);
        fx_sub(own, pressure_pull_of(fx_sub(ahead, behind), uniform))
    } else {
        own
    }
}

/// Computes the corrected vertical velocity of the face `(i, j)`.
pub fn solve_v_cell(
    velocity: &VelocityTextures,
    solid: &SolidVelocityTextures,
    p: &Field<i64>,
    labels: &Field<GridLabel>,
    uniform: &SimulationUniform,
    i: usize,
    j: usize,
) -> (r: i64)
    requires
        fits(labels@.width, labels@.height),
        labels.wf(),
        p.wf(),
        p@.same_shape(labels@),
        velocity.wf(labels@.width, labels@.height),
        solid.wf(labels@.width, labels@.height),
        velocity.v0@.has(i as int, j as int),
        uniform.valid(),
    ensures
        r as int == solve_v_at(
            velocity.v0@,
            solid.v_solid@,
            p@,
            labels@,
            *uniform,
            i as int,
            j as int,
        ),
{
    if v_face_is_solid(labels, i, j) {
        return solid.v_solid.get(i, j);
    }
    let own = velocity.v0.get(i, j);
    if v_face_is_fluid(labels, i, j) {
        let ahead = fluid_pressure_of(p, labels, i as i64, j as i64);
        let behind = fluid_pressure_of(p, labels, i as i64, j as i64 - 1);
        fx_sub(own, pressure_pull_of(fx_sub(ahead, behind), uniform))
    } else {
        own
    }
}

/// Corrects the velocity by the pressure gradient and enforces the solid
/// velocities.  The result is written to the scratch buffers, which then
/// become the current ones.
///
/// Afterwards every face that touches a solid cell has exactly the solid
/// velocity recorded for it.
pub fn solve_velocity(
    velocity: &mut VelocityTextures,
    solid: &SolidVelocityTextures,
    p: &Field<i64>,
    labels: &Field<GridLabel>,
    uniform: &SimulationUniform,
)
    requires
        fits(labels@.width, labels@.height),
        labels.wf(),
        p.wf(),
        p@.same_shape(labels@),
        old(velocity).wf(labels@.width, labels@.height),
        solid.wf(labels@.width, labels@.height),
        uniform.valid(),
    ensures
        final(velocity).wf(labels@.width, labels@.height),
        final(velocity).u0@ == solve_u_spec(
            old(velocity).u0@,
            solid.u_solid@,
            p@,
            labels@,
            *uniform,
        ),
        final(velocity).v0@ == solve_v_spec(
            old(velocity).v0@,
            solid.v_solid@,
            p@,
            labels@,
            *uniform,
        ),
        final(velocity).u1@ == old(velocity).u0@,
        final(velocity).v1@ == old(velocity).v0@,
        no_penetration(
            final(velocity).u0@,
            final(velocity).v0@,
            solid.u_solid@,
            solid.v_solid@,
            labels@,
        ),
{
    let ghost before_u = velocity.u0@;
    let ghost before_v = velocity.v0@;
    proof {
        velocity.u0.lemma_view_wf();
        velocity.v0.lemma_view_wf();
    }
    let mut next_u = Field::new(velocity.u0.width(), velocity.u0.height(), 0i64);
    let mut next_v = Field::new(velocity.v0.width(), velocity.v0.height(), 0i64);
    let current: &VelocityTextures = velocity;
    next_u.fill_with(
        |i: usize, j: usize| -> (r: i64)
            requires
                fits(labels@.width, labels@.height),
                labels.wf(),
                p.wf(),
                p@.same_shape(labels@),
                current.wf(labels@.width, labels@.height),
                solid.wf(labels@.width, labels@.height),
                current.u0@.has(i as int, j as int),
                uniform.valid(),
            ensures
                r as int == solve_u_at(
                    current.u0@,
                    solid.u_solid@,
                    p@,
                    labels@,
                    *uniform,
                    i as int,
                    j as int,
                )
            {
                let r = solve_u_cell(current, solid, p, labels, uniform, i, j);
                r
            },
    );
    next_v.fill_with(
        |i: usize, j: usize| -> (r: i64)
            requires
                fits(labels@.width, labels@.height),
                labels.wf(),
                p.wf(),
                p@.same_shape(labels@),
                current.wf(labels@.width, labels@.height),
                solid.wf(labels@.width, labels@.height),
                current.v0@.has(i as int, j as int),
                uniform.valid(),
            ensures
                r as int == solve_v_at(
                    current.v0@,
                    solid.v_solid@,
                    p@,
                    labels@,
                    *uniform,
                    i as int,
                    j as int,
                )
            {
                let r = solve_v_cell(current, solid, p, labels, uniform, i, j);
                r
            },
    );
    proof {
        lemma_is_tabulation(
            next_u@,
            |i: int, j: int|
                solve_u_at(before_u, solid.u_solid@, p@, labels@, *uniform, i, j) as i64,
        );
        lemma_is_tabulation(
            next_v@,
            |i: int, j: int|
                solve_v_at(before_v, solid.v_solid@, p@, labels@, *uniform, i, j) as i64,
        );
        lemma_solve_no_penetration(
            before_u,
            before_v,
            solid.u_solid@,
            solid.v_solid@,
            p@,
            labels@,
            *uniform,
        );
    }
    velocity.u1 = next_u;
    velocity.v1 = next_v;
    std::mem::swap(&mut velocity.u0, &mut velocity.u1);
    std::mem::swap(&mut velocity.v0, &mut velocity.v1);
}

} // verus!
