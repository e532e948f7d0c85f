//! Gravity and local forces.
//!
//! Gravity accelerates the vertical velocity of every horizontal face.  Each
//! local force then pushes the two faces nearest to its position, one of each
//! orientation, unless the face touches a solid cell or the position lies
//! outside the domain.
use crate::definition::{
    fits, ForceScaling, GridLabel, LocalForces, SimulationUniform, Vec2, VelocityTextures,
};
use crate::field::{lemma_is_tabulation, Field, Lattice};
use crate::grid_label::{u_face_is_solid, u_face_solid, v_face_is_solid, v_face_solid};
use crate::scalar::{fx_add, fx_add_spec, fx_div, fx_div_spec, fx_mul, fx_mul_spec, HALF, ONE};
use vstd::prelude::*;

verus! {

/// The change of velocity that a force causes in one time step.
pub open spec fn impulse_spec(force: int, dt: int, rho: int, scaling: ForceScaling) -> int {
    match scaling {
        ForceScaling::TimeStep => fx_mul_spec(force, dt),
        ForceScaling::TimeStepOverDensity => fx_div_spec(fx_mul_spec(force, dt), rho),
    }
}

/// The vertical face `(i, j)`, which sits at the point `(i, j + 1/2)`, is the
/// one nearest to the position.
pub open spec fn targets_u(position: Vec2, i: int, j: int) -> bool {
    &&& position.x + HALF >= 0
    &&& position.y >= 0
    &&& (position.x + HALF) / (ONE as int) == i
    &&& (position.y as int) / (ONE as int) == j
}

/// The horizontal face `(i, j)`, which sits at the point `(i + 1/2, j)`, is
/// the one nearest to the position.
pub open spec fn targets_v(position: Vec2, i: int, j: int) -> bool {
    &&& position.x >= 0
    &&& position.y + HALF >= 0
    &&& (position.x as int) / (ONE as int) == i
    &&& (position.y + HALF) / (ONE as int) == j
}

/// The horizontal velocity of the face `(i, j)` after the first `n` forces
/// have acted on the value `base`.
pub open spec fn forced_u(
    force: Seq<Vec2>,
    position: Seq<Vec2>,
    dt: int,
    rho: int,
    scaling: ForceScaling,
    base: int,
    i: int,
    j: int,
    n: nat,
) -> int
    decreases n,
{
    if n == 0 {
        base
    } else {
        let before = forced_u(force, position, dt, rho, scaling, base, i, j, (n - 1) as nat);
        if targets_u(position[n - 1], i, j) {
            fx_add_spec(before, impulse_spec(force[n - 1].x as int, dt, rho, scaling))
        } else {
            before
        }
    }
}

/// The vertical velocity of the face `(i, j)` after the first `n` forces have
/// acted on the value `base`.
pub open spec fn forced_v(
    force: Seq<Vec2>,
    position: Seq<Vec2>,
    dt: int,
    rho: int,
    scaling: ForceScaling,
    base: int,
    i: int,
    j: int,
    n: nat,
) -> int
    decreases n,
{
    if n == 0 {
        base
    } else {
        let before = forced_v(force, position, dt, rho, scaling, base, i, j, (n - 1) as nat);
        if targets_v(position[n - 1], i, j) {
            fx_add_spec(before, impulse_spec(force[n - 1].y as int, dt, rho, scaling))
        } else {
            before
        }
    }
}

/// The horizontal velocity of the face `(i, j)` after the stage: unchanged
/// where the face touches a solid cell, else the sum of its value and of the
/// impulses of the forces that act on it.
pub open spec fn add_force_u_at(
    u: Lattice<i64>,
    labels: Lattice<GridLabel>,
    forces: LocalForces,
    uniform: SimulationUniform,
    scaling: ForceScaling,
    i: int,
    j: int,
) -> int {
    if u_face_solid(labels, i, j) {
        u.at(i, j) as int
    } else {
        forced_u(
            forces.force@,
            forces.position@,
            uniform.dt as int,
            uniform.rho as int,
            scaling,
            u.at(i, j) as int,
            i,
            j,
            forces.count(),
        )
    }
}

/// The vertical velocity of the face `(i, j)` after the stage: its value
/// plus the gain from gravity, and, unless the face touches a solid cell, plus
/// the impulses of the forces that act on it.
pub open spec fn add_force_v_at(
    v: Lattice<i64>,
    labels: Lattice<GridLabel>,
    forces: LocalForces,
    uniform: SimulationUniform,
    scaling: ForceScaling,
    i: int,
    j: int,
) -> int {
    let fallen = fx_add_spec(
        v.at(i, j) as int,
        fx_mul_spec(uniform.gravity.y as int, uniform.dt as int),
    );
    if v_face_solid(labels, i, j) {
        fallen
    } else {
        forced_v(
            forces.force@,
            forces.position@,
            uniform.dt as int,
            uniform.rho as int,
            scaling,
            fallen,
            i,
            j,
            forces.count(),
        )
    }
}

/// The horizontal velocity after the stage.
pub open spec fn add_force_u_spec(
    u: Lattice<i64>,
    labels: Lattice<GridLabel>,
    forces: LocalForces,
    uniform: SimulationUniform,
    scaling: ForceScaling,
) -> Lattice<i64> {
    Lattice::tabulate(
        u.width,
        u.height,
        |i: int, j: int| add_force_u_at(u, labels, forces, uniform, scaling, i, j) as i64,
    )
}

/// The vertical velocity after the stage.
pub open spec fn add_force_v_spec(
    v: Lattice<i64>,
    labels: Lattice<GridLabel>,
    forces: LocalForces,
    uniform: SimulationUniform,
    scaling: ForceScaling,
) -> Lattice<i64> {
    Lattice::tabulate(
        v.width,
        v.height,
        |i: int, j: int| add_force_v_at(v, labels, forces, uniform, scaling, i, j) as i64,
    )
}

/// With no forces, the stage leaves the horizontal velocity as it is.
pub proof fn lemma_no_forces_keep_u(
    u: Lattice<i64>,
    labels: Lattice<GridLabel>,
    forces: LocalForces,
    uniform: SimulationUniform,
    scaling: ForceScaling,
)
    requires
        u.wf(),
        forces.count() == 0,
    ensures
        add_force_u_spec(u, labels, forces, uniform, scaling) == u,
{
    let out = add_force_u_spec(u, labels, forces, uniform, scaling);
    Lattice::lemma_tabulate(
        u.width,
        u.height,
        |i: int, j: int| add_force_u_at(u, labels, forces, uniform, scaling, i, j) as i64,
    );
    out.lemma_ext_equal(u);
}

/// Computes the change of velocity that a force causes in one time step.
pub fn impulse(force: i64, dt: i64, rho: i64, scaling: ForceScaling) -> (r: i64)
    requires
        rho > 0,
    ensures
        r as int == impulse_spec(force as int, dt as int, rho as int, scaling),
{
    match scaling {
        ForceScaling::TimeStep => fx_mul(force, dt),
        ForceScaling::TimeStepOverDensity => fx_div(fx_mul(force, dt), rho),
    }
}

/// Index of the sample at or before the coordinate `x`, or nothing where `x`
/// is negative.
fn index_of(x: i128) -> (r: Option<i128>)
    ensures
        x < 0 ==> r is None,
        x >= 0 ==> r == Some((x as int / (ONE as int)) as i128),
{
    if x < 0 {
        None
    } else {
        Some(x / 65536)
    }
}

/// Tells whether the vertical face `(i, j)` is the one nearest to the
/// position.
pub fn is_target_u(position: &Vec2, i: usize, j: usize) -> (b: bool)
    ensures
        b == targets_u(*position, i as int, j as int),
{
    let a = index_of(position.x as i128 + 32768);
    let b = index_of(position.y as i128);
    match (a, b) {
        (Some(a), Some(b)) => a == i as i128 && b == j as i128,
        _ => false,
    }
}

/// Tells whether the horizontal face `(i, j)` is the one nearest to the
/// position.
pub fn is_target_v(position: &Vec2, i: usize, j: usize) -> (b: bool)
    ensures
        b == targets_v(*position, i as int, j as int),
{
    let a = index_of(position.x as i128);
    let b = index_of(position.y as i128 + 32768);
    match (a, b) {
        (Some(a), Some(b)) => a == i as i128 && b == j as i128,
        _ => false,
    }
}

/// Number of forces that have a position.
pub fn force_count(forces: &LocalForces) -> (n: usize)
    ensures
        n == forces.count(),
{
    if forces.force.len() <= forces.position.len() {
        forces.force.len()
    } else {
        forces.position.len()
    }
}

/// Computes the horizontal velocity of the face `(i, j)` after the stage.
pub fn add_force_u_cell(
    u: &Field<i64>,
    labels: &Field<GridLabel>,
    forces: &LocalForces,
    uniform: &SimulationUniform,
    scaling: ForceScaling,
    i: usize,
    j: usize,
) -> (r: i64)
    requires
        u.wf(),
        labels.wf(),
        u@.has(i as int, j as int),
        u@.width <= 0x1_0000_0000,
        u@.height <= 0x1_0000_0000,
        uniform.valid(),
    ensures
        r as int == add_force_u_at(u@, labels@, *forces, *uniform, scaling, i as int, j as int),
{
    let base = u.get(i, j);
    if u_face_is_solid(labels, i, j) {
        return base;
    }
    let n = force_count(forces);
    let mut acc = base;
    let mut k: usize = 0;
    while k < n
        invariant
            k <= n,
            n == forces.count(),
            uniform.valid(),
            acc as int == forced_u(
                forces.force@,
                forces.position@,
                uniform.dt as int,
                uniform.rho as int,
                scaling,
                base as int,
                i as int,
                j as int,
                k as nat,
            ),
        decreases n - k,
    {
        if is_target_u(&forces.position[k], i, j) {
            acc = fx_add(acc, impulse(forces.force[k].x, uniform.dt, uniform.rho, scaling));
        }
        k = k + 1;
    }
    acc
}

/// Computes the vertical velocity of the face `(i, j)` after the stage.
pub fn add_force_v_cell(
    v: &Field<i64>,
    labels: &Field<GridLabel>,
    forces: &LocalForces,
    uniform: &SimulationUniform,
    scaling: ForceScaling,
    i: usize,
    j: usize,
) -> (r: i64)
    requires
        v.wf(),
        labels.wf(),
        v@.has(i as int, j as int),
        v@.width <= 0x1_0000_0000,
        v@.height <= 0x1_0000_0000,
        uniform.valid(),
    ensures
        r as int == add_force_v_at(v@, labels@, *forces, *uniform, scaling, i as int, j as int),
{
    let base = fx_add(v.get(i, j), fx_mul(uniform.gravity.y, uniform.dt));
    if v_face_is_solid(labels, i, j) {
        return base;
    }
    let n = force_count(forces);
    let mut acc = base;
    let mut k: usize = 0;
    while k < n
        invariant
            k <= n,
            n == forces.count(),
            uniform.valid(),
            acc as int == forced_v(
                forces.force@,
                forces.position@,
                uniform.dt as int,
                uniform.rho as int,
                scaling,
                base as int,
                i as int,
                j as int,
                k as nat,
            ),
        decreases n - k,
    {
        if is_target_v(&forces.position[k], i, j) {
            acc = fx_add(acc, impulse(forces.force[k].y, uniform.dt, uniform.rho, scaling));
        }
        k = k + 1;
    }
    acc
}

/// Adds gravity and the local forces to the velocity.  The result is written
/// to the scratch buffers, which then become the current ones.
pub fn add_force(
    velocity: &mut VelocityTextures,
    labels: &Field<GridLabel>,
    forces: &LocalForces,
    uniform: &SimulationUniform,
    scaling: ForceScaling,
)
    requires
        fits(old(velocity).nx(), old(velocity).ny()),
        old(velocity).wf(old(velocity).nx(), old(velocity).ny()),
        labels.wf(),
        uniform.valid(),
    ensures
        final(velocity).wf(old(velocity).nx(), old(velocity).ny()),
        final(velocity).u0@ == add_force_u_spec(
            old(velocity).u0@,
            labels@,
            *forces,
            *uniform,
            scaling,
        ),
        final(velocity).v0@ == add_force_v_spec(
            old(velocity).v0@,
            labels@,
            *forces,
            *uniform,
            scaling,
        ),
        final(velocity).u1@ == old(velocity).u0@,
        final(velocity).v1@ == old(velocity).v0@,
{
    let u0 = &velocity.u0;
    let v0 = &velocity.v0;
    velocity.u1.fill_with(
        |i: usize, j: usize| -> (r: i64)
            requires
                u0.wf(),
                labels.wf(),
                u0@.has(i as int, j as int),
                u0@.width <= 0x1_0000_0000,
                u0@.height <= 0x1_0000_0000,
                uniform.valid(),
            ensures
                r as int == add_force_u_at(
                    u0@,
                    labels@,
                    *forces,
                    *uniform,
                    scaling,
                    i as int,
                    j as int,
                )
            {
                let r = add_force_u_cell(u0, labels, forces, uniform, scaling, i, j);
                r
            },
    );
    velocity.v1.fill_with(
        |i: usize, j: usize| -> (r: i64)
            requires
                v0.wf(),
                labels.wf(),
                v0@.has(i as int, j as int),
                v0@.width <= 0x1_0000_0000,
                v0@.height <= 0x1_0000_0000,
                uniform.valid(),
            ensures
                r as int == add_force_v_at(
                    v0@,
                    labels@,
                    *forces,
                    *uniform,
                    scaling,
                    i as int,
                    j as int,
                )
            {
                let r = add_force_v_cell(v0, labels, forces, uniform, scaling, i, j);
                r
            },
    );
    proof {
        lemma_is_tabulation(
            velocity.u1@,
            |i: int, j: int|
                add_force_u_at(velocity.u0@, labels@, *forces, *uniform, scaling, i, j) as i64,
        );
        lemma_is_tabulation(
            velocity.v1@,
            |i: int, j: int|
                add_force_v_at(velocity.v0@, labels@, *forces, *uniform, scaling, i, j) as i64,
        );
    }
    std::mem::swap(&mut velocity.u0, &mut velocity.u1);
    std::mem::swap(&mut velocity.v0, &mut velocity.v1);
}

} // verus!
