//! One step of a simulation.
//!
//! A tick runs the stages in a fixed order, each on the complete result of
//! the one before: labels, transport of the level set and of the velocity,
//! forces, divergence, pressure, correction of the velocity, and the rebuild
//! of the level set.
use crate::add_force::{add_force, add_force_u_spec, add_force_v_spec};
use crate::advection::{
    advect_levelset, advect_levelset_spec, advect_u_spec, advect_v_spec, advection,
    all_negative, lemma_advect_levelset_negative, samplable,
};
use crate::definition::{
    fits, CircleObstacle, FluidSimulationBundle, ForceScaling, GridLabel, JumpFloodingUniform,
    LocalForces, Obstacles, SimulationUniform,
};
use crate::field::Lattice;
use crate::grid_label::{
    covered, grid_label_spec, label_at, on_border, solid_u_spec, solid_v_spec, update_grid_label,
};
use crate::projection::divergence::{divergence, divergence_spec};
use crate::projection::jacobi_iteration::{jacobi_iterate, scratch_after, solve_pressure};
use crate::projection::solve::{no_penetration, solve_u_spec, solve_v_spec, solve_velocity};
use crate::recompute_levelset::{
    flooded, lemma_sdf_keeps_signs, recompute_levelset, same_signs, sdf_at, sdf_spec,
    seeds_x_spec, seeds_y_spec,
};
use vstd::prelude::*;

verus! {

/// The mathematical model of the buffers of a simulation.
pub struct BundleState {
    pub u0: Lattice<i64>,
    pub v0: Lattice<i64>,
    pub u1: Lattice<i64>,
    pub v1: Lattice<i64>,
    pub u_solid: Lattice<i64>,
    pub v_solid: Lattice<i64>,
    pub p0: Lattice<i64>,
    pub p1: Lattice<i64>,
    pub div: Lattice<i64>,
    pub levelset: Lattice<i64>,
    pub grid_label: Lattice<GridLabel>,
    pub seeds_x: Lattice<i64>,
    pub seeds_y: Lattice<i64>,
}

/// What a tick reads besides the buffers.
pub struct TickInput {
    pub uniform: SimulationUniform,
    pub jacobi_iterations: nat,
    pub force_scaling: ForceScaling,
    pub steps: Seq<JumpFloodingUniform>,
    pub circles: Seq<CircleObstacle>,
    pub forces: LocalForces,
}

impl View for FluidSimulationBundle {
    type V = BundleState;

    open spec fn view(&self) -> BundleState {
        BundleState {
            u0: self.velocity_textures.u0@,
            v0: self.velocity_textures.v0@,
            u1: self.velocity_textures.u1@,
            v1: self.velocity_textures.v1@,
            u_solid: self.solid_velocity_textures.u_solid@,
            v_solid: self.solid_velocity_textures.v_solid@,
            p0: self.pressure_textures.p0@,
            p1: self.pressure_textures.p1@,
            div: self.divergence_textures.div@,
            levelset: self.levelset_textures.levelset@,
            grid_label: self.levelset_textures.grid_label@,
            seeds_x: self.jump_flooding_seeds_textures.jump_flooding_seeds_x@,
            seeds_y: self.jump_flooding_seeds_textures.jump_flooding_seeds_y@,
        }
    }
}

/// The state after one tick.
pub open spec fn tick_spec(s: BundleState, input: TickInput) -> BundleState {
    let uniform = input.uniform;
    let dt = uniform.dt as int;
    let dx = uniform.dx as int;
    let nx = s.levelset.width;
    let ny = s.levelset.height;
    let labels = grid_label_spec(s.levelset, input.circles);
    let u_solid = solid_u_spec(input.circles, nx, ny);
    let v_solid = solid_v_spec(input.circles, nx, ny);
    let carried = advect_levelset_spec(s.levelset, s.u0, s.v0, dt, dx);
    let ua = advect_u_spec(s.u0, s.v0, dt, dx);
    let va = advect_v_spec(s.u0, s.v0, dt, dx);
    let uf = add_force_u_spec(ua, labels, input.forces, uniform, input.force_scaling);
    let vf = add_force_v_spec(va, labels, input.forces, uniform, input.force_scaling);
    let div = divergence_spec(uf, vf, u_solid, v_solid, labels, dx);
    let p0 = jacobi_iterate(s.p0, div, labels, uniform, input.jacobi_iterations);
    let p1 = scratch_after(s.p0, s.p1, div, labels, uniform, input.jacobi_iterations);
    let seeds = flooded(
        seeds_x_spec(carried),
        seeds_y_spec(carried),
        input.steps,
        input.steps.len(),
    );
    BundleState {
        u0: solve_u_spec(uf, u_solid, p0, labels, uniform),
        v0: solve_v_spec(vf, v_solid, p0, labels, uniform),
        u1: uf,
        v1: vf,
        u_solid,
        v_solid,
        p0,
        p1,
        div,
        levelset: sdf_spec(carried, seeds.0, seeds.1, dx),
        grid_label: labels,
        seeds_x: seeds.0,
        seeds_y: seeds.1,
    }
}

/// Every cell that neither lies on the border nor under an obstacle is
/// fluid.
pub open spec fn full(labels: Lattice<GridLabel>, circles: Seq<CircleObstacle>) -> bool {
    forall|i: int, j: int|
        labels.has(i, j) && !on_border(labels.width as int, labels.height as int, i, j)
            && !covered(circles, i, j) ==> #[trigger] labels.at(i, j) == GridLabel::Fluid
}

/// Stability of the volume of a full box: where the level set is negative in
/// every cell, a tick labels every cell fluid that neither lies on the border
/// nor under an obstacle, and leaves the level set negative in every cell,
/// whatever the velocity, the forces and the obstacles are.  So a box that is
/// full stays full for ever, and the number of its fluid cells never changes.
pub proof fn lemma_full_box_stays_full(s: BundleState, input: TickInput)
    requires
        samplable(s.levelset),
        all_negative(s.levelset),
    ensures
        full(tick_spec(s, input).grid_label, input.circles),
        tick_spec(s, input).grid_label.same_shape(s.levelset),
        samplable(tick_spec(s, input).levelset),
        all_negative(tick_spec(s, input).levelset),
{
    let dt = input.uniform.dt as int;
    let dx = input.uniform.dx as int;
    let carried = advect_levelset_spec(s.levelset, s.u0, s.v0, dt, dx);
    lemma_advect_levelset_negative(s.levelset, s.u0, s.v0, dt, dx);
    let seeds = flooded(
        seeds_x_spec(carried),
        seeds_y_spec(carried),
        input.steps,
        input.steps.len(),
    );
    lemma_sdf_keeps_signs(carried, seeds.0, seeds.1, dx);
    Lattice::lemma_tabulate(
        carried.width,
        carried.height,
        |i: int, j: int| sdf_at(carried, seeds.0, seeds.1, dx, i, j) as i64,
    );
    Lattice::lemma_tabulate(
        s.levelset.width,
        s.levelset.height,
        |i: int, j: int| label_at(s.levelset, input.circles, i, j),
    );
    let after = tick_spec(s, input).levelset;
    assert forall|i: int, j: int| after.has(i, j) implies #[trigger] after.at(i, j) < 0 by {
        assert((after.at(i, j) < 0) == (carried.at(i, j) < 0));
    }
}

/// The state after the first `n` of a sequence of ticks.
pub open spec fn ticks_spec(s: BundleState, inputs: Seq<TickInput>, n: nat) -> BundleState
    decreases n,
{
    if n == 0 {
        s
    } else {
        tick_spec(ticks_spec(s, inputs, (n - 1) as nat), inputs[n - 1])
    }
}

/// A box that is full stays full over any number of ticks, whatever their
/// inputs are: after each of them every cell that neither lies on the border
/// nor under an obstacle of that tick is fluid.
pub proof fn lemma_full_box_stays_full_for_ever(s: BundleState, inputs: Seq<TickInput>, n: nat)
    requires
        samplable(s.levelset),
        all_negative(s.levelset),
        1 <= n <= inputs.len(),
    ensures
        full(ticks_spec(s, inputs, n).grid_label, inputs[n - 1].circles),
        ticks_spec(s, inputs, n).grid_label.same_shape(s.levelset),
        samplable(ticks_spec(s, inputs, n).levelset),
        all_negative(ticks_spec(s, inputs, n).levelset),
        ticks_spec(s, inputs, n).levelset.same_shape(s.levelset),
    decreases n,
{
    if n > 1 {
        lemma_full_box_stays_full_for_ever(s, inputs, (n - 1) as nat);
    }
    lemma_full_box_stays_full(ticks_spec(s, inputs, (n - 1) as nat), inputs[n - 1]);
}

impl BundleState {
    /// No face that touches a solid cell lets fluid through: each has the
    /// solid velocity recorded for it.
    pub open spec fn no_penetration(self) -> bool {
        no_penetration(self.u0, self.v0, self.u_solid, self.v_solid, self.grid_label)
    }
}

impl FluidSimulationBundle {
    /// Number of cells along the horizontal axis.
    pub open spec fn nx(&self) -> nat {
        self.levelset_textures.nx()
    }

    /// Number of cells along the vertical axis.
    pub open spec fn ny(&self) -> nat {
        self.levelset_textures.ny()
    }

    /// The buffers have the shapes that the grid gives them, and the extents
    /// of the grid fit in 32 bits.
    pub open spec fn sized(&self) -> bool {
        fits(self.nx(), self.ny()) && self.wf(self.nx(), self.ny())
    }

    /// Advances the simulation by one tick.
    ///
    /// Afterwards every face that touches a solid cell has exactly the solid
    /// velocity recorded for it, and the level set has the sign that the
    /// transport gave it.
    pub fn tick(
        &mut self,
        uniform: &SimulationUniform,
        jacobi_iterations: u32,
        force_scaling: ForceScaling,
        steps: &Vec<JumpFloodingUniform>,
        obstacles: &Obstacles,
        forces: &LocalForces,
    )
        requires
            old(self).sized(),
            uniform.valid(),
        ensures
            final(self).sized(),
            final(self).nx() == old(self).nx(),
            final(self).ny() == old(self).ny(),
            final(self)@ == tick_spec(
                old(self)@,
                (TickInput {
                    uniform: *uniform,
                    jacobi_iterations: jacobi_iterations as nat,
                    force_scaling,
                    steps: steps@,
                    circles: obstacles.circles@,
                    forces: *forces,
                }),
            ),
            final(self)@.no_penetration(),
            same_signs(
                final(self)@.levelset,
                advect_levelset_spec(
                    old(self)@.levelset,
                    old(self)@.u0,
                    old(self)@.v0,
                    uniform.dt as int,
                    uniform.dx as int,
                ),
            ),
    {
        update_grid_label(
            &mut self.levelset_textures,
            &mut self.solid_velocity_textures,
            obstacles,
        );
        advect_levelset(&mut self.levelset_textures, &self.velocity_textures, uniform);
        advection(&mut self.velocity_textures, uniform);
        add_force(
            &mut self.velocity_textures,
            &self.levelset_textures.grid_label,
            forces,
            uniform,
            force_scaling,
        );
        divergence(
            &mut self.divergence_textures,
            &self.velocity_textures,
            &self.solid_velocity_textures,
            &self.levelset_textures.grid_label,
            uniform,
        );
        solve_pressure(
            &mut self.pressure_textures,
            &self.divergence_textures.div,
            &self.levelset_textures.grid_label,
            uniform,
            jacobi_iterations,
        );
        solve_velocity(
            &mut self.velocity_textures,
            &self.solid_velocity_textures,
            &self.pressure_textures.p0,
            &self.levelset_textures.grid_label,
            uniform,
        );
        recompute_levelset(
            &mut self.levelset_textures,
            &mut self.jump_flooding_seeds_textures,
            steps,
            uniform,
        );
    }
}

} // verus!
