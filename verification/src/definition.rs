//! The data model of a simulation: its settings, the obstacles and forces that
//! the host supplies, and the buffers that the stages read and write.
use crate::field::Field;
use vstd::prelude::*;

verus! {

/// The numbers of cells along the two axes are positive and fit in 32 bits.
pub open spec fn fits(nx: nat, ny: nat) -> bool {
    1 <= nx <= u32::MAX && 1 <= ny <= u32::MAX
}

/// A pair of scalars: a position, a velocity or a force.
#[derive(Clone, Copy, Debug, PartialEq, Eq, Structural)]
pub struct Vec2 {
    pub x: i64,
    pub y: i64,
}

/// What a cell holds.
#[derive(Clone, Copy, Debug, PartialEq, Eq, Structural)]
pub enum GridLabel {
    /// Neither fluid nor solid: an open boundary at pressure zero.
    Empty,
    /// Fluid, where the pressure equation is solved.
    Fluid,
    /// An obstacle or the border of the domain.
    Solid,
}

/// How a local force is turned into a change of velocity.
#[derive(Clone, Copy, Debug, PartialEq, Eq, Structural)]
pub enum ForceScaling {
    /// The force is multiplied by the time step.
    TimeStep,
    /// The force is multiplied by the time step and divided by the density.
    TimeStepOverDensity,
}

/// Settings of one simulation.
///
/// * `dx`: the size of a cell.
/// * `dt`: the time step.
/// * `rho`: the density of the fluid.
/// * `gravity`: the acceleration applied to the whole domain.  Its `y`
///   component acts on the vertical velocity; its `x` component is not used.
/// * `size`: the number of cells along each axis.
/// * `initial_fluid_level`: the fraction of the domain's height that is filled
///   with fluid at the start, from zero (empty) to one (full).
/// * `jacobi_iterations`: the number of relaxation passes of the pressure
///   solver in each tick.
/// * `force_scaling`: how local forces are scaled.
#[derive(Clone, Copy, Debug)]
pub struct FluidSettings {
    pub dx: i64,
    pub dt: i64,
    pub rho: i64,
    pub gravity: Vec2,
    pub size: (u32, u32),
    pub initial_fluid_level: i64,
    pub jacobi_iterations: u32,
    pub force_scaling: ForceScaling,
}

/// The parameters that every stage reads.
#[derive(Clone, Copy, Debug, PartialEq, Eq, Structural)]
pub struct SimulationUniform {
    pub dx: i64,
    pub dt: i64,
    pub rho: i64,
    pub gravity: Vec2,
    pub initial_fluid_level: i64,
}

impl SimulationUniform {
    /// The cell size, the time step and the density are positive.
    pub open spec fn valid(&self) -> bool {
        self.dx > 0 && self.dt > 0 && self.rho > 0
    }
}

/// A moving circular obstacle: its radius and the position of its center in
/// cell units, and its velocity.
#[derive(Clone, Copy, Debug, PartialEq, Eq, Structural)]
pub struct CircleObstacle {
    pub radius: i64,
    pub center: Vec2,
    pub velocity: Vec2,
}

/// The obstacles of one tick.
#[derive(Debug)]
pub struct Obstacles {
    pub circles: Vec<CircleObstacle>,
}

/// The local forces of one tick: `force[k]` acts at `position[k]`, which is
/// given in cell units.  Where the lists differ in length, the entries
/// without a partner are not used.
#[derive(Debug)]
pub struct LocalForces {
    pub force: Vec<Vec2>,
    pub position: Vec<Vec2>,
}

impl LocalForces {
    /// Number of forces that have a position.
    pub open spec fn count(&self) -> nat {
        if self.force@.len() <= self.position@.len() {
            self.force@.len()
        } else {
            self.position@.len()
        }
    }
}

/// The velocity on the staggered grid.  `u0` and `v0` hold the current
/// horizontal and vertical components; `u1` and `v1` are the scratch buffers
/// that a stage writes before the roles are swapped.
pub struct VelocityTextures {
    pub u0: Field<i64>,
    pub v0: Field<i64>,
    pub u1: Field<i64>,
    pub v1: Field<i64>,
}

impl VelocityTextures {
    /// Number of cells along the horizontal axis.
    pub open spec fn nx(&self) -> nat {
        self.v0@.width
    }

    /// Number of cells along the vertical axis.
    pub open spec fn ny(&self) -> nat {
        self.u0@.height
    }

    /// The buffers have the shapes of the face lattices of an `nx` by `ny`
    /// grid: `nx + 1` by `ny` for `u`, `nx` by `ny + 1` for `v`.
    pub open spec fn wf(&self, nx: nat, ny: nat) -> bool {
        &&& self.u0.wf() && self.u0@.width == nx + 1 && self.u0@.height == ny
        &&& self.u1.wf() && self.u1@.width == nx + 1 && self.u1@.height == ny
        &&& self.v0.wf() && self.v0@.width == nx && self.v0@.height == ny + 1
        &&& self.v1.wf() && self.v1@.width == nx && self.v1@.height == ny + 1
    }
}

/// The velocity that each face takes from the solid next to it.
pub struct SolidVelocityTextures {
    pub u_solid: Field<i64>,
    pub v_solid: Field<i64>,
}

impl SolidVelocityTextures {
    /// The buffers have the shapes of the face lattices.
    pub open spec fn wf(&self, nx: nat, ny: nat) -> bool {
        &&& self.u_solid.wf() && self.u_solid@.width == nx + 1 && self.u_solid@.height == ny
        &&& self.v_solid.wf() && self.v_solid@.width == nx && self.v_solid@.height == ny + 1
    }
}

/// The pressure: `p0` is current, `p1` is the scratch buffer of the solver.
pub struct PressureTextures {
    pub p0: Field<i64>,
    pub p1: Field<i64>,
}

impl PressureTextures {
    /// Both buffers have one sample per cell.
    pub open spec fn wf(&self, nx: nat, ny: nat) -> bool {
        &&& self.p0.wf() && self.p0@.width == nx && self.p0@.height == ny
        &&& self.p1.wf() && self.p1@.width == nx && self.p1@.height == ny
    }
}

/// The divergence of the velocity.
pub struct DivergenceTextures {
    pub div: Field<i64>,
}

impl DivergenceTextures {
    /// The buffer has one sample per cell.
    pub open spec fn wf(&self, nx: nat, ny: nat) -> bool {
        self.div.wf() && self.div@.width == nx && self.div@.height == ny
    }
}

/// The level set and the labels derived from it.  The level set is negative
/// inside the fluid, and its magnitude approximates the distance to the
/// surface.
pub struct LevelsetTextures {
    pub levelset: Field<i64>,
    pub grid_label: Field<GridLabel>,
}

impl LevelsetTextures {
    /// Number of cells along the horizontal axis.
    pub open spec fn nx(&self) -> nat {
        self.levelset@.width
    }

    /// Number of cells along the vertical axis.
    pub open spec fn ny(&self) -> nat {
        self.levelset@.height
    }

    /// Both buffers have one sample per cell.
    pub open spec fn wf(&self, nx: nat, ny: nat) -> bool {
        &&& self.levelset.wf() && self.levelset@.width == nx && self.levelset@.height == ny
        &&& self.grid_label.wf() && self.grid_label@.width == nx && self.grid_label@.height
            == ny
    }
}

/// For each cell, the coordinates of the nearest known point of the surface,
/// in cell units.  A negative `x` coordinate marks a cell that knows none.
pub struct JumpFloodingSeedsTextures {
    pub jump_flooding_seeds_x: Field<i64>,
    pub jump_flooding_seeds_y: Field<i64>,
}

impl JumpFloodingSeedsTextures {
    /// Both buffers have one sample per cell.
    pub open spec fn wf(&self, nx: nat, ny: nat) -> bool {
        &&& self.jump_flooding_seeds_x.wf() && self.jump_flooding_seeds_x@.width == nx
            && self.jump_flooding_seeds_x@.height == ny
        &&& self.jump_flooding_seeds_y.wf() && self.jump_flooding_seeds_y@.width == nx
            && self.jump_flooding_seeds_y@.height == ny
    }
}

/// The stride of one pass of the jump flooding.
#[derive(Clone, Copy, Debug, PartialEq, Eq, Structural)]
pub struct JumpFloodingUniform {
    pub step: u32,
}

/// The strides of all passes, in the order in which they run.
pub struct JumpFloodingUniformBuffer {
    pub buffer: Vec<JumpFloodingUniform>,
}

/// All buffers of one simulation.
pub struct FluidSimulationBundle {
    pub velocity_textures: VelocityTextures,
    pub solid_velocity_textures: SolidVelocityTextures,
    pub pressure_textures: PressureTextures,
    pub divergence_textures: DivergenceTextures,
    pub levelset_textures: LevelsetTextures,
    pub jump_flooding_seeds_textures: JumpFloodingSeedsTextures,
}

impl FluidSimulationBundle {
    /// Every buffer has the shape that an `nx` by `ny` grid gives it.
    pub open spec fn wf(&self, nx: nat, ny: nat) -> bool {
        &&& self.velocity_textures.wf(nx, ny)
        &&& self.solid_velocity_textures.wf(nx, ny)
        &&& self.pressure_textures.wf(nx, ny)
        &&& self.divergence_textures.wf(nx, ny)
        &&& self.levelset_textures.wf(nx, ny)
        &&& self.jump_flooding_seeds_textures.wf(nx, ny)
    }
}

} // verus!
