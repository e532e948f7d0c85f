//! The meaning of a schedule.
//!
//! Each kernel of a schedule stands for one stage of the simulation.  This
//! module says what each stage does to the buffers, executes single stages
//! and whole schedules, and proves that the schedule of a tick, executed
//! stage by stage, is the tick, and that the schedule of the initialization
//! builds the initial state.
use crate::add_force::{add_force, add_force_u_spec, add_force_v_spec};
use crate::advection::{
    advect_levelset, advect_levelset_spec, advect_u_spec, advect_v_spec, advection,
};
use crate::definition::{
    CircleObstacle, FluidSimulationBundle, ForceScaling, JumpFloodingUniform, LocalForces,
    Obstacles, SimulationUniform,
};
use crate::dispatch::{
    flooding, head_of_tick, middle_of_tick, plan_spec, relaxation, tail_of_tick, Dispatch, Stage,
};
use crate::grid_label::{grid_label_spec, solid_u_spec, solid_v_spec, update_grid_label};
use crate::projection::divergence::{divergence, divergence_spec};
use crate::projection::jacobi_iteration::{
    jacobi_iterate, jacobi_iteration, jacobi_spec, scratch_after,
};
use crate::projection::solve::{solve_u_spec, solve_v_spec, solve_velocity};
use crate::recompute_levelset::{
    calculate_sdf, flood_x_spec, flood_y_spec, flooded, initialize, iterate, sdf_spec,
    seeds_x_spec, seeds_y_spec,
};
use crate::node::{initial_state, State};
use crate::setup_components::{
    initial_levelset, initialize_grid_center, initialize_velocity, zeros,
};
use crate::tick::{tick_spec, BundleState, TickInput};
use vstd::prelude::*;

verus! {

/// What the stages read besides the buffers.
pub struct StageInput {
    pub uniform: SimulationUniform,
    pub force_scaling: ForceScaling,
    pub circles: Seq<CircleObstacle>,
    pub forces: LocalForces,
}

impl TickInput {
    /// The part of the input of a tick that its stages read.
    pub open spec fn stage_input(self) -> StageInput {
        StageInput {
            uniform: self.uniform,
            force_scaling: self.force_scaling,
            circles: self.circles,
            forces: self.forces,
        }
    }
}

/// The state after one stage.
#[verifier::opaque]
pub open spec fn stage_spec(s: BundleState, stage: Stage, input: StageInput) -> BundleState {
    let uniform = input.uniform;
    let dt = uniform.dt as int;
    let dx = uniform.dx as int;
    let nx = s.levelset.width;
    let ny = s.levelset.height;
    match stage {
        Stage::InitializeVelocity => BundleState {
            u0: zeros(nx + 1, ny),
            v0: zeros(nx, ny + 1),
            u1: zeros(nx + 1, ny),
            v1: zeros(nx, ny + 1),
            u_solid: zeros(nx + 1, ny),
            v_solid: zeros(nx, ny + 1),
            ..s
        },
        Stage::InitializeGridCenter => BundleState {
            levelset: initial_levelset(uniform, nx, ny),
            grid_label: grid_label_spec(initial_levelset(uniform, nx, ny), Seq::empty()),
            ..s
        },
        Stage::UpdateGridLabel => BundleState {
            grid_label: grid_label_spec(s.levelset, input.circles),
            u_solid: solid_u_spec(input.circles, nx, ny),
            v_solid: solid_v_spec(input.circles, nx, ny),
            ..s
        },
        Stage::AdvectLevelset => BundleState {
            levelset: advect_levelset_spec(s.levelset, s.u0, s.v0, dt, dx),
            ..s
        },
        Stage::Advection => BundleState {
            u0: advect_u_spec(s.u0, s.v0, dt, dx),
            v0: advect_v_spec(s.u0, s.v0, dt, dx),
            u1: s.u0,
            v1: s.v0,
            ..s
        },
        Stage::AddForce => BundleState {
            u0: add_force_u_spec(s.u0, s.grid_label, input.forces, uniform, input.force_scaling),
            v0: add_force_v_spec(s.v0, s.grid_label, input.forces, uniform, input.force_scaling),
            u1: s.u0,
            v1: s.v0,
            ..s
        },
        Stage::Divergence => BundleState {
            div: divergence_spec(s.u0, s.v0, s.u_solid, s.v_solid, s.grid_label, dx),
            ..s
        },
        Stage::JacobiIteration | Stage::JacobiIterationReverse => BundleState {
            p0: jacobi_spec(s.p0, s.div, s.grid_label, uniform),
            p1: s.p0,
            ..s
        },
        Stage::SolveVelocity => BundleState {
            u0: solve_u_spec(s.u0, s.u_solid, s.p0, s.grid_label, uniform),
            v0: solve_v_spec(s.v0, s.v_solid, s.p0, s.grid_label, uniform),
            u1: s.u0,
            v1: s.v0,
            ..s
        },
        Stage::RecomputeLevelsetInitialization => BundleState {
            seeds_x: seeds_x_spec(s.levelset),
            seeds_y: seeds_y_spec(s.levelset),
            ..s
        },
        Stage::RecomputeLevelsetIteration { step } => BundleState {
            seeds_x: flood_x_spec(s.seeds_x, s.seeds_y, step as int),
            seeds_y: flood_y_spec(s.seeds_x, s.seeds_y, step as int),
            ..s
        },
        Stage::RecomputeLevelsetSolve => BundleState {
            levelset: sdf_spec(s.levelset, s.seeds_x, s.seeds_y, dx),
            ..s
        },
    }
}

/// The state after the first `n` launches of a schedule.
pub open spec fn run_stages(s: BundleState, launches: Seq<Dispatch>, input: StageInput, n: nat)
    -> BundleState
    decreases n,
{
    if n == 0 {
        s
    } else {
        stage_spec(run_stages(s, launches, input, (n - 1) as nat), launches[n - 1].stage, input)
    }
}

/// The state after a whole schedule.
pub open spec fn run_all(s: BundleState, launches: Seq<Dispatch>, input: StageInput)
    -> BundleState {
    run_stages(s, launches, input, launches.len())
}

/// The state after the first launches of a schedule does not depend on the
/// later ones.
pub proof fn lemma_run_prefix(
    s: BundleState,
    a: Seq<Dispatch>,
    b: Seq<Dispatch>,
    input: StageInput,
    n: nat,
)
    requires
        n <= a.len(),
        n <= b.len(),
        forall|k: int| 0 <= k < n ==> a[k] == b[k],
    ensures
        run_stages(s, a, input, n) == run_stages(s, b, input, n),
    decreases n,
{
    if n > 0 {
        lemma_run_prefix(s, a, b, input, (n - 1) as nat);
    }
}

/// Running one schedule after another is running their concatenation.
pub proof fn lemma_run_concat(
    s: BundleState,
    a: Seq<Dispatch>,
    b: Seq<Dispatch>,
    input: StageInput,
    n: nat,
)
    requires
        n <= b.len(),
    ensures
        run_stages(s, a + b, input, a.len() + n) == run_stages(run_all(s, a, input), b, input, n),
    decreases n,
{
    if n == 0 {
        lemma_run_prefix(s, a + b, a, input, a.len());
    } else {
        lemma_run_concat(s, a, b, input, (n - 1) as nat);
        assert((a + b)[a.len() + n - 1] == b[n - 1]);
    }
}

/// The passes of the relaxation, run one after another, iterate the pressure
/// and leave everything else as it is.
pub proof fn lemma_run_relaxation(s: BundleState, size: (u32, u32), input: StageInput, n: nat)
    ensures
        run_all(s, relaxation(n, size), input) == (BundleState {
            p0: jacobi_iterate(s.p0, s.div, s.grid_label, input.uniform, n),
            p1: scratch_after(s.p0, s.p1, s.div, s.grid_label, input.uniform, n),
            ..s
        }),
    decreases n,
{
    reveal(stage_spec);
    if n > 0 {
        let m = (n - 1) as nat;
        lemma_run_relaxation(s, size, input, m);
        lemma_run_prefix(s, relaxation(n, size), relaxation(m, size), input, m);
    }
}

/// The passes of the flooding, run one after another, flood the seeds with
/// each stride in turn and leave everything else as it is.
pub proof fn lemma_run_flooding(
    s: BundleState,
    size: (u32, u32),
    steps: Seq<JumpFloodingUniform>,
    input: StageInput,
    n: nat,
)
    requires
        n <= steps.len(),
    ensures
        run_stages(s, flooding(steps, size), input, n) == (BundleState {
            seeds_x: flooded(s.seeds_x, s.seeds_y, steps, n).0,
            seeds_y: flooded(s.seeds_x, s.seeds_y, steps, n).1,
            ..s
        }),
    decreases n,
{
    reveal(stage_spec);
    if n > 0 {
        lemma_run_flooding(s, size, steps, input, (n - 1) as nat);
    }
}

/// The state after the first launches of a tick.
pub open spec fn after_head(s: BundleState, input: StageInput) -> BundleState {
    let uniform = input.uniform;
    let dt = uniform.dt as int;
    let dx = uniform.dx as int;
    let nx = s.levelset.width;
    let ny = s.levelset.height;
    let labels = grid_label_spec(s.levelset, input.circles);
    let u_solid = solid_u_spec(input.circles, nx, ny);
    let v_solid = solid_v_spec(input.circles, nx, ny);
    let ua = advect_u_spec(s.u0, s.v0, dt, dx);
    let va = advect_v_spec(s.u0, s.v0, dt, dx);
    let uf = add_force_u_spec(ua, labels, input.forces, uniform, input.force_scaling);
    let vf = add_force_v_spec(va, labels, input.forces, uniform, input.force_scaling);
    BundleState {
        u0: uf,
        v0: vf,
        u1: ua,
        v1: va,
        u_solid,
        v_solid,
        div: divergence_spec(uf, vf, u_solid, v_solid, labels, dx),
        levelset: advect_levelset_spec(s.levelset, s.u0, s.v0, dt, dx),
        grid_label: labels,
        ..s
    }
}

/// The state after the launches between the relaxation and the flooding.
pub open spec fn after_middle(s: BundleState, input: StageInput) -> BundleState {
    BundleState {
        u0: solve_u_spec(s.u0, s.u_solid, s.p0, s.grid_label, input.uniform),
        v0: solve_v_spec(s.v0, s.v_solid, s.p0, s.grid_label, input.uniform),
        u1: s.u0,
        v1: s.v0,
        seeds_x: seeds_x_spec(s.levelset),
        seeds_y: seeds_y_spec(s.levelset),
        ..s
    }
}

/// What the labelling stage does.
proof fn lemma_stage_update_grid_label(s: BundleState, input: StageInput)
    ensures
        stage_spec(s, Stage::UpdateGridLabel, input) == (BundleState {
            grid_label: grid_label_spec(s.levelset, input.circles),
            u_solid: solid_u_spec(input.circles, s.levelset.width, s.levelset.height),
            v_solid: solid_v_spec(input.circles, s.levelset.width, s.levelset.height),
            ..s
        }),
{
    reveal(stage_spec);
}

/// What the transport of the level set does.
proof fn lemma_stage_advect_levelset(s: BundleState, input: StageInput)
    ensures
        stage_spec(s, Stage::AdvectLevelset, input) == (BundleState {
            levelset: advect_levelset_spec(
                s.levelset,
                s.u0,
                s.v0,
                input.uniform.dt as int,
                input.uniform.dx as int,
            ),
            ..s
        }),
{
    reveal(stage_spec);
}

/// What the transport of the velocity does.
proof fn lemma_stage_advection(s: BundleState, input: StageInput)
    ensures
        stage_spec(s, Stage::Advection, input) == (BundleState {
            u0: advect_u_spec(s.u0, s.v0, input.uniform.dt as int, input.uniform.dx as int),
            v0: advect_v_spec(s.u0, s.v0, input.uniform.dt as int, input.uniform.dx as int),
            u1: s.u0,
            v1: s.v0,
            ..s
        }),
{
    reveal(stage_spec);
}

/// What the forcing stage does.
proof fn lemma_stage_add_force(s: BundleState, input: StageInput)
    ensures
        stage_spec(s, Stage::AddForce, input) == (BundleState {
            u0: add_force_u_spec(
                s.u0,
                s.grid_label,
                input.forces,
                input.uniform,
                input.force_scaling,
            ),
            v0: add_force_v_spec(
                s.v0,
                s.grid_label,
                input.forces,
                input.uniform,
                input.force_scaling,
            ),
            u1: s.u0,
            v1: s.v0,
            ..s
        }),
{
    reveal(stage_spec);
}

/// What the divergence stage does.
proof fn lemma_stage_divergence(s: BundleState, input: StageInput)
    ensures
        stage_spec(s, Stage::Divergence, input) == (BundleState {
            div: divergence_spec(
                s.u0,
                s.v0,
                s.u_solid,
                s.v_solid,
                s.grid_label,
                input.uniform.dx as int,
            ),
            ..s
        }),
{
    reveal(stage_spec);
}

/// What the correction of the velocity does.
proof fn lemma_stage_solve_velocity(s: BundleState, input: StageInput)
    ensures
        stage_spec(s, Stage::SolveVelocity, input) == (BundleState {
            u0: solve_u_spec(s.u0, s.u_solid, s.p0, s.grid_label, input.uniform),
            v0: solve_v_spec(s.v0, s.v_solid, s.p0, s.grid_label, input.uniform),
            u1: s.u0,
            v1: s.v0,
            ..s
        }),
{
    reveal(stage_spec);
}

/// What the seeding stage does.
proof fn lemma_stage_seeding(s: BundleState, input: StageInput)
    ensures
        stage_spec(s, Stage::RecomputeLevelsetInitialization, input) == (BundleState {
            seeds_x: seeds_x_spec(s.levelset),
            seeds_y: seeds_y_spec(s.levelset),
            ..s
        }),
{
    reveal(stage_spec);
}

/// What the two stages of the initialization do.
proof fn lemma_stage_initialize(s: BundleState, input: StageInput)
    ensures
        stage_spec(s, Stage::InitializeVelocity, input) == (BundleState {
            u0: zeros(s.levelset.width + 1, s.levelset.height),
            v0: zeros(s.levelset.width, s.levelset.height + 1),
            u1: zeros(s.levelset.width + 1, s.levelset.height),
            v1: zeros(s.levelset.width, s.levelset.height + 1),
            u_solid: zeros(s.levelset.width + 1, s.levelset.height),
            v_solid: zeros(s.levelset.width, s.levelset.height + 1),
            ..s
        }),
        stage_spec(s, Stage::InitializeGridCenter, input) == (BundleState {
            levelset: initial_levelset(input.uniform, s.levelset.width, s.levelset.height),
            grid_label: grid_label_spec(
                initial_levelset(input.uniform, s.levelset.width, s.levelset.height),
                Seq::empty(),
            ),
            ..s
        }),
{
    reveal(stage_spec);
}

/// The first launches of a tick lead to `after_head`.
proof fn lemma_run_head(s: BundleState, size: (u32, u32), input: StageInput)
    ensures
        run_all(s, head_of_tick(size), input) == after_head(s, input),
{
    reveal_with_fuel(run_stages, 6);
    let a = head_of_tick(size);
    assert(a[0].stage == Stage::UpdateGridLabel);
    assert(a[1].stage == Stage::AdvectLevelset);
    assert(a[2].stage == Stage::Advection);
    assert(a[3].stage == Stage::AddForce);
    assert(a[4].stage == Stage::Divergence);
    let s1 = stage_spec(s, Stage::UpdateGridLabel, input);
    let s2 = stage_spec(s1, Stage::AdvectLevelset, input);
    let s3 = stage_spec(s2, Stage::Advection, input);
    let s4 = stage_spec(s3, Stage::AddForce, input);
    let s5 = stage_spec(s4, Stage::Divergence, input);
    assert(run_stages(s, a, input, 5) == s5);
    lemma_stage_update_grid_label(s, input);
    lemma_stage_advect_levelset(s1, input);
    lemma_stage_advection(s2, input);
    lemma_stage_add_force(s3, input);
    lemma_stage_divergence(s4, input);
}

/// The launches between the relaxation and the flooding lead to
/// `after_middle`.
proof fn lemma_run_middle(s: BundleState, size: (u32, u32), input: StageInput)
    ensures
        run_all(s, middle_of_tick(size), input) == after_middle(s, input),
{
    reveal_with_fuel(run_stages, 3);
    let a = middle_of_tick(size);
    assert(a[0].stage == Stage::SolveVelocity);
    assert(a[1].stage == Stage::RecomputeLevelsetInitialization);
    let s1 = stage_spec(s, Stage::SolveVelocity, input);
    let s2 = stage_spec(s1, Stage::RecomputeLevelsetInitialization, input);
    assert(run_stages(s, a, input, 2) == s2);
    lemma_stage_solve_velocity(s, input);
    lemma_stage_seeding(s1, input);
}

/// The last launch of a tick rebuilds the level set from the seeds.
proof fn lemma_run_tail(s: BundleState, size: (u32, u32), input: StageInput)
    ensures
        run_all(s, tail_of_tick(size), input) == (BundleState {
            levelset: sdf_spec(s.levelset, s.seeds_x, s.seeds_y, input.uniform.dx as int),
            ..s
        }),
{
    reveal(stage_spec);
    reveal_with_fuel(run_stages, 2);
    let a = tail_of_tick(size);
    assert(run_stages(s, a, input, 1) == stage_spec(s, a[0].stage, input));
}

/// The schedule of a tick, executed stage by stage, is the tick.
pub proof fn lemma_schedule_is_tick(s: BundleState, size: (u32, u32), input: TickInput)
    ensures
        run_all(
            s,
            plan_spec(State::Update, size, input.jacobi_iterations, input.steps),
            input.stage_input(),
        ) == tick_spec(s, input),
{
    let stages = input.stage_input();
    let head = head_of_tick(size);
    let passes = relaxation(input.jacobi_iterations, size);
    let middle = middle_of_tick(size);
    let floods = flooding(input.steps, size);
    let tail = tail_of_tick(size);
    let whole = plan_spec(State::Update, size, input.jacobi_iterations, input.steps);
    assert(whole == head + passes + middle + floods + tail);

    let s1 = run_all(s, head, stages);
    let s2 = run_all(s1, passes, stages);
    let s3 = run_all(s2, middle, stages);
    let s4 = run_all(s3, floods, stages);
    let s5 = run_all(s4, tail, stages);
    lemma_run_concat(s, head, passes, stages, passes.len());
    lemma_run_concat(s, head + passes, middle, stages, middle.len());
    lemma_run_concat(s, head + passes + middle, floods, stages, floods.len());
    lemma_run_concat(s, head + passes + middle + floods, tail, stages, tail.len());
    assert(run_all(s, whole, stages) == s5);

    lemma_run_head(s, size, stages);
    lemma_run_relaxation(s1, size, stages, input.jacobi_iterations);
    lemma_run_middle(s2, size, stages);
    lemma_run_flooding(s3, size, input.steps, stages, input.steps.len());
    lemma_run_tail(s4, size, stages);
}

/// The schedule of the initialization builds the initial state.
pub proof fn lemma_schedule_is_initialization(
    s: BundleState,
    size: (u32, u32),
    input: TickInput,
)
    ensures
        run_all(
            s,
            plan_spec(State::Init, size, input.jacobi_iterations, input.steps),
            input.stage_input(),
        ) == initial_state(s, input.uniform),
{
    reveal_with_fuel(run_stages, 3);
    let stages = input.stage_input();
    let a = plan_spec(State::Init, size, input.jacobi_iterations, input.steps);
    assert(a[0].stage == Stage::InitializeVelocity);
    assert(a[1].stage == Stage::InitializeGridCenter);
    let s1 = stage_spec(s, Stage::InitializeVelocity, stages);
    let s2 = stage_spec(s1, Stage::InitializeGridCenter, stages);
    assert(run_stages(s, a, stages, 2) == s2);
    lemma_stage_initialize(s, stages);
    lemma_stage_initialize(s1, stages);
}

/// The schedule of a loading node changes nothing.
pub proof fn lemma_schedule_of_loading_is_idle(
    s: BundleState,
    size: (u32, u32),
    input: TickInput,
)
    ensures
        run_all(
            s,
            plan_spec(State::Loading, size, input.jacobi_iterations, input.steps),
            input.stage_input(),
        ) == s,
{
}

impl FluidSimulationBundle {
    /// Executes one stage.
    pub fn execute(
        &mut self,
        stage: Stage,
        uniform: &SimulationUniform,
        force_scaling: ForceScaling,
        obstacles: &Obstacles,
        forces: &LocalForces,
    )
        requires
            old(self).sized(),
            uniform.valid(),
        ensures
            final(self).sized(),
            final(self).nx() == old(self).nx(),
            final(self).ny() == old(self).ny(),
            final(self)@ == stage_spec(
                old(self)@,
                stage,
                (StageInput {
                    uniform: *uniform,
                    force_scaling,
                    circles: obstacles.circles@,
                    forces: *forces,
                }),
            ),
    {
        proof {
            reveal(stage_spec);
        }
        match stage {
            Stage::InitializeVelocity => {
                initialize_velocity(
                    &mut self.velocity_textures,
                    &mut self.solid_velocity_textures,
                );
            },
            Stage::InitializeGridCenter => {
                initialize_grid_center(&mut self.levelset_textures, uniform);
            },
            Stage::UpdateGridLabel => {
                update_grid_label(
                    &mut self.levelset_textures,
                    &mut self.solid_velocity_textures,
                    obstacles,
                );
            },
            Stage::AdvectLevelset => {
                advect_levelset(&mut self.levelset_textures, &self.velocity_textures, uniform);
            },
            Stage::Advection => {
                advection(&mut self.velocity_textures, uniform);
            },
            Stage::AddForce => {
                add_force(
                    &mut self.velocity_textures,
                    &self.levelset_textures.grid_label,
                    forces,
                    uniform,
                    force_scaling,
                );
            },
            Stage::Divergence => {
                divergence(
                    &mut self.divergence_textures,
                    &self.velocity_textures,
                    &self.solid_velocity_textures,
                    &self.levelset_textures.grid_label,
                    uniform,
                );
            },
            Stage::JacobiIteration | Stage::JacobiIterationReverse => {
                jacobi_iteration(
                    &mut self.pressure_textures,
                    &self.divergence_textures.div,
                    &self.levelset_textures.grid_label,
                    uniform,
                );
            },
            Stage::SolveVelocity => {
                solve_velocity(
                    &mut self.velocity_textures,
                    &self.solid_velocity_textures,
                    &self.pressure_textures.p0,
                    &self.levelset_textures.grid_label,
                    uniform,
                );
            },
            Stage::RecomputeLevelsetInitialization => {
                initialize(
                    &mut self.jump_flooding_seeds_textures,
                    &self.levelset_textures.levelset,
                );
            },
            Stage::RecomputeLevelsetIteration { step } => {
                iterate(&mut self.jump_flooding_seeds_textures, &JumpFloodingUniform { step });
            },
            Stage::RecomputeLevelsetSolve => {
                calculate_sdf(
                    &mut self.levelset_textures,
                    &self.jump_flooding_seeds_textures,
                    uniform,
                );
            },
        }
    }

    /// Executes a schedule, launch by launch.
    pub fn run_schedule(
        &mut self,
        launches: &Vec<Dispatch>,
        uniform: &SimulationUniform,
        force_scaling: ForceScaling,
        obstacles: &Obstacles,
        forces: &LocalForces,
    )
        requires
            old(self).sized(),
            uniform.valid(),
        ensures
            final(self).sized(),
            final(self).nx() == old(self).nx(),
            final(self).ny() == old(self).ny(),
            final(self)@ == run_all(
                old(self)@,
                launches@,
                (StageInput {
                    uniform: *uniform,
                    force_scaling,
                    circles: obstacles.circles@,
                    forces: *forces,
                }),
            ),
    {
        let ghost input = StageInput {
            uniform: *uniform,
            force_scaling,
            circles: obstacles.circles@,
            forces: *forces,
        };
        let mut k: usize = 0;
        while k < launches.len()
            invariant
                k <= launches.len(),
                self.sized(),
                self.nx() == old(self).nx(),
                self.ny() == old(self).ny(),
                uniform.valid(),
                input == (StageInput {
                    uniform: *uniform,
                    force_scaling,
                    circles: obstacles.circles@,
                    forces: *forces,
                }),
                self@ == run_stages(old(self)@, launches@, input, k as nat),
            decreases launches.len() - k,
        {
            self.execute(launches[k].stage, uniform, force_scaling, obstacles, forces);
            k = k + 1;
        }
    }
}

} // verus!
