//! The orchestrator.
//!
//! A node owns the simulations of a host and steps them together.  It starts
//! in the state `Loading`, moves to `Init` once the host reports that the
//! kernels of the initialization are ready, and to `Update` once all kernels
//! of a tick are ready.  It never moves back.  While it loads, a run does
//! nothing; in `Init` a run builds the initial state of every simulation; in
//! `Update` a run advances every simulation by one tick.
use crate::definition::{
    CircleObstacle, FluidSettings, FluidSimulationBundle, JumpFloodingUniformBuffer, LocalForces,
    Obstacles, SimulationUniform,
};
use crate::field::Lattice;
use crate::grid_label::grid_label_spec;
use crate::jump_flooding_uniform::{
    is_stride_sequence, larger_extent, prepare_jump_flood_resource,
};
use crate::setup_components::{
    initial_levelset, initialize_grid_center, initialize_velocity, watch_fluid_component, zeros,
    SettingsError,
};
use crate::tick::{tick_spec, BundleState, TickInput};
use vstd::prelude::*;

verus! {

/// The state of a node.
#[derive(Clone, Copy, Debug, PartialEq, Eq, Structural)]
pub enum State {
    /// The kernels are not ready; a run does nothing.
    Loading,
    /// A run builds the initial state of every simulation.
    Init,
    /// A run advances every simulation by one tick.
    Update,
}

/// Which kernels the host has ready.
#[derive(Clone, Copy, Debug, PartialEq, Eq, Structural)]
pub struct PipelineReadiness {
    pub initialize_velocity: bool,
    pub initialize_grid_center: bool,
    pub update_grid_label: bool,
    pub advection: bool,
    pub add_force: bool,
    pub divergence: bool,
    pub jacobi_iteration: bool,
    pub jacobi_iteration_reverse: bool,
    pub solve_velocity: bool,
    pub recompute_levelset_initialization: bool,
    pub recompute_levelset_iteration: bool,
    pub recompute_levelset_solve: bool,
    pub advect_levelset: bool,
}

impl PipelineReadiness {
    /// The kernels that build the initial state are ready.
    pub open spec fn initialization_ready(&self) -> bool {
        self.initialize_velocity && self.initialize_grid_center
    }

    /// The kernels of every stage of a tick are ready.
    pub open spec fn stages_ready(&self) -> bool {
        &&& self.update_grid_label
        &&& self.advection
        &&& self.add_force
        &&& self.divergence
        &&& self.jacobi_iteration
        &&& self.jacobi_iteration_reverse
        &&& self.solve_velocity
        &&& self.recompute_levelset_initialization
        &&& self.recompute_levelset_iteration
        &&& self.recompute_levelset_solve
        &&& self.advect_levelset
    }

    /// Every kernel is ready.
    pub fn all() -> (ready: Self)
        ensures
            ready.initialization_ready(),
            ready.stages_ready(),
    {
        PipelineReadiness {
            initialize_velocity: true,
            initialize_grid_center: true,
            update_grid_label: true,
            advection: true,
            add_force: true,
            divergence: true,
            jacobi_iteration: true,
            jacobi_iteration_reverse: true,
            solve_velocity: true,
            recompute_levelset_initialization: true,
            recompute_levelset_iteration: true,
            recompute_levelset_solve: true,
            advect_levelset: true,
        }
    }
}

/// The state that follows `state` when the host reports `ready`.
pub open spec fn next_state_spec(state: State, ready: PipelineReadiness) -> State {
    match state {
        State::Loading => if ready.initialization_ready() {
            State::Init
        } else {
            State::Loading
        },
        State::Init => if ready.stages_ready() {
            State::Update
        } else {
            State::Init
        },
        State::Update => State::Update,
    }
}

/// How far a state is along the way from loading to running.
pub open spec fn rank(state: State) -> int {
    match state {
        State::Loading => 0,
        State::Init => 1,
        State::Update => 2,
    }
}

/// A node never moves back, and moves at most one state at a time.
pub proof fn lemma_no_transition_back(state: State, ready: PipelineReadiness)
    ensures
        rank(state) <= rank(next_state_spec(state, ready)) <= rank(state) + 1,
{
}

/// Computes the state that follows `state` when the host reports `ready`.
pub fn next_state(state: State, ready: &PipelineReadiness) -> (next: State)
    ensures
        next == next_state_spec(state, *ready),
{
    match state {
        State::Loading => {
            if ready.initialize_velocity && ready.initialize_grid_center {
                State::Init
            } else {
                State::Loading
            }
        },
        State::Init => {
            if ready.update_grid_label && ready.advection && ready.add_force && ready.divergence
                && ready.jacobi_iteration && ready.jacobi_iteration_reverse
                && ready.solve_velocity && ready.recompute_levelset_initialization
                && ready.recompute_levelset_iteration && ready.recompute_levelset_solve
                && ready.advect_levelset {
                State::Update
            } else {
                State::Init
            }
        },
        State::Update => State::Update,
    }
}

/// One simulation: its settings, its buffers and the forces of the next tick.
pub struct SimulationInstance {
    settings: FluidSettings,
    uniform: SimulationUniform,
    bundle: FluidSimulationBundle,
    jump_flooding_uniform_buffer: JumpFloodingUniformBuffer,
    local_forces: LocalForces,
}

/// The initial state of a simulation: no motion, no pressure, and the level
/// set and the labels of the initial fluid level.  The seeds are as they
/// were.
pub open spec fn initial_state(s: BundleState, uniform: SimulationUniform) -> BundleState {
    let nx = s.levelset.width;
    let ny = s.levelset.height;
    let levelset = initial_levelset(uniform, nx, ny);
    BundleState {
        u0: zeros(nx + 1, ny),
        v0: zeros(nx, ny + 1),
        u1: zeros(nx + 1, ny),
        v1: zeros(nx, ny + 1),
        u_solid: zeros(nx + 1, ny),
        v_solid: zeros(nx, ny + 1),
        levelset,
        grid_label: grid_label_spec(levelset, Seq::empty()),
        ..s
    }
}

/// The state in which a simulation with the given settings is created: no
/// motion, no pressure, no seeds, and the level set and the labels of the
/// initial fluid level.
pub open spec fn fresh_state(settings: FluidSettings) -> BundleState {
    let nx = settings.size.0 as nat;
    let ny = settings.size.1 as nat;
    let levelset = initial_levelset(settings.uniform_spec(), nx, ny);
    BundleState {
        u0: zeros(nx + 1, ny),
        v0: zeros(nx, ny + 1),
        u1: zeros(nx + 1, ny),
        v1: zeros(nx, ny + 1),
        u_solid: zeros(nx + 1, ny),
        v_solid: zeros(nx, ny + 1),
        p0: zeros(nx, ny),
        p1: zeros(nx, ny),
        div: zeros(nx, ny),
        levelset,
        grid_label: grid_label_spec(levelset, Seq::empty()),
        seeds_x: zeros(nx, ny),
        seeds_y: zeros(nx, ny),
    }
}

/// `instance` is a simulation as it is created from `settings`.
pub open spec fn fresh(instance: SimulationInstance, settings: FluidSettings) -> bool {
    &&& settings.valid()
    &&& instance.wf()
    &&& instance.spec_settings() == settings
    &&& instance.spec_uniform() == settings.uniform_spec()
    &&& instance.spec_local_forces().count() == 0
    &&& instance.spec_bundle()@ == fresh_state(settings)
}

impl SimulationInstance {
    /// The settings that the simulation was created with.
    pub closed spec fn spec_settings(&self) -> FluidSettings {
        self.settings
    }

    /// The parameters that the stages read.
    pub closed spec fn spec_uniform(&self) -> SimulationUniform {
        self.uniform
    }

    /// The buffers of the simulation.
    pub closed spec fn spec_bundle(&self) -> FluidSimulationBundle {
        self.bundle
    }

    /// The strides of the jump flooding.
    pub closed spec fn spec_jump_flooding_uniform_buffer(&self) -> JumpFloodingUniformBuffer {
        self.jump_flooding_uniform_buffer
    }

    /// The forces that act in the next tick.
    pub closed spec fn spec_local_forces(&self) -> LocalForces {
        self.local_forces
    }

    /// The settings that the simulation was created with.
    pub fn settings(&self) -> (settings: &FluidSettings)
        ensures
            *settings == self.spec_settings(),
    {
        &self.settings
    }

    /// The parameters that the stages read.
    pub fn uniform(&self) -> (uniform: &SimulationUniform)
        ensures
            *uniform == self.spec_uniform(),
    {
        &self.uniform
    }

    /// The buffers of the simulation.
    pub fn bundle(&self) -> (bundle: &FluidSimulationBundle)
        ensures
            *bundle == self.spec_bundle(),
    {
        &self.bundle
    }

    /// The strides of the jump flooding.
    pub fn jump_flooding_uniform_buffer(&self) -> (buffer: &JumpFloodingUniformBuffer)
        ensures
            *buffer == self.spec_jump_flooding_uniform_buffer(),
    {
        &self.jump_flooding_uniform_buffer
    }

    /// The forces that act in the next tick.
    pub fn local_forces(&self) -> (forces: &LocalForces)
        ensures
            *forces == self.spec_local_forces(),
    {
        &self.local_forces
    }

    /// The buffers fit the settings, the parameters are those of the
    /// settings but for the time step, the strides are those of the grid, and
    /// no face that touches a solid cell lets fluid through.
    pub open spec fn wf(&self) -> bool {
        &&& self.spec_settings().valid()
        &&& self.spec_uniform().valid()
        &&& self.spec_uniform() == (SimulationUniform {
            dt: self.spec_uniform().dt,
            ..self.spec_settings().uniform_spec()
        })
        &&& self.spec_bundle().sized()
        &&& self.spec_bundle().nx() == self.spec_settings().size.0
        &&& self.spec_bundle().ny() == self.spec_settings().size.1
        &&& is_stride_sequence(
            self.spec_jump_flooding_uniform_buffer().buffer@,
            larger_extent(self.spec_settings().size),
        )
        &&& self.spec_bundle()@.no_penetration()
    }

    /// What the next tick reads besides the buffers.
    pub open spec fn tick_input(&self, circles: Seq<CircleObstacle>) -> TickInput {
        TickInput {
            uniform: self.spec_uniform(),
            jacobi_iterations: self.spec_settings().jacobi_iterations as nat,
            force_scaling: self.spec_settings().force_scaling,
            steps: self.spec_jump_flooding_uniform_buffer().buffer@,
            circles,
            forces: self.spec_local_forces(),
        }
    }

    /// Creates a simulation in its initial state.  Settings that cannot be
    /// used are refused with the first fault that they show.
    pub fn new(settings: FluidSettings) -> (r: Result<Self, SettingsError>)
        ensures
            match r {
                Ok(instance) => fresh(instance, settings),
                Err(e) => settings.check_spec() == Err::<(), SettingsError>(e),
            },
    {
        match watch_fluid_component(&settings) {
            Err(e) => Err(e),
            Ok((bundle, uniform)) => {
                let mut instance = SimulationInstance {
                    settings,
                    uniform,
                    bundle,
                    jump_flooding_uniform_buffer: prepare_jump_flood_resource(settings.size),
                    local_forces: LocalForces { force: Vec::new(), position: Vec::new() },
                };
                initialize_grid_center(&mut instance.bundle.levelset_textures, &instance.uniform);
                proof {
                    lemma_still_zero_does_not_penetrate(instance.bundle@);
                }
                Ok(instance)
            },
        }
    }

    /// Puts the simulation back into its initial state.
    pub fn initialize(&mut self)
        requires
            old(self).wf(),
        ensures
            final(self).wf(),
            final(self).spec_settings() == old(self).spec_settings(),
            final(self).spec_uniform() == old(self).spec_uniform(),
            final(self).spec_jump_flooding_uniform_buffer() == old(self).spec_jump_flooding_uniform_buffer(),
            final(self).spec_local_forces() == old(self).spec_local_forces(),
            final(self).spec_bundle()@ == initial_state(old(self).spec_bundle()@, old(self).spec_uniform()),
    {
        initialize_velocity(
            &mut self.bundle.velocity_textures,
            &mut self.bundle.solid_velocity_textures,
        );
        initialize_grid_center(&mut self.bundle.levelset_textures, &self.uniform);
        proof {
            lemma_still_zero_does_not_penetrate(self.bundle@);
        }
    }

    /// Replaces the forces that act in the next tick.
    pub fn set_local_forces(&mut self, forces: LocalForces)
        requires
            old(self).wf(),
        ensures
            final(self).wf(),
            final(self).spec_local_forces() == forces,
            final(self).spec_settings() == old(self).spec_settings(),
            final(self).spec_uniform() == old(self).spec_uniform(),
            final(self).spec_jump_flooding_uniform_buffer() == old(self).spec_jump_flooding_uniform_buffer(),
            final(self).spec_bundle()@ == old(self).spec_bundle()@,
    {
        self.local_forces = forces;
    }

    /// Replaces the time step of the following ticks.  A time step that is
    /// not positive is not accepted, and the simulation stays as it was.
    pub fn set_time_step(&mut self, dt: i64) -> (accepted: bool)
        requires
            old(self).wf(),
        ensures
            final(self).wf(),
            accepted == (dt > 0),
            accepted ==> final(self).spec_uniform() == (SimulationUniform { dt, ..old(self).spec_uniform() }),
            !accepted ==> final(self).spec_uniform() == old(self).spec_uniform(),
            final(self).spec_settings() == old(self).spec_settings(),
            final(self).spec_local_forces() == old(self).spec_local_forces(),
            final(self).spec_jump_flooding_uniform_buffer() == old(self).spec_jump_flooding_uniform_buffer(),
            final(self).spec_bundle()@ == old(self).spec_bundle()@,
    {
        if dt > 0 {
            self.uniform.dt = dt;
            true
        } else {
            false
        }
    }

    /// Advances the simulation by one tick under the given obstacles and the
    /// forces set for it, and then forgets the forces.
    pub fn tick(&mut self, obstacles: &Obstacles)
        requires
            old(self).wf(),
        ensures
            final(self).wf(),
            final(self).spec_settings() == old(self).spec_settings(),
            final(self).spec_uniform() == old(self).spec_uniform(),
            final(self).spec_jump_flooding_uniform_buffer() == old(self).spec_jump_flooding_uniform_buffer(),
            final(self).spec_local_forces().count() == 0,
            final(self).spec_bundle()@ == tick_spec(
                old(self).spec_bundle()@,
                old(self).tick_input(obstacles.circles@),
            ),
    {
        self.bundle.tick(
            &self.uniform,
            self.settings.jacobi_iterations,
            self.settings.force_scaling,
            &self.jump_flooding_uniform_buffer.buffer,
            obstacles,
            &self.local_forces,
        );
        self.local_forces = LocalForces { force: Vec::new(), position: Vec::new() };
    }
}

/// `after` is `before` put back into its initial state.
pub open spec fn initialized_from(after: SimulationInstance, before: SimulationInstance) -> bool {
    &&& after.wf()
    &&& after.spec_settings() == before.spec_settings()
    &&& after.spec_uniform() == before.spec_uniform()
    &&& after.spec_jump_flooding_uniform_buffer() == before.spec_jump_flooding_uniform_buffer()
    &&& after.spec_local_forces() == before.spec_local_forces()
    &&& after.spec_bundle()@ == initial_state(before.spec_bundle()@, before.spec_uniform())
}

/// `after` is `before` advanced by one tick under the given obstacles.
pub open spec fn ticked_from(
    after: SimulationInstance,
    before: SimulationInstance,
    circles: Seq<CircleObstacle>,
) -> bool {
    &&& after.wf()
    &&& after.spec_settings() == before.spec_settings()
    &&& after.spec_uniform() == before.spec_uniform()
    &&& after.spec_jump_flooding_uniform_buffer() == before.spec_jump_flooding_uniform_buffer()
    &&& after.spec_local_forces().count() == 0
    &&& after.spec_bundle()@ == tick_spec(before.spec_bundle()@, before.tick_input(circles))
}

/// What a run did.
#[derive(Clone, Copy, Debug, PartialEq, Eq, Structural)]
pub enum RunOutcome {
    /// The kernels are still loading: nothing was done.
    NotReadyYet,
    /// Every simulation was put into its initial state.
    Initialized,
    /// Every simulation was advanced by one tick.
    Advanced,
}

/// What a run in the state `Init` makes of a slot: an empty slot stays empty,
/// and a simulation is put back into its initial state.
pub open spec fn slot_initialized(
    after: Option<SimulationInstance>,
    before: Option<SimulationInstance>,
) -> bool {
    match before {
        Some(b) => after matches Some(a) && initialized_from(a, b),
        None => after is None,
    }
}

/// What a run in the state `Update` makes of a slot: an empty slot stays
/// empty, and a simulation is advanced by one tick.
pub open spec fn slot_ticked(
    after: Option<SimulationInstance>,
    before: Option<SimulationInstance>,
    circles: Seq<CircleObstacle>,
) -> bool {
    match before {
        Some(b) => after matches Some(a) && ticked_from(a, b, circles),
        None => after is None,
    }
}

/// The orchestrator: a state and the simulations that it steps.  A
/// simulation is known by the number that `spawn` returned for it.  Numbers
/// are given in order and never reused: the slot of a simulation that was
/// destroyed stays empty.
pub struct EulerFluidNode {
    state: State,
    instances: Vec<Option<SimulationInstance>>,
}

impl EulerFluidNode {
    /// The state of the node.
    pub closed spec fn spec_state(&self) -> State {
        self.state
    }

    /// The slots of the node, in the order in which the simulations were
    /// spawned.
    pub closed spec fn spec_instances(&self) -> Seq<Option<SimulationInstance>> {
        self.instances@
    }

    /// The node has a simulation with the number `id`.
    pub open spec fn has(&self, id: int) -> bool {
        0 <= id < self.spec_instances().len() && self.spec_instances()[id] is Some
    }

    /// Every simulation of the node is well formed.
    pub open spec fn wf(&self) -> bool {
        forall|k: int| self.has(k) ==> (#[trigger] self.spec_instances()[k])->0.wf()
    }

    /// A node that is loading and owns no simulation.
    pub fn new() -> (node: Self)
        ensures
            node.wf(),
            node.spec_state() == State::Loading,
            node.spec_instances().len() == 0,
    {
        EulerFluidNode { state: State::Loading, instances: Vec::new() }
    }

    /// The state of the node.
    pub fn state(&self) -> (state: State)
        ensures
            state == self.spec_state(),
    {
        self.state
    }

    /// Number of slots of the node: the number that the next simulation
    /// gets.
    pub fn len(&self) -> (n: usize)
        ensures
            n == self.spec_instances().len(),
    {
        self.instances.len()
    }

    /// The simulation with the given number, if there is one.
    pub fn instance(&self, id: usize) -> (found: Option<&SimulationInstance>)
        ensures
            self.has(id as int) ==> found == Some(&self.spec_instances()[id as int]->0),
            !self.has(id as int) ==> found is None,
    {
        if id < self.instances.len() {
            self.instances[id].as_ref()
        } else {
            None
        }
    }

    /// Creates a simulation in its initial state and returns its number.
    /// Settings that cannot be used are refused with the first fault that
    /// they show, and the node stays as it was.
    pub fn spawn(&mut self, settings: FluidSettings) -> (r: Result<usize, SettingsError>)
        requires
            old(self).wf(),
        ensures
            final(self).wf(),
            final(self).spec_state() == old(self).spec_state(),
            match r {
                Ok(id) => {
                    &&& id == old(self).spec_instances().len()
                    &&& final(self).spec_instances() == old(self).spec_instances().push(
                        final(self).spec_instances()[id as int],
                    )
                    &&& final(self).has(id as int)
                    &&& fresh(final(self).spec_instances()[id as int]->0, settings)
                },
                Err(e) => {
                    &&& settings.check_spec() == Err::<(), SettingsError>(e)
                    &&& final(self).spec_instances() == old(self).spec_instances()
                },
            },
    {
        match SimulationInstance::new(settings) {
            Err(e) => Err(e),
            Ok(instance) => {
                let id = self.instances.len();
                self.instances.push(Some(instance));
                proof {
                    assert forall|k: int| self.has(k) implies (
                    #[trigger] self.spec_instances()[k])->0.wf() by {
                        if k < id {
                            assert(self.spec_instances()[k] == old(self).spec_instances()[k]);
                            assert(old(self).has(k));
                        }
                    }
                }
                Ok(id)
            },
        }
    }

    /// Destroys the simulation with the given number and hands it out.  Its
    /// slot stays empty and all other simulations stay as they were.  Where
    /// there is no such simulation, nothing changes.
    pub fn despawn(&mut self, id: usize) -> (removed: Option<SimulationInstance>)
        requires
            old(self).wf(),
        ensures
            final(self).wf(),
            final(self).spec_state() == old(self).spec_state(),
            old(self).has(id as int) ==> {
                &&& removed == old(self).spec_instances()[id as int]
                &&& final(self).spec_instances() == old(self).spec_instances().update(
                    id as int,
                    None,
                )
            },
            !old(self).has(id as int) ==> {
                &&& removed is None
                &&& final(self).spec_instances() == old(self).spec_instances()
            },
    {
        if id < self.instances.len() {
            let mut slot: Option<SimulationInstance> = None;
            std::mem::swap(&mut self.instances[id], &mut slot);
            proof {
                assert(self.spec_instances() =~= old(self).spec_instances().update(
                    id as int,
                    None,
                ));
                assert forall|k: int| self.has(k) implies (
                #[trigger] self.spec_instances()[k])->0.wf() by {
                    assert(self.spec_instances()[k] == old(self).spec_instances()[k]);
                    assert(old(self).has(k));
                }
                if !old(self).has(id as int) {
                    assert(self.spec_instances() =~= old(self).spec_instances());
                }
            }
            slot
        } else {
            None
        }
    }

    /// Takes note of the kernels that the host has ready, and moves to the
    /// next state if the kernels that it needs are among them.
    pub fn update(&mut self, ready: &PipelineReadiness)
        requires
            old(self).wf(),
        ensures
            final(self).wf(),
            final(self).spec_state() == next_state_spec(old(self).spec_state(), *ready),
            final(self).spec_instances() == old(self).spec_instances(),
    {
        self.state = next_state(self.state, ready);
        assert(self.spec_instances() == old(self).spec_instances());
        assert forall|k: int| self.has(k) implies (#[trigger] self.spec_instances()[k])->0.wf() by {
            assert(old(self).has(k));
        }
    }

    /// Runs the node once: nothing while it loads, the initialization of
    /// every simulation in the state `Init`, one tick of every simulation in
    /// the state `Update`.
    pub fn run(&mut self, obstacles: &Obstacles) -> (outcome: RunOutcome)
        requires
            old(self).wf(),
        ensures
            final(self).wf(),
            final(self).spec_state() == old(self).spec_state(),
            final(self).spec_instances().len() == old(self).spec_instances().len(),
            match old(self).spec_state() {
                State::Loading => {
                    &&& outcome == RunOutcome::NotReadyYet
                    &&& final(self).spec_instances() == old(self).spec_instances()
                },
                State::Init => {
                    &&& outcome == RunOutcome::Initialized
                    &&& forall|k: int|
                        0 <= k < old(self).spec_instances().len() ==> slot_initialized(
                            #[trigger] final(self).spec_instances()[k],
                            old(self).spec_instances()[k],
                        )
                },
                State::Update => {
                    &&& outcome == RunOutcome::Advanced
                    &&& forall|k: int|
                        0 <= k < old(self).spec_instances().len() ==> slot_ticked(
                            #[trigger] final(self).spec_instances()[k],
                            old(self).spec_instances()[k],
                            obstacles.circles@,
                        )
                },
            },
    {
        match self.state {
            State::Loading => RunOutcome::NotReadyYet,
            State::Init => {
                let n = self.instances.len();
                let mut k: usize = 0;
                while k < n
                    invariant
                        k <= n,
                        n == self.instances@.len(),
                        n == old(self).instances@.len(),
                        self.state == old(self).state,
                        forall|m: int|
                            0 <= m < k ==> slot_initialized(
                                #[trigger] self.instances@[m],
                                old(self).instances@[m],
                            ),
                        forall|m: int|
                            k <= m < n ==> #[trigger] self.instances@[m] == old(self).instances@[m],
                        old(self).wf(),
                    decreases n - k,
                {
                    assert(old(self).has(k as int) ==> old(self).spec_instances()[k as int]->0.wf());
                    let slot = &mut self.instances[k];
                    match slot {
                        Some(instance) => {
                            instance.initialize();
                        },
                        None => {},
                    }
                    k = k + 1;
                }
                proof {
                    assert forall|m: int| self.has(m) implies (
                    #[trigger] self.spec_instances()[m])->0.wf() by {
                        assert(slot_initialized(self.instances@[m], old(self).instances@[m]));
                    }
                }
                RunOutcome::Initialized
            },
            State::Update => {
                let n = self.instances.len();
                let mut k: usize = 0;
                while k < n
                    invariant
                        k <= n,
                        n == self.instances@.len(),
                        n == old(self).instances@.len(),
                        self.state == old(self).state,
                        forall|m: int|
                            0 <= m < k ==> slot_ticked(
                                #[trigger] self.instances@[m],
                                old(self).instances@[m],
                                obstacles.circles@,
                            ),
                        forall|m: int|
                            k <= m < n ==> #[trigger] self.instances@[m] == old(self).instances@[m],
                        old(self).wf(),
                    decreases n - k,
                {
                    assert(old(self).has(k as int) ==> old(self).spec_instances()[k as int]->0.wf());
                    let slot = &mut self.instances[k];
                    match slot {
                        Some(instance) => {
                            instance.tick(obstacles);
                        },
                        None => {},
                    }
                    k = k + 1;
                }
                proof {
                    assert forall|m: int| self.has(m) implies (
                    #[trigger] self.spec_instances()[m])->0.wf() by {
                        assert(slot_ticked(
                            self.instances@[m],
                            old(self).instances@[m],
                            obstacles.circles@,
                        ));
                    }
                }
                RunOutcome::Advanced
            },
        }
    }

    /// Replaces the forces that act on the simulation with the given number
    /// in its next tick.  Tells whether there is such a simulation; if not,
    /// the node stays as it was.
    pub fn set_local_forces(&mut self, id: usize, forces: LocalForces) -> (known: bool)
        requires
            old(self).wf(),
        ensures
            final(self).wf(),
            final(self).spec_state() == old(self).spec_state(),
            final(self).spec_instances().len() == old(self).spec_instances().len(),
            known == old(self).has(id as int),
            !known ==> final(self).spec_instances() == old(self).spec_instances(),
            known ==> {
                &&& final(self).has(id as int)
                &&& final(self).spec_instances()[id as int]->0.spec_local_forces() == forces
                &&& final(self).spec_instances()[id as int]->0.spec_bundle()@ == old(self).spec_instances()[id as int]->0.spec_bundle()@
                &&& final(self).spec_instances()[id as int]->0.spec_settings() == old(self).spec_instances()[id as int]->0.spec_settings()
                &&& final(self).spec_instances()[id as int]->0.spec_uniform() == old(self).spec_instances()[id as int]->0.spec_uniform()
                &&& forall|m: int|
                    0 <= m < old(self).spec_instances().len() && m != id ==> #[trigger] final(self).spec_instances()[m] == old(self).spec_instances()[m]
            },
    {
        if id >= self.instances.len() {
            return false;
        }
        assert(old(self).has(id as int) ==> old(self).spec_instances()[id as int]->0.wf());
        let slot = &mut self.instances[id];
        let known = match slot {
            Some(instance) => {
                instance.set_local_forces(forces);
                true
            },
            None => false,
        };
        proof {
            if !known {
                assert(self.spec_instances() =~= old(self).spec_instances());
            }
            assert forall|m: int| self.has(m) implies (#[trigger] self.spec_instances()[m])->0.wf() by {
                if m != id {
                    assert(self.spec_instances()[m] == old(self).spec_instances()[m]);
                    assert(old(self).has(m));
                }
            }
        }
        known
    }

    /// Replaces the time step of the simulation with the given number.
    /// Tells whether there is such a simulation and the time step is
    /// positive; if not, the node stays as it was.
    pub fn set_time_step(&mut self, id: usize, dt: i64) -> (accepted: bool)
        requires
            old(self).wf(),
        ensures
            final(self).wf(),
            final(self).spec_state() == old(self).spec_state(),
            final(self).spec_instances().len() == old(self).spec_instances().len(),
            accepted == (old(self).has(id as int) && dt > 0),
            !accepted ==> final(self).spec_instances() == old(self).spec_instances(),
            accepted ==> {
                &&& final(self).has(id as int)
                &&& final(self).spec_instances()[id as int]->0.spec_uniform() == (SimulationUniform {
                    dt,
                    ..old(self).spec_instances()[id as int]->0.spec_uniform()
                })
                &&& final(self).spec_instances()[id as int]->0.spec_bundle()@ == old(self).spec_instances()[id as int]->0.spec_bundle()@
                &&& final(self).spec_instances()[id as int]->0.spec_settings() == old(self).spec_instances()[id as int]->0.spec_settings()
                &&& forall|m: int|
                    0 <= m < old(self).spec_instances().len() && m != id ==> #[trigger] final(self).spec_instances()[m] == old(self).spec_instances()[m]
            },
    {
        if id >= self.instances.len() || dt <= 0 {
            return false;
        }
        assert(old(self).has(id as int) ==> old(self).spec_instances()[id as int]->0.wf());
        let slot = &mut self.instances[id];
        let accepted = match slot {
            Some(instance) => {
                let accepted = instance.set_time_step(dt);
                accepted
            },
            None => false,
        };
        proof {
            if !accepted {
                assert(self.spec_instances() =~= old(self).spec_instances());
            }
            assert forall|m: int| self.has(m) implies (#[trigger] self.spec_instances()[m])->0.wf() by {
                if m != id {
                    assert(self.spec_instances()[m] == old(self).spec_instances()[m]);
                    assert(old(self).has(m));
                }
            }
        }
        accepted
    }
}

/// Where every velocity is zero, current and solid, no face lets fluid
/// through a solid cell.
pub proof fn lemma_still_zero_does_not_penetrate(s: BundleState)
    requires
        s.u0 == zeros(s.u0.width, s.u0.height),
        s.v0 == zeros(s.v0.width, s.v0.height),
        s.u_solid == zeros(s.u0.width, s.u0.height),
        s.v_solid == zeros(s.v0.width, s.v0.height),
    ensures
        s.no_penetration(),
{
    Lattice::<i64>::lemma_tabulate(s.u0.width, s.u0.height, |i: int, j: int| 0i64);
    Lattice::<i64>::lemma_tabulate(s.v0.width, s.v0.height, |i: int, j: int| 0i64);
}

} // verus!
