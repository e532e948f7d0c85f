use eulerian_fluid::definition::{
    CircleObstacle, FluidSettings, ForceScaling, GridLabel, LocalForces, Obstacles, Vec2,
};
use eulerian_fluid::node::{
    next_state, EulerFluidNode, PipelineReadiness, RunOutcome, SimulationInstance, State,
};
use eulerian_fluid::setup_components::SettingsError;

const ONE: i64 = 65536;
const HALF: i64 = 32768;

fn settings(n: u32, level: i64, gravity: i64) -> FluidSettings {
    FluidSettings {
        dx: ONE,
        dt: HALF,
        rho: ONE,
        gravity: Vec2 { x: 0, y: gravity },
        size: (n, n),
        initial_fluid_level: level,
        jacobi_iterations: 20,
        force_scaling: ForceScaling::TimeStep,
    }
}

fn nothing_ready() -> PipelineReadiness {
    PipelineReadiness {
        initialize_velocity: false,
        initialize_grid_center: false,
        update_grid_label: false,
        advection: false,
        add_force: false,
        divergence: false,
        jacobi_iteration: false,
        jacobi_iteration_reverse: false,
        solve_velocity: false,
        recompute_levelset_initialization: false,
        recompute_levelset_iteration: false,
        recompute_levelset_solve: false,
        advect_levelset: false,
    }
}

fn no_obstacles() -> Obstacles {
    Obstacles { circles: vec![] }
}

fn running_node() -> EulerFluidNode {
    let mut node = EulerFluidNode::new();
    node.update(&PipelineReadiness::all());
    node.update(&PipelineReadiness::all());
    node
}

fn count(instance: &SimulationInstance, label: GridLabel) -> usize {
    let labels = &instance.bundle().levelset_textures.grid_label;
    let mut n = 0;
    for j in 0..labels.height() {
        for i in 0..labels.width() {
            if labels.get(i, j) == label {
                n += 1;
            }
        }
    }
    n
}

fn assert_no_penetration(instance: &SimulationInstance) {
    let b = instance.bundle();
    let labels = &b.levelset_textures.grid_label;
    let (nx, ny) = (labels.width() as i64, labels.height() as i64);
    let solid = |i: i64, j: i64| -> bool {
        i < 0 || j < 0 || i >= nx || j >= ny || labels.get(i as usize, j as usize) == GridLabel::Solid
    };
    for j in 0..ny {
        for i in 0..=nx {
            if solid(i - 1, j) || solid(i, j) {
                assert_eq!(
                    b.velocity_textures.u0.get(i as usize, j as usize),
                    b.solid_velocity_textures.u_solid.get(i as usize, j as usize)
                );
            }
        }
    }
    for j in 0..=ny {
        for i in 0..nx {
            if solid(i, j - 1) || solid(i, j) {
                assert_eq!(
                    b.velocity_textures.v0.get(i as usize, j as usize),
                    b.solid_velocity_textures.v_solid.get(i as usize, j as usize)
                );
            }
        }
    }
}

#[test]
fn node_starts_loading_and_empty() {
    let node = EulerFluidNode::new();
    assert_eq!(node.state(), State::Loading);
    assert_eq!(node.len(), 0);
    assert!(node.instance(0).is_none());
}

#[test]
fn loading_waits_for_the_kernels_of_the_initialization() {
    let mut ready = nothing_ready();
    assert_eq!(next_state(State::Loading, &ready), State::Loading);
    ready.initialize_velocity = true;
    assert_eq!(next_state(State::Loading, &ready), State::Loading);
    ready.initialize_grid_center = true;
    assert_eq!(next_state(State::Loading, &ready), State::Init);
    // the kernels of the stages do not matter yet
    let mut stages = PipelineReadiness::all();
    stages.initialize_velocity = false;
    assert_eq!(next_state(State::Loading, &stages), State::Loading);
}

#[test]
fn init_waits_for_every_kernel_of_a_tick() {
    assert_eq!(next_state(State::Init, &nothing_ready()), State::Init);
    assert_eq!(next_state(State::Init, &PipelineReadiness::all()), State::Update);
    let all = PipelineReadiness::all();
    let mut missing = vec![all; 11];
    missing[0].update_grid_label = false;
    missing[1].advection = false;
    missing[2].add_force = false;
    missing[3].divergence = false;
    missing[4].jacobi_iteration = false;
    missing[5].jacobi_iteration_reverse = false;
    missing[6].solve_velocity = false;
    missing[7].recompute_levelset_initialization = false;
    missing[8].recompute_levelset_iteration = false;
    missing[9].recompute_levelset_solve = false;
    missing[10].advect_levelset = false;
    for ready in &missing {
        assert_eq!(next_state(State::Init, ready), State::Init);
    }
    // the kernels of the initialization no longer matter
    let mut late = PipelineReadiness::all();
    late.initialize_velocity = false;
    late.initialize_grid_center = false;
    assert_eq!(next_state(State::Init, &late), State::Update);
}

#[test]
fn running_node_never_goes_back() {
    assert_eq!(next_state(State::Update, &nothing_ready()), State::Update);
    assert_eq!(next_state(State::Update, &PipelineReadiness::all()), State::Update);
}

#[test]
fn node_moves_one_state_per_update() {
    let mut node = EulerFluidNode::new();
    node.update(&nothing_ready());
    assert_eq!(node.state(), State::Loading);
    node.update(&PipelineReadiness::all());
    assert_eq!(node.state(), State::Init);
    node.update(&nothing_ready());
    assert_eq!(node.state(), State::Init);
    node.update(&PipelineReadiness::all());
    assert_eq!(node.state(), State::Update);
    node.update(&nothing_ready());
    assert_eq!(node.state(), State::Update);
}

#[test]
fn spawn_numbers_the_simulations_in_order() {
    let mut node = EulerFluidNode::new();
    assert_eq!(node.spawn(settings(8, HALF, 0)), Ok(0));
    assert_eq!(node.spawn(settings(4, ONE, 0)), Ok(1));
    assert_eq!(node.len(), 2);
    assert_eq!(node.instance(0).unwrap().settings().size, (8, 8));
    assert_eq!(node.instance(1).unwrap().settings().size, (4, 4));
    assert!(node.instance(2).is_none());
}

#[test]
fn spawn_refuses_bad_settings_and_keeps_the_node() {
    let mut node = EulerFluidNode::new();
    assert_eq!(node.spawn(settings(0, HALF, 0)), Err(SettingsError::EmptyGrid));
    assert_eq!(node.spawn(settings(8, 2 * ONE, 0)), Err(SettingsError::FluidLevelOutOfRange));
    let mut bad = settings(8, HALF, 0);
    bad.dt = 0;
    assert_eq!(node.spawn(bad), Err(SettingsError::NonPositiveParameter));
    assert_eq!(node.len(), 0);
}

#[test]
fn destroyed_simulation_leaves_an_empty_slot() {
    let mut node = EulerFluidNode::new();
    node.spawn(settings(8, HALF, 0)).unwrap();
    node.spawn(settings(4, ONE, 0)).unwrap();
    let removed = node.despawn(0).unwrap();
    assert_eq!(removed.settings().size, (8, 8));
    assert!(node.instance(0).is_none());
    assert_eq!(node.instance(1).unwrap().settings().size, (4, 4));
    assert_eq!(node.len(), 2);
    // numbers are not given twice
    assert_eq!(node.spawn(settings(6, ONE, 0)), Ok(2));
    assert!(node.despawn(0).is_none());
    assert!(node.despawn(7).is_none());
    assert!(!node.set_local_forces(
        0,
        LocalForces {
            force: vec![],
            position: vec![]
        }
    ));
    assert!(!node.set_time_step(0, ONE));
}

#[test]
fn node_with_an_empty_slot_still_runs_the_others() {
    let mut node = EulerFluidNode::new();
    node.spawn(settings(8, ONE, ONE)).unwrap();
    node.spawn(settings(8, ONE, ONE)).unwrap();
    node.despawn(0);
    node.update(&PipelineReadiness::all());
    assert_eq!(node.run(&no_obstacles()), RunOutcome::Initialized);
    node.update(&PipelineReadiness::all());
    assert_eq!(node.run(&no_obstacles()), RunOutcome::Advanced);
    assert!(node.instance(0).is_none());
    assert_eq!(node.instance(1).unwrap().bundle().velocity_textures.v1.get(3, 3), HALF);
}

#[test]
fn new_simulation_is_in_its_initial_state() {
    let instance = SimulationInstance::new(settings(8, HALF, ONE)).unwrap();
    assert_eq!(instance.uniform().dt, HALF);
    assert_eq!(instance.jump_flooding_uniform_buffer().buffer.len(), 3);
    assert_eq!(instance.jump_flooding_uniform_buffer().buffer[0].step, 4);
    assert!(instance.local_forces().force.is_empty());
    // rows 4 to 6 of the six inner columns are fluid
    assert_eq!(count(&instance, GridLabel::Fluid), 18);
    assert_eq!(count(&instance, GridLabel::Solid), 28);
    assert_eq!(count(&instance, GridLabel::Empty), 18);
    assert_eq!(instance.bundle().levelset_textures.levelset.get(3, 4), -HALF);
    assert_eq!(instance.bundle().velocity_textures.v0.get(3, 4), 0);
}

#[test]
fn run_of_a_loading_node_does_nothing() {
    let mut node = EulerFluidNode::new();
    node.spawn(settings(8, HALF, ONE)).unwrap();
    assert_eq!(node.run(&no_obstacles()), RunOutcome::NotReadyYet);
    assert_eq!(node.state(), State::Loading);
    let instance = node.instance(0).unwrap();
    assert_eq!(instance.bundle().velocity_textures.v0.get(3, 3), 0);
    assert_eq!(instance.bundle().levelset_textures.levelset.get(3, 4), -HALF);
}

#[test]
fn run_in_init_rebuilds_the_initial_state() {
    let mut node = EulerFluidNode::new();
    node.spawn(settings(8, HALF, ONE)).unwrap();
    node.spawn(settings(6, ONE, 0)).unwrap();
    node.update(&PipelineReadiness::all());
    assert_eq!(node.run(&no_obstacles()), RunOutcome::Initialized);
    assert_eq!(node.state(), State::Init);
    for id in 0..2 {
        let instance = node.instance(id).unwrap();
        assert_eq!(instance.bundle().velocity_textures.v0.get(3, 3), 0);
        assert_no_penetration(instance);
    }
    assert_eq!(count(node.instance(0).unwrap(), GridLabel::Fluid), 18);
    assert_eq!(count(node.instance(1).unwrap(), GridLabel::Fluid), 16);
}

#[test]
fn run_in_update_advances_every_simulation() {
    let mut node = running_node();
    node.spawn(settings(8, ONE, ONE)).unwrap();
    node.spawn(settings(8, ONE, 3 * ONE)).unwrap();
    assert_eq!(node.run(&no_obstacles()), RunOutcome::Advanced);
    // the scratch buffer shows the velocity before the correction: what
    // gravity has added in one time step
    let first = node.instance(0).unwrap();
    let second = node.instance(1).unwrap();
    assert_eq!(first.bundle().velocity_textures.v1.get(3, 3), HALF);
    assert_eq!(second.bundle().velocity_textures.v1.get(3, 3), 3 * HALF);
    assert_no_penetration(first);
    assert_no_penetration(second);
}

#[test]
fn forces_act_for_one_tick_only() {
    let mut node = running_node();
    let id = node.spawn(settings(8, ONE, 0)).unwrap();
    let forces = LocalForces {
        force: vec![Vec2 { x: 4 * ONE, y: 0 }],
        position: vec![Vec2 {
            x: 4 * ONE,
            y: 4 * ONE + HALF,
        }],
    };
    assert!(node.set_local_forces(id, forces));
    assert_eq!(node.instance(id).unwrap().local_forces().force.len(), 1);
    node.run(&no_obstacles());
    let instance = node.instance(id).unwrap();
    // the velocity before the correction shows the push
    assert_eq!(instance.bundle().velocity_textures.u1.get(4, 4), 2 * ONE);
    assert!(instance.local_forces().force.is_empty());
    assert!(instance.local_forces().position.is_empty());
    node.run(&no_obstacles());
    assert!(node.instance(id).unwrap().local_forces().force.is_empty());
}

#[test]
fn forces_for_an_unknown_simulation_are_refused() {
    let mut node = running_node();
    node.spawn(settings(4, ONE, 0)).unwrap();
    let forces = LocalForces {
        force: vec![Vec2 { x: ONE, y: 0 }],
        position: vec![Vec2 { x: ONE, y: ONE }],
    };
    assert!(!node.set_local_forces(1, forces));
    assert!(node.instance(0).unwrap().local_forces().force.is_empty());
}

#[test]
fn time_step_can_be_replaced_by_a_positive_one() {
    let mut node = running_node();
    let id = node.spawn(settings(4, ONE, 0)).unwrap();
    assert!(node.set_time_step(id, ONE / 8));
    assert_eq!(node.instance(id).unwrap().uniform().dt, ONE / 8);
    assert!(!node.set_time_step(id, 0));
    assert!(!node.set_time_step(id, -5));
    assert!(!node.set_time_step(id + 1, ONE));
    assert_eq!(node.instance(id).unwrap().uniform().dt, ONE / 8);
    // the settings keep the time step that the simulation was created with
    assert_eq!(node.instance(id).unwrap().settings().dt, HALF);
}

#[test]
fn fluid_in_a_closed_full_box_under_gravity_keeps_its_volume_for_a_thousand_ticks() {
    let mut node = running_node();
    let id = node.spawn(settings(16, ONE, ONE)).unwrap();
    let initial = count(node.instance(id).unwrap(), GridLabel::Fluid);
    assert_eq!(initial, 14 * 14);
    for _ in 0..1000 {
        assert_eq!(node.run(&no_obstacles()), RunOutcome::Advanced);
        let now = count(node.instance(id).unwrap(), GridLabel::Fluid);
        assert_eq!(now, initial);
    }
    let instance = node.instance(id).unwrap();
    assert_no_penetration(instance);
    // the fluid is at rest but for what the relaxation has not yet removed
    for j in 0..=16 {
        for i in 0..16 {
            assert!(instance.bundle().velocity_textures.v0.get(i, j).abs() < ONE / 16);
        }
    }
    // and the pressure has become hydrostatic: it grows by the weight of one
    // cell from row to row, which is one unit here
    let p = &instance.bundle().pressure_textures.p0;
    for j in 2..15 {
        let step = p.get(8, j) - p.get(8, j - 1);
        assert!((step - ONE).abs() < ONE / 16, "row {}: {}", j, step);
    }
}

#[test]
fn moving_obstacle_imposes_its_velocity_in_every_tick() {
    let mut node = running_node();
    let id = node.spawn(settings(16, ONE, ONE)).unwrap();
    for tick in 0..40 {
        let x = 4 * ONE + tick * ONE / 8;
        let obstacles = Obstacles {
            circles: vec![CircleObstacle {
                radius: 2 * ONE,
                center: Vec2 { x, y: 8 * ONE },
                velocity: Vec2 { x: ONE / 4, y: 0 },
            }],
        };
        node.run(&obstacles);
        let instance = node.instance(id).unwrap();
        assert_no_penetration(instance);
        let cx = (x / ONE) as usize;
        assert_eq!(
            instance.bundle().levelset_textures.grid_label.get(cx, 8),
            GridLabel::Solid
        );
        assert_eq!(instance.bundle().velocity_textures.u0.get(cx, 8), ONE / 4);
        // obstacles do not drain a full box
        assert!(count(instance, GridLabel::Fluid) >= 14 * 14 - 21);
    }
    // once the obstacle is gone, every inner cell is fluid again
    node.run(&no_obstacles());
    assert_eq!(count(node.instance(id).unwrap(), GridLabel::Fluid), 14 * 14);
}

#[test]
fn simulations_of_one_node_do_not_share_state() {
    let mut node = running_node();
    let a = node.spawn(settings(8, ONE, ONE)).unwrap();
    let b = node.spawn(settings(8, ONE, ONE)).unwrap();
    let forces = LocalForces {
        force: vec![Vec2 { x: 4 * ONE, y: 0 }],
        position: vec![Vec2 {
            x: 4 * ONE,
            y: 4 * ONE + HALF,
        }],
    };
    node.set_local_forces(a, forces);
    node.run(&no_obstacles());
    assert_eq!(node.instance(a).unwrap().bundle().velocity_textures.u1.get(4, 4), 2 * ONE);
    assert_eq!(node.instance(b).unwrap().bundle().velocity_textures.u1.get(4, 4), 0);
}
