use eulerian_fluid::add_force::{
    add_force, force_count, impulse, is_target_u, is_target_v,
};
use eulerian_fluid::definition::{
    ForceScaling, GridLabel, LocalForces, SimulationUniform, Vec2, VelocityTextures,
};
use eulerian_fluid::field::Field;

const ONE: i64 = 65536;
const HALF: i64 = 32768;

fn uniform(gx: i64, gy: i64, dt: i64, rho: i64) -> SimulationUniform {
    SimulationUniform {
        dx: ONE,
        dt,
        rho,
        gravity: Vec2 { x: gx, y: gy },
        initial_fluid_level: ONE,
    }
}

fn velocity(nx: usize, ny: usize) -> VelocityTextures {
    VelocityTextures {
        u0: Field::new(nx + 1, ny, 0),
        v0: Field::new(nx, ny + 1, 0),
        u1: Field::new(nx + 1, ny, 0),
        v1: Field::new(nx, ny + 1, 0),
    }
}

fn at(x: f64, y: f64) -> Vec2 {
    Vec2 {
        x: (x * 65536.0) as i64,
        y: (y * 65536.0) as i64,
    }
}

fn none() -> LocalForces {
    LocalForces {
        force: vec![],
        position: vec![],
    }
}

#[test]
fn impulse_scales_by_the_time_step() {
    assert_eq!(impulse(3 * ONE, HALF, 4 * ONE, ForceScaling::TimeStep), 3 * HALF);
    assert_eq!(impulse(-3 * ONE, HALF, 4 * ONE, ForceScaling::TimeStep), -3 * HALF);
}

#[test]
fn impulse_can_be_scaled_by_the_density_too() {
    assert_eq!(
        impulse(3 * ONE, HALF, 4 * ONE, ForceScaling::TimeStepOverDensity),
        3 * HALF / 4
    );
}

#[test]
fn nearest_faces_of_a_position() {
    let p = at(2.2, 1.6);
    // vertical faces sit at (i, j + 1/2)
    assert!(is_target_u(&p, 2, 1));
    assert!(!is_target_u(&p, 3, 1));
    assert!(!is_target_u(&p, 2, 2));
    // horizontal faces sit at (i + 1/2, j)
    assert!(is_target_v(&p, 2, 2));
    assert!(!is_target_v(&p, 2, 1));
    let q = at(2.5, 1.5);
    assert!(is_target_u(&q, 3, 1));
    assert!(is_target_v(&q, 2, 2));
}

#[test]
fn position_before_the_origin_has_no_nearest_face() {
    let p = at(-0.75, 1.0);
    assert!(!is_target_u(&p, 0, 1));
    assert!(!is_target_v(&p, 0, 1));
    let q = at(-0.25, 1.0);
    // still within half a cell of the first column of vertical faces
    assert!(is_target_u(&q, 0, 1));
    assert!(!is_target_v(&q, 0, 1));
    let far = Vec2 {
        x: i64::MIN,
        y: i64::MAX,
    };
    assert!(!is_target_u(&far, 0, 0));
    assert!(!is_target_v(&far, 0, 0));
}

#[test]
fn count_of_forces_is_the_shorter_length() {
    let forces = LocalForces {
        force: vec![at(1.0, 1.0), at(2.0, 2.0), at(3.0, 3.0)],
        position: vec![at(1.0, 1.0)],
    };
    assert_eq!(force_count(&forces), 1);
    assert_eq!(force_count(&none()), 0);
}

#[test]
fn gravity_accelerates_every_horizontal_face_and_no_vertical_one() {
    let (nx, ny) = (4, 3);
    let mut vel = velocity(nx, ny);
    vel.v0.set(1, 1, ONE);
    vel.u0.set(2, 1, 5);
    let labels: Field<GridLabel> = Field::new(nx, ny, GridLabel::Solid);
    add_force(
        &mut vel,
        &labels,
        &none(),
        &uniform(7 * ONE, 2 * ONE, HALF, ONE),
        ForceScaling::TimeStep,
    );
    for j in 0..=ny {
        for i in 0..nx {
            let before = if (i, j) == (1, 1) { ONE } else { 0 };
            assert_eq!(vel.v0.get(i, j), before + ONE);
        }
    }
    for j in 0..ny {
        for i in 0..=nx {
            let before = if (i, j) == (2, 1) { 5 } else { 0 };
            assert_eq!(vel.u0.get(i, j), before);
        }
    }
}

#[test]
fn without_gravity_and_forces_nothing_changes() {
    let (nx, ny) = (3, 3);
    let mut vel = velocity(nx, ny);
    vel.u0.set(1, 1, 11);
    vel.v0.set(1, 2, -12);
    let labels: Field<GridLabel> = Field::new(nx, ny, GridLabel::Fluid);
    add_force(
        &mut vel,
        &labels,
        &none(),
        &uniform(0, 0, HALF, ONE),
        ForceScaling::TimeStep,
    );
    assert_eq!(vel.u0.get(1, 1), 11);
    assert_eq!(vel.v0.get(1, 2), -12);
    assert_eq!(vel.u0.get(2, 2), 0);
    assert_eq!(vel.v0.get(0, 0), 0);
}

#[test]
fn local_force_pushes_the_two_nearest_faces() {
    let (nx, ny) = (5, 5);
    let mut vel = velocity(nx, ny);
    let labels: Field<GridLabel> = Field::new(nx, ny, GridLabel::Fluid);
    let forces = LocalForces {
        force: vec![Vec2 {
            x: 3 * ONE,
            y: -4 * ONE,
        }],
        position: vec![at(2.2, 1.6)],
    };
    add_force(
        &mut vel,
        &labels,
        &forces,
        &uniform(0, 0, HALF, ONE),
        ForceScaling::TimeStep,
    );
    for j in 0..ny {
        for i in 0..=nx {
            let expected = if (i, j) == (2, 1) { 3 * HALF } else { 0 };
            assert_eq!(vel.u0.get(i, j), expected, "u {} {}", i, j);
        }
    }
    for j in 0..=ny {
        for i in 0..nx {
            let expected = if (i, j) == (2, 2) { -2 * ONE } else { 0 };
            assert_eq!(vel.v0.get(i, j), expected, "v {} {}", i, j);
        }
    }
}

#[test]
fn forces_on_one_face_add_up_and_gravity_comes_on_top() {
    let (nx, ny) = (5, 5);
    let mut vel = velocity(nx, ny);
    vel.v0.set(2, 2, 10);
    let labels: Field<GridLabel> = Field::new(nx, ny, GridLabel::Fluid);
    let forces = LocalForces {
        force: vec![
            Vec2 { x: 0, y: 2 * ONE },
            Vec2 { x: 0, y: 6 * ONE },
            Vec2 { x: ONE, y: ONE },
        ],
        position: vec![at(2.5, 2.0), at(2.9, 2.4), at(0.5, 4.0)],
    };
    add_force(
        &mut vel,
        &labels,
        &forces,
        &uniform(0, ONE, HALF, ONE),
        ForceScaling::TimeStep,
    );
    // 10 + gravity 0.5 + 1.0 + 3.0
    assert_eq!(vel.v0.get(2, 2), 10 + HALF + ONE + 3 * ONE);
    assert_eq!(vel.v0.get(0, 4), HALF + HALF);
    assert_eq!(vel.v0.get(1, 1), HALF);
}

#[test]
fn force_does_not_push_a_face_that_touches_a_solid_cell() {
    let (nx, ny) = (5, 5);
    let mut vel = velocity(nx, ny);
    let mut labels: Field<GridLabel> = Field::new(nx, ny, GridLabel::Fluid);
    labels.set(2, 1, GridLabel::Solid);
    let forces = LocalForces {
        force: vec![Vec2 {
            x: 3 * ONE,
            y: -4 * ONE,
        }],
        position: vec![at(2.2, 1.6)],
    };
    add_force(
        &mut vel,
        &labels,
        &forces,
        &uniform(0, ONE, HALF, ONE),
        ForceScaling::TimeStep,
    );
    // both nearest faces belong to the solid cell (2, 1)
    assert_eq!(vel.u0.get(2, 1), 0);
    // gravity acts all the same
    assert_eq!(vel.v0.get(2, 2), HALF);
}

#[test]
fn force_at_the_edge_of_the_domain_is_not_applied() {
    let (nx, ny) = (4, 4);
    let mut vel = velocity(nx, ny);
    let labels: Field<GridLabel> = Field::new(nx, ny, GridLabel::Fluid);
    let forces = LocalForces {
        force: vec![Vec2 { x: ONE, y: ONE }, Vec2 { x: ONE, y: ONE }],
        position: vec![at(0.1, 0.2), at(100.0, -3.0)],
    };
    add_force(
        &mut vel,
        &labels,
        &forces,
        &uniform(0, 0, HALF, ONE),
        ForceScaling::TimeStep,
    );
    for j in 0..ny {
        for i in 0..=nx {
            assert_eq!(vel.u0.get(i, j), 0);
        }
    }
    for j in 0..=ny {
        for i in 0..nx {
            assert_eq!(vel.v0.get(i, j), 0);
        }
    }
}

#[test]
fn forces_without_a_position_are_not_used() {
    let (nx, ny) = (5, 5);
    let mut vel = velocity(nx, ny);
    let labels: Field<GridLabel> = Field::new(nx, ny, GridLabel::Fluid);
    let forces = LocalForces {
        force: vec![Vec2 { x: ONE, y: 0 }, Vec2 { x: 8 * ONE, y: 0 }],
        position: vec![at(2.0, 2.5)],
    };
    add_force(
        &mut vel,
        &labels,
        &forces,
        &uniform(0, 0, ONE, ONE),
        ForceScaling::TimeStep,
    );
    assert_eq!(vel.u0.get(2, 2), ONE);
}

#[test]
fn density_scaling_divides_the_impulse() {
    let (nx, ny) = (5, 5);
    let mut vel = velocity(nx, ny);
    let labels: Field<GridLabel> = Field::new(nx, ny, GridLabel::Fluid);
    let forces = LocalForces {
        force: vec![Vec2 { x: 3 * ONE, y: 0 }],
        position: vec![at(2.0, 2.5)],
    };
    add_force(
        &mut vel,
        &labels,
        &forces,
        &uniform(0, 0, ONE, 2 * ONE),
        ForceScaling::TimeStepOverDensity,
    );
    assert_eq!(vel.u0.get(2, 2), 3 * HALF);
}

#[test]
fn the_scratch_buffers_hold_the_velocity_from_before() {
    let (nx, ny) = (3, 3);
    let mut vel = velocity(nx, ny);
    vel.v0.set(1, 1, 4);
    let labels: Field<GridLabel> = Field::new(nx, ny, GridLabel::Fluid);
    add_force(
        &mut vel,
        &labels,
        &none(),
        &uniform(0, ONE, ONE, ONE),
        ForceScaling::TimeStep,
    );
    assert_eq!(vel.v0.get(1, 1), 4 + ONE);
    assert_eq!(vel.v1.get(1, 1), 4);
    assert_eq!(vel.v1.get(2, 2), 0);
}
