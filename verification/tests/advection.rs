use eulerian_fluid::advection::{advect_levelset, advection, coord_of, sample, travel};
use eulerian_fluid::definition::{
    GridLabel, LevelsetTextures, SimulationUniform, Vec2, VelocityTextures,
};
use eulerian_fluid::field::Field;

const ONE: i64 = 65536;
const HALF: i64 = 32768;

fn uniform(dt: i64, dx: i64) -> SimulationUniform {
    SimulationUniform {
        dx,
        dt,
        rho: ONE,
        gravity: Vec2 { x: 0, y: 0 },
        initial_fluid_level: ONE,
    }
}

fn velocity(nx: usize, ny: usize, u: i64, v: i64) -> VelocityTextures {
    VelocityTextures {
        u0: Field::new(nx + 1, ny, u),
        v0: Field::new(nx, ny + 1, v),
        u1: Field::new(nx + 1, ny, 0),
        v1: Field::new(nx, ny + 1, 0),
    }
}

#[test]
fn coordinates_are_whole_cells() {
    assert_eq!(coord_of(0), 0);
    assert_eq!(coord_of(5), 5 * ONE);
}

#[test]
fn travel_is_velocity_times_time_over_cell_size() {
    // 3 m/s for 0.5 s on cells of 0.25 m: 6 cells
    assert_eq!(travel(3 * ONE, HALF, ONE / 4), 6 * ONE);
    assert_eq!(travel(-3 * ONE, HALF, ONE / 4), -6 * ONE);
    assert_eq!(travel(0, HALF, ONE), 0);
}

#[test]
fn sample_blends_the_samples_around_the_point() {
    let mut f: Field<i64> = Field::new(2, 2, 0);
    f.set(0, 0, 0);
    f.set(1, 0, 4 * ONE);
    f.set(0, 1, 8 * ONE);
    f.set(1, 1, 12 * ONE);
    assert_eq!(sample(&f, 0, 0), 0);
    assert_eq!(sample(&f, ONE, 0), 4 * ONE);
    assert_eq!(sample(&f, ONE / 4, 0), ONE);
    assert_eq!(sample(&f, 0, HALF), 4 * ONE);
    assert_eq!(sample(&f, HALF, HALF), 6 * ONE);
    assert_eq!(sample(&f, ONE, ONE), 12 * ONE);
}

#[test]
fn sample_outside_the_field_reads_the_nearest_sample() {
    let mut f: Field<i64> = Field::new(3, 2, 0);
    f.set(0, 0, 10);
    f.set(2, 0, 20);
    f.set(0, 1, 30);
    f.set(2, 1, 40);
    assert_eq!(sample(&f, -5 * ONE, -5 * ONE), 10);
    assert_eq!(sample(&f, 50 * ONE, -ONE), 20);
    assert_eq!(sample(&f, -ONE, 50 * ONE), 30);
    assert_eq!(sample(&f, i64::MAX, i64::MAX), 40);
    assert_eq!(sample(&f, i64::MIN, i64::MIN), 10);
}

#[test]
fn sample_of_a_single_sample_field_is_that_sample() {
    let f: Field<i64> = Field::new(1, 1, -77);
    assert_eq!(sample(&f, 12345, -6789), -77);
}

#[test]
fn uniform_velocity_is_unchanged_by_its_own_transport() {
    let (cu, cv) = (49152, -32768);
    let mut vel = velocity(6, 5, cu, cv);
    advection(&mut vel, &uniform(HALF, ONE));
    for j in 0..5 {
        for i in 0..7 {
            assert_eq!(vel.u0.get(i, j), cu);
        }
    }
    for j in 0..6 {
        for i in 0..6 {
            assert_eq!(vel.v0.get(i, j), cv);
        }
    }
}

#[test]
fn uniform_velocity_is_unchanged_even_where_the_arithmetic_saturates() {
    let (cu, cv) = (i64::MAX, i64::MIN);
    let mut vel = velocity(4, 4, cu, cv);
    advection(&mut vel, &uniform(i64::MAX, 1));
    for j in 0..4 {
        for i in 0..5 {
            assert_eq!(vel.u0.get(i, j), cu);
        }
    }
    for j in 0..5 {
        for i in 0..4 {
            assert_eq!(vel.v0.get(i, j), cv);
        }
    }
}

#[test]
fn transport_reads_the_velocity_where_the_flow_comes_from() {
    // u grows by one per column, v is zero: the face in column i moves with
    // speed i, so in half a second it has come from i / 2 columns back.
    let mut vel = velocity(6, 3, 0, 0);
    for j in 0..3 {
        for i in 0..7 {
            vel.u0.set(i, j, i as i64 * ONE);
        }
    }
    advection(&mut vel, &uniform(HALF, ONE));
    for j in 0..3 {
        assert_eq!(vel.u0.get(0, j), 0);
        assert_eq!(vel.u0.get(2, j), ONE);
        assert_eq!(vel.u0.get(3, j), 3 * ONE / 2);
        assert_eq!(vel.u0.get(6, j), 3 * ONE);
    }
    // v is carried by the interpolated u, and zero stays zero
    for j in 0..4 {
        for i in 0..6 {
            assert_eq!(vel.v0.get(i, j), 0);
        }
    }
}

#[test]
fn transport_swaps_the_buffers() {
    let mut vel = velocity(4, 3, 0, 0);
    for j in 0..3 {
        for i in 0..5 {
            vel.u0.set(i, j, i as i64 * ONE);
            vel.u1.set(i, j, -1);
        }
    }
    advection(&mut vel, &uniform(HALF, ONE));
    for j in 0..3 {
        for i in 0..5 {
            assert_eq!(vel.u1.get(i, j), i as i64 * ONE);
        }
    }
    for j in 0..4 {
        for i in 0..4 {
            assert_eq!(vel.v1.get(i, j), 0);
        }
    }
}

#[test]
fn level_set_is_carried_by_the_velocity() {
    // the level set grows by one per row; the flow moves one row per tick
    // toward larger rows, so every cell receives the value of the row before
    let (nx, ny) = (4, 6);
    let vel = velocity(nx, ny, 0, ONE);
    let mut levelset = LevelsetTextures {
        levelset: Field::new(nx, ny, 0),
        grid_label: Field::new(nx, ny, GridLabel::Empty),
    };
    for j in 0..ny {
        for i in 0..nx {
            levelset.levelset.set(i, j, (j as i64 - 3) * ONE);
        }
    }
    advect_levelset(&mut levelset, &vel, &uniform(ONE, ONE));
    for i in 0..nx {
        // the first row has nothing before it and keeps its value
        assert_eq!(levelset.levelset.get(i, 0), -3 * ONE);
        for j in 1..ny {
            assert_eq!(levelset.levelset.get(i, j), (j as i64 - 4) * ONE);
        }
    }
    // the velocity is only read
    assert_eq!(vel.v0.get(0, 0), ONE);
}

#[test]
fn level_set_at_rest_is_unchanged() {
    let (nx, ny) = (5, 5);
    let vel = velocity(nx, ny, 0, 0);
    let mut levelset = LevelsetTextures {
        levelset: Field::new(nx, ny, 0),
        grid_label: Field::new(nx, ny, GridLabel::Fluid),
    };
    for j in 0..ny {
        for i in 0..nx {
            levelset.levelset.set(i, j, (i * 7 + j * 13) as i64 - 20);
        }
    }
    advect_levelset(&mut levelset, &vel, &uniform(HALF, ONE));
    for j in 0..ny {
        for i in 0..nx {
            assert_eq!(levelset.levelset.get(i, j), (i * 7 + j * 13) as i64 - 20);
            assert_eq!(levelset.grid_label.get(i, j), GridLabel::Fluid);
        }
    }
}
