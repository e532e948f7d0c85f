use eulerian_fluid::definition::{
    GridLabel, JumpFloodingSeedsTextures, JumpFloodingUniform, LevelsetTextures,
    SimulationUniform, Vec2,
};
use eulerian_fluid::field::Field;
use eulerian_fluid::jump_flooding_uniform::prepare_jump_flood_resource;
use eulerian_fluid::recompute_levelset::{
    adopt_of, calculate_sdf, crossing, distance2_of, distance_of, initialize, iterate,
    recompute_levelset, seed_cell,
};

const ONE: i64 = 65536;
const HALF: i64 = 32768;

fn uniform(dx: i64) -> SimulationUniform {
    SimulationUniform {
        dx,
        dt: ONE,
        rho: ONE,
        gravity: Vec2 { x: 0, y: 0 },
        initial_fluid_level: ONE,
    }
}

fn seeds(nx: usize, ny: usize) -> JumpFloodingSeedsTextures {
    JumpFloodingSeedsTextures {
        jump_flooding_seeds_x: Field::new(nx, ny, -1),
        jump_flooding_seeds_y: Field::new(nx, ny, -1),
    }
}

fn levelset(nx: usize, ny: usize, fill: i64) -> LevelsetTextures {
    LevelsetTextures {
        levelset: Field::new(nx, ny, fill),
        grid_label: Field::new(nx, ny, GridLabel::Empty),
    }
}

fn steps_of(list: &[u32]) -> Vec<u32> {
    list.to_vec()
}

fn strides(size: (u32, u32)) -> Vec<u32> {
    prepare_jump_flood_resource(size)
        .buffer
        .iter()
        .map(|u| u.step)
        .collect()
}

#[test]
fn strides_halve_down_to_one() {
    assert_eq!(
        strides((512, 512)),
        steps_of(&[256, 128, 64, 32, 16, 8, 4, 2, 1])
    );
    assert_eq!(strides((64, 8)), steps_of(&[32, 16, 8, 4, 2, 1]));
    assert_eq!(strides((8, 64)), steps_of(&[32, 16, 8, 4, 2, 1]));
}

#[test]
fn strides_of_the_smallest_grids() {
    assert_eq!(strides((1, 1)), steps_of(&[1]));
    assert_eq!(strides((2, 1)), steps_of(&[1]));
    assert_eq!(strides((0, 0)), steps_of(&[1]));
    assert_eq!(strides((3, 2)), steps_of(&[2, 1]));
    assert_eq!(strides((4, 4)), steps_of(&[2, 1]));
    assert_eq!(strides((5, 1)), steps_of(&[4, 2, 1]));
}

#[test]
fn first_stride_doubled_reaches_the_larger_extent() {
    for extent in [1u32, 2, 3, 7, 100, 500, 513, 1000, 65535, 65537, u32::MAX] {
        let list = strides((extent, 1));
        let first = list[0] as u64;
        assert!(2 * first >= extent as u64);
        assert!(first == 1 || first < extent as u64);
        assert_eq!(*list.last().unwrap(), 1);
        for pair in list.windows(2) {
            assert_eq!(pair[0], 2 * pair[1]);
        }
    }
}

#[test]
fn crossing_divides_the_way_in_the_ratio_of_the_magnitudes() {
    assert_eq!(crossing(-ONE, ONE), HALF);
    assert_eq!(crossing(ONE, -ONE), HALF);
    assert_eq!(crossing(-ONE, 3 * ONE), ONE / 4);
    assert_eq!(crossing(3 * ONE, -ONE), 3 * ONE / 4);
    assert_eq!(crossing(0, -5), 0);
    assert_eq!(crossing(-5, 0), ONE);
    assert_eq!(crossing(i64::MIN, i64::MAX), 32768);
}

#[test]
fn cell_next_to_the_surface_is_seeded_at_the_crossing() {
    let mut phi: Field<i64> = Field::new(4, 3, ONE);
    phi.set(1, 1, -ONE);
    phi.set(2, 1, 3 * ONE);
    phi.set(1, 0, -7 * ONE);
    phi.set(1, 2, -7 * ONE);
    // left neighbor is 1, right neighbor is 3: the crossing toward the left
    // lies half a cell away, the one toward the right a quarter
    assert_eq!(seed_cell(&phi, 1, 1), (ONE + HALF + ONE / 4, ONE + HALF));
    // seen from the right neighbor the same point
    assert_eq!(seed_cell(&phi, 2, 1), (2 * ONE + HALF - 3 * ONE / 4, ONE + HALF));
    // the cell below is fluid too; its crossings toward its left and right
    // neighbors lie seven eighths of a cell away, and the left one wins
    assert_eq!(seed_cell(&phi, 1, 0), (ONE + HALF - 7 * ONE / 8, HALF));
}

#[test]
fn cell_away_from_the_surface_has_no_seed() {
    let phi: Field<i64> = Field::new(4, 3, ONE);
    assert_eq!(seed_cell(&phi, 1, 1), (-1, -1));
    assert_eq!(seed_cell(&phi, 0, 0), (-1, -1));
    let inside: Field<i64> = Field::new(4, 3, -ONE);
    assert_eq!(seed_cell(&inside, 3, 2), (-1, -1));
}

#[test]
fn tie_between_crossings_goes_to_the_first_direction() {
    let mut phi: Field<i64> = Field::new(3, 3, ONE);
    phi.set(1, 1, -ONE);
    // all four neighbors cross half way: left wins
    assert_eq!(seed_cell(&phi, 1, 1), (ONE, ONE + HALF));
}

#[test]
fn initialize_seeds_every_cell() {
    let mut phi: Field<i64> = Field::new(5, 1, 0);
    for i in 0..5 {
        phi.set(i, 0, (i as i64 - 2) * ONE - HALF);
    }
    // values -2.5 -1.5 -0.5 0.5 1.5: the surface lies between cells 2 and 3
    let mut s = seeds(5, 1);
    initialize(&mut s, &phi);
    let want = [-1, -1, 3 * ONE, 3 * ONE, -1];
    for i in 0..5 {
        assert_eq!(s.jump_flooding_seeds_x.get(i, 0), want[i]);
        let y = if want[i] < 0 { -1 } else { HALF };
        assert_eq!(s.jump_flooding_seeds_y.get(i, 0), y);
    }
}

#[test]
fn squared_distance_is_exact_and_limited() {
    assert_eq!(distance2_of((3 * ONE, 4 * ONE), 0, 0), 25 * (ONE as u128) * (ONE as u128));
    assert_eq!(distance2_of((0, 0), 3, 4), 25);
    assert_eq!(distance2_of((5, 5), 5, 5), 0);
    assert_eq!(distance2_of((i64::MIN, i64::MIN), 0, 0), 1u128 << 127);
    let d: u128 = (1u128 << 63) + (1u128 << 48);
    assert_eq!(distance2_of((i64::MIN, i64::MIN), 1 << 48, 1 << 48), 2 * d * d);
    // beyond 128 bits the square counts as the largest number that fits
    assert_eq!(distance2_of((i64::MIN, i64::MIN), i64::MAX, i64::MAX), u128::MAX);
    assert_eq!(
        adopt_of((i64::MAX, i64::MAX), (0, 0), i64::MAX, i64::MAX),
        (i64::MAX, i64::MAX)
    );
    assert_eq!(distance_of((i64::MAX, 0), i64::MIN, 0, ONE), i64::MAX);
}

#[test]
fn distance_is_the_root_times_the_cell_size() {
    assert_eq!(distance_of((3 * ONE, 4 * ONE), 0, 0, ONE), 5 * ONE);
    assert_eq!(distance_of((3 * ONE, 4 * ONE), 0, 0, HALF), 5 * HALF);
    // the root of two, rounded down to a raw value
    assert_eq!(distance_of((ONE, ONE), 0, 0, ONE), 92681);
}

#[test]
fn cell_adopts_the_nearer_seed() {
    let c = (5 * ONE, 5 * ONE);
    assert_eq!(adopt_of((-1, -1), (ONE, ONE), c.0, c.1), (ONE, ONE));
    assert_eq!(adopt_of((ONE, ONE), (-1, -1), c.0, c.1), (ONE, ONE));
    assert_eq!(adopt_of((ONE, ONE), (4 * ONE, 5 * ONE), c.0, c.1), (4 * ONE, 5 * ONE));
    assert_eq!(adopt_of((4 * ONE, 5 * ONE), (ONE, ONE), c.0, c.1), (4 * ONE, 5 * ONE));
    // a tie keeps what the cell has
    assert_eq!(adopt_of((4 * ONE, 5 * ONE), (6 * ONE, 5 * ONE), c.0, c.1), (4 * ONE, 5 * ONE));
    assert_eq!(adopt_of((-1, -1), (-1, 7), c.0, c.1), (-1, -1));
}

#[test]
fn pass_spreads_a_seed_by_its_stride() {
    let mut s = seeds(9, 9);
    s.jump_flooding_seeds_x.set(4, 4, 4 * ONE + HALF);
    s.jump_flooding_seeds_y.set(4, 4, 4 * ONE + HALF);
    iterate(&mut s, &JumpFloodingUniform { step: 2 });
    for j in 0..9 {
        for i in 0..9 {
            let reached = (i == 2 || i == 4 || i == 6) && (j == 2 || j == 4 || j == 6);
            let want = if reached { 4 * ONE + HALF } else { -1 };
            assert_eq!(s.jump_flooding_seeds_x.get(i, j), want, "cell {} {}", i, j);
        }
    }
    iterate(&mut s, &JumpFloodingUniform { step: 1 });
    for j in 1..8 {
        for i in 1..8 {
            assert_eq!(s.jump_flooding_seeds_x.get(i, j), 4 * ONE + HALF);
            assert_eq!(s.jump_flooding_seeds_y.get(i, j), 4 * ONE + HALF);
        }
    }
    assert_eq!(s.jump_flooding_seeds_x.get(0, 0), -1);
}

#[test]
fn distance_takes_the_sign_of_the_level_set() {
    let mut l = levelset(3, 1, 0);
    l.levelset.set(0, 0, -9);
    l.levelset.set(1, 0, 9);
    l.levelset.set(2, 0, -7 * ONE);
    let mut s = seeds(3, 1);
    s.jump_flooding_seeds_x.set(0, 0, 2 * ONE + HALF);
    s.jump_flooding_seeds_y.set(0, 0, HALF);
    s.jump_flooding_seeds_x.set(1, 0, 2 * ONE + HALF);
    s.jump_flooding_seeds_y.set(1, 0, HALF);
    calculate_sdf(&mut l, &s, &uniform(HALF));
    assert_eq!(l.levelset.get(0, 0), -ONE);
    assert_eq!(l.levelset.get(1, 0), HALF);
    // no seed: the value stays
    assert_eq!(l.levelset.get(2, 0), -7 * ONE);
}

#[test]
fn fluid_cell_on_its_seed_stays_below_zero() {
    let mut l = levelset(2, 1, 0);
    l.levelset.set(0, 0, -9);
    l.levelset.set(1, 0, 9);
    let mut s = seeds(2, 1);
    s.jump_flooding_seeds_x.set(0, 0, HALF);
    s.jump_flooding_seeds_y.set(0, 0, HALF);
    s.jump_flooding_seeds_x.set(1, 0, ONE + HALF);
    s.jump_flooding_seeds_y.set(1, 0, HALF);
    calculate_sdf(&mut l, &s, &uniform(ONE));
    assert_eq!(l.levelset.get(0, 0), -1);
    assert_eq!(l.levelset.get(1, 0), 0);
}

#[test]
fn rebuild_of_a_flat_surface_is_exact() {
    let (nx, ny) = (6, 8);
    let mut l = levelset(nx, ny, 0);
    for j in 0..ny {
        for i in 0..nx {
            // a surface at height 3.25, with distances that are ten times
            // too large
            l.levelset.set(i, j, 10 * (3 * ONE + ONE / 4 - (j as i64 * ONE + HALF)));
        }
    }
    let mut s = seeds(nx, ny);
    let strides = prepare_jump_flood_resource((nx as u32, ny as u32));
    recompute_levelset(&mut l, &mut s, &strides.buffer, &uniform(ONE));
    for j in 0..ny {
        for i in 0..nx {
            assert_eq!(
                l.levelset.get(i, j),
                3 * ONE + ONE / 4 - (j as i64 * ONE + HALF),
                "cell {} {}",
                i,
                j
            );
        }
    }
}

#[test]
fn rebuild_keeps_the_sign_of_every_cell() {
    let (nx, ny) = (12, 10);
    let mut l = levelset(nx, ny, 0);
    let mut seed: i64 = 4242;
    let mut before = vec![];
    for j in 0..ny {
        for i in 0..nx {
            seed = (seed * 1103515245 + 12345) % 2147483648;
            let value = seed % (6 * ONE) - 3 * ONE;
            l.levelset.set(i, j, value);
            before.push(value < 0);
        }
    }
    let mut s = seeds(nx, ny);
    let strides = prepare_jump_flood_resource((nx as u32, ny as u32));
    recompute_levelset(&mut l, &mut s, &strides.buffer, &uniform(ONE));
    for j in 0..ny {
        for i in 0..nx {
            assert_eq!(l.levelset.get(i, j) < 0, before[j * nx + i]);
        }
    }
}

#[test]
fn rebuild_without_a_surface_changes_nothing() {
    let (nx, ny) = (5, 5);
    let mut l = levelset(nx, ny, 0);
    for j in 0..ny {
        for i in 0..nx {
            l.levelset.set(i, j, -(1 + (i + 3 * j) as i64));
        }
    }
    let mut s = seeds(nx, ny);
    let strides = prepare_jump_flood_resource((nx as u32, ny as u32));
    recompute_levelset(&mut l, &mut s, &strides.buffer, &uniform(ONE));
    for j in 0..ny {
        for i in 0..nx {
            assert_eq!(l.levelset.get(i, j), -(1 + (i + 3 * j) as i64));
            assert_eq!(s.jump_flooding_seeds_x.get(i, j), -1);
        }
    }
}

#[test]
fn distance_to_a_circle_is_accurate_within_one_cell_diagonal() {
    let n = 64usize;
    let (cx, cy, r) = (31.3f64, 32.6f64, 17.4f64);
    let dx = 0.5f64;
    let mut l = levelset(n, n, 0);
    for j in 0..n {
        for i in 0..n {
            let x = i as f64 + 0.5 - cx;
            let y = j as f64 + 0.5 - cy;
            let exact = ((x * x + y * y).sqrt() - r) * dx;
            // seeded analytically, but with the magnitude spoiled away from
            // the surface
            let spoiled = exact * (1.0 + 0.5 * exact.abs());
            l.levelset.set(i, j, (spoiled * 65536.0) as i64);
        }
    }
    let mut s = seeds(n, n);
    let strides = prepare_jump_flood_resource((n as u32, n as u32));
    recompute_levelset(&mut l, &mut s, &strides.buffer, &uniform((dx * 65536.0) as i64));
    let diagonal = 2f64.sqrt() * dx;
    let mut worst = 0f64;
    for j in 0..n {
        for i in 0..n {
            let x = i as f64 + 0.5 - cx;
            let y = j as f64 + 0.5 - cy;
            let radius = (x * x + y * y).sqrt();
            let got = l.levelset.get(i, j) as f64 / 65536.0;
            let error = (got.abs() - (radius - r).abs() * dx).abs();
            if error > worst {
                worst = error;
            }
            assert_eq!(got < 0.0, radius < r, "sign of cell {} {}", i, j);
        }
    }
    println!("worst error {} of {}", worst, diagonal);
    assert!(worst <= diagonal);
}
