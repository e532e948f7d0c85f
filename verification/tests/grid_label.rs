use eulerian_fluid::definition::{
    CircleObstacle, GridLabel, LevelsetTextures, Obstacles, SolidVelocityTextures, Vec2,
};
use eulerian_fluid::field::Field;
use eulerian_fluid::grid_label::{
    center_of, contains, find_cover, neighbor_label, u_face_is_fluid, u_face_is_solid,
    update_grid_label, v_face_is_fluid, v_face_is_solid,
};

const ONE: i64 = 65536;

fn textures(nx: usize, ny: usize, phi: i64) -> (LevelsetTextures, SolidVelocityTextures) {
    (
        LevelsetTextures {
            levelset: Field::new(nx, ny, phi),
            grid_label: Field::new(nx, ny, GridLabel::Empty),
        },
        SolidVelocityTextures {
            u_solid: Field::new(nx + 1, ny, 99),
            v_solid: Field::new(nx, ny + 1, 99),
        },
    )
}

fn circle(x: f64, y: f64, r: f64, vx: i64, vy: i64) -> CircleObstacle {
    CircleObstacle {
        radius: (r * 65536.0) as i64,
        center: Vec2 {
            x: (x * 65536.0) as i64,
            y: (y * 65536.0) as i64,
        },
        velocity: Vec2 { x: vx, y: vy },
    }
}

#[test]
fn center_of_a_cell_lies_half_a_cell_in() {
    assert_eq!(center_of(0), 32768);
    assert_eq!(center_of(3), 3 * ONE + 32768);
}

#[test]
fn border_cells_are_solid_whatever_the_level_set() {
    let (mut levelset, mut solid) = textures(5, 4, -ONE);
    update_grid_label(&mut levelset, &mut solid, &Obstacles { circles: vec![] });
    for j in 0..4 {
        for i in 0..5 {
            let border = i == 0 || j == 0 || i == 4 || j == 3;
            let expected = if border {
                GridLabel::Solid
            } else {
                GridLabel::Fluid
            };
            assert_eq!(levelset.grid_label.get(i, j), expected);
        }
    }
}

#[test]
fn sign_of_the_level_set_decides_between_fluid_and_empty() {
    let (mut levelset, mut solid) = textures(5, 5, ONE);
    levelset.levelset.set(1, 1, -1);
    levelset.levelset.set(2, 2, 0);
    levelset.levelset.set(3, 3, -5 * ONE);
    levelset.levelset.set(0, 0, -1);
    update_grid_label(&mut levelset, &mut solid, &Obstacles { circles: vec![] });
    assert_eq!(levelset.grid_label.get(1, 1), GridLabel::Fluid);
    assert_eq!(levelset.grid_label.get(2, 2), GridLabel::Empty);
    assert_eq!(levelset.grid_label.get(3, 3), GridLabel::Fluid);
    assert_eq!(levelset.grid_label.get(2, 1), GridLabel::Empty);
    assert_eq!(levelset.grid_label.get(0, 0), GridLabel::Solid);
    // the level set itself is not touched
    assert_eq!(levelset.levelset.get(1, 1), -1);
    assert_eq!(levelset.levelset.get(2, 1), ONE);
}

#[test]
fn obstacle_covers_exactly_the_cells_whose_centers_lie_within_its_radius() {
    let (mut levelset, mut solid) = textures(9, 9, ONE);
    let obstacles = Obstacles {
        circles: vec![circle(4.5, 4.5, 1.0, 0, 0)],
    };
    update_grid_label(&mut levelset, &mut solid, &obstacles);
    let covered = [(4, 4), (3, 4), (5, 4), (4, 3), (4, 5)];
    for j in 1..8 {
        for i in 1..8 {
            let expected = if covered.contains(&(i, j)) {
                GridLabel::Solid
            } else {
                GridLabel::Empty
            };
            assert_eq!(levelset.grid_label.get(i, j), expected, "cell {} {}", i, j);
        }
    }
}

#[test]
fn rasterization_agrees_with_the_distance_to_the_center() {
    let nx = 14;
    let ny = 11;
    let (mut levelset, mut solid) = textures(nx, ny, -ONE);
    let (cx, cy, r) = (5.3, 4.7, 2.5);
    let obstacles = Obstacles {
        circles: vec![circle(cx, cy, r, 0, 0)],
    };
    update_grid_label(&mut levelset, &mut solid, &obstacles);
    let c = obstacles.circles[0];
    for j in 1..ny - 1 {
        for i in 1..nx - 1 {
            let dx = (i as i128 * 65536 + 32768) - c.center.x as i128;
            let dy = (j as i128 * 65536 + 32768) - c.center.y as i128;
            let inside = dx * dx + dy * dy <= (c.radius as i128) * (c.radius as i128);
            let solid_label = levelset.grid_label.get(i, j) == GridLabel::Solid;
            assert_eq!(solid_label, inside, "cell {} {}", i, j);
        }
    }
}

#[test]
fn circle_with_radius_zero_covers_only_its_center() {
    let c = circle(2.5, 2.5, 0.0, 0, 0);
    assert!(contains(&c, center_of(2), center_of(2)));
    assert!(!contains(&c, center_of(2) + 1, center_of(2)));
}

#[test]
fn circle_with_negative_radius_covers_nothing() {
    let c = circle(2.5, 2.5, -1.0, 0, 0);
    assert!(!contains(&c, center_of(2), center_of(2)));
}

#[test]
fn huge_circle_far_away_is_handled_without_overflow() {
    let c = CircleObstacle {
        radius: i64::MAX,
        center: Vec2 {
            x: i64::MIN,
            y: i64::MAX,
        },
        velocity: Vec2 { x: 0, y: 0 },
    };
    assert!(!contains(&c, center_of(0), center_of(0)));
    let d = CircleObstacle {
        radius: i64::MAX,
        center: Vec2 { x: i64::MAX, y: 0 },
        velocity: Vec2 { x: 0, y: 0 },
    };
    assert!(contains(&d, center_of(0), 0));
}

#[test]
fn obstacle_outside_the_domain_changes_nothing() {
    let (mut levelset, mut solid) = textures(6, 6, ONE);
    let obstacles = Obstacles {
        circles: vec![circle(-20.0, 3.0, 2.0, ONE, ONE), circle(3.0, 40.0, 2.0, ONE, ONE)],
    };
    update_grid_label(&mut levelset, &mut solid, &obstacles);
    for j in 1..5 {
        for i in 1..5 {
            assert_eq!(levelset.grid_label.get(i, j), GridLabel::Empty);
        }
    }
    for j in 0..6 {
        for i in 0..7 {
            assert_eq!(solid.u_solid.get(i, j), 0);
        }
    }
}

#[test]
fn find_cover_returns_the_first_obstacle_that_covers_the_cell() {
    let circles = vec![
        circle(10.5, 10.5, 1.0, 0, 0),
        circle(2.5, 2.5, 1.0, 0, 0),
        circle(2.5, 2.5, 3.0, 0, 0),
    ];
    assert_eq!(find_cover(&circles, 2, 2), Some(1));
    assert_eq!(find_cover(&circles, 4, 2), Some(2));
    assert_eq!(find_cover(&circles, 10, 10), Some(0));
    assert_eq!(find_cover(&circles, 7, 7), None);
}

#[test]
fn faces_of_a_covered_cell_take_the_velocity_of_the_obstacle() {
    let (mut levelset, mut solid) = textures(7, 7, ONE);
    let obstacles = Obstacles {
        circles: vec![circle(3.5, 3.5, 0.25, 3 * ONE, -2 * ONE)],
    };
    update_grid_label(&mut levelset, &mut solid, &obstacles);
    assert_eq!(levelset.grid_label.get(3, 3), GridLabel::Solid);
    // the two vertical faces of cell (3, 3)
    assert_eq!(solid.u_solid.get(3, 3), 3 * ONE);
    assert_eq!(solid.u_solid.get(4, 3), 3 * ONE);
    // the two horizontal faces of cell (3, 3)
    assert_eq!(solid.v_solid.get(3, 3), -2 * ONE);
    assert_eq!(solid.v_solid.get(3, 4), -2 * ONE);
    // all other faces are at rest, the ones of the border too
    assert_eq!(solid.u_solid.get(2, 3), 0);
    assert_eq!(solid.u_solid.get(5, 3), 0);
    assert_eq!(solid.u_solid.get(3, 2), 0);
    assert_eq!(solid.v_solid.get(3, 2), 0);
    assert_eq!(solid.v_solid.get(3, 5), 0);
    assert_eq!(solid.u_solid.get(0, 0), 0);
    assert_eq!(solid.u_solid.get(7, 6), 0);
    assert_eq!(solid.v_solid.get(6, 7), 0);
}

#[test]
fn face_between_two_obstacles_takes_the_velocity_of_the_cell_after_it() {
    let (mut levelset, mut solid) = textures(7, 7, ONE);
    let obstacles = Obstacles {
        circles: vec![
            circle(2.5, 3.5, 0.25, ONE, 10),
            circle(3.5, 3.5, 0.25, 2 * ONE, 20),
        ],
    };
    update_grid_label(&mut levelset, &mut solid, &obstacles);
    // face 3 lies between cell 2 (first obstacle) and cell 3 (second one)
    assert_eq!(solid.u_solid.get(3, 3), 2 * ONE);
    assert_eq!(solid.u_solid.get(2, 3), ONE);
    assert_eq!(solid.u_solid.get(4, 3), 2 * ONE);
}

#[test]
fn cells_outside_the_grid_count_as_solid() {
    let labels: Field<GridLabel> = Field::new(3, 3, GridLabel::Fluid);
    assert_eq!(neighbor_label(&labels, -1, 0), GridLabel::Solid);
    assert_eq!(neighbor_label(&labels, 0, -1), GridLabel::Solid);
    assert_eq!(neighbor_label(&labels, 3, 0), GridLabel::Solid);
    assert_eq!(neighbor_label(&labels, 0, 3), GridLabel::Solid);
    assert_eq!(neighbor_label(&labels, 2, 2), GridLabel::Fluid);
}

#[test]
fn faces_know_what_they_touch() {
    let mut labels: Field<GridLabel> = Field::new(4, 3, GridLabel::Empty);
    labels.set(1, 1, GridLabel::Fluid);
    labels.set(3, 1, GridLabel::Solid);
    // vertical faces of row 1: 0 | E | F | E | S | 4
    assert!(u_face_is_solid(&labels, 0, 1));
    assert!(!u_face_is_solid(&labels, 1, 1));
    assert!(!u_face_is_solid(&labels, 2, 1));
    assert!(u_face_is_solid(&labels, 3, 1));
    assert!(u_face_is_solid(&labels, 4, 1));
    assert!(!u_face_is_fluid(&labels, 0, 1));
    assert!(u_face_is_fluid(&labels, 1, 1));
    assert!(u_face_is_fluid(&labels, 2, 1));
    assert!(!u_face_is_fluid(&labels, 3, 1));
    // horizontal faces of column 1
    assert!(v_face_is_solid(&labels, 1, 0));
    assert!(!v_face_is_solid(&labels, 1, 1));
    assert!(!v_face_is_solid(&labels, 1, 2));
    assert!(v_face_is_solid(&labels, 1, 3));
    assert!(v_face_is_fluid(&labels, 1, 1));
    assert!(v_face_is_fluid(&labels, 1, 2));
    assert!(!v_face_is_fluid(&labels, 1, 0));
    assert!(!v_face_is_fluid(&labels, 0, 1));
}
