//! Labels and solid velocities.
//!
//! Each tick begins by deciding what every cell holds.  A cell on the border
//! of the domain, or whose center lies inside an obstacle, is solid.  Any
//! other cell is fluid where the level set is negative and empty elsewhere.
//! Each face next to a cell that an obstacle covers takes the velocity of that
//! obstacle as its solid velocity.
use crate::definition::{
    fits, CircleObstacle, GridLabel, LevelsetTextures, Obstacles, SolidVelocityTextures,
};
use crate::field::{lemma_is_tabulation, Field, Lattice};
use crate::scalar::{HALF, ONE};
use vstd::prelude::*;

verus! {

/// Coordinate of the center of the cell with index `i`, in cell units.
pub open spec fn cell_center(i: int) -> int {
    i * (ONE as int) + (HALF as int)
}

/// The point `(x, y)` lies within the radius of the obstacle's center.
pub open spec fn circle_contains(c: CircleObstacle, x: int, y: int) -> bool {
    &&& c.radius >= 0
    &&& (x - c.center.x) * (x - c.center.x) + (y - c.center.y) * (y - c.center.y) <= c.radius
        * c.radius
}

/// Obstacle `k` covers the center of cell `(i, j)`.
pub open spec fn covers(circles: Seq<CircleObstacle>, k: int, i: int, j: int) -> bool {
    0 <= k < circles.len() && circle_contains(circles[k], cell_center(i), cell_center(j))
}

/// Some obstacle covers the center of cell `(i, j)`.
pub open spec fn covered(circles: Seq<CircleObstacle>, i: int, j: int) -> bool {
    exists|k: int| #[trigger] covers(circles, k, i, j)
}

/// Obstacle `k` covers the center of cell `(i, j)` and no earlier one does.
pub open spec fn is_first_cover(circles: Seq<CircleObstacle>, k: int, i: int, j: int) -> bool {
    &&& covers(circles, k, i, j)
    &&& forall|m: int| 0 <= m < k ==> !#[trigger] covers(circles, m, i, j)
}

/// The first obstacle that covers the center of cell `(i, j)`.
pub open spec fn first_cover(circles: Seq<CircleObstacle>, i: int, j: int) -> int
    recommends
        covered(circles, i, j),
{
    choose|k: int| is_first_cover(circles, k, i, j)
}

/// Cell `(i, j)` lies on the border of an `nx` by `ny` grid.
pub open spec fn on_border(nx: int, ny: int, i: int, j: int) -> bool {
    i == 0 || j == 0 || i == nx - 1 || j == ny - 1
}

/// The label of cell `(i, j)`.
pub open spec fn label_at(levelset: Lattice<i64>, circles: Seq<CircleObstacle>, i: int, j: int)
    -> GridLabel {
    if on_border(levelset.width as int, levelset.height as int, i, j) || covered(circles, i, j) {
        GridLabel::Solid
    } else if levelset.at(i, j) < 0 {
        GridLabel::Fluid
    } else {
        GridLabel::Empty
    }
}

/// The labels of all cells.
pub open spec fn grid_label_spec(levelset: Lattice<i64>, circles: Seq<CircleObstacle>) -> Lattice<
    GridLabel,
> {
    Lattice::tabulate(
        levelset.width,
        levelset.height,
        |i: int, j: int| label_at(levelset, circles, i, j),
    )
}

/// The solid velocity of the vertical face `(i, j)`, which lies between the
/// cells `(i - 1, j)` and `(i, j)`: the horizontal velocity of the first
/// obstacle that covers the cell on its right, else of the first that covers
/// the cell on its left, else zero.
pub open spec fn solid_u_at(circles: Seq<CircleObstacle>, nx: int, i: int, j: int) -> i64 {
    if i < nx && covered(circles, i, j) {
        circles[first_cover(circles, i, j)].velocity.x
    } else if i >= 1 && covered(circles, i - 1, j) {
        circles[first_cover(circles, i - 1, j)].velocity.x
    } else {
        0
    }
}

/// The solid velocity of the horizontal face `(i, j)`, which lies between the
/// cells `(i, j - 1)` and `(i, j)`: the vertical velocity of the first
/// obstacle that covers the cell above it, else of the first that covers the
/// cell below it, else zero.
pub open spec fn solid_v_at(circles: Seq<CircleObstacle>, ny: int, i: int, j: int) -> i64 {
    if j < ny && covered(circles, i, j) {
        circles[first_cover(circles, i, j)].velocity.y
    } else if j >= 1 && covered(circles, i, j - 1) {
        circles[first_cover(circles, i, j - 1)].velocity.y
    } else {
        0
    }
}

/// The solid velocities of all vertical faces of an `nx` by `ny` grid.
pub open spec fn solid_u_spec(circles: Seq<CircleObstacle>, nx: nat, ny: nat) -> Lattice<i64> {
    Lattice::tabulate(nx + 1, ny, |i: int, j: int| solid_u_at(circles, nx as int, i, j))
}

/// The solid velocities of all horizontal faces of an `nx` by `ny` grid.
pub open spec fn solid_v_spec(circles: Seq<CircleObstacle>, nx: nat, ny: nat) -> Lattice<i64> {
    Lattice::tabulate(nx, ny + 1, |i: int, j: int| solid_v_at(circles, ny as int, i, j))
}

/// The label of cell `(i, j)`, where everything outside the grid counts as
/// solid.
pub open spec fn label_or_solid(labels: Lattice<GridLabel>, i: int, j: int) -> GridLabel {
    if labels.has(i, j) {
        labels.at(i, j)
    } else {
        GridLabel::Solid
    }
}

/// The vertical face `(i, j)` touches a solid cell.
pub open spec fn u_face_solid(labels: Lattice<GridLabel>, i: int, j: int) -> bool {
    label_or_solid(labels, i - 1, j) == GridLabel::Solid || label_or_solid(labels, i, j)
        == GridLabel::Solid
}

/// The horizontal face `(i, j)` touches a solid cell.
pub open spec fn v_face_solid(labels: Lattice<GridLabel>, i: int, j: int) -> bool {
    label_or_solid(labels, i, j - 1) == GridLabel::Solid || label_or_solid(labels, i, j)
        == GridLabel::Solid
}

/// The vertical face `(i, j)` touches a fluid cell.
pub open spec fn u_face_fluid(labels: Lattice<GridLabel>, i: int, j: int) -> bool {
    label_or_solid(labels, i - 1, j) == GridLabel::Fluid || label_or_solid(labels, i, j)
        == GridLabel::Fluid
}

/// The horizontal face `(i, j)` touches a fluid cell.
pub open spec fn v_face_fluid(labels: Lattice<GridLabel>, i: int, j: int) -> bool {
    label_or_solid(labels, i, j - 1) == GridLabel::Fluid || label_or_solid(labels, i, j)
        == GridLabel::Fluid
}

/// There is at most one first cover.
pub proof fn lemma_first_cover_unique(circles: Seq<CircleObstacle>, k: int, i: int, j: int)
    requires
        is_first_cover(circles, k, i, j),
    ensures
        covered(circles, i, j),
        first_cover(circles, i, j) == k,
{
    let c = first_cover(circles, i, j);
    assert(is_first_cover(circles, c, i, j));
    if c < k {
        assert(!covers(circles, c, i, j));
    }
    if k < c {
        assert(!covers(circles, k, i, j));
    }
}

/// The square of a number is the square of its magnitude.
proof fn lemma_square_of_abs(d: int, a: int)
    by (nonlinear_arith)
    requires
        a == d || a == -d,
    ensures
        a * a == d * d,
{
}

/// A number below two to the sixty-fourth has a square that fits in 128 bits.
proof fn lemma_square_fits(a: int)
    by (nonlinear_arith)
    requires
        0 <= a < 0x1_0000_0000_0000_0000,
    ensures
        0 <= a * a <= 0xffff_ffff_ffff_ffff_ffff_ffff_ffff_ffff,
{
}

/// Raw coordinate of the center of the cell with index `i`.
pub fn center_of(i: usize) -> (x: i64)
    requires
        i <= u32::MAX,
    ensures
        x as int == cell_center(i as int),
{
    (i as i64) * ONE + HALF
}

/// Tests whether the point `(x, y)` lies within the obstacle.
pub fn contains(c: &CircleObstacle, x: i64, y: i64) -> (inside: bool)
    ensures
        inside == circle_contains(*c, x as int, y as int),
{
    if c.radius < 0 {
        return false;
    }
    let dx: i128 = (x as i128) - (c.center.x as i128);
    let dy: i128 = (y as i128) - (c.center.y as i128);
    let ax: u128 = if dx < 0 {
        (-dx) as u128
    } else {
        dx as u128
    };
    let ay: u128 = if dy < 0 {
        (-dy) as u128
    } else {
        dy as u128
    };
    let r: u128 = c.radius as u128;
    proof {
        lemma_square_of_abs(dx as int, ax as int);
        lemma_square_of_abs(dy as int, ay as int);
        lemma_square_fits(ax as int);
        lemma_square_fits(ay as int);
        lemma_square_fits(r as int);
    }
    let rr: u128 = r * r;
    let xx: u128 = ax * ax;
    if xx > rr {
        return false;
    }
    ay * ay <= rr - xx
}

/// Finds the first obstacle that covers the center of cell `(i, j)`.
pub fn find_cover(circles: &Vec<CircleObstacle>, i: usize, j: usize) -> (found: Option<usize>)
    requires
        i <= u32::MAX,
        j <= u32::MAX,
    ensures
        found is Some <==> covered(circles@, i as int, j as int),
        found matches Some(k) ==> is_first_cover(circles@, k as int, i as int, j as int),
{
    let x = center_of(i);
    let y = center_of(j);
    let mut k: usize = 0;
    while k < circles.len()
        invariant
            k <= circles.len(),
            x as int == cell_center(i as int),
            y as int == cell_center(j as int),
            i <= u32::MAX,
            j <= u32::MAX,
            forall|m: int| 0 <= m < k ==> !#[trigger] covers(circles@, m, i as int, j as int),
        decreases circles.len() - k,
    {
        if contains(&circles[k], x, y) {
            assert(covers(circles@, k as int, i as int, j as int));
            return Some(k);
        }
        k = k + 1;
    }
    None
}

/// Reads the label of cell `(i, j)`, which may lie outside the grid.
pub fn neighbor_label(labels: &Field<GridLabel>, i: i64, j: i64) -> (label: GridLabel)
    requires
        labels.wf(),
    ensures
        label == label_or_solid(labels@, i as int, j as int),
{
    if i < 0 || j < 0 {
        return GridLabel::Solid;
    }
    if (i as u64) >= (labels.width() as u64) || (j as u64) >= (labels.height() as u64) {
        return GridLabel::Solid;
    }
    labels.get(i as usize, j as usize)
}

/// Tells whether the label is solid.
pub fn is_solid(label: GridLabel) -> (b: bool)
    ensures
        b == (label == GridLabel::Solid),
{
    match label {
        GridLabel::Solid => true,
        _ => false,
    }
}

/// Tells whether the label is fluid.
pub fn is_fluid(label: GridLabel) -> (b: bool)
    ensures
        b == (label == GridLabel::Fluid),
{
    match label {
        GridLabel::Fluid => true,
        _ => false,
    }
}

/// Tells whether the vertical face `(i, j)` touches a solid cell.
pub fn u_face_is_solid(labels: &Field<GridLabel>, i: usize, j: usize) -> (b: bool)
    requires
        labels.wf(),
        i <= 0x1_0000_0000,
        j <= 0x1_0000_0000,
    ensures
        b == u_face_solid(labels@, i as int, j as int),
{
    is_solid(neighbor_label(labels, i as i64 - 1, j as i64)) || is_solid(
        neighbor_label(labels, i as i64, j as i64),
    )
}

/// Tells whether the horizontal face `(i, j)` touches a solid cell.
pub fn v_face_is_solid(labels: &Field<GridLabel>, i: usize, j: usize) -> (b: bool)
    requires
        labels.wf(),
        i <= 0x1_0000_0000,
        j <= 0x1_0000_0000,
    ensures
        b == v_face_solid(labels@, i as int, j as int),
{
    is_solid(neighbor_label(labels, i as i64, j as i64 - 1)) || is_solid(
        neighbor_label(labels, i as i64, j as i64),
    )
}

/// Tells whether the vertical face `(i, j)` touches a fluid cell.
pub fn u_face_is_fluid(labels: &Field<GridLabel>, i: usize, j: usize) -> (b: bool)
    requires
        labels.wf(),
        i <= 0x1_0000_0000,
        j <= 0x1_0000_0000,
    ensures
        b == u_face_fluid(labels@, i as int, j as int),
{
    is_fluid(neighbor_label(labels, i as i64 - 1, j as i64)) || is_fluid(
        neighbor_label(labels, i as i64, j as i64),
    )
}

/// Tells whether the horizontal face `(i, j)` touches a fluid cell.
pub fn v_face_is_fluid(labels: &Field<GridLabel>, i: usize, j: usize) -> (b: bool)
    requires
        labels.wf(),
        i <= 0x1_0000_0000,
        j <= 0x1_0000_0000,
    ensures
        b == v_face_fluid(labels@, i as int, j as int),
{
    is_fluid(neighbor_label(labels, i as i64, j as i64 - 1)) || is_fluid(
        neighbor_label(labels, i as i64, j as i64),
    )
}

/// Computes the label of cell `(i, j)`.
pub fn label_of(levelset: &Field<i64>, circles: &Vec<CircleObstacle>, i: usize, j: usize) -> (label:
    GridLabel)
    requires
        levelset.wf(),
        fits(levelset@.width, levelset@.height),
        levelset@.has(i as int, j as int),
    ensures
        label == label_at(levelset@, circles@, i as int, j as int),
{
    let nx = levelset.width();
    let ny = levelset.height();
    if i == 0 || j == 0 || i == nx - 1 || j == ny - 1 {
        return GridLabel::Solid;
    }
    match find_cover(circles, i, j) {
        Some(_) => GridLabel::Solid,
        None => {
            if levelset.get(i, j) < 0 {
                GridLabel::Fluid
            } else {
                GridLabel::Empty
            }
        },
    }
}

/// Computes the solid velocity of the vertical face `(i, j)`.
pub fn solid_u_of(circles: &Vec<CircleObstacle>, nx: usize, i: usize, j: usize) -> (u: i64)
    requires
        nx <= u32::MAX,
        i <= nx,
        j <= u32::MAX,
    ensures
        u == solid_u_at(circles@, nx as int, i as int, j as int),
{
    if i < nx {
        if let Some(k) = find_cover(circles, i, j) {
            proof {
                lemma_first_cover_unique(circles@, k as int, i as int, j as int);
            }
            return circles[k].velocity.x;
        }
    }
    if i >= 1 {
        if let Some(k) = find_cover(circles, i - 1, j) {
            proof {
                lemma_first_cover_unique(circles@, k as int, i - 1, j as int);
            }
            return circles[k].velocity.x;
        }
    }
    0
}

/// Computes the solid velocity of the horizontal face `(i, j)`.
pub fn solid_v_of(circles: &Vec<CircleObstacle>, ny: usize, i: usize, j: usize) -> (v: i64)
    requires
        ny <= u32::MAX,
        j <= ny,
        i <= u32::MAX,
    ensures
        v == solid_v_at(circles@, ny as int, i as int, j as int),
{
    if j < ny {
        if let Some(k) = find_cover(circles, i, j) {
            proof {
                lemma_first_cover_unique(circles@, k as int, i as int, j as int);
            }
            return circles[k].velocity.y;
        }
    }
    if j >= 1 {
        if let Some(k) = find_cover(circles, i, j - 1) {
            proof {
                lemma_first_cover_unique(circles@, k as int, i as int, j - 1);
            }
            return circles[k].velocity.y;
        }
    }
    0
}

/// Derives the labels from the level set and the obstacles, and records the
/// solid velocity of every face.
///
/// A cell is labelled solid if and only if it lies on the border of the
/// domain or its center lies within the radius of some obstacle.
pub fn update_grid_label(
    levelset: &mut LevelsetTextures,
    solid: &mut SolidVelocityTextures,
    obstacles: &Obstacles,
)
    requires
        fits(old(levelset).nx(), old(levelset).ny()),
        old(levelset).wf(old(levelset).nx(), old(levelset).ny()),
        old(solid).wf(old(levelset).nx(), old(levelset).ny()),
    ensures
        final(levelset).wf(old(levelset).nx(), old(levelset).ny()),
        final(solid).wf(old(levelset).nx(), old(levelset).ny()),
        final(levelset).levelset@ == old(levelset).levelset@,
        final(levelset).grid_label@ == grid_label_spec(old(levelset).levelset@, obstacles.circles@),
        final(solid).u_solid@ == solid_u_spec(
            obstacles.circles@,
            old(levelset).nx(),
            old(levelset).ny(),
        ),
        final(solid).v_solid@ == solid_v_spec(
            obstacles.circles@,
            old(levelset).nx(),
            old(levelset).ny(),
        ),
        forall|i: int, j: int|
            final(levelset).grid_label@.has(i, j) ==> (#[trigger] final(levelset).grid_label@.at(
                i,
                j,
            ) == GridLabel::Solid <==> on_border(
                old(levelset).nx() as int,
                old(levelset).ny() as int,
                i,
                j,
            ) || covered(obstacles.circles@, i, j)),
{
    let ghost nx = levelset.nx();
    let ghost ny = levelset.ny();
    let nxe = levelset.levelset.width();
    let nye = levelset.levelset.height();
    let phi = &levelset.levelset;
    let circles = &obstacles.circles;
    levelset.grid_label.fill_with(
        |i: usize, j: usize| -> (label: GridLabel)
            requires
                phi.wf(),
                fits(phi@.width, phi@.height),
                phi@.has(i as int, j as int),
            ensures
                label == label_at(phi@, circles@, i as int, j as int)
            {
                let label = label_of(phi, circles, i, j);
                label
            },
    );
    solid.u_solid.fill_with(
        |i: usize, j: usize| -> (u: i64)
            requires
                nxe <= u32::MAX,
                i <= nxe,
                j <= u32::MAX,
            ensures
                u == solid_u_at(circles@, nxe as int, i as int, j as int)
            {
                let u = solid_u_of(circles, nxe, i, j);
                u
            },
    );
    solid.v_solid.fill_with(
        |i: usize, j: usize| -> (v: i64)
            requires
                nye <= u32::MAX,
                j <= nye,
                i <= u32::MAX,
            ensures
                v == solid_v_at(circles@, nye as int, i as int, j as int)
            {
                let v = solid_v_of(circles, nye, i, j);
                v
            },
    );
    proof {
        lemma_is_tabulation(
            levelset.grid_label@,
            |i: int, j: int| label_at(levelset.levelset@, obstacles.circles@, i, j),
        );
        lemma_is_tabulation(
            solid.u_solid@,
            |i: int, j: int| solid_u_at(obstacles.circles@, nx as int, i, j),
        );
        lemma_is_tabulation(
            solid.v_solid@,
            |i: int, j: int| solid_v_at(obstacles.circles@, ny as int, i, j),
        );
    }
}

} // verus!
