//! Rebuilding the level set as a signed distance.
//!
//! Transport moves the surface but spoils the distances.  After each tick the
//! level set is therefore rebuilt in three steps.  First every cell whose sign
//! differs from that of a neighbor along an axis records where, between the
//! two centers, the level set crosses zero: its seed.  Then the seeds spread
//! by jump flooding: in each pass every cell looks at the eight cells one
//! stride away and adopts the seed nearest to itself.  Last, the magnitude of
//! the level set becomes the distance to the adopted seed, and the sign stays
//! as it was.
use crate::definition::{
    fits, JumpFloodingSeedsTextures, JumpFloodingUniform, LevelsetTextures, SimulationUniform,
};
use crate::field::{lemma_is_tabulation, Field, Lattice};
use crate::grid_label::{cell_center, center_of};
use crate::scalar::{
    abs_spec, fx_mul, fx_mul_spec, isqrt, isqrt_spec, lemma_product_bound, sat, trunc_div, ONE,
};
use vstd::prelude::*;

verus! {

/// Where the level set crosses zero between two samples of different sign, as
/// a fraction of the way from the first to the second.
pub open spec fn crossing_spec(a: int, b: int) -> int {
    trunc_div(abs_spec(a) * (ONE as int), abs_spec(a) + abs_spec(b))
}

/// Cell `(k, l)` exists and its sign differs from that of cell `(i, j)`.
pub open spec fn differs(phi: Lattice<i64>, i: int, j: int, k: int, l: int) -> bool {
    phi.has(k, l) && ((phi.at(i, j) < 0) != (phi.at(k, l) < 0))
}

/// `t` in the direction `d`, which is negative, zero or positive.
pub open spec fn along(d: int, t: int) -> int {
    if d < 0 {
        -t
    } else if d > 0 {
        t
    } else {
        0
    }
}

/// The crossing between cell `(i, j)` and its neighbor in the direction
/// `(di, dj)`: the fraction and the coordinates of the crossing, or three
/// negative numbers where there is none.
pub open spec fn toward(phi: Lattice<i64>, i: int, j: int, di: int, dj: int) -> (int, int, int) {
    if differs(phi, i, j, i + di, j + dj) {
        let t = crossing_spec(phi.at(i, j) as int, phi.at(i + di, j + dj) as int);
        (t, cell_center(i) + along(di, t), cell_center(j) + along(dj, t))
    } else {
        (-1, -1, -1)
    }
}

/// The nearer of two crossings; the first wins a tie.
pub open spec fn closer(best: (int, int, int), candidate: (int, int, int)) -> (int, int, int) {
    if candidate.0 >= 0 && (best.0 < 0 || candidate.0 < best.0) {
        candidate
    } else {
        best
    }
}

/// The nearest crossing between cell `(i, j)` and its four neighbors.
pub open spec fn nearest_crossing(phi: Lattice<i64>, i: int, j: int) -> (int, int, int) {
    closer(
        closer(
            closer(closer((-1, -1, -1), toward(phi, i, j, -1, 0)), toward(phi, i, j, 1, 0)),
            toward(phi, i, j, 0, -1),
        ),
        toward(phi, i, j, 0, 1),
    )
}

/// Cell `(i, j)` lies at the surface: its sign differs from that of a
/// neighbor along an axis.
pub open spec fn at_surface(phi: Lattice<i64>, i: int, j: int) -> bool {
    ||| differs(phi, i, j, i - 1, j)
    ||| differs(phi, i, j, i + 1, j)
    ||| differs(phi, i, j, i, j - 1)
    ||| differs(phi, i, j, i, j + 1)
}

/// A crossing between two samples of different sign is a fraction.
pub proof fn lemma_crossing_is_fraction(a: int, b: int)
    requires
        (a < 0) != (b < 0),
    ensures
        0 <= crossing_spec(a, b) <= ONE,
{
    lemma_fraction(abs_spec(a), abs_spec(a) + abs_spec(b));
}

/// A cell is seeded exactly if it lies at the surface, and its seed lies
/// within one cell of its center, on the way to the neighbor across the
/// surface.
pub proof fn lemma_seeded_at_surface(phi: Lattice<i64>, i: int, j: int)
    requires
        phi.has(i, j),
    ensures
        nearest_crossing(phi, i, j).1 >= 0 <==> at_surface(phi, i, j),
        !at_surface(phi, i, j) ==> nearest_crossing(phi, i, j) == (-1int, -1int, -1int),
        at_surface(phi, i, j) ==> {
            &&& 0 <= nearest_crossing(phi, i, j).0 <= ONE
            &&& cell_center(i) - ONE <= nearest_crossing(phi, i, j).1 <= cell_center(i) + ONE
            &&& cell_center(j) - ONE <= nearest_crossing(phi, i, j).2 <= cell_center(j) + ONE
            &&& nearest_crossing(phi, i, j).1 >= 0
            &&& nearest_crossing(phi, i, j).2 >= 0
        },
{
    if differs(phi, i, j, i - 1, j) {
        lemma_crossing_is_fraction(phi.at(i, j) as int, phi.at(i - 1, j) as int);
    }
    if differs(phi, i, j, i + 1, j) {
        lemma_crossing_is_fraction(phi.at(i, j) as int, phi.at(i + 1, j) as int);
    }
    if differs(phi, i, j, i, j - 1) {
        lemma_crossing_is_fraction(phi.at(i, j) as int, phi.at(i, j - 1) as int);
    }
    if differs(phi, i, j, i, j + 1) {
        lemma_crossing_is_fraction(phi.at(i, j) as int, phi.at(i, j + 1) as int);
    }
}

/// The horizontal coordinates of the seeds of all cells.
pub open spec fn seeds_x_spec(phi: Lattice<i64>) -> Lattice<i64> {
    Lattice::tabulate(phi.width, phi.height, |i: int, j: int| nearest_crossing(phi, i, j).1 as i64)
}

/// The vertical coordinates of the seeds of all cells.
pub open spec fn seeds_y_spec(phi: Lattice<i64>) -> Lattice<i64> {
    Lattice::tabulate(phi.width, phi.height, |i: int, j: int| nearest_crossing(phi, i, j).2 as i64)
}

/// The seed that cell `(k, l)` holds, or a negative pair where the cell lies
/// outside the grid.
pub open spec fn seed_of(sx: Lattice<i64>, sy: Lattice<i64>, k: int, l: int) -> (int, int) {
    if sx.has(k, l) {
        (sx.at(k, l) as int, sy.at(k, l) as int)
    } else {
        (-1, -1)
    }
}

/// `d` limited to what 128 bits hold.
pub open spec fn far(d: int) -> int {
    if d > u128::MAX {
        u128::MAX as int
    } else {
        d
    }
}

/// The square of the distance between the seed and the point `(cx, cy)`.
pub open spec fn distance2(seed: (int, int), cx: int, cy: int) -> int {
    far((seed.0 - cx) * (seed.0 - cx) + (seed.1 - cy) * (seed.1 - cy))
}

/// The seed that a cell at `(cx, cy)` holds after it has seen the candidate:
/// the candidate where it is a seed and the cell holds none or one farther
/// away.
pub open spec fn adopt(best: (int, int), candidate: (int, int), cx: int, cy: int) -> (int, int) {
    if candidate.0 < 0 {
        best
    } else if best.0 < 0 {
        candidate
    } else if distance2(candidate, cx, cy) < distance2(best, cx, cy) {
        candidate
    } else {
        best
    }
}

/// The seed of cell `(i, j)` after one pass with stride `s`.
pub open spec fn flood_at(sx: Lattice<i64>, sy: Lattice<i64>, i: int, j: int, s: int) -> (int, int) {
    let cx = cell_center(i);
    let cy = cell_center(j);
    let b0 = seed_of(sx, sy, i, j);
    let b1 = adopt(b0, seed_of(sx, sy, i - s, j - s), cx, cy);
    let b2 = adopt(b1, seed_of(sx, sy, i, j - s), cx, cy);
    let b3 = adopt(b2, seed_of(sx, sy, i + s, j - s), cx, cy);
    let b4 = adopt(b3, seed_of(sx, sy, i - s, j), cx, cy);
    let b5 = adopt(b4, seed_of(sx, sy, i + s, j), cx, cy);
    let b6 = adopt(b5, seed_of(sx, sy, i - s, j + s), cx, cy);
    let b7 = adopt(b6, seed_of(sx, sy, i, j + s), cx, cy);
    adopt(b7, seed_of(sx, sy, i + s, j + s), cx, cy)
}

/// The seed is one of the nine that cell `(i, j)` sees in a pass with stride
/// `s`: its own and those of the eight cells one stride away.
pub open spec fn seen(
    sx: Lattice<i64>,
    sy: Lattice<i64>,
    i: int,
    j: int,
    s: int,
    seed: (int, int),
) -> bool {
    ||| seed == seed_of(sx, sy, i, j)
    ||| seed == seed_of(sx, sy, i - s, j - s)
    ||| seed == seed_of(sx, sy, i, j - s)
    ||| seed == seed_of(sx, sy, i + s, j - s)
    ||| seed == seed_of(sx, sy, i - s, j)
    ||| seed == seed_of(sx, sy, i + s, j)
    ||| seed == seed_of(sx, sy, i - s, j + s)
    ||| seed == seed_of(sx, sy, i, j + s)
    ||| seed == seed_of(sx, sy, i + s, j + s)
}

/// What a cell has after it has seen one more candidate: one of the two
/// seeds, and a seed at least as near as either of them.
proof fn lemma_adopt(best: (int, int), candidate: (int, int), cx: int, cy: int)
    ensures
        adopt(best, candidate, cx, cy) == best || adopt(best, candidate, cx, cy) == candidate,
        best.0 >= 0 ==> adopt(best, candidate, cx, cy).0 >= 0 && distance2(
            adopt(best, candidate, cx, cy),
            cx,
            cy,
        ) <= distance2(best, cx, cy),
        candidate.0 >= 0 ==> adopt(best, candidate, cx, cy).0 >= 0 && distance2(
            adopt(best, candidate, cx, cy),
            cx,
            cy,
        ) <= distance2(candidate, cx, cy),
{
}

/// In a pass every cell adopts the nearest of the seeds that it sees: what
/// it holds afterwards is one of the nine, and no seed among the nine lies
/// nearer to the center of the cell.  In particular a cell never gives up a
/// seed for one farther away, and never loses its seed.
pub proof fn lemma_flood_adopts_the_nearest(
    sx: Lattice<i64>,
    sy: Lattice<i64>,
    i: int,
    j: int,
    s: int,
)
    ensures
        seen(sx, sy, i, j, s, flood_at(sx, sy, i, j, s)),
        forall|seed: (int, int)|
            #[trigger] seen(sx, sy, i, j, s, seed) && seed.0 >= 0 ==> flood_at(sx, sy, i, j, s).0
                >= 0 && distance2(flood_at(sx, sy, i, j, s), cell_center(i), cell_center(j))
                <= distance2(seed, cell_center(i), cell_center(j)),
{
    let cx = cell_center(i);
    let cy = cell_center(j);
    let b0 = seed_of(sx, sy, i, j);
    let c1 = seed_of(sx, sy, i - s, j - s);
    let c2 = seed_of(sx, sy, i, j - s);
    let c3 = seed_of(sx, sy, i + s, j - s);
    let c4 = seed_of(sx, sy, i - s, j);
    let c5 = seed_of(sx, sy, i + s, j);
    let c6 = seed_of(sx, sy, i - s, j + s);
    let c7 = seed_of(sx, sy, i, j + s);
    let c8 = seed_of(sx, sy, i + s, j + s);
    let b1 = adopt(b0, c1, cx, cy);
    let b2 = adopt(b1, c2, cx, cy);
    let b3 = adopt(b2, c3, cx, cy);
    let b4 = adopt(b3, c4, cx, cy);
    let b5 = adopt(b4, c5, cx, cy);
    let b6 = adopt(b5, c6, cx, cy);
    let b7 = adopt(b6, c7, cx, cy);
    lemma_adopt(b0, c1, cx, cy);
    lemma_adopt(b1, c2, cx, cy);
    lemma_adopt(b2, c3, cx, cy);
    lemma_adopt(b3, c4, cx, cy);
    lemma_adopt(b4, c5, cx, cy);
    lemma_adopt(b5, c6, cx, cy);
    lemma_adopt(b6, c7, cx, cy);
    lemma_adopt(b7, c8, cx, cy);
}

/// The horizontal coordinates of the seeds after one pass.
pub open spec fn flood_x_spec(sx: Lattice<i64>, sy: Lattice<i64>, s: int) -> Lattice<i64> {
    Lattice::tabulate(sx.width, sx.height, |i: int, j: int| flood_at(sx, sy, i, j, s).0 as i64)
}

/// The vertical coordinates of the seeds after one pass.
pub open spec fn flood_y_spec(sx: Lattice<i64>, sy: Lattice<i64>, s: int) -> Lattice<i64> {
    Lattice::tabulate(sx.width, sx.height, |i: int, j: int| flood_at(sx, sy, i, j, s).1 as i64)
}

/// The seeds after the first `n` passes of the given strides.
pub open spec fn flooded(
    sx: Lattice<i64>,
    sy: Lattice<i64>,
    steps: Seq<JumpFloodingUniform>,
    n: nat,
) -> (Lattice<i64>, Lattice<i64>)
    decreases n,
{
    if n == 0 {
        (sx, sy)
    } else {
        let before = flooded(sx, sy, steps, (n - 1) as nat);
        let s = steps[n - 1].step as int;
        (flood_x_spec(before.0, before.1, s), flood_y_spec(before.0, before.1, s))
    }
}

/// The distance between the seed and the point `(cx, cy)`, in units of
/// length.
pub open spec fn distance_spec(seed: (int, int), cx: int, cy: int, dx: int) -> int {
    fx_mul_spec(sat(isqrt_spec(distance2(seed, cx, cy))), dx)
}

/// The level set of cell `(i, j)` after the rebuild: the distance to the
/// seed with the sign that the level set had, or the old value where the cell
/// holds no seed.  A negative value stays below zero.
pub open spec fn sdf_at(
    phi: Lattice<i64>,
    sx: Lattice<i64>,
    sy: Lattice<i64>,
    dx: int,
    i: int,
    j: int,
) -> int {
    let seed = (sx.at(i, j) as int, sy.at(i, j) as int);
    if seed.0 < 0 {
        phi.at(i, j) as int
    } else {
        let d = distance_spec(seed, cell_center(i), cell_center(j), dx);
        if phi.at(i, j) < 0 {
            if d >= 1 {
                -d
            } else {
                -1
            }
        } else {
            if d >= 0 {
                d
            } else {
                0
            }
        }
    }
}

/// The level set after the rebuild from the given seeds.
pub open spec fn sdf_spec(phi: Lattice<i64>, sx: Lattice<i64>, sy: Lattice<i64>, dx: int)
    -> Lattice<i64> {
    Lattice::tabulate(phi.width, phi.height, |i: int, j: int| sdf_at(phi, sx, sy, dx, i, j) as i64)
}

/// The level set after the whole rebuild with the given strides.
pub open spec fn recompute_levelset_spec(
    phi: Lattice<i64>,
    steps: Seq<JumpFloodingUniform>,
    dx: int,
) -> Lattice<i64> {
    let seeds = flooded(seeds_x_spec(phi), seeds_y_spec(phi), steps, steps.len());
    sdf_spec(phi, seeds.0, seeds.1, dx)
}

/// Both lattices have the same sign at every sample.
pub open spec fn same_signs(a: Lattice<i64>, b: Lattice<i64>) -> bool {
    &&& a.same_shape(b)
    &&& forall|i: int, j: int| a.has(i, j) ==> (#[trigger] a.at(i, j) < 0) == (b.at(i, j) < 0)
}

/// The rebuild keeps the sign of the level set in every cell, whatever the
/// seeds are.
pub proof fn lemma_sdf_keeps_signs(
    phi: Lattice<i64>,
    sx: Lattice<i64>,
    sy: Lattice<i64>,
    dx: int,
)
    ensures
        same_signs(sdf_spec(phi, sx, sy, dx), phi),
{
    Lattice::lemma_tabulate(
        phi.width,
        phi.height,
        |i: int, j: int| sdf_at(phi, sx, sy, dx, i, j) as i64,
    );
    let out = sdf_spec(phi, sx, sy, dx);
    assert forall|i: int, j: int| out.has(i, j) implies (#[trigger] out.at(i, j) < 0) == (phi.at(
        i,
        j,
    ) < 0) by {
        let seed = (sx.at(i, j) as int, sy.at(i, j) as int);
        let d = distance_spec(seed, cell_center(i), cell_center(j), dx);
        assert(i64::MIN <= d <= i64::MAX);
    }
}

/// A quotient of a part by the whole is at most one.
proof fn lemma_fraction(a: int, d: int)
    by (nonlinear_arith)
    requires
        0 <= a <= d,
        0 < d,
    ensures
        0 <= (a * 65536) / d <= 65536,
{
}

/// The square of a number is the square of its magnitude, and fits 128 bits
/// if the magnitude is below two to the sixty-fourth.
proof fn lemma_square(d: int, a: int)
    by (nonlinear_arith)
    requires
        a == d || a == -d,
        0 <= a < 0x1_0000_0000_0000_0000,
    ensures
        a * a == d * d,
        0 <= a * a <= 0xffff_ffff_ffff_ffff_ffff_ffff_ffff_ffff,
{
}

/// Magnitude of a scalar.
fn magnitude(a: i64) -> (r: i128)
    ensures
        r as int == abs_spec(a as int),
{
    if a < 0 {
        -(a as i128)
    } else {
        a as i128
    }
}

/// Computes where the level set crosses zero between two samples of
/// different sign.
pub fn crossing(a: i64, b: i64) -> (t: i64)
    requires
        (a < 0) != (b < 0),
    ensures
        t as int == crossing_spec(a as int, b as int),
        0 <= t <= ONE,
{
    let ma = magnitude(a);
    let mb = magnitude(b);
    proof {
        lemma_fraction(ma as int, ma + mb);
        lemma_product_bound(ma as int, 65536, 0x8000_0000_0000_0000, 65536);
    }
    ((ma * 65536) / (ma + mb)) as i64
}

/// Computes the crossing between cell `(i, j)` and its neighbor in the
/// direction `(di, dj)`.
pub fn toward_of(phi: &Field<i64>, i: usize, j: usize, di: i64, dj: i64) -> (r: (i64, i64, i64))
    requires
        phi.wf(),
        fits(phi@.width, phi@.height),
        phi@.has(i as int, j as int),
        -1 <= di <= 1,
        -1 <= dj <= 1,
    ensures
        r.0 as int == toward(phi@, i as int, j as int, di as int, dj as int).0,
        r.1 as int == toward(phi@, i as int, j as int, di as int, dj as int).1,
        r.2 as int == toward(phi@, i as int, j as int, di as int, dj as int).2,
{
    let k = i as i64 + di;
    let l = j as i64 + dj;
    if k < 0 || l < 0 || (k as u64) >= (phi.width() as u64) || (l as u64) >= (phi.height() as u64) {
        return (-1, -1, -1);
    }
    let a = phi.get(i, j);
    let b = phi.get(k as usize, l as usize);
    if (a < 0) == (b < 0) {
        return (-1, -1, -1);
    }
    let t = crossing(a, b);
    let ox: i64 = if di < 0 {
        -t
    } else if di > 0 {
        t
    } else {
        0
    };
    let oy: i64 = if dj < 0 {
        -t
    } else if dj > 0 {
        t
    } else {
        0
    };
    (t, center_of(i) + ox, center_of(j) + oy)
}

/// Picks the nearer of two crossings.
pub fn closer_of(best: (i64, i64, i64), candidate: (i64, i64, i64)) -> (r: (i64, i64, i64))
    ensures
        (r.0 as int, r.1 as int, r.2 as int) == closer(
            (best.0 as int, best.1 as int, best.2 as int),
            (candidate.0 as int, candidate.1 as int, candidate.2 as int),
        ),
{
    if candidate.0 >= 0 && (best.0 < 0 || candidate.0 < best.0) {
        candidate
    } else {
        best
    }
}

/// Computes the seed of cell `(i, j)`.
pub fn seed_cell(phi: &Field<i64>, i: usize, j: usize) -> (r: (i64, i64))
    requires
        phi.wf(),
        fits(phi@.width, phi@.height),
        phi@.has(i as int, j as int),
    ensures
        r.0 as int == nearest_crossing(phi@, i as int, j as int).1,
        r.1 as int == nearest_crossing(phi@, i as int, j as int).2,
{
    let none: (i64, i64, i64) = (-1, -1, -1);
    let a = closer_of(none, toward_of(phi, i, j, -1, 0));
    let b = closer_of(a, toward_of(phi, i, j, 1, 0));
    let c = closer_of(b, toward_of(phi, i, j, 0, -1));
    let d = closer_of(c, toward_of(phi, i, j, 0, 1));
    (d.1, d.2)
}

/// Records the seed of every cell.
pub fn initialize(seeds: &mut JumpFloodingSeedsTextures, phi: &Field<i64>)
    requires
        phi.wf(),
        fits(phi@.width, phi@.height),
        old(seeds).wf(phi@.width, phi@.height),
    ensures
        final(seeds).wf(phi@.width, phi@.height),
        final(seeds).jump_flooding_seeds_x@ == seeds_x_spec(phi@),
        final(seeds).jump_flooding_seeds_y@ == seeds_y_spec(phi@),
        forall|i: int, j: int|
            phi@.has(i, j) ==> (#[trigger] final(seeds).jump_flooding_seeds_x@.at(i, j) >= 0
                <==> at_surface(phi@, i, j)),
{
    seeds.jump_flooding_seeds_x.fill_with(
        |i: usize, j: usize| -> (r: i64)
            requires
                phi.wf(),
                fits(phi@.width, phi@.height),
                phi@.has(i as int, j as int),
            ensures
                r as int == nearest_crossing(phi@, i as int, j as int).1
            {
                let seed = seed_cell(phi, i, j);
                seed.0
            },
    );
    seeds.jump_flooding_seeds_y.fill_with(
        |i: usize, j: usize| -> (r: i64)
            requires
                phi.wf(),
                fits(phi@.width, phi@.height),
                phi@.has(i as int, j as int),
            ensures
                r as int == nearest_crossing(phi@, i as int, j as int).2
            {
                let seed = seed_cell(phi, i, j);
                seed.1
            },
    );
    proof {
        lemma_is_tabulation(
            seeds.jump_flooding_seeds_x@,
            |i: int, j: int| nearest_crossing(phi@, i, j).1 as i64,
        );
        lemma_is_tabulation(
            seeds.jump_flooding_seeds_y@,
            |i: int, j: int| nearest_crossing(phi@, i, j).2 as i64,
        );
        assert forall|i: int, j: int| phi@.has(i, j) implies (
        #[trigger] seeds.jump_flooding_seeds_x@.at(i, j) >= 0 <==> at_surface(phi@, i, j)) by {
            lemma_seeded_at_surface(phi@, i, j);
        }
    }
}

/// Reads the seed that cell `(k, l)` holds, which may lie outside the grid.
pub fn seed_read(sx: &Field<i64>, sy: &Field<i64>, k: i64, l: i64) -> (r: (i64, i64))
    requires
        sx.wf(),
        sy.wf(),
        sx@.same_shape(sy@),
    ensures
        (r.0 as int, r.1 as int) == seed_of(sx@, sy@, k as int, l as int),
{
    if k < 0 || l < 0 || (k as u64) >= (sx.width() as u64) || (l as u64) >= (sx.height() as u64) {
        return (-1, -1);
    }
    (sx.get(k as usize, l as usize), sy.get(k as usize, l as usize))
}

/// Computes the square of the distance between the seed and the point
/// `(cx, cy)`, limited to what 128 bits hold.
pub fn distance2_of(seed: (i64, i64), cx: i64, cy: i64) -> (d: u128)
    ensures
        d as int == distance2((seed.0 as int, seed.1 as int), cx as int, cy as int),
{
    let dx: i128 = (seed.0 as i128) - (cx as i128);
    let dy: i128 = (seed.1 as i128) - (cy as i128);
    let ax: u128 = if dx < 0 {
        (-dx) as u128
    } else {
        dx as u128
    };
    let ay: u128 = if dy < 0 {
        (-dy) as u128
    } else {
        dy as u128
    };
    proof {
        lemma_square(dx as int, ax as int);
        lemma_square(dy as int, ay as int);
    }
    let xx: u128 = ax * ax;
    let yy: u128 = ay * ay;
    if xx > u128::MAX - yy {
        u128::MAX
    } else {
        xx + yy
    }
}

/// Decides which of two seeds a cell at `(cx, cy)` keeps.
pub fn adopt_of(best: (i64, i64), candidate: (i64, i64), cx: i64, cy: i64) -> (r: (i64, i64))
    ensures
        (r.0 as int, r.1 as int) == adopt(
            (best.0 as int, best.1 as int),
            (candidate.0 as int, candidate.1 as int),
            cx as int,
            cy as int,
        ),
{
    if candidate.0 < 0 {
        best
    } else if best.0 < 0 {
        candidate
    } else if distance2_of(candidate, cx, cy) < distance2_of(best, cx, cy) {
        candidate
    } else {
        best
    }
}

/// Computes the seed of cell `(i, j)` after one pass with stride `step`.
pub fn flood_cell(sx: &Field<i64>, sy: &Field<i64>, i: usize, j: usize, step: u32) -> (r: (
    i64,
    i64,
))
    requires
        sx.wf(),
        sy.wf(),
        sx@.same_shape(sy@),
        fits(sx@.width, sx@.height),
        sx@.has(i as int, j as int),
    ensures
        (r.0 as int, r.1 as int) == flood_at(sx@, sy@, i as int, j as int, step as int),
{
    let cx = center_of(i);
    let cy = center_of(j);
    let ii = i as i64;
    let jj = j as i64;
    let s = step as i64;
    let b0 = seed_read(sx, sy, ii, jj);
    let b1 = adopt_of(b0, seed_read(sx, sy, ii - s, jj - s), cx, cy);
    let b2 = adopt_of(b1, seed_read(sx, sy, ii, jj - s), cx, cy);
    let b3 = adopt_of(b2, seed_read(sx, sy, ii + s, jj - s), cx, cy);
    let b4 = adopt_of(b3, seed_read(sx, sy, ii - s, jj), cx, cy);
    let b5 = adopt_of(b4, seed_read(sx, sy, ii + s, jj), cx, cy);
    let b6 = adopt_of(b5, seed_read(sx, sy, ii - s, jj + s), cx, cy);
    let b7 = adopt_of(b6, seed_read(sx, sy, ii, jj + s), cx, cy);
    adopt_of(b7, seed_read(sx, sy, ii + s, jj + s), cx, cy)
}

/// Runs one pass of the flooding with the given stride.
pub fn iterate(seeds: &mut JumpFloodingSeedsTextures, uniform: &JumpFloodingUniform)
    requires
        fits(old(seeds).jump_flooding_seeds_x@.width, old(seeds).jump_flooding_seeds_x@.height),
        old(seeds).wf(
            old(seeds).jump_flooding_seeds_x@.width,
            old(seeds).jump_flooding_seeds_x@.height,
        ),
    ensures
        final(seeds).wf(
            old(seeds).jump_flooding_seeds_x@.width,
            old(seeds).jump_flooding_seeds_x@.height,
        ),
        final(seeds).jump_flooding_seeds_x@ == flood_x_spec(
            old(seeds).jump_flooding_seeds_x@,
            old(seeds).jump_flooding_seeds_y@,
            uniform.step as int,
        ),
        final(seeds).jump_flooding_seeds_y@ == flood_y_spec(
            old(seeds).jump_flooding_seeds_x@,
            old(seeds).jump_flooding_seeds_y@,
            uniform.step as int,
        ),
{
    let step = uniform.step;
    let sx = &seeds.jump_flooding_seeds_x;
    let sy = &seeds.jump_flooding_seeds_y;
    proof {
        sx.lemma_view_wf();
    }
    let mut next_x = Field::new(sx.width(), sx.height(), 0i64);
    let mut next_y = Field::new(sx.width(), sx.height(), 0i64);
    next_x.fill_with(
        |i: usize, j: usize| -> (r: i64)
            requires
                sx.wf(),
                sy.wf(),
                sx@.same_shape(sy@),
                fits(sx@.width, sx@.height),
                sx@.has(i as int, j as int),
            ensures
                r as int == flood_at(sx@, sy@, i as int, j as int, step as int).0
            {
                let seed = flood_cell(sx, sy, i, j, step);
                seed.0
            },
    );
    next_y.fill_with(
        |i: usize, j: usize| -> (r: i64)
            requires
                sx.wf(),
                sy.wf(),
                sx@.same_shape(sy@),
                fits(sx@.width, sx@.height),
                sx@.has(i as int, j as int),
            ensures
                r as int == flood_at(sx@, sy@, i as int, j as int, step as int).1
            {
                let seed = flood_cell(sx, sy, i, j, step);
                seed.1
            },
    );
    proof {
        lemma_is_tabulation(
            next_x@,
            |i: int, j: int| flood_at(sx@, sy@, i, j, step as int).0 as i64,
        );
        lemma_is_tabulation(
            next_y@,
            |i: int, j: int| flood_at(sx@, sy@, i, j, step as int).1 as i64,
        );
    }
    seeds.jump_flooding_seeds_x = next_x;
    seeds.jump_flooding_seeds_y = next_y;
}

/// Computes the distance between the seed and the point `(cx, cy)`, in units
/// of length.
pub fn distance_of(seed: (i64, i64), cx: i64, cy: i64, dx: i64) -> (d: i64)
    ensures
        d as int == distance_spec((seed.0 as int, seed.1 as int), cx as int, cy as int, dx as int),
{
    let root: u64 = isqrt(distance2_of(seed, cx, cy));
    let cells: i64 = if root > 0x7fff_ffff_ffff_ffff {
        0x7fff_ffff_ffff_ffff
    } else {
        root as i64
    };
    fx_mul(cells, dx)
}

/// Computes the level set of cell `(i, j)` after the rebuild.
pub fn sdf_cell(
    phi: &Field<i64>,
    sx: &Field<i64>,
    sy: &Field<i64>,
    dx: i64,
    i: usize,
    j: usize,
) -> (r: i64)
    requires
        phi.wf(),
        sx.wf(),
        sy.wf(),
        fits(phi@.width, phi@.height),
        sx@.same_shape(phi@),
        sy@.same_shape(phi@),
        phi@.has(i as int, j as int),
    ensures
        r as int == sdf_at(phi@, sx@, sy@, dx as int, i as int, j as int),
{
    let old_value = phi.get(i, j);
    let seed = (sx.get(i, j), sy.get(i, j));
    if seed.0 < 0 {
        return old_value;
    }
    let d = distance_of(seed, center_of(i), center_of(j), dx);
    if old_value < 0 {
        if d >= 1 {
            -d
        } else {
            -1
        }
    } else {
        if d >= 0 {
            d
        } else {
            0
        }
    }
}

/// Replaces the magnitude of the level set by the distance to the seeds and
/// keeps its sign.
pub fn calculate_sdf(
    levelset: &mut LevelsetTextures,
    seeds: &JumpFloodingSeedsTextures,
    uniform: &SimulationUniform,
)
    requires
        fits(old(levelset).nx(), old(levelset).ny()),
        old(levelset).wf(old(levelset).nx(), old(levelset).ny()),
        seeds.wf(old(levelset).nx(), old(levelset).ny()),
    ensures
        final(levelset).wf(old(levelset).nx(), old(levelset).ny()),
        final(levelset).grid_label@ == old(levelset).grid_label@,
        final(levelset).levelset@ == sdf_spec(
            old(levelset).levelset@,
            seeds.jump_flooding_seeds_x@,
            seeds.jump_flooding_seeds_y@,
            uniform.dx as int,
        ),
        same_signs(final(levelset).levelset@, old(levelset).levelset@),
{
    let dx = uniform.dx;
    let phi = &levelset.levelset;
    let sx = &seeds.jump_flooding_seeds_x;
    let sy = &seeds.jump_flooding_seeds_y;
    proof {
        phi.lemma_view_wf();
    }
    let mut next = Field::new(phi.width(), phi.height(), 0i64);
    next.fill_with(
        |i: usize, j: usize| -> (r: i64)
            requires
                phi.wf(),
                sx.wf(),
                sy.wf(),
                fits(phi@.width, phi@.height),
                sx@.same_shape(phi@),
                sy@.same_shape(phi@),
                phi@.has(i as int, j as int),
            ensures
                r as int == sdf_at(phi@, sx@, sy@, dx as int, i as int, j as int)
            {
                let r = sdf_cell(phi, sx, sy, dx, i, j);
                r
            },
    );
    proof {
        lemma_is_tabulation(
            next@,
            |i: int, j: int| sdf_at(phi@, sx@, sy@, dx as int, i, j) as i64,
        );
        lemma_sdf_keeps_signs(phi@, sx@, sy@, dx as int);
    }
    levelset.levelset = next;
}

/// Rebuilds the level set as a signed distance: records the seeds, floods
/// them with every stride in turn, and computes the distances.
pub fn recompute_levelset(
    levelset: &mut LevelsetTextures,
    seeds: &mut JumpFloodingSeedsTextures,
    steps: &Vec<JumpFloodingUniform>,
    uniform: &SimulationUniform,
)
    requires
        fits(old(levelset).nx(), old(levelset).ny()),
        old(levelset).wf(old(levelset).nx(), old(levelset).ny()),
        old(seeds).wf(old(levelset).nx(), old(levelset).ny()),
    ensures
        final(levelset).wf(old(levelset).nx(), old(levelset).ny()),
        final(seeds).wf(old(levelset).nx(), old(levelset).ny()),
        final(levelset).grid_label@ == old(levelset).grid_label@,
        (final(seeds).jump_flooding_seeds_x@, final(seeds).jump_flooding_seeds_y@) == flooded(
            seeds_x_spec(old(levelset).levelset@),
            seeds_y_spec(old(levelset).levelset@),
            steps@,
            steps@.len(),
        ),
        final(levelset).levelset@ == recompute_levelset_spec(
            old(levelset).levelset@,
            steps@,
            uniform.dx as int,
        ),
        same_signs(final(levelset).levelset@, old(levelset).levelset@),
{
    initialize(seeds, &levelset.levelset);
    let ghost nx = levelset.nx();
    let ghost ny = levelset.ny();
    let ghost phi = levelset.levelset@;
    let mut k: usize = 0;
    while k < steps.len()
        invariant
            k <= steps.len(),
            fits(nx, ny),
            seeds.wf(nx, ny),
            (seeds.jump_flooding_seeds_x@, seeds.jump_flooding_seeds_y@) == flooded(
                seeds_x_spec(phi),
                seeds_y_spec(phi),
                steps@,
                k as nat,
            ),
        decreases steps.len() - k,
    {
        iterate(seeds, &steps[k]);
        k = k + 1;
    }
    calculate_sdf(levelset, seeds, uniform);
}

} // verus!
