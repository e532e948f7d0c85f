//! Semi-Lagrangian transport.
//!
//! Every sample of the velocity and of the level set is replaced by the value
//! that the flow carries to it: the sample's position is traced backward
//! through the current velocity for one time step, and the field is read there
//! by bilinear interpolation.  A position outside the field is moved to the
//! nearest sample, so that values at the boundary extend outward.
use crate::definition::{fits, LevelsetTextures, SimulationUniform, VelocityTextures};
use crate::field::{lemma_is_tabulation, Field, Lattice};
use crate::scalar::{
    clamp, clamp_spec, fx_div, fx_div_spec, fx_mul, fx_mul_spec, fx_sub, fx_sub_spec, lerp,
    lerp_spec, HALF, ONE,
};
use vstd::prelude::*;

verus! {

/// The lattice has at least one sample, and its coordinates fit a scalar.
pub open spec fn samplable(f: Lattice<i64>) -> bool {
    &&& f.wf()
    &&& 1 <= f.width <= 0x1_0000_0000
    &&& 1 <= f.height <= 0x1_0000_0000
}

/// Index of the sample at or before the coordinate `x`, which lies inside the
/// lattice.
pub open spec fn cell_of(x: int) -> int {
    x / (ONE as int)
}

/// Index of the sample after `i`, or `i` itself where `i` is the last of `n`.
pub open spec fn next_index(i: int, n: int) -> int {
    if i + 1 < n {
        i + 1
    } else {
        i
    }
}

/// The value of the field at the point `(x, y)`, given in the field's own
/// coordinates, where sample `(i, j)` sits at the point `(i, j)`: the point
/// is moved into the lattice, and the four samples around it are blended.
pub open spec fn sample_spec(f: Lattice<i64>, x: int, y: int) -> int {
    let xc = clamp_spec(x, 0, (f.width - 1) * (ONE as int));
    let yc = clamp_spec(y, 0, (f.height - 1) * (ONE as int));
    let i0 = cell_of(xc);
    let j0 = cell_of(yc);
    let i1 = next_index(i0, f.width as int);
    let j1 = next_index(j0, f.height as int);
    let tx = xc - i0 * (ONE as int);
    let ty = yc - j0 * (ONE as int);
    lerp_spec(
        lerp_spec(f.at(i0, j0) as int, f.at(i1, j0) as int, tx),
        lerp_spec(f.at(i0, j1) as int, f.at(i1, j1) as int, tx),
        ty,
    )
}

/// The distance, in cells, that a velocity covers in one time step.
pub open spec fn travel_spec(velocity: int, dt: int, dx: int) -> int {
    fx_div_spec(fx_mul_spec(velocity, dt), dx)
}

/// Coordinate of the sample with index `i`, in cell units.
pub open spec fn coord(i: int) -> int {
    i * (ONE as int)
}

/// The horizontal velocity that the flow carries to the vertical face
/// `(i, j)`, which sits at the point `(i, j + 1/2)`.
pub open spec fn advect_u_at(u: Lattice<i64>, v: Lattice<i64>, dt: int, dx: int, i: int, j: int)
    -> int {
    let px = coord(i);
    let py = coord(j) + HALF;
    let uu = u.at(i, j) as int;
    let vv = sample_spec(v, px - HALF, py);
    let bx = fx_sub_spec(px, travel_spec(uu, dt, dx));
    let by = fx_sub_spec(py, travel_spec(vv, dt, dx));
    sample_spec(u, bx, fx_sub_spec(by, HALF as int))
}

/// The vertical velocity that the flow carries to the horizontal face
/// `(i, j)`, which sits at the point `(i + 1/2, j)`.
pub open spec fn advect_v_at(u: Lattice<i64>, v: Lattice<i64>, dt: int, dx: int, i: int, j: int)
    -> int {
    let px = coord(i) + HALF;
    let py = coord(j);
    let uu = sample_spec(u, px, py - HALF);
    let vv = v.at(i, j) as int;
    let bx = fx_sub_spec(px, travel_spec(uu, dt, dx));
    let by = fx_sub_spec(py, travel_spec(vv, dt, dx));
    sample_spec(v, fx_sub_spec(bx, HALF as int), by)
}

/// The level set that the flow carries to the center of cell `(i, j)`, which
/// sits at the point `(i + 1/2, j + 1/2)`.
pub open spec fn advect_levelset_at(
    phi: Lattice<i64>,
    u: Lattice<i64>,
    v: Lattice<i64>,
    dt: int,
    dx: int,
    i: int,
    j: int,
) -> int {
    let px = coord(i) + HALF;
    let py = coord(j) + HALF;
    let uu = sample_spec(u, px, py - HALF);
    let vv = sample_spec(v, px - HALF, py);
    let bx = fx_sub_spec(px, travel_spec(uu, dt, dx));
    let by = fx_sub_spec(py, travel_spec(vv, dt, dx));
    sample_spec(phi, fx_sub_spec(bx, HALF as int), fx_sub_spec(by, HALF as int))
}

/// The horizontal velocity after transport.
pub open spec fn advect_u_spec(u: Lattice<i64>, v: Lattice<i64>, dt: int, dx: int) -> Lattice<i64> {
    Lattice::tabulate(u.width, u.height, |i: int, j: int| advect_u_at(u, v, dt, dx, i, j) as i64)
}

/// The vertical velocity after transport.
pub open spec fn advect_v_spec(u: Lattice<i64>, v: Lattice<i64>, dt: int, dx: int) -> Lattice<i64> {
    Lattice::tabulate(v.width, v.height, |i: int, j: int| advect_v_at(u, v, dt, dx, i, j) as i64)
}

/// The level set after transport.
pub open spec fn advect_levelset_spec(
    phi: Lattice<i64>,
    u: Lattice<i64>,
    v: Lattice<i64>,
    dt: int,
    dx: int,
) -> Lattice<i64> {
    Lattice::tabulate(
        phi.width,
        phi.height,
        |i: int, j: int| advect_levelset_at(phi, u, v, dt, dx, i, j) as i64,
    )
}

/// The four samples that `sample_spec` blends lie inside the lattice, and the
/// blending weights are fractions.
pub proof fn lemma_sample_indices(f: Lattice<i64>, x: int, y: int)
    requires
        samplable(f),
    ensures
        ({
            let xc = clamp_spec(x, 0, (f.width - 1) * (ONE as int));
            let yc = clamp_spec(y, 0, (f.height - 1) * (ONE as int));
            let i0 = cell_of(xc);
            let j0 = cell_of(yc);
            &&& 0 <= xc <= (f.width - 1) * (ONE as int)
            &&& 0 <= yc <= (f.height - 1) * (ONE as int)
            &&& f.has(i0, j0)
            &&& f.has(next_index(i0, f.width as int), j0)
            &&& f.has(i0, next_index(j0, f.height as int))
            &&& f.has(next_index(i0, f.width as int), next_index(j0, f.height as int))
            &&& 0 <= xc - i0 * (ONE as int) < ONE
            &&& 0 <= yc - j0 * (ONE as int) < ONE
        }),
{
}

/// Blending equal values gives that value.
pub proof fn lemma_lerp_same(a: i64, t: int)
    ensures
        lerp_spec(a as int, a as int, t) == a,
{
    assert((a - a) * t == 0) by (nonlinear_arith);
}

/// A field that holds one value everywhere has that value at every point.
pub proof fn lemma_sample_uniform(f: Lattice<i64>, c: i64, x: int, y: int)
    requires
        samplable(f),
        f.uniform(c),
    ensures
        sample_spec(f, x, y) == c,
{
    lemma_sample_indices(f, x, y);
    let xc = clamp_spec(x, 0, (f.width - 1) * (ONE as int));
    let yc = clamp_spec(y, 0, (f.height - 1) * (ONE as int));
    let i0 = cell_of(xc);
    let j0 = cell_of(yc);
    let i1 = next_index(i0, f.width as int);
    let j1 = next_index(j0, f.height as int);
    let tx = xc - i0 * (ONE as int);
    let ty = yc - j0 * (ONE as int);
    assert(f.at(i0, j0) == c);
    assert(f.at(i1, j0) == c);
    assert(f.at(i0, j1) == c);
    assert(f.at(i1, j1) == c);
    lemma_lerp_same(c, tx);
    lemma_lerp_same(c, ty);
}

/// Every sample is negative.
pub open spec fn all_negative(f: Lattice<i64>) -> bool {
    forall|i: int, j: int| f.has(i, j) ==> #[trigger] f.at(i, j) < 0
}

/// A scaled difference never exceeds the difference.
proof fn lemma_scaled_difference(d: int, t: int)
    by (nonlinear_arith)
    requires
        0 <= d,
        0 <= t <= 65536,
    ensures
        0 <= (d * t) / 65536 <= d,
{
}

/// A blend of two negative values is negative.
pub proof fn lemma_lerp_negative(a: i64, b: i64, t: int)
    requires
        a < 0,
        b < 0,
        0 <= t <= ONE,
    ensures
        i64::MIN <= lerp_spec(a as int, b as int, t) < 0,
{
    if b >= a {
        lemma_scaled_difference(b - a, t);
    } else {
        lemma_scaled_difference(a - b, t);
        assert((b - a) * t == -((a - b) * t)) by (nonlinear_arith);
        assert((a - b) * t >= 0) by (nonlinear_arith)
            requires
                a - b >= 0,
                t >= 0,
        ;
    }
}

/// A field that is negative everywhere is negative at every point.
pub proof fn lemma_sample_negative(f: Lattice<i64>, x: int, y: int)
    requires
        samplable(f),
        all_negative(f),
    ensures
        i64::MIN <= sample_spec(f, x, y) < 0,
{
    lemma_sample_indices(f, x, y);
    let xc = clamp_spec(x, 0, (f.width - 1) * (ONE as int));
    let yc = clamp_spec(y, 0, (f.height - 1) * (ONE as int));
    let i0 = cell_of(xc);
    let j0 = cell_of(yc);
    let i1 = next_index(i0, f.width as int);
    let j1 = next_index(j0, f.height as int);
    let tx = xc - i0 * (ONE as int);
    let ty = yc - j0 * (ONE as int);
    assert(f.at(i0, j0) < 0);
    assert(f.at(i1, j0) < 0);
    assert(f.at(i0, j1) < 0);
    assert(f.at(i1, j1) < 0);
    lemma_lerp_negative(f.at(i0, j0), f.at(i1, j0), tx);
    lemma_lerp_negative(f.at(i0, j1), f.at(i1, j1), tx);
    let bottom = lerp_spec(f.at(i0, j0) as int, f.at(i1, j0) as int, tx);
    let top = lerp_spec(f.at(i0, j1) as int, f.at(i1, j1) as int, tx);
    lemma_lerp_negative(bottom as i64, top as i64, ty);
}

/// Transport keeps a level set that is negative everywhere negative
/// everywhere, whatever the velocity is.
pub proof fn lemma_advect_levelset_negative(
    phi: Lattice<i64>,
    u: Lattice<i64>,
    v: Lattice<i64>,
    dt: int,
    dx: int,
)
    requires
        samplable(phi),
        all_negative(phi),
    ensures
        all_negative(advect_levelset_spec(phi, u, v, dt, dx)),
        advect_levelset_spec(phi, u, v, dt, dx).wf(),
        advect_levelset_spec(phi, u, v, dt, dx).same_shape(phi),
{
    Lattice::lemma_tabulate(
        phi.width,
        phi.height,
        |i: int, j: int| advect_levelset_at(phi, u, v, dt, dx, i, j) as i64,
    );
    let out = advect_levelset_spec(phi, u, v, dt, dx);
    assert forall|i: int, j: int| out.has(i, j) implies #[trigger] out.at(i, j) < 0 by {
        let px = coord(i) + HALF;
        let py = coord(j) + HALF;
        let uu = sample_spec(u, px, py - HALF);
        let vv = sample_spec(v, px - HALF, py);
        let bx = fx_sub_spec(px, travel_spec(uu, dt, dx));
        let by = fx_sub_spec(py, travel_spec(vv, dt, dx));
        lemma_sample_negative(phi, fx_sub_spec(bx, HALF as int), fx_sub_spec(by, HALF as int));
    }
}

/// Self-advection invariance: transporting a velocity field that is the same
/// everywhere, with itself as the carrying flow, leaves it unchanged.
pub proof fn lemma_self_advection_invariance(
    u: Lattice<i64>,
    v: Lattice<i64>,
    cu: i64,
    cv: i64,
    dt: int,
    dx: int,
)
    requires
        samplable(u),
        samplable(v),
        u.uniform(cu),
        v.uniform(cv),
    ensures
        advect_u_spec(u, v, dt, dx) == u,
        advect_v_spec(u, v, dt, dx) == v,
{
    let au = advect_u_spec(u, v, dt, dx);
    let av = advect_v_spec(u, v, dt, dx);
    Lattice::lemma_tabulate(
        u.width,
        u.height,
        |i: int, j: int| advect_u_at(u, v, dt, dx, i, j) as i64,
    );
    Lattice::lemma_tabulate(
        v.width,
        v.height,
        |i: int, j: int| advect_v_at(u, v, dt, dx, i, j) as i64,
    );
    assert forall|i: int, j: int| au.has(i, j) implies #[trigger] au.at(i, j) == u.at(i, j) by {
        let px = coord(i);
        let py = coord(j) + HALF;
        let vv = sample_spec(v, px - HALF, py);
        let bx = fx_sub_spec(px, travel_spec(u.at(i, j) as int, dt, dx));
        let by = fx_sub_spec(py, travel_spec(vv, dt, dx));
        lemma_sample_uniform(u, cu, bx, fx_sub_spec(by, HALF as int));
        assert(u.at(i, j) == cu);
    }
    assert forall|i: int, j: int| av.has(i, j) implies #[trigger] av.at(i, j) == v.at(i, j) by {
        let px = coord(i) + HALF;
        let py = coord(j);
        let uu = sample_spec(u, px, py - HALF);
        let bx = fx_sub_spec(px, travel_spec(uu, dt, dx));
        let by = fx_sub_spec(py, travel_spec(v.at(i, j) as int, dt, dx));
        lemma_sample_uniform(v, cv, fx_sub_spec(bx, HALF as int), by);
        assert(v.at(i, j) == cv);
    }
    au.lemma_ext_equal(u);
    av.lemma_ext_equal(v);
}

/// Reads the field at the point `(x, y)` by bilinear interpolation.
pub fn sample(f: &Field<i64>, x: i64, y: i64) -> (value: i64)
    requires
        f.wf(),
        samplable(f@),
    ensures
        value as int == sample_spec(f@, x as int, y as int),
{
    let w = f.width();
    let h = f.height();
    proof {
        lemma_sample_indices(f@, x as int, y as int);
    }
    let max_x: i64 = ((w - 1) as i64) * ONE;
    let max_y: i64 = ((h - 1) as i64) * ONE;
    let xc = clamp(x, 0, max_x);
    let yc = clamp(y, 0, max_y);
    let i0: usize = (xc / ONE) as usize;
    let j0: usize = (yc / ONE) as usize;
    let i1: usize = if i0 + 1 < w {
        i0 + 1
    } else {
        i0
    };
    let j1: usize = if j0 + 1 < h {
        j0 + 1
    } else {
        j0
    };
    let tx: i64 = xc - (i0 as i64) * ONE;
    let ty: i64 = yc - (j0 as i64) * ONE;
    let bottom = lerp(f.get(i0, j0), f.get(i1, j0), tx);
    let top = lerp(f.get(i0, j1), f.get(i1, j1), tx);
    lerp(bottom, top, ty)
}

/// The distance, in cells, that a velocity covers in one time step.
pub fn travel(velocity: i64, dt: i64, dx: i64) -> (d: i64)
    requires
        dx > 0,
    ensures
        d as int == travel_spec(velocity as int, dt as int, dx as int),
{
    fx_div(fx_mul(velocity, dt), dx)
}

/// Raw coordinate of the sample with index `i`.
pub fn coord_of(i: usize) -> (x: i64)
    requires
        i <= 0x1_0000_0000,
    ensures
        x as int == coord(i as int),
{
    (i as i64) * ONE
}

/// Computes the transported horizontal velocity of the face `(i, j)`.
pub fn advect_u_cell(u: &Field<i64>, v: &Field<i64>, dt: i64, dx: i64, i: usize, j: usize) -> (r:
    i64)
    requires
        u.wf(),
        v.wf(),
        samplable(u@),
        samplable(v@),
        u@.has(i as int, j as int),
        dx > 0,
    ensures
        r as int == advect_u_at(u@, v@, dt as int, dx as int, i as int, j as int),
{
    let px = coord_of(i);
    let py = coord_of(j) + HALF;
    let uu = u.get(i, j);
    let vv = sample(v, px - HALF, py);
    let bx = fx_sub(px, travel(uu, dt, dx));
    let by = fx_sub(py, travel(vv, dt, dx));
    sample(u, bx, fx_sub(by, HALF))
}

/// Computes the transported vertical velocity of the face `(i, j)`.
pub fn advect_v_cell(u: &Field<i64>, v: &Field<i64>, dt: i64, dx: i64, i: usize, j: usize) -> (r:
    i64)
    requires
        u.wf(),
        v.wf(),
        samplable(u@),
        samplable(v@),
        v@.has(i as int, j as int),
        dx > 0,
    ensures
        r as int == advect_v_at(u@, v@, dt as int, dx as int, i as int, j as int),
{
    let px = coord_of(i) + HALF;
    let py = coord_of(j);
    let uu = sample(u, px, py - HALF);
    let vv = v.get(i, j);
    let bx = fx_sub(px, travel(uu, dt, dx));
    let by = fx_sub(py, travel(vv, dt, dx));
    sample(v, fx_sub(bx, HALF), by)
}

/// Computes the transported level set of the cell `(i, j)`.
pub fn advect_levelset_cell(
    phi: &Field<i64>,
    u: &Field<i64>,
    v: &Field<i64>,
    dt: i64,
    dx: i64,
    i: usize,
    j: usize,
) -> (r: i64)
    requires
        phi.wf(),
        u.wf(),
        v.wf(),
        samplable(phi@),
        samplable(u@),
        samplable(v@),
        phi@.has(i as int, j as int),
        dx > 0,
    ensures
        r as int == advect_levelset_at(phi@, u@, v@, dt as int, dx as int, i as int, j as int),
{
    let px = coord_of(i) + HALF;
    let py = coord_of(j) + HALF;
    let uu = sample(u, px, py - HALF);
    let vv = sample(v, px - HALF, py);
    let bx = fx_sub(px, travel(uu, dt, dx));
    let by = fx_sub(py, travel(vv, dt, dx));
    sample(phi, fx_sub(bx, HALF), fx_sub(by, HALF))
}

/// Transports the velocity along itself.  The result is written to the
/// scratch buffers, which then become the current ones; the former current
/// buffers become the scratch.
///
/// A velocity that is the same everywhere is left as it is.
pub fn advection(velocity: &mut VelocityTextures, uniform: &SimulationUniform)
    requires
        fits(old(velocity).nx(), old(velocity).ny()),
        old(velocity).wf(old(velocity).nx(), old(velocity).ny()),
        uniform.valid(),
    ensures
        final(velocity).wf(old(velocity).nx(), old(velocity).ny()),
        final(velocity).u0@ == advect_u_spec(
            old(velocity).u0@,
            old(velocity).v0@,
            uniform.dt as int,
            uniform.dx as int,
        ),
        final(velocity).v0@ == advect_v_spec(
            old(velocity).u0@,
            old(velocity).v0@,
            uniform.dt as int,
            uniform.dx as int,
        ),
        final(velocity).u1@ == old(velocity).u0@,
        final(velocity).v1@ == old(velocity).v0@,
        forall|cu: i64, cv: i64|
            #[trigger] old(velocity).u0@.uniform(cu) && #[trigger] old(velocity).v0@.uniform(cv)
                ==> final(velocity).u0@ == old(velocity).u0@ && final(velocity).v0@ == old(velocity).v0@,
{
    let dt = uniform.dt;
    let dx = uniform.dx;
    let u0 = &velocity.u0;
    let v0 = &velocity.v0;
    proof {
        u0.lemma_view_wf();
        v0.lemma_view_wf();
        assert forall|cu: i64, cv: i64|
            #[trigger] u0@.uniform(cu) && #[trigger] v0@.uniform(cv) implies advect_u_spec(
            u0@,
            v0@,
            dt as int,
            dx as int,
        ) == u0@ && advect_v_spec(u0@, v0@, dt as int, dx as int) == v0@ by {
            lemma_self_advection_invariance(u0@, v0@, cu, cv, dt as int, dx as int);
        }
    }
    velocity.u1.fill_with(
        |i: usize, j: usize| -> (r: i64)
            requires
                u0.wf(),
                v0.wf(),
                samplable(u0@),
                samplable(v0@),
                u0@.has(i as int, j as int),
                dx > 0,
            ensures
                r as int == advect_u_at(u0@, v0@, dt as int, dx as int, i as int, j as int)
            {
                let r = advect_u_cell(u0, v0, dt, dx, i, j);
                r
            },
    );
    velocity.v1.fill_with(
        |i: usize, j: usize| -> (r: i64)
            requires
                u0.wf(),
                v0.wf(),
                samplable(u0@),
                samplable(v0@),
                v0@.has(i as int, j as int),
                dx > 0,
            ensures
                r as int == advect_v_at(u0@, v0@, dt as int, dx as int, i as int, j as int)
            {
                let r = advect_v_cell(u0, v0, dt, dx, i, j);
                r
            },
    );
    proof {
        lemma_is_tabulation(
            velocity.u1@,
            |i: int, j: int|
                advect_u_at(velocity.u0@, velocity.v0@, dt as int, dx as int, i, j) as i64,
        );
        lemma_is_tabulation(
            velocity.v1@,
            |i: int, j: int|
                advect_v_at(velocity.u0@, velocity.v0@, dt as int, dx as int, i, j) as i64,
        );
    }
    std::mem::swap(&mut velocity.u0, &mut velocity.u1);
    std::mem::swap(&mut velocity.v0, &mut velocity.v1);
}

/// Transports the level set along the current velocity.
pub fn advect_levelset(
    levelset: &mut LevelsetTextures,
    velocity: &VelocityTextures,
    uniform: &SimulationUniform,
)
    requires
        fits(old(levelset).nx(), old(levelset).ny()),
        old(levelset).wf(old(levelset).nx(), old(levelset).ny()),
        velocity.wf(old(levelset).nx(), old(levelset).ny()),
        uniform.valid(),
    ensures
        final(levelset).wf(old(levelset).nx(), old(levelset).ny()),
        final(levelset).grid_label@ == old(levelset).grid_label@,
        final(levelset).levelset@ == advect_levelset_spec(
            old(levelset).levelset@,
            velocity.u0@,
            velocity.v0@,
            uniform.dt as int,
            uniform.dx as int,
        ),
{
    let dt = uniform.dt;
    let dx = uniform.dx;
    let u0 = &velocity.u0;
    let v0 = &velocity.v0;
    let phi = &levelset.levelset;
    proof {
        u0.lemma_view_wf();
        v0.lemma_view_wf();
        phi.lemma_view_wf();
    }
    let mut next: Field<i64> = Field::new(phi.width(), phi.height(), 0);
    next.fill_with(
        |i: usize, j: usize| -> (r: i64)
            requires
                phi.wf(),
                u0.wf(),
                v0.wf(),
                samplable(phi@),
                samplable(u0@),
                samplable(v0@),
                phi@.has(i as int, j as int),
                dx > 0,
            ensures
                r as int == advect_levelset_at(
                    phi@,
                    u0@,
                    v0@,
                    dt as int,
                    dx as int,
                    i as int,
                    j as int,
                )
            {
                let r = advect_levelset_cell(phi, u0, v0, dt, dx, i, j);
                r
            },
    );
    proof {
        lemma_is_tabulation(
            next@,
            |i: int, j: int|
                advect_levelset_at(
                    levelset.levelset@,
                    velocity.u0@,
                    velocity.v0@,
                    dt as int,
                    dx as int,
                    i,
                    j,
                ) as i64,
        );
    }
    levelset.levelset = next;
}

} // verus!
