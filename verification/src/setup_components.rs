//! Creation of a simulation: checking the settings, allocating the buffers
//! and building the initial state.
use crate::definition::{
    fits, CircleObstacle, DivergenceTextures, FluidSettings, FluidSimulationBundle, GridLabel,
    JumpFloodingSeedsTextures, LevelsetTextures, PressureTextures, SimulationUniform,
    SolidVelocityTextures, VelocityTextures,
};
use crate::field::{lemma_is_tabulation, Field, Lattice};
use crate::grid_label::{cell_center, center_of, grid_label_spec, label_at, label_of};
use crate::scalar::{
    fx_mul, fx_mul_spec, fx_sub, fx_sub_spec, lemma_product_bound, saturate, ONE,
};
use vstd::prelude::*;

verus! {

/// The edge of the tiles in which a parallel device covers the grid.
pub const TILE_SIZE: u32 = 64;

/// Why settings are refused.
#[derive(Clone, Copy, Debug, PartialEq, Eq, Structural)]
pub enum SettingsError {
    /// The grid has no cell along some axis.
    EmptyGrid,
    /// The buffers of the grid would not fit the machine's index type.
    GridTooLarge,
    /// The cell size, the time step or the density is not positive.
    NonPositiveParameter,
    /// The initial fluid level is not between zero and one.
    FluidLevelOutOfRange,
}

/// What is unusual, though accepted, about the size of a grid.
#[derive(Clone, Copy, Debug, PartialEq, Eq, Structural)]
pub struct SizeWarnings {
    /// The two extents differ.
    pub not_square: bool,
    /// Some extent is not a multiple of the tile size, so that a device that
    /// works tile by tile leaves cells at the border uncovered.
    pub not_tile_multiple: bool,
}

/// The warnings that a grid of the given size deserves.
pub open spec fn size_warnings_spec(size: (u32, u32)) -> SizeWarnings {
    SizeWarnings {
        not_square: size.0 != size.1,
        not_tile_multiple: size.0 % TILE_SIZE != 0 || size.1 % TILE_SIZE != 0,
    }
}

/// Tells what is unusual about the size of a grid.
pub fn size_warnings(size: (u32, u32)) -> (warnings: SizeWarnings)
    ensures
        warnings == size_warnings_spec(size),
{
    SizeWarnings {
        not_square: size.0 != size.1,
        not_tile_multiple: size.0 % TILE_SIZE != 0 || size.1 % TILE_SIZE != 0,
    }
}

impl FluidSettings {
    /// The verdict on the settings: the first of the listed faults that they
    /// show, if any.
    pub open spec fn check_spec(&self) -> Result<(), SettingsError> {
        if self.size.0 == 0 || self.size.1 == 0 {
            Err(SettingsError::EmptyGrid)
        } else if (self.size.0 + 1) * (self.size.1 + 1) > usize::MAX {
            Err(SettingsError::GridTooLarge)
        } else if self.dx <= 0 || self.dt <= 0 || self.rho <= 0 {
            Err(SettingsError::NonPositiveParameter)
        } else if self.initial_fluid_level < 0 || self.initial_fluid_level > ONE {
            Err(SettingsError::FluidLevelOutOfRange)
        } else {
            Ok(())
        }
    }

    /// The settings describe a simulation that can be created.
    pub open spec fn valid(&self) -> bool {
        self.check_spec() is Ok
    }

    /// The parameters that the stages read.
    pub open spec fn uniform_spec(&self) -> SimulationUniform {
        SimulationUniform {
            dx: self.dx,
            dt: self.dt,
            rho: self.rho,
            gravity: self.gravity,
            initial_fluid_level: self.initial_fluid_level,
        }
    }

    /// Checks the settings.
    pub fn check(&self) -> (verdict: Result<(), SettingsError>)
        ensures
            verdict == self.check_spec(),
    {
        if self.size.0 == 0 || self.size.1 == 0 {
            return Err(SettingsError::EmptyGrid);
        }
        let columns: u128 = self.size.0 as u128 + 1;
        let rows: u128 = self.size.1 as u128 + 1;
        assert(columns * rows <= 0x1_0000_0000 * 0x1_0000_0000) by (nonlinear_arith)
            requires
                0 <= columns <= 0x1_0000_0000,
                0 <= rows <= 0x1_0000_0000,
        ;
        if columns * rows > usize::MAX as u128 {
            return Err(SettingsError::GridTooLarge);
        }
        if self.dx <= 0 || self.dt <= 0 || self.rho <= 0 {
            return Err(SettingsError::NonPositiveParameter);
        }
        if self.initial_fluid_level < 0 || self.initial_fluid_level > ONE {
            return Err(SettingsError::FluidLevelOutOfRange);
        }
        Ok(())
    }

    /// Extracts the parameters that the stages read.
    pub fn uniform(&self) -> (uniform: SimulationUniform)
        ensures
            uniform == self.uniform_spec(),
    {
        SimulationUniform {
            dx: self.dx,
            dt: self.dt,
            rho: self.rho,
            gravity: self.gravity,
            initial_fluid_level: self.initial_fluid_level,
        }
    }
}

/// The lattice of the given shape that holds zero everywhere.
pub open spec fn zeros(width: nat, height: nat) -> Lattice<i64> {
    Lattice::tabulate(width, height, |i: int, j: int| 0i64)
}

/// The height of the initial surface above the top of the domain, in cells:
/// the empty fraction of the domain times its number of rows.
pub open spec fn surface_height(level: int, ny: int) -> int {
    fx_mul_spec(ONE - level, ny * (ONE as int))
}

/// The initial level set in row `j`: the signed distance from the center of
/// the row to the initial surface, negative below the surface.
pub open spec fn initial_levelset_at(uniform: SimulationUniform, ny: int, j: int) -> int {
    fx_mul_spec(
        fx_sub_spec(surface_height(uniform.initial_fluid_level as int, ny), cell_center(j)),
        uniform.dx as int,
    )
}

/// The initial level set of an `nx` by `ny` grid.
pub open spec fn initial_levelset(uniform: SimulationUniform, nx: nat, ny: nat) -> Lattice<i64> {
    Lattice::tabulate(nx, ny, |i: int, j: int| initial_levelset_at(uniform, ny as int, j) as i64)
}

/// A positive product of at least one whole unit stays at least one raw step
/// when it is scaled back.
proof fn lemma_scaled_product(c: int, dx: int)
    by (nonlinear_arith)
    requires
        c >= 32768,
        dx >= 2,
    ensures
        (c * dx) / 65536 >= 1,
        c * dx >= 0,
        -(c * dx) < 0,
{
}

/// The initial level set of a full box is negative in every cell, provided
/// that the cell size is at least two raw steps.
pub proof fn lemma_full_box_starts_negative(uniform: SimulationUniform, nx: nat, ny: nat)
    requires
        uniform.initial_fluid_level == ONE,
        uniform.dx >= 2,
    ensures
        initial_levelset(uniform, nx, ny).wf(),
        initial_levelset(uniform, nx, ny).width == nx,
        initial_levelset(uniform, nx, ny).height == ny,
        forall|i: int, j: int|
            initial_levelset(uniform, nx, ny).has(i, j) ==> #[trigger] initial_levelset(
                uniform,
                nx,
                ny,
            ).at(i, j) < 0,
{
    Lattice::lemma_tabulate(
        nx,
        ny,
        |i: int, j: int| initial_levelset_at(uniform, ny as int, j) as i64,
    );
    let phi = initial_levelset(uniform, nx, ny);
    assert forall|i: int, j: int| phi.has(i, j) implies #[trigger] phi.at(i, j) < 0 by {
        let c = cell_center(j);
        assert(0 * (ny * (ONE as int)) == 0) by (nonlinear_arith);
        assert(surface_height(ONE as int, ny as int) == 0);
        lemma_scaled_product(c, uniform.dx as int);
        assert((-c) * (uniform.dx as int) == -(c * (uniform.dx as int))) by (nonlinear_arith);
    }
}

/// A lattice that holds one value everywhere is the tabulation of that value.
pub proof fn lemma_uniform_zero(f: Lattice<i64>)
    requires
        f.wf(),
        f.uniform(0i64),
    ensures
        f == zeros(f.width, f.height),
{
    lemma_is_tabulation(f, |i: int, j: int| 0i64);
}

impl FluidSimulationBundle {
    /// Every velocity, the pressure and the divergence are zero, no cell
    /// holds a seed coordinate other than zero, the level set is zero and
    /// every cell is empty.
    pub open spec fn blank(&self, nx: nat, ny: nat) -> bool {
        &&& self.wf(nx, ny)
        &&& self.velocity_textures.u0@ == zeros(nx + 1, ny)
        &&& self.velocity_textures.u1@ == zeros(nx + 1, ny)
        &&& self.velocity_textures.v0@ == zeros(nx, ny + 1)
        &&& self.velocity_textures.v1@ == zeros(nx, ny + 1)
        &&& self.solid_velocity_textures.u_solid@ == zeros(nx + 1, ny)
        &&& self.solid_velocity_textures.v_solid@ == zeros(nx, ny + 1)
        &&& self.pressure_textures.p0@ == zeros(nx, ny)
        &&& self.pressure_textures.p1@ == zeros(nx, ny)
        &&& self.divergence_textures.div@ == zeros(nx, ny)
        &&& self.levelset_textures.levelset@ == zeros(nx, ny)
        &&& self.levelset_textures.grid_label@.uniform(GridLabel::Empty)
        &&& self.jump_flooding_seeds_textures.jump_flooding_seeds_x@ == zeros(nx, ny)
        &&& self.jump_flooding_seeds_textures.jump_flooding_seeds_y@ == zeros(nx, ny)
    }
}

/// A zero-filled scalar buffer.
fn zero_field(width: usize, height: usize) -> (f: Field<i64>)
    requires
        width * height <= usize::MAX,
    ensures
        f.wf(),
        f@.width == width,
        f@.height == height,
        f@ == zeros(width as nat, height as nat),
{
    let f = Field::new(width, height, 0i64);
    proof {
        lemma_uniform_zero(f@);
    }
    f
}

/// The buffers of a grid fit the machine's index type.
proof fn lemma_buffers_fit(nx: int, ny: int)
    by (nonlinear_arith)
    requires
        0 <= nx,
        0 <= ny,
        (nx + 1) * (ny + 1) <= usize::MAX,
    ensures
        nx * ny <= usize::MAX,
        (nx + 1) * ny <= usize::MAX,
        nx * (ny + 1) <= usize::MAX,
        nx + 1 <= usize::MAX,
        ny + 1 <= usize::MAX,
{
}

/// Allocates the zero-filled buffers of a simulation and derives the
/// parameters of its stages.  Settings that cannot be used are refused with
/// the first fault that they show.
pub fn watch_fluid_component(settings: &FluidSettings) -> (r: Result<
    (FluidSimulationBundle, SimulationUniform),
    SettingsError,
>)
    ensures
        match r {
            Ok((bundle, uniform)) => {
                &&& settings.valid()
                &&& uniform == settings.uniform_spec()
                &&& uniform.valid()
                &&& fits(settings.size.0 as nat, settings.size.1 as nat)
                &&& bundle.blank(settings.size.0 as nat, settings.size.1 as nat)
            },
            Err(e) => settings.check_spec() == Err::<(), SettingsError>(e),
        },
{
    match settings.check() {
        Err(e) => {
            return Err(e);
        },
        Ok(_) => {},
    }
    let nx: usize = settings.size.0 as usize;
    let ny: usize = settings.size.1 as usize;
    proof {
        lemma_buffers_fit(nx as int, ny as int);
    }
    let velocity_textures = VelocityTextures {
        u0: zero_field(nx + 1, ny),
        v0: zero_field(nx, ny + 1),
        u1: zero_field(nx + 1, ny),
        v1: zero_field(nx, ny + 1),
    };
    let solid_velocity_textures = SolidVelocityTextures {
        u_solid: zero_field(nx + 1, ny),
        v_solid: zero_field(nx, ny + 1),
    };
    let pressure_textures = PressureTextures { p0: zero_field(nx, ny), p1: zero_field(nx, ny) };
    let divergence_textures = DivergenceTextures { div: zero_field(nx, ny) };
    let levelset_textures = LevelsetTextures {
        levelset: zero_field(nx, ny),
        grid_label: Field::new(nx, ny, GridLabel::Empty),
    };
    let jump_flooding_seeds_textures = JumpFloodingSeedsTextures {
        jump_flooding_seeds_x: zero_field(nx, ny),
        jump_flooding_seeds_y: zero_field(nx, ny),
    };
    let bundle = FluidSimulationBundle {
        velocity_textures,
        solid_velocity_textures,
        pressure_textures,
        divergence_textures,
        levelset_textures,
        jump_flooding_seeds_textures,
    };
    Ok((bundle, settings.uniform()))
}

/// Sets every velocity, current, scratch and solid, to zero.
pub fn initialize_velocity(velocity: &mut VelocityTextures, solid: &mut SolidVelocityTextures)
    requires
        old(velocity).wf(old(velocity).nx(), old(velocity).ny()),
        old(solid).wf(old(velocity).nx(), old(velocity).ny()),
    ensures
        final(velocity).wf(old(velocity).nx(), old(velocity).ny()),
        final(solid).wf(old(velocity).nx(), old(velocity).ny()),
        final(velocity).u0@ == zeros(old(velocity).nx() + 1, old(velocity).ny()),
        final(velocity).u1@ == zeros(old(velocity).nx() + 1, old(velocity).ny()),
        final(velocity).v0@ == zeros(old(velocity).nx(), old(velocity).ny() + 1),
        final(velocity).v1@ == zeros(old(velocity).nx(), old(velocity).ny() + 1),
        final(solid).u_solid@ == zeros(old(velocity).nx() + 1, old(velocity).ny()),
        final(solid).v_solid@ == zeros(old(velocity).nx(), old(velocity).ny() + 1),
{
    proof {
        velocity.u0.lemma_view_wf();
        velocity.v0.lemma_view_wf();
    }
    let wu = velocity.u0.width();
    let hu = velocity.u0.height();
    let wv = velocity.v0.width();
    let hv = velocity.v0.height();
    velocity.u0 = zero_field(wu, hu);
    velocity.u1 = zero_field(wu, hu);
    velocity.v0 = zero_field(wv, hv);
    velocity.v1 = zero_field(wv, hv);
    solid.u_solid = zero_field(wu, hu);
    solid.v_solid = zero_field(wv, hv);
}

/// Computes the initial level set in row `j` of a grid of `ny` rows.
pub fn initial_levelset_cell(uniform: &SimulationUniform, ny: usize, j: usize) -> (r: i64)
    requires
        ny <= u32::MAX,
        j <= u32::MAX,
    ensures
        r as int == initial_levelset_at(*uniform, ny as int, j as int),
{
    let rows: i64 = (ny as i64) * ONE;
    let empty: i128 = (ONE as i128) - (uniform.initial_fluid_level as i128);
    let surface = fx_mul_wide(empty, rows);
    fx_mul(fx_sub(surface, center_of(j)), uniform.dx)
}

/// Product of a wide number and a scalar, as a scalar.
fn fx_mul_wide(a: i128, b: i64) -> (r: i64)
    requires
        -0x1_0000_0000_0000_0000 <= a <= 0x1_0000_0000_0000_0000,
        0 <= b <= 0x1_0000_0000_0000,
    ensures
        r as int == fx_mul_spec(a as int, b as int),
{
    proof {
        lemma_product_bound(
            a as int,
            b as int,
            0x1_0000_0000_0000_0000,
            0x1_0000_0000_0000,
        );
    }
    saturate((a * (b as i128)) / 65536)
}

/// Builds the initial level set from the initial fluid level, and the labels
/// that follow from it where there are no obstacles.
pub fn initialize_grid_center(levelset: &mut LevelsetTextures, uniform: &SimulationUniform)
    requires
        fits(old(levelset).nx(), old(levelset).ny()),
        old(levelset).wf(old(levelset).nx(), old(levelset).ny()),
    ensures
        final(levelset).wf(old(levelset).nx(), old(levelset).ny()),
        final(levelset).levelset@ == initial_levelset(
            *uniform,
            old(levelset).nx(),
            old(levelset).ny(),
        ),
        final(levelset).grid_label@ == grid_label_spec(
            final(levelset).levelset@,
            Seq::empty(),
        ),
{
    let ny = levelset.levelset.height();
    let ghost nx = levelset.nx();
    levelset.levelset.fill_with(
        |i: usize, j: usize| -> (r: i64)
            requires
                ny <= u32::MAX,
                j <= u32::MAX,
            ensures
                r as int == initial_levelset_at(*uniform, ny as int, j as int)
            {
                let r = initial_levelset_cell(uniform, ny, j);
                r
            },
    );
    proof {
        lemma_is_tabulation(
            levelset.levelset@,
            |i: int, j: int| initial_levelset_at(*uniform, ny as int, j) as i64,
        );
    }
    let phi = &levelset.levelset;
    let none: Vec<CircleObstacle> = Vec::new();
    levelset.grid_label.fill_with(
        |i: usize, j: usize| -> (label: GridLabel)
            requires
                phi.wf(),
                fits(phi@.width, phi@.height),
                phi@.has(i as int, j as int),
            ensures
                label == label_at(phi@, none@, i as int, j as int)
            {
                let label = label_of(phi, &none, i, j);
                label
            },
    );
    proof {
        assert(none@ =~= Seq::empty());
        lemma_is_tabulation(
            levelset.grid_label@,
            |i: int, j: int| label_at(levelset.levelset@, none@, i, j),
        );
    }
}

} // verus!
