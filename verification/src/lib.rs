//! An incompressible fluid with a free surface on a fixed two-dimensional
//! grid, driven by local forces and by moving circular obstacles.
//!
//! The velocity lives on a staggered grid: its horizontal component on the
//! vertical faces of the cells, its vertical component on the horizontal
//! faces.  The pressure, the divergence, the level set and the labels live in
//! the cells.  The level set is negative inside the fluid; its zero crossing
//! is the surface.  Row indices grow in the direction of positive `y`.
//!
//! One tick labels the cells, transports the level set and the velocity along
//! the velocity, adds gravity and the local forces, computes the divergence,
//! relaxes the pressure for a fixed number of passes, corrects the velocity by
//! the pressure gradient, and rebuilds the level set as a signed distance by
//! jump flooding.
//!
//! All quantities are fixed-point numbers (see [`scalar`]), and every stage
//! is total: no input makes a stage fail.  The contract of each stage gives
//! the value of every sample of its result as a function of its inputs, and
//! the contract of a tick is the composition of those functions (see
//! [`tick`]).  Beyond that, the library proves
//!
//! * that a cell is labelled solid exactly if it lies on the border or its
//!   center lies within the radius of an obstacle
//!   ([`grid_label::update_grid_label`]);
//! * that a velocity which is the same everywhere is unchanged by its own
//!   transport ([`advection::lemma_self_advection_invariance`]);
//! * that a pass of the relaxation never increases the divergence that the
//!   pressure leaves ([`projection::convergence`]);
//! * that after the correction, and so after every tick, no face lets fluid
//!   through a solid cell ([`projection::solve::solve_velocity`],
//!   [`tick`]);
//! * that the rebuild of the level set keeps the sign of every cell
//!   ([`recompute_levelset`]), and that a box which is full stays full
//!   ([`tick::lemma_full_box_stays_full`]);
//! * that the schedule of kernels which a node hands to a parallel device,
//!   executed stage by stage, is the tick ([`schedule`]).
pub mod add_force;
pub mod advection;
pub mod definition;
pub mod dispatch;
pub mod field;
pub mod geometry;
pub mod grid_label;
pub mod jump_flooding_uniform;
pub mod node;
pub mod projection;
pub mod recompute_levelset;
pub mod scalar;
pub mod schedule;
pub mod setup_components;
pub mod summation;
pub mod tick;
