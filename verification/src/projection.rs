//! The pressure projection: the divergence of the velocity, the relaxation of
//! the pressure, and the correction of the velocity by the pressure gradient.
pub mod convergence;
pub mod divergence;
pub mod jacobi_iteration;
pub mod solve;
