//! Integrators that advance the simulation state.

use vstd::prelude::*;

verus! {

/// Fixed-step fourth-order Runge-Kutta integrator (the only integrator).
#[derive(Debug, Clone, Copy, PartialEq, Eq, Structural)]
pub struct Rk4Integrator;

} // verus!
