//! Planar orbital mechanics around a single massive central body, in
//! fixed-point integer arithmetic.
//!
//! Positions are micrometres, velocities micrometres per second, and
//! accelerations micrometres per second squared, so that the whole
//! computation is exact integer arithmetic with truncating division.
//! The force model, the fourth-order Runge-Kutta step, the trajectory
//! history buffer and the lookahead predictor are all specified against
//! mathematical integer models and verified.

use vstd::prelude::*;

pub mod num;
pub mod state;
pub mod force;
pub mod rk4;
pub mod history;
pub mod body;
pub mod predict;

verus! {

/// Product G * M of the gravitational constant and the central body's
/// mass, in cubic micrometres per second squared.
/// (6.6743e-11 m^3 kg^-1 s^-2 * 5.972e24 kg, scaled by 1e18.)
pub const GM_UM3: i128 = 398_589_196_000_000_000_000_000_000_000_000;

/// Radius of the central body, in micrometres (6.371e6 m).
pub const CENTRAL_RADIUS_UM: i128 = 6_371_000_000_000;

/// Fixed integration time step, in seconds.
pub const DT_S: i128 = 10;

/// Magnitude of the tangential thrust acceleration, in micrometres per
/// second squared (2 m/s^2).
pub const THRUST_UM: i128 = 2_000_000;

/// Capacity of the trajectory history buffer.
pub const N_HISTORY: usize = 21;

/// Number of steps computed by the lookahead predictor.
pub const N_LOOKAHEAD: usize = 2000;

/// Largest position component (in micrometres) the simulation domain
/// admits; beyond it the integrator reports an error instead of risking
/// overflow.
pub const MAX_POS_UM: i128 = 1_000_000_000_000_000_000;

/// Largest velocity component (in micrometres per second) the
/// simulation domain admits.
pub const MAX_VEL_UM: i128 = 1_000_000_000_000_000;

} // verus!
