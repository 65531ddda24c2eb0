//! The fourth-order Runge-Kutta step: four force-model evaluations
//! combined into one fixed-time-step advance of the state.

use vstd::prelude::*;
use crate::DT_S;
use crate::force::{forcing, forcing_defined, forcing_err, spec_forcing};
use crate::num::{tdiv, tdiv_i128};
use crate::state::{
    Forcing, SimError, SpecState, State, ThrustCommand, add_forcing, add_scaled, scale_forcing,
};

verus! {

/// First intermediate stage state: the input advanced by half a step
/// along `k1`.
pub open spec fn rk4_s1(s: SpecState, cmd: ThrustCommand) -> SpecState {
    add_scaled(s, 5, spec_forcing(s, cmd))
}

/// Second intermediate stage state: the input advanced by half a step
/// along `k2`.
pub open spec fn rk4_s2(s: SpecState, cmd: ThrustCommand) -> SpecState {
    add_scaled(s, 5, spec_forcing(rk4_s1(s, cmd), cmd))
}

/// Third intermediate stage state: the input advanced by a full step
/// along `k3`.
pub open spec fn rk4_s3(s: SpecState, cmd: ThrustCommand) -> SpecState {
    add_scaled(s, 10, spec_forcing(rk4_s2(s, cmd), cmd))
}

/// A step is defined when the force model is defined at the input and
/// at each of the three intermediate stage states.
pub open spec fn rk4_defined(s: SpecState, cmd: ThrustCommand) -> bool {
    &&& forcing_defined(s, cmd)
    &&& forcing_defined(rk4_s1(s, cmd), cmd)
    &&& forcing_defined(rk4_s2(s, cmd), cmd)
    &&& forcing_defined(rk4_s3(s, cmd), cmd)
}

/// The error of the first stage at which the force model is not
/// defined.
pub open spec fn rk4_err(s: SpecState, cmd: ThrustCommand) -> SimError {
    if !forcing_defined(s, cmd) {
        forcing_err(s, cmd)
    } else if !forcing_defined(rk4_s1(s, cmd), cmd) {
        forcing_err(rk4_s1(s, cmd), cmd)
    } else if !forcing_defined(rk4_s2(s, cmd), cmd) {
        forcing_err(rk4_s2(s, cmd), cmd)
    } else {
        forcing_err(rk4_s3(s, cmd), cmd)
    }
}

/// The weighted sum `k1 + 2 k2 + 2 k3 + k4` of the four stage
/// derivatives.
pub open spec fn rk4_ksum(s: SpecState, cmd: ThrustCommand) -> crate::state::SpecForcing {
    let k1 = spec_forcing(s, cmd);
    let k2 = spec_forcing(rk4_s1(s, cmd), cmd);
    let k3 = spec_forcing(rk4_s2(s, cmd), cmd);
    let k4 = spec_forcing(rk4_s3(s, cmd), cmd);
    add_forcing(add_forcing(k1, scale_forcing(2, k2)), add_forcing(scale_forcing(2, k3), k4))
}

/// The state one fixed time step later: the input advanced by
/// `(DT / 6) * (k1 + 2 k2 + 2 k3 + k4)`, each component truncated
/// toward zero.
pub open spec fn spec_rk4(s: SpecState, cmd: ThrustCommand) -> SpecState {
    let ksum = rk4_ksum(s, cmd);
    SpecState {
        x: s.x + tdiv(ksum.vx * (DT_S as int), 6),
        y: s.y + tdiv(ksum.vy * (DT_S as int), 6),
        vx: s.vx + tdiv(ksum.ax * (DT_S as int), 6),
        vy: s.vy + tdiv(ksum.ay * (DT_S as int), 6),
    }
}

/// Advances `state` by one fixed time step of the classic fourth-order
/// Runge-Kutta method, the thrust command held constant across the
/// four stages. Fails exactly where the force model fails at the input
/// or at an intermediate stage state, reporting that stage's error.
#[verifier::rlimit(100)]
pub fn rk4(state: &State, cmd: ThrustCommand) -> (res: Result<State, SimError>)
    ensures
        res is Ok <==> rk4_defined(state@, cmd),
        res is Ok ==> res->Ok_0@ == spec_rk4(state@, cmd),
        res is Err ==> res->Err_0 == rk4_err(state@, cmd),
{
    let k1: Forcing = match forcing(state, cmd) {
        Ok(k) => k,
        Err(e) => {
            return Err(e);
        },
    };
    let s1: State = state.add_scaled_by(5, &k1);
    proof {
        assert(s1@ == rk4_s1(state@, cmd));
    }
    let k2: Forcing = match forcing(&s1, cmd) {
        Ok(k) => k,
        Err(e) => {
            return Err(e);
        },
    };
    let s2: State = state.add_scaled_by(5, &k2);
    proof {
        assert(s2@ == rk4_s2(state@, cmd));
    }
    let k3: Forcing = match forcing(&s2, cmd) {
        Ok(k) => k,
        Err(e) => {
            return Err(e);
        },
    };
    let s3: State = state.add_scaled_by(10, &k3);
    proof {
        assert(s3@ == rk4_s3(state@, cmd));
    }
    let k4: Forcing = match forcing(&s3, cmd) {
        Ok(k) => k,
        Err(e) => {
            return Err(e);
        },
    };
    let ksum: Forcing = k1.plus(&k2.scaled(2)).plus(&k3.scaled(2).plus(&k4));
    proof {
        assert(ksum@ == rk4_ksum(state@, cmd));
    }
    let dx: i128 = tdiv_i128(ksum.vx * DT_S, 6);
    let dy: i128 = tdiv_i128(ksum.vy * DT_S, 6);
    let dvx: i128 = tdiv_i128(ksum.ax * DT_S, 6);
    let dvy: i128 = tdiv_i128(ksum.ay * DT_S, 6);
    Ok(State { x: state.x + dx, y: state.y + dy, vx: state.vx + dvx, vy: state.vy + dvy })
}

} // verus!
