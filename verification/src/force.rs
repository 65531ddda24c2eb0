//! The force model: the derivative of a state under the central
//! inverse-square gravitational field, plus an optional fixed-magnitude
//! thrust along the velocity direction.

use vstd::prelude::*;
use crate::num::{
    abs_i, isqrt_u128, lemma_component_le_isqrt, lemma_div_mul_le, lemma_mul_le_mul,
    lemma_sp_isqrt_pos, sp_isqrt,
};
use crate::state::{Forcing, SimError, SpecForcing, SpecState, State, ThrustCommand, thrust_sign};
use crate::{GM_UM3, MAX_POS_UM, MAX_VEL_UM, THRUST_UM};

verus! {

/// Squared magnitude of the position vector.
pub open spec fn r2_of(s: SpecState) -> int {
    s.x * s.x + s.y * s.y
}

/// Squared magnitude of the velocity vector.
pub open spec fn v2_of(s: SpecState) -> int {
    s.vx * s.vx + s.vy * s.vy
}

/// The domain within which the fixed-point computation stays exact:
/// every component bounded by the simulation limits.
pub open spec fn in_bounds(s: SpecState) -> bool {
    &&& abs_i(s.x) <= MAX_POS_UM
    &&& abs_i(s.y) <= MAX_POS_UM
    &&& abs_i(s.vx) <= MAX_VEL_UM
    &&& abs_i(s.vy) <= MAX_VEL_UM
}

/// The truncated gravitational scalar `G * M / r^2`.
pub open spec fn grav_coeff(r: int) -> int {
    (GM_UM3 as int) / r / r
}

/// One component of the gravitational acceleration
/// `-(G * M / r^3) * c`, truncated toward zero.
pub open spec fn grav_comp(c: int, r: int) -> int {
    if c >= 0 {
        -(grav_coeff(r) * c / r)
    } else {
        grav_coeff(r) * (-c) / r
    }
}

/// One component of the thrust acceleration
/// `sign * THRUST * c / v`, truncated toward zero.
pub open spec fn thrust_comp(cmd: ThrustCommand, c: int, v: int) -> int {
    if thrust_sign(cmd) == 0 {
        0
    } else {
        let m: int = (THRUST_UM as int) * abs_i(c) / v;
        if thrust_sign(cmd) * c >= 0 {
            m
        } else {
            -m
        }
    }
}

/// The derivative of a state: gravitational plus thrust acceleration,
/// and the state's velocity as the position's rate of change.
pub open spec fn spec_forcing(s: SpecState, cmd: ThrustCommand) -> SpecForcing {
    let r: int = sp_isqrt(r2_of(s));
    let v: int = sp_isqrt(v2_of(s));
    SpecForcing {
        ax: grav_comp(s.x, r) + thrust_comp(cmd, s.vx, v),
        ay: grav_comp(s.y, r) + thrust_comp(cmd, s.vy, v),
        vx: s.vx,
        vy: s.vy,
    }
}

/// When the force model is defined: the state is in the simulation
/// domain, the position is not at the origin, and the velocity is not
/// zero while thrust is commanded.
pub open spec fn forcing_defined(s: SpecState, cmd: ThrustCommand) -> bool {
    &&& in_bounds(s)
    &&& r2_of(s) >= 1
    &&& (thrust_sign(cmd) != 0 ==> v2_of(s) >= 1)
}

/// The error the force model reports when it is not defined, in the
/// order the conditions are examined.
pub open spec fn forcing_err(s: SpecState, cmd: ThrustCommand) -> SimError {
    if !in_bounds(s) {
        SimError::OutOfBounds
    } else if r2_of(s) == 0 {
        SimError::DegeneratePosition
    } else {
        SimError::DegenerateVelocity
    }
}

/// Component bounds every successful force evaluation guarantees.
pub open spec fn forcing_bounded(k: SpecForcing) -> bool {
    &&& abs_i(k.ax) <= GM_UM3 + THRUST_UM
    &&& abs_i(k.ay) <= GM_UM3 + THRUST_UM
    &&& abs_i(k.vx) <= MAX_VEL_UM
    &&& abs_i(k.vy) <= MAX_VEL_UM
}

/// The inverse-square law, as the fixed-point force model realises
/// it: with zero thrust the acceleration is directed against the
/// position vector, and each component's magnitude is
/// `G * M / r^2` scaled by that component's share `|c| / r` of the
/// distance, exactly up to the truncation of at most two units.
pub proof fn lemma_gravity_inverse_square(s: SpecState)
    requires
        forcing_defined(s, ThrustCommand::Coast),
    ensures
        ({
            let r = sp_isqrt(r2_of(s));
            let a = spec_forcing(s, ThrustCommand::Coast);
            &&& a.ax * s.x <= 0
            &&& a.ay * s.y <= 0
            &&& abs_i(a.ax) * (r * r * r) <= (GM_UM3 as int) * abs_i(s.x)
            &&& (GM_UM3 as int) * abs_i(s.x) < (abs_i(a.ax) + 2) * (r * r * r)
            &&& abs_i(a.ay) * (r * r * r) <= (GM_UM3 as int) * abs_i(s.y)
            &&& (GM_UM3 as int) * abs_i(s.y) < (abs_i(a.ay) + 2) * (r * r * r)
            &&& a.vx == s.vx
            &&& a.vy == s.vy
        }),
{
    let r = sp_isqrt(r2_of(s));
    lemma_sp_isqrt_pos(r2_of(s));
    assert(s.x * s.x >= 0) by (nonlinear_arith);
    assert(s.y * s.y >= 0) by (nonlinear_arith);
    lemma_component_le_isqrt(s.x, r2_of(s));
    lemma_component_le_isqrt(s.y, r2_of(s));
    lemma_grav_comp_bracket(s.x, r);
    lemma_grav_comp_bracket(s.y, r);
}

/// Bracketing of one truncated gravitational component against the
/// exact real-valued inverse-square term.
proof fn lemma_grav_comp_bracket(c: int, r: int)
    requires
        r >= 1,
        abs_i(c) <= r,
    ensures
        grav_comp(c, r) * c <= 0,
        abs_i(grav_comp(c, r)) * (r * r * r) <= (GM_UM3 as int) * abs_i(c),
        (GM_UM3 as int) * abs_i(c) < (abs_i(grav_comp(c, r)) + 2) * (r * r * r),
{
    let g = GM_UM3 as int;
    let m = abs_i(c);
    lemma_div_mul_le(g, r);
    lemma_div_mul_le(g / r, r);
    let t2 = g / r / r;
    assert(t2 * m >= 0) by (nonlinear_arith)
        requires
            t2 >= 0,
            m >= 0,
    ;
    lemma_div_mul_le(t2 * m, r);
    let a = t2 * m / r;
    assert(abs_i(grav_comp(c, r)) == a && grav_comp(c, r) * c <= 0) by (nonlinear_arith)
        requires
            a >= 0,
            m == abs_i(c),
            grav_comp(c, r) == if c >= 0 {
                -(t2 * c / r)
            } else {
                t2 * (-c) / r
            },
            t2 * m / r == a,
            t2 == g / r / r,
    ;
    crate::num::lemma_div_twice(g, r);
    assert(r * r >= 1) by (nonlinear_arith)
        requires
            r >= 1,
    ;
    lemma_div_mul_le(g, r * r);
    assert(a * (r * r * r) <= g * m && g * m < (a + 2) * (r * r * r)) by (nonlinear_arith)
        requires
            r >= 1,
            0 <= m <= r,
            t2 >= 0,
            a >= 0,
            t2 * (r * r) <= g,
            g < (t2 + 1) * (r * r),
            a * r <= t2 * m,
            t2 * m < (a + 1) * r,
    ;
}

/// What an active thrust command adds to the free derivative: the
/// gravitational part is untouched, and the added term lies along the
/// velocity for a prograde command and against it for a retrograde
/// one, with magnitude `THRUST * |component| / v` exactly up to
/// truncation.
pub proof fn lemma_thrust_decomposition(s: SpecState, cmd: ThrustCommand)
    requires
        forcing_defined(s, cmd),
        thrust_sign(cmd) != 0,
    ensures
        ({
            let v = sp_isqrt(v2_of(s));
            let free = spec_forcing(s, ThrustCommand::Coast);
            let a = spec_forcing(s, cmd);
            &&& a.ax == free.ax + thrust_comp(cmd, s.vx, v)
            &&& a.ay == free.ay + thrust_comp(cmd, s.vy, v)
            &&& a.vx == free.vx
            &&& a.vy == free.vy
            &&& thrust_sign(cmd) == 1 ==> thrust_comp(cmd, s.vx, v) * s.vx >= 0
            &&& thrust_sign(cmd) == 1 ==> thrust_comp(cmd, s.vy, v) * s.vy >= 0
            &&& thrust_sign(cmd) == -1 ==> thrust_comp(cmd, s.vx, v) * s.vx <= 0
            &&& thrust_sign(cmd) == -1 ==> thrust_comp(cmd, s.vy, v) * s.vy <= 0
            &&& thrust_comp(ThrustCommand::Retrograde, s.vx, v) == -thrust_comp(
                ThrustCommand::Prograde,
                s.vx,
                v,
            )
            &&& abs_i(thrust_comp(cmd, s.vx, v)) * v <= (THRUST_UM as int) * abs_i(s.vx)
            &&& (THRUST_UM as int) * abs_i(s.vx) < (abs_i(thrust_comp(cmd, s.vx, v)) + 1) * v
        }),
{
    let v = sp_isqrt(v2_of(s));
    lemma_sp_isqrt_pos(v2_of(s));
    lemma_thrust_comp_bracket(s.vx, v);
    lemma_thrust_comp_bracket(s.vy, v);
}

/// Thrust shifts the rate of change of the squared speed in the
/// commanded direction: the derivative of `v^2 / 2` along a
/// trajectory is `a . v`, and relative to coasting a prograde command
/// never decreases it while a retrograde command never increases it.
pub proof fn lemma_thrust_shifts_speed_derivative(s: SpecState)
    requires
        forcing_defined(s, ThrustCommand::Prograde),
    ensures
        ({
            let free = spec_forcing(s, ThrustCommand::Coast);
            let pro = spec_forcing(s, ThrustCommand::Prograde);
            let retro = spec_forcing(s, ThrustCommand::Retrograde);
            &&& pro.ax * s.vx + pro.ay * s.vy >= free.ax * s.vx + free.ay * s.vy
            &&& retro.ax * s.vx + retro.ay * s.vy <= free.ax * s.vx + free.ay * s.vy
        }),
{
    let v = sp_isqrt(v2_of(s));
    let free = spec_forcing(s, ThrustCommand::Coast);
    let pro = spec_forcing(s, ThrustCommand::Prograde);
    let retro = spec_forcing(s, ThrustCommand::Retrograde);
    let tx = thrust_comp(ThrustCommand::Prograde, s.vx, v);
    let ty = thrust_comp(ThrustCommand::Prograde, s.vy, v);
    lemma_thrust_decomposition(s, ThrustCommand::Prograde);
    lemma_thrust_decomposition(s, ThrustCommand::Retrograde);
    lemma_sp_isqrt_pos(v2_of(s));
    lemma_thrust_comp_bracket(s.vx, v);
    lemma_thrust_comp_bracket(s.vy, v);
    assert(pro.ax * s.vx + pro.ay * s.vy == free.ax * s.vx + free.ay * s.vy + tx * s.vx + ty
        * s.vy) by (nonlinear_arith)
        requires
            pro.ax == free.ax + tx,
            pro.ay == free.ay + ty,
    ;
    assert(retro.ax * s.vx + retro.ay * s.vy == free.ax * s.vx + free.ay * s.vy - (tx * s.vx + ty
        * s.vy)) by (nonlinear_arith)
        requires
            retro.ax == free.ax + -tx,
            retro.ay == free.ay + -ty,
    ;
}

/// Bracketing and sign of one truncated thrust component.
proof fn lemma_thrust_comp_bracket(c: int, v: int)
    requires
        v >= 1,
    ensures
        thrust_comp(ThrustCommand::Prograde, c, v) * c >= 0,
        thrust_comp(ThrustCommand::Retrograde, c, v) == -thrust_comp(
            ThrustCommand::Prograde,
            c,
            v,
        ),
        thrust_comp(ThrustCommand::Retrograde, c, v) * c <= 0,
        abs_i(thrust_comp(ThrustCommand::Prograde, c, v)) == (THRUST_UM as int) * abs_i(c) / v,
        abs_i(thrust_comp(ThrustCommand::Retrograde, c, v)) == (THRUST_UM as int) * abs_i(c) / v,
        abs_i(thrust_comp(ThrustCommand::Prograde, c, v)) * v <= (THRUST_UM as int) * abs_i(c),
        (THRUST_UM as int) * abs_i(c) < (abs_i(thrust_comp(ThrustCommand::Prograde, c, v)) + 1)
            * v,
{
    let th = THRUST_UM as int;
    let m_arg = th * abs_i(c);
    assert(th * abs_i(c) >= 0) by (nonlinear_arith)
        requires
            th >= 0,
            abs_i(c) >= 0,
    ;
    lemma_div_mul_le(m_arg, v);
    let m = m_arg / v;
    assert(thrust_comp(ThrustCommand::Prograde, c, v) * c >= 0 && thrust_comp(
        ThrustCommand::Retrograde,
        c,
        v,
    ) * c <= 0) by (nonlinear_arith)
        requires
            m >= 0,
            thrust_comp(ThrustCommand::Prograde, c, v) == if c >= 0 {
                m
            } else {
                -m
            },
            thrust_comp(ThrustCommand::Retrograde, c, v) == if -c >= 0 {
                m
            } else {
                -m
            },
    ;
}

/// One gravitational component from the precomputed scalar `t2`.
fn grav_component(c: i128, t2: u128, r: u128) -> (g: i128)
    requires
        r >= 1,
        c > i128::MIN,
        abs_i(c as int) <= r as int,
        t2 as int == grav_coeff(r as int),
        (t2 as int) * (r as int) <= GM_UM3,
    ensures
        g as int == grav_comp(c as int, r as int),
        abs_i(g as int) <= GM_UM3,
{
    let mc: u128 = if c >= 0 {
        c as u128
    } else {
        (-c) as u128
    };
    proof {
        lemma_mul_le_mul(t2 as int, mc as int, t2 as int, r as int);
        lemma_div_mul_le((t2 as int) * (mc as int), r as int);
    }
    let p: u128 = t2 * mc;
    let gmag: u128 = p / r;
    if c >= 0 {
        -(gmag as i128)
    } else {
        gmag as i128
    }
}

/// One thrust component along the velocity direction.
fn thrust_component(cmd: ThrustCommand, c: i128, v: u128) -> (t: i128)
    requires
        thrust_sign(cmd) != 0,
        v >= 1,
        c > i128::MIN,
        abs_i(c as int) <= v as int,
        abs_i(c as int) <= MAX_VEL_UM as int,
    ensures
        t as int == thrust_comp(cmd, c as int, v as int),
        abs_i(t as int) <= THRUST_UM,
{
    let mc: u128 = if c >= 0 {
        c as u128
    } else {
        (-c) as u128
    };
    proof {
        lemma_mul_le_mul(THRUST_UM as int, mc as int, THRUST_UM as int, MAX_VEL_UM as int);
        lemma_mul_le_mul(THRUST_UM as int, mc as int, THRUST_UM as int, v as int);
        vstd::arithmetic::div_mod::lemma_div_is_ordered(
            (THRUST_UM as int) * (mc as int),
            (THRUST_UM as int) * (v as int),
            v as int,
        );
        vstd::arithmetic::div_mod::lemma_div_by_multiple(THRUST_UM as int, v as int);
    }
    let p: u128 = (THRUST_UM as u128) * mc;
    let m: u128 = p / v;
    let pos: bool = match cmd {
        ThrustCommand::Prograde => c >= 0,
        _ => c <= 0,
    };
    if pos {
        m as i128
    } else {
        -(m as i128)
    }
}

/// The force model. Returns the derivative of `state` under the
/// command `cmd`, or the error that names the first violated
/// precondition of the physics: a state outside the simulation domain,
/// a position at the origin, or a zero velocity under active thrust.
pub fn forcing(state: &State, cmd: ThrustCommand) -> (res: Result<Forcing, SimError>)
    ensures
        res is Ok <==> forcing_defined(state@, cmd),
        res is Ok ==> res->Ok_0@ == spec_forcing(state@, cmd),
        res is Ok ==> forcing_bounded(res->Ok_0@),
        res is Err ==> res->Err_0 == forcing_err(state@, cmd),
{
    if state.x > MAX_POS_UM || state.x < -MAX_POS_UM || state.y > MAX_POS_UM || state.y
        < -MAX_POS_UM || state.vx > MAX_VEL_UM || state.vx < -MAX_VEL_UM || state.vy > MAX_VEL_UM
        || state.vy < -MAX_VEL_UM {
        return Err(SimError::OutOfBounds);
    }
    proof {
        lemma_mul_le_mul(abs_i(state@.x), abs_i(state@.x), MAX_POS_UM as int, MAX_POS_UM as int);
        lemma_mul_le_mul(abs_i(state@.y), abs_i(state@.y), MAX_POS_UM as int, MAX_POS_UM as int);
        lemma_mul_le_mul(abs_i(state@.vx), abs_i(state@.vx), MAX_VEL_UM as int, MAX_VEL_UM as int);
        lemma_mul_le_mul(abs_i(state@.vy), abs_i(state@.vy), MAX_VEL_UM as int, MAX_VEL_UM as int);
        assert(state@.x * state@.x == abs_i(state@.x) * abs_i(state@.x)) by (nonlinear_arith);
        assert(state@.y * state@.y == abs_i(state@.y) * abs_i(state@.y)) by (nonlinear_arith);
        assert(state@.vx * state@.vx == abs_i(state@.vx) * abs_i(state@.vx)) by (nonlinear_arith);
        assert(state@.vy * state@.vy == abs_i(state@.vy) * abs_i(state@.vy)) by (nonlinear_arith);
    }
    let r2: i128 = state.x * state.x + state.y * state.y;
    if r2 == 0 {
        return Err(SimError::DegeneratePosition);
    }
    let r: u128 = isqrt_u128(r2 as u128);
    proof {
        lemma_sp_isqrt_pos(r2 as int);
        lemma_component_le_isqrt(state@.x, r2 as int);
        lemma_component_le_isqrt(state@.y, r2 as int);
        lemma_div_mul_le(GM_UM3 as int, r as int);
    }
    let t1: u128 = (GM_UM3 as u128) / r;
    proof {
        lemma_div_mul_le(t1 as int, r as int);
    }
    let t2: u128 = t1 / r;
    let gx: i128 = grav_component(state.x, t2, r);
    let gy: i128 = grav_component(state.y, t2, r);
    let tx: i128;
    let ty: i128;
    match cmd {
        ThrustCommand::Coast => {
            tx = 0;
            ty = 0;
        },
        _ => {
            let v2: i128 = state.vx * state.vx + state.vy * state.vy;
            if v2 == 0 {
                return Err(SimError::DegenerateVelocity);
            }
            let v: u128 = isqrt_u128(v2 as u128);
            proof {
                lemma_sp_isqrt_pos(v2 as int);
                lemma_component_le_isqrt(state@.vx, v2 as int);
                lemma_component_le_isqrt(state@.vy, v2 as int);
            }
            tx = thrust_component(cmd, state.vx, v);
            ty = thrust_component(cmd, state.vy, v);
        },
    }
    Ok(Forcing { ax: gx + tx, ay: gy + ty, vx: state.vx, vy: state.vy })
}

} // verus!
