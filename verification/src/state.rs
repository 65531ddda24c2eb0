//! The state of the simulated probe, its derivative, the discrete
//! thrust command, and the errors the simulation can report.
//!
//! Every exec type has a ghost model with unbounded integer fields;
//! contracts are stated over those models.

use vstd::prelude::*;

verus! {

/// Ghost model of a probe state: position and velocity components as
/// mathematical integers (micrometres, micrometres per second).
pub ghost struct SpecState {
    pub x: int,
    pub y: int,
    pub vx: int,
    pub vy: int,
}

/// Ghost model of a state derivative: acceleration components and the
/// velocity that feeds the position's rate of change.
pub ghost struct SpecForcing {
    pub ax: int,
    pub ay: int,
    pub vx: int,
    pub vy: int,
}

/// Position (micrometres) and velocity (micrometres per second) of the
/// probe in the plane centred on the massive body.
#[derive(Clone, Copy, PartialEq, Eq, Structural, Debug)]
pub struct State {
    pub x: i128,
    pub y: i128,
    pub vx: i128,
    pub vy: i128,
}

impl View for State {
    type V = SpecState;

    open spec fn view(&self) -> SpecState {
        SpecState { x: self.x as int, y: self.y as int, vx: self.vx as int, vy: self.vy as int }
    }
}

impl State {
    /// A state from its position and velocity components.
    pub fn new(x0: i128, y0: i128, vx0: i128, vy0: i128) -> (s: State)
        ensures
            s@ == (SpecState { x: x0 as int, y: y0 as int, vx: vx0 as int, vy: vy0 as int }),
    {
        State { x: x0, y: y0, vx: vx0, vy: vy0 }
    }
}

/// The rate of change of a `State`: acceleration, plus the state's own
/// velocity standing as the position's derivative.
#[derive(Clone, Copy, PartialEq, Eq, Structural, Debug)]
pub struct Forcing {
    pub ax: i128,
    pub ay: i128,
    pub vx: i128,
    pub vy: i128,
}

impl View for Forcing {
    type V = SpecForcing;

    open spec fn view(&self) -> SpecForcing {
        SpecForcing {
            ax: self.ax as int,
            ay: self.ay as int,
            vx: self.vx as int,
            vy: self.vy as int,
        }
    }
}

/// The discrete control input: thrust against the velocity, none, or
/// along it.
#[derive(Clone, Copy, PartialEq, Eq, Structural, Debug)]
pub enum ThrustCommand {
    Retrograde,
    Coast,
    Prograde,
}

/// The sign with which a command scales the fixed thrust magnitude.
pub open spec fn thrust_sign(cmd: ThrustCommand) -> int {
    match cmd {
        ThrustCommand::Retrograde => -1,
        ThrustCommand::Coast => 0,
        ThrustCommand::Prograde => 1,
    }
}

/// Why the force model or the integrator refused a state.
#[derive(Clone, Copy, PartialEq, Eq, Structural, Debug)]
pub enum SimError {
    /// The position vector is zero: the inverse-square law divides by
    /// its magnitude.
    DegeneratePosition,
    /// The velocity vector is zero while a thrust command is active:
    /// the tangential thrust divides by the speed.
    DegenerateVelocity,
    /// A state component left the simulation domain within which the
    /// fixed-point arithmetic is exact.
    OutOfBounds,
}

/// The command the presentation layer derives from its two directional
/// keys; when both are pressed, the retrograde key wins because it is
/// examined last.
pub fn thrust_from_keys(up_pressed: bool, down_pressed: bool) -> (cmd: ThrustCommand)
    ensures
        cmd == (if down_pressed {
            ThrustCommand::Retrograde
        } else if up_pressed {
            ThrustCommand::Prograde
        } else {
            ThrustCommand::Coast
        }),
{
    let mut cmd = ThrustCommand::Coast;
    if up_pressed {
        cmd = ThrustCommand::Prograde;
    }
    if down_pressed {
        cmd = ThrustCommand::Retrograde;
    }
    cmd
}

/// The model-level linear combination `s + c * k`: the derivative's
/// velocity slot feeds the position, its acceleration slot feeds the
/// velocity.
pub open spec fn add_scaled(s: SpecState, c: int, k: SpecForcing) -> SpecState {
    SpecState {
        x: s.x + c * k.vx,
        y: s.y + c * k.vy,
        vx: s.vx + c * k.ax,
        vy: s.vy + c * k.ay,
    }
}

/// Pairwise sum of two derivatives.
pub open spec fn add_forcing(a: SpecForcing, b: SpecForcing) -> SpecForcing {
    SpecForcing { ax: a.ax + b.ax, ay: a.ay + b.ay, vx: a.vx + b.vx, vy: a.vy + b.vy }
}

/// A derivative scaled by an integer factor.
pub open spec fn scale_forcing(c: int, k: SpecForcing) -> SpecForcing {
    SpecForcing { ax: c * k.ax, ay: c * k.ay, vx: c * k.vx, vy: c * k.vy }
}

impl State {
    /// The state advanced by `c` times the derivative `k`,
    /// componentwise.
    pub fn add_scaled_by(&self, c: i128, k: &Forcing) -> (s: State)
        requires
            i128::MIN <= c * k@.vx <= i128::MAX,
            i128::MIN <= c * k@.vy <= i128::MAX,
            i128::MIN <= c * k@.ax <= i128::MAX,
            i128::MIN <= c * k@.ay <= i128::MAX,
            i128::MIN <= self@.x + c * k@.vx <= i128::MAX,
            i128::MIN <= self@.y + c * k@.vy <= i128::MAX,
            i128::MIN <= self@.vx + c * k@.ax <= i128::MAX,
            i128::MIN <= self@.vy + c * k@.ay <= i128::MAX,
        ensures
            s@ == add_scaled(self@, c as int, k@),
    {
        State {
            x: self.x + c * k.vx,
            y: self.y + c * k.vy,
            vx: self.vx + c * k.ax,
            vy: self.vy + c * k.ay,
        }
    }
}

impl Forcing {
    /// Pairwise sum with another derivative.
    pub fn plus(&self, o: &Forcing) -> (k: Forcing)
        requires
            i128::MIN <= self@.ax + o@.ax <= i128::MAX,
            i128::MIN <= self@.ay + o@.ay <= i128::MAX,
            i128::MIN <= self@.vx + o@.vx <= i128::MAX,
            i128::MIN <= self@.vy + o@.vy <= i128::MAX,
        ensures
            k@ == add_forcing(self@, o@),
    {
        Forcing {
            ax: self.ax + o.ax,
            ay: self.ay + o.ay,
            vx: self.vx + o.vx,
            vy: self.vy + o.vy,
        }
    }

    /// This derivative scaled by an integer factor.
    pub fn scaled(&self, c: i128) -> (k: Forcing)
        requires
            i128::MIN <= c * self@.ax <= i128::MAX,
            i128::MIN <= c * self@.ay <= i128::MAX,
            i128::MIN <= c * self@.vx <= i128::MAX,
            i128::MIN <= c * self@.vy <= i128::MAX,
        ensures
            k@ == scale_forcing(c as int, self@),
    {
        Forcing { ax: c * self.ax, ay: c * self.ay, vx: c * self.vx, vy: c * self.vy }
    }
}

} // verus!
