//! A simulated probe: identity and mass carried as inert metadata, the
//! current state, and the trail of recent states, advanced one tick at
//! a time.

use vstd::prelude::*;
use crate::history::{StateHistory, push_model};
use crate::rk4::{rk4, rk4_defined, rk4_err, spec_rk4};
use crate::state::{SimError, SpecState, State, ThrustCommand};

verus! {

/// One simulated probe. The mass does not enter the force model (the
/// probe is treated as massless next to the central body); it and the
/// id are carried for the presentation layer.
pub struct Body {
    pub id: usize,
    pub mass: i128,
    pub current_state: State,
    pub history: StateHistory,
}

impl Body {
    /// The history never exceeds its capacity.
    pub open spec fn wf(&self) -> bool {
        self.history.wf()
    }

    /// A body from its identity, mass, and initial position and
    /// velocity components, with an empty history.
    pub fn new(id: usize, mass: i128, x0: i128, y0: i128, vx0: i128, vy0: i128) -> (b: Body)
        ensures
            b.id == id,
            b.mass == mass,
            b.current_state@ == (SpecState {
                x: x0 as int,
                y: y0 as int,
                vx: vx0 as int,
                vy: vy0 as int,
            }),
            b.history@ == Seq::<SpecState>::empty(),
            b.wf(),
    {
        let current_state = State::new(x0, y0, vx0, vy0);
        Body { id, mass, current_state, history: StateHistory::new() }
    }

    /// Records the current state as the newest history entry.
    pub fn update_history(&mut self)
        requires
            old(self).wf(),
        ensures
            final(self).history@ == push_model(old(self).history@, old(self).current_state@),
            final(self).current_state == old(self).current_state,
            final(self).id == old(self).id,
            final(self).mass == old(self).mass,
            final(self).wf(),
    {
        let s: State = self.current_state;
        self.history.push(&s);
    }

    /// One simulation tick: advances the current state by one
    /// Runge-Kutta step under `cmd` and records the new state in the
    /// history. Returns the new state together with a snapshot of the
    /// history for drawing. On failure the body is left exactly as it
    /// was and the integrator's error is returned.
    pub fn advance(&mut self, cmd: ThrustCommand) -> (res: Result<(State, Vec<State>), SimError>)
        requires
            old(self).wf(),
        ensures
            final(self).wf(),
            final(self).id == old(self).id,
            final(self).mass == old(self).mass,
            res is Ok <==> rk4_defined(old(self).current_state@, cmd),
            res is Ok ==> final(self).current_state@ == spec_rk4(old(self).current_state@, cmd),
            res is Ok ==> final(self).history@ == push_model(
                old(self).history@,
                spec_rk4(old(self).current_state@, cmd),
            ),
            res is Ok ==> res->Ok_0.0 == final(self).current_state,
            res is Ok ==> res->Ok_0.1@.map_values(|s: State| s@) == final(self).history@,
            res is Err ==> *final(self) == *old(self),
            res is Err ==> res->Err_0 == rk4_err(old(self).current_state@, cmd),
    {
        match rk4(&self.current_state, cmd) {
            Ok(s2) => {
                self.current_state = s2;
                self.history.push(&s2);
                let snap: Vec<State> = self.history.read();
                Ok((s2, snap))
            },
            Err(e) => Err(e),
        }
    }
}

} // verus!
