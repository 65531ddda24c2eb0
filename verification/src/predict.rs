//! The lookahead predictor: a pure forward simulation with no thrust,
//! forecasting where the probe would drift if thrust were released
//! now. It works on a private copy of the state and never touches the
//! body it forecasts for.

use vstd::prelude::*;
use crate::N_LOOKAHEAD;
use crate::rk4::{rk4, rk4_defined, rk4_err, spec_rk4};
use crate::state::{SimError, SpecState, State, ThrustCommand};

verus! {

/// A forecast position, in micrometres.
#[derive(Clone, Copy, PartialEq, Eq, Structural, Debug)]
pub struct Position {
    pub x: i128,
    pub y: i128,
}

impl View for Position {
    type V = (int, int);

    open spec fn view(&self) -> (int, int) {
        (self.x as int, self.y as int)
    }
}

/// The position components of a state.
pub open spec fn pos_of(s: SpecState) -> (int, int) {
    (s.x, s.y)
}

/// The state after `n` free (coasting) steps.
pub open spec fn iterate(s: SpecState, n: nat) -> SpecState
    decreases n,
{
    if n == 0 {
        s
    } else {
        spec_rk4(iterate(s, (n - 1) as nat), ThrustCommand::Coast)
    }
}

/// Whether each of the first `n` free steps is defined.
pub open spec fn chain_ok(s: SpecState, n: nat) -> bool
    decreases n,
{
    if n == 0 {
        true
    } else {
        chain_ok(s, (n - 1) as nat) && rk4_defined(iterate(s, (n - 1) as nat), ThrustCommand::Coast)
    }
}

/// Everything the predictor promises of a result for a start state:
/// on success, exactly `N_LOOKAHEAD` positions, the `i`-th being the
/// position after `i + 1` free steps; on failure, the error of the
/// first free step at which the integrator is undefined.
pub open spec fn predict_post(s: SpecState, r: Result<Seq<(int, int)>, SimError>) -> bool {
    match r {
        Ok(ps) => {
            &&& chain_ok(s, N_LOOKAHEAD as nat)
            &&& ps.len() == N_LOOKAHEAD
            &&& forall|i: int|
                0 <= i < N_LOOKAHEAD ==> ps[i] == pos_of(iterate(s, (i + 1) as nat))
        },
        Err(e) => exists|k: nat|
            {
                &&& k < N_LOOKAHEAD
                &&& chain_ok(s, k)
                &&& !rk4_defined(iterate(s, k), ThrustCommand::Coast)
                &&& e == rk4_err(iterate(s, k), ThrustCommand::Coast)
            },
    }
}

/// The mathematical value of a predictor result.
pub open spec fn predict_view(r: Result<Vec<Position>, SimError>) -> Result<
    Seq<(int, int)>,
    SimError,
> {
    match r {
        Ok(v) => Ok(v@.map_values(|p: Position| p@)),
        Err(e) => Err(e),
    }
}

/// Forecasts the next `N_LOOKAHEAD` positions of a probe at `state`,
/// assuming no further thrust. The input is only read; the forward
/// simulation runs on a local copy.
pub fn predict(state: &State) -> (res: Result<Vec<Position>, SimError>)
    ensures
        predict_post(state@, predict_view(res)),
{
    let mut cur: State = *state;
    let mut out: Vec<Position> = Vec::new();
    let mut i: usize = 0;
    while i < N_LOOKAHEAD
        invariant
            i <= N_LOOKAHEAD,
            chain_ok(state@, i as nat),
            cur@ == iterate(state@, i as nat),
            out@.len() == i,
            forall|j: int|
                0 <= j < i ==> out@[j]@ == pos_of(iterate(state@, (j + 1) as nat)),
        decreases N_LOOKAHEAD - i,
    {
        match rk4(&cur, ThrustCommand::Coast) {
            Ok(s2) => {
                cur = s2;
                out.push(Position { x: s2.x, y: s2.y });
                i += 1;
            },
            Err(e) => {
                proof {
                    let k: nat = i as nat;
                    assert(k < N_LOOKAHEAD && chain_ok(state@, k) && !rk4_defined(
                        iterate(state@, k),
                        ThrustCommand::Coast,
                    ) && e == rk4_err(iterate(state@, k), ThrustCommand::Coast));
                }
                return Err(e);
            },
        }
    }
    Ok(out)
}

/// The chain of free steps is monotone: if `n` steps are defined, so
/// is every earlier step.
pub proof fn lemma_chain_ok_prefix(s: SpecState, n: nat, k: nat)
    requires
        chain_ok(s, n),
        k < n,
    ensures
        chain_ok(s, k),
        rk4_defined(iterate(s, k), ThrustCommand::Coast),
    decreases n,
{
    if k + 1 < n {
        lemma_chain_ok_prefix(s, (n - 1) as nat, k);
    }
}

/// The predictor is a pure function of its input: any two results its
/// contract admits for the same start state are equal. Together with
/// the by-reference signature of `predict`, this is the sense in which
/// prediction never perturbs the simulation and calling it twice
/// yields identical forecasts.
pub proof fn lemma_predict_deterministic(
    s: SpecState,
    r1: Result<Seq<(int, int)>, SimError>,
    r2: Result<Seq<(int, int)>, SimError>,
)
    requires
        predict_post(s, r1),
        predict_post(s, r2),
    ensures
        r1 == r2,
{
    match (r1, r2) {
        (Ok(p1), Ok(p2)) => {
            assert(p1 =~= p2);
        },
        (Ok(p1), Err(e2)) => {
            let k2 = choose|k: nat|
                k < N_LOOKAHEAD && chain_ok(s, k) && !rk4_defined(
                    iterate(s, k),
                    ThrustCommand::Coast,
                ) && e2 == rk4_err(iterate(s, k), ThrustCommand::Coast);
            lemma_chain_ok_prefix(s, N_LOOKAHEAD as nat, k2);
        },
        (Err(e1), Ok(p2)) => {
            let k1 = choose|k: nat|
                k < N_LOOKAHEAD && chain_ok(s, k) && !rk4_defined(
                    iterate(s, k),
                    ThrustCommand::Coast,
                ) && e1 == rk4_err(iterate(s, k), ThrustCommand::Coast);
            lemma_chain_ok_prefix(s, N_LOOKAHEAD as nat, k1);
        },
        (Err(e1), Err(e2)) => {
            let k1 = choose|k: nat|
                k < N_LOOKAHEAD && chain_ok(s, k) && !rk4_defined(
                    iterate(s, k),
                    ThrustCommand::Coast,
                ) && e1 == rk4_err(iterate(s, k), ThrustCommand::Coast);
            let k2 = choose|k: nat|
                k < N_LOOKAHEAD && chain_ok(s, k) && !rk4_defined(
                    iterate(s, k),
                    ThrustCommand::Coast,
                ) && e2 == rk4_err(iterate(s, k), ThrustCommand::Coast);
            if k1 < k2 {
                lemma_chain_ok_prefix(s, k2, k1);
            } else if k2 < k1 {
                lemma_chain_ok_prefix(s, k1, k2);
            }
        },
    }
}

} // verus!
