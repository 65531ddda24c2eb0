//! The trajectory history buffer: a fixed-capacity record of the most
//! recently pushed states, newest first.

use vstd::prelude::*;
use crate::N_HISTORY;
use crate::state::{SpecState, State};

verus! {

/// The model of one push: the new state at the front, older entries
/// shifted back, the oldest entry beyond capacity discarded.
pub open spec fn push_model(h: Seq<SpecState>, s: SpecState) -> Seq<SpecState> {
    if h.len() < N_HISTORY {
        seq![s] + h
    } else {
        (seq![s] + h).take(N_HISTORY as int)
    }
}

/// The model of pushing a whole sequence of states in order.
pub open spec fn push_all(h: Seq<SpecState>, xs: Seq<SpecState>) -> Seq<SpecState>
    decreases xs.len(),
{
    if xs.len() == 0 {
        h
    } else {
        push_all(push_model(h, xs[0]), xs.drop_first())
    }
}

/// Fixed-capacity record of up to `N_HISTORY` recent states, newest
/// first. Entries before the first push are absent, not
/// zero-initialized.
pub struct StateHistory {
    states: Vec<State>,
}

impl View for StateHistory {
    type V = Seq<SpecState>;

    closed spec fn view(&self) -> Seq<SpecState> {
        self.states@.map_values(|s: State| s@)
    }
}

impl StateHistory {
    /// The buffer never holds more than its capacity.
    pub open spec fn wf(&self) -> bool {
        self@.len() <= N_HISTORY
    }

    /// An empty history.
    pub fn new() -> (h: StateHistory)
        ensures
            h@ == Seq::<SpecState>::empty(),
            h.wf(),
    {
        StateHistory { states: Vec::new() }
    }

    /// How many states are held.
    pub fn len(&self) -> (n: usize)
        ensures
            n == self@.len(),
    {
        self.states.len()
    }

    /// Records `s` as the most recent state, discarding the oldest
    /// entry if the buffer is full.
    pub fn push(&mut self, s: &State)
        requires
            old(self).wf(),
        ensures
            final(self)@ == push_model(old(self)@, s@),
            final(self).wf(),
    {
        let mut v: Vec<State> = Vec::new();
        v.push(*s);
        let keep: usize = if self.states.len() < N_HISTORY - 1 {
            self.states.len()
        } else {
            N_HISTORY - 1
        };
        let mut i: usize = 0;
        while i < keep
            invariant
                keep <= self.states.len(),
                i <= keep,
                v@.len() == i + 1,
                v@[0] == *s,
                forall|j: int| 0 <= j < i ==> v@[j + 1] == self.states@[j],
            decreases keep - i,
        {
            let st: State = self.states[i];
            v.push(st);
            i += 1;
        }
        self.states = v;
        proof {
            assert(self@ =~= push_model(old(self)@, s@));
        }
    }

    /// The held states, newest first, as a plain vector for a consumer
    /// to draw.
    pub fn read(&self) -> (r: Vec<State>)
        ensures
            r@.map_values(|s: State| s@) == self@,
            r@.len() == self@.len(),
    {
        let mut r: Vec<State> = Vec::new();
        let mut i: usize = 0;
        while i < self.states.len()
            invariant
                i <= self.states.len(),
                r@.len() == i,
                forall|j: int| 0 <= j < i ==> r@[j] == self.states@[j],
            decreases self.states.len() - i,
        {
            let st: State = self.states[i];
            r.push(st);
            i += 1;
        }
        proof {
            assert(r@ =~= self.states@);
        }
        r
    }
}

/// After pushing the states `xs` in order onto any well-formed start,
/// the buffer holds `min(start + pushed, N_HISTORY)` entries; the
/// first `min(pushed, N_HISTORY)` of them are the last pushed states
/// in reverse push order, and any remaining entries are the untouched
/// front of the start.
pub proof fn lemma_push_all(h: Seq<SpecState>, xs: Seq<SpecState>)
    requires
        h.len() <= N_HISTORY,
    ensures
        push_all(h, xs).len() == if h.len() + xs.len() <= N_HISTORY {
            (h.len() + xs.len()) as int
        } else {
            N_HISTORY as int
        },
        forall|i: int|
            0 <= i < xs.len() && i < N_HISTORY ==> push_all(h, xs)[i] == xs[xs.len() - 1 - i],
        forall|i: int|
            xs.len() <= i < push_all(h, xs).len() ==> push_all(h, xs)[i] == h[i - xs.len()],
    decreases xs.len(),
{
    if xs.len() > 0 {
        lemma_push_all(push_model(h, xs[0]), xs.drop_first());
    }
}

/// After pushing `M >= N_HISTORY` states, the buffer holds exactly
/// `N_HISTORY` entries, equal to the last `N_HISTORY` pushed states in
/// reverse push order.
pub proof fn lemma_history_newest_first(h: Seq<SpecState>, xs: Seq<SpecState>)
    requires
        h.len() <= N_HISTORY,
        xs.len() >= N_HISTORY,
    ensures
        push_all(h, xs).len() == N_HISTORY,
        forall|i: int| 0 <= i < N_HISTORY ==> push_all(h, xs)[i] == xs[xs.len() - 1 - i],
{
    lemma_push_all(h, xs);
}

} // verus!
