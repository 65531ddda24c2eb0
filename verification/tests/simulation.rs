use orbit::N_HISTORY;
use orbit::N_LOOKAHEAD;
use orbit::body::Body;
use orbit::history::StateHistory;
use orbit::predict::predict;
use orbit::rk4::rk4;
use orbit::state::{SimError, State, ThrustCommand};

fn iss_state() -> State {
    State::new(0, 6_779_000_000_000, 8_426_000_000, 0)
}

#[test]
fn one_step_golden_values() {
    // One 10 s step from {x: 0 m, y: 6_779_000 m, vx: 8_426 m/s,
    // vy: 0} without thrust: x grows by roughly vx * dt, y sinks a
    // few hundred metres, exactly as the fixed-point integrator
    // computes it.
    let s1 = rk4(&iss_state(), ThrustCommand::Coast).unwrap();
    assert_eq!(s1.x, 84_258_203_250);
    assert_eq!(s1.y, 6_778_566_332_667);
    assert_eq!(s1.vx, 8_425_460_984);
    assert_eq!(s1.vy, -86_731_966);
    assert!(s1.x > 0);
    assert!(s1.y < 6_779_000_000_000);
}

#[test]
fn circular_orbit_keeps_radius_over_one_period() {
    // Circular orbital speed at r = 6_779_000 m is 7_667.961866 m/s;
    // the period is about 5_555 s, i.e. 555 steps of 10 s. The orbit
    // radius must stay within 0.1 % of its initial value throughout.
    let r0 = 6_779_000_000_000f64;
    let mut s = State::new(0, 6_779_000_000_000, 7_667_961_866, 0);
    for _ in 0..555 {
        s = rk4(&s, ThrustCommand::Coast).unwrap();
        let r = ((s.x as f64) * (s.x as f64) + (s.y as f64) * (s.y as f64)).sqrt();
        assert!((r - r0).abs() / r0 < 0.001);
    }
}

#[test]
fn prograde_thrust_increases_speed() {
    let mut with_thrust = iss_state();
    let mut coasting = iss_state();
    for _ in 0..100 {
        with_thrust = rk4(&with_thrust, ThrustCommand::Prograde).unwrap();
        coasting = rk4(&coasting, ThrustCommand::Coast).unwrap();
    }
    let v2_thrust = with_thrust.vx * with_thrust.vx + with_thrust.vy * with_thrust.vy;
    let v2_coast = coasting.vx * coasting.vx + coasting.vy * coasting.vy;
    assert!(v2_thrust > v2_coast);
}

#[test]
fn predict_returns_exactly_l_entries() {
    let path = predict(&iss_state()).unwrap();
    assert_eq!(path.len(), N_LOOKAHEAD);
    // The first forecast entry is one free step ahead.
    let s1 = rk4(&iss_state(), ThrustCommand::Coast).unwrap();
    assert_eq!(path[0].x, s1.x);
    assert_eq!(path[0].y, s1.y);
}

#[test]
fn predict_is_deterministic_and_pure() {
    let s = iss_state();
    let first = predict(&s).unwrap();
    let second = predict(&s).unwrap();
    assert_eq!(first, second);
    // The input state is untouched by the forward simulation.
    assert_eq!(s, iss_state());
}

#[test]
fn predict_reports_degenerate_start() {
    let s = State::new(0, 0, 1_000_000_000, 0);
    assert_eq!(predict(&s), Err(SimError::DegeneratePosition));
}

#[test]
fn history_holds_fewer_entries_before_filling() {
    let mut h = StateHistory::new();
    for i in 0..3i128 {
        h.push(&State::new(i, i, i, i));
    }
    let r = h.read();
    assert_eq!(r.len(), 3);
    assert_eq!(r[0], State::new(2, 2, 2, 2));
    assert_eq!(r[1], State::new(1, 1, 1, 1));
    assert_eq!(r[2], State::new(0, 0, 0, 0));
}

#[test]
fn history_keeps_last_n_newest_first() {
    // After 30 pushes into a buffer of 21, exactly the last 21 pushed
    // states remain, in reverse push order.
    let mut h = StateHistory::new();
    for i in 0..30i128 {
        h.push(&State::new(i, 2 * i, 3 * i, 4 * i));
    }
    let r = h.read();
    assert_eq!(r.len(), N_HISTORY);
    for (j, s) in r.iter().enumerate() {
        let i = 29 - j as i128;
        assert_eq!(*s, State::new(i, 2 * i, 3 * i, 4 * i));
    }
}

#[test]
fn advance_steps_state_and_records_history() {
    let mut b = Body::new(1, 1, 0, 6_779_000_000_000, 8_426_000_000, 0);
    let (s1, snapshot) = b.advance(ThrustCommand::Coast).unwrap();
    let expected = rk4(&iss_state(), ThrustCommand::Coast).unwrap();
    assert_eq!(s1, expected);
    assert_eq!(b.current_state, expected);
    assert_eq!(snapshot.len(), 1);
    assert_eq!(snapshot[0], expected);
    let (s2, snapshot) = b.advance(ThrustCommand::Coast).unwrap();
    assert_eq!(snapshot.len(), 2);
    assert_eq!(snapshot[0], s2);
    assert_eq!(snapshot[1], s1);
}

#[test]
fn advance_failure_leaves_body_untouched() {
    let mut b = Body::new(7, 1, 0, 0, 1_000_000_000, 0);
    let res = b.advance(ThrustCommand::Coast);
    assert_eq!(res, Err(SimError::DegeneratePosition));
    assert_eq!(b.current_state, State::new(0, 0, 1_000_000_000, 0));
    assert_eq!(b.history.read().len(), 0);
    assert_eq!(b.id, 7);
    assert_eq!(b.mass, 1);
}

#[test]
fn update_history_records_current_state() {
    let mut b = Body::new(1, 1, 0, 6_779_000_000_000, 8_426_000_000, 0);
    b.update_history();
    let r = b.history.read();
    assert_eq!(r.len(), 1);
    assert_eq!(r[0], b.current_state);
}
