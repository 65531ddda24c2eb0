use orbit::force::forcing;
use orbit::state::{SimError, State, ThrustCommand, thrust_from_keys};

// A state at the altitude of a low orbit: 6_779_000 m from the centre,
// moving tangentially at 8_426 m/s. Units are micrometres.
fn iss_state() -> State {
    State::new(0, 6_779_000_000_000, 8_426_000_000, 0)
}

#[test]
fn gravity_at_orbit_altitude() {
    // G*M / r^2 at r = 6.779e6 m is 8.673497... m/s^2; the fixed-point
    // model truncates to 8_673_497 um/s^2, directed straight down.
    let f = forcing(&iss_state(), ThrustCommand::Coast).unwrap();
    assert_eq!(f.ax, 0);
    assert_eq!(f.ay, -8_673_497);
    assert_eq!(f.vx, 8_426_000_000);
    assert_eq!(f.vy, 0);
}

#[test]
fn gravity_opposes_position() {
    let s = State::new(3_000_000_000_000, 4_000_000_000_000, 1_000_000_000, 2_000_000_000);
    let f = forcing(&s, ThrustCommand::Coast).unwrap();
    assert_eq!(f.ax, -9_566_140);
    assert_eq!(f.ay, -12_754_853);
    assert!(f.ax * s.x < 0);
    assert!(f.ay * s.y < 0);
}

#[test]
fn prograde_thrust_adds_tangential_term() {
    // v = 5e9 um/s, so the thrust term is (2e6 * vx / v, 2e6 * vy / v)
    // = (894_427, 1_788_854) um/s^2 on top of the gravitational part.
    let s = State::new(3_000_000_000_000, 4_000_000_000_000, 1_000_000_000, 2_000_000_000);
    let free = forcing(&s, ThrustCommand::Coast).unwrap();
    let pro = forcing(&s, ThrustCommand::Prograde).unwrap();
    assert_eq!(pro.ax, -8_671_713);
    assert_eq!(pro.ay, -10_965_999);
    assert_eq!(pro.ax - free.ax, 894_427);
    assert_eq!(pro.ay - free.ay, 1_788_854);
}

#[test]
fn retrograde_thrust_mirrors_prograde() {
    let s = State::new(3_000_000_000_000, 4_000_000_000_000, 1_000_000_000, 2_000_000_000);
    let free = forcing(&s, ThrustCommand::Coast).unwrap();
    let pro = forcing(&s, ThrustCommand::Prograde).unwrap();
    let retro = forcing(&s, ThrustCommand::Retrograde).unwrap();
    assert_eq!(retro.ax, -10_460_567);
    assert_eq!(retro.ay, -14_543_707);
    assert_eq!(retro.ax - free.ax, -(pro.ax - free.ax));
    assert_eq!(retro.ay - free.ay, -(pro.ay - free.ay));
}

#[test]
fn position_at_origin_fails_fast() {
    let s = State::new(0, 0, 1_000_000_000, 2_000_000_000);
    assert_eq!(forcing(&s, ThrustCommand::Coast), Err(SimError::DegeneratePosition));
    assert_eq!(forcing(&s, ThrustCommand::Prograde), Err(SimError::DegeneratePosition));
}

#[test]
fn zero_velocity_under_thrust_fails_fast() {
    let s = State::new(6_779_000_000_000, 0, 0, 0);
    assert_eq!(forcing(&s, ThrustCommand::Prograde), Err(SimError::DegenerateVelocity));
    assert_eq!(forcing(&s, ThrustCommand::Retrograde), Err(SimError::DegenerateVelocity));
    // Without thrust a resting probe still has a well-defined derivative.
    assert!(forcing(&s, ThrustCommand::Coast).is_ok());
}

#[test]
fn state_outside_domain_is_rejected() {
    let s = State::new(2_000_000_000_000_000_000, 0, 1_000_000_000, 0);
    assert_eq!(forcing(&s, ThrustCommand::Coast), Err(SimError::OutOfBounds));
    let s = State::new(0, 6_779_000_000_000, 2_000_000_000_000_000, 0);
    assert_eq!(forcing(&s, ThrustCommand::Coast), Err(SimError::OutOfBounds));
}

#[test]
fn thrust_keys_retrograde_wins_when_both_pressed() {
    assert_eq!(thrust_from_keys(false, false), ThrustCommand::Coast);
    assert_eq!(thrust_from_keys(true, false), ThrustCommand::Prograde);
    assert_eq!(thrust_from_keys(false, true), ThrustCommand::Retrograde);
    assert_eq!(thrust_from_keys(true, true), ThrustCommand::Retrograde);
}
