use session_manager::{Admission, Gate};

#[test]
fn gate_opens_once() {
    let mut gate = Gate::new();
    assert_eq!(gate, Gate::NotActivated);
    assert_eq!(gate.acquire(), Admission::Wait);
    assert!(!gate.is_open());
    gate.grant();
    assert_eq!(gate, Gate::Open);
    assert_eq!(gate.acquire(), Admission::Enter);
    gate.grant();
    assert_eq!(gate, Gate::Open);
    assert!(gate.is_open());
}

#[test]
fn closed_gate_stays_closed() {
    let mut gate = Gate::new();
    gate.close();
    assert_eq!(gate.acquire(), Admission::Refused);
    gate.grant();
    assert_eq!(gate, Gate::Closed);
    assert_eq!(gate.acquire(), Admission::Refused);
    let mut gate = Gate::Open;
    gate.close();
    gate.close();
    assert_eq!(gate, Gate::Closed);
    assert!(!gate.is_open());
    assert!(gate.is_activated());
    assert!(Gate::Open.is_activated());
    assert!(!Gate::new().is_activated());
}
