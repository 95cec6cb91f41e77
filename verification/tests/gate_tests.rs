use global_cell::gate::{spin, InitGate};
use global_cell::state::{Backoff, GateStep};

#[test]
fn first_poll_claims_and_later_ones_wait() {
    let gate = InitGate::new();
    assert!(!gate.is_initialized());
    assert_eq!(gate.poll(0), GateStep::Claimed);
    assert_eq!(gate.poll(0), GateStep::Wait(Backoff::Spin(1)));
    assert_eq!(gate.poll(9), GateStep::Wait(Backoff::Yield));
    assert_eq!(gate.exchange(1), GateStep::Wait(Backoff::Spin(2)));
    assert!(!gate.is_initialized());
}

#[test]
fn completed_gate_is_ready_for_everyone() {
    let gate = InitGate::new();
    assert_eq!(gate.exchange(0), GateStep::Claimed);
    gate.complete();
    assert!(gate.is_initialized());
    for step in 0..20u8 {
        assert_eq!(gate.poll(step), GateStep::Ready);
        assert_eq!(gate.exchange(step), GateStep::Ready);
    }
}

#[test]
fn initialized_gate_starts_ready() {
    let gate = InitGate::new_initialized();
    assert!(gate.is_initialized());
    assert_eq!(gate.poll(0), GateStep::Ready);
}

#[test]
fn only_the_first_of_many_callers_claims() {
    // Many callers race for the claim; only the first one produces the value.
    let gate = InitGate::new();
    let mut value = None;
    let mut claims = 0;
    for caller in 0..150u32 {
        match gate.poll(0) {
            GateStep::Claimed => {
                claims += 1;
                value = Some(42 + caller);
                gate.complete();
            }
            GateStep::Ready => {}
            other => panic!("unexpected round outcome {:?}", other),
        }
    }
    assert_eq!(claims, 1);
    assert_eq!(value, Some(42));
}

#[test]
fn abandoned_claim_can_be_claimed_again() {
    // A claimant whose initializer fails gives the claim back; a later caller
    // claims again and completes.
    let gate = InitGate::new();
    assert_eq!(gate.poll(0), GateStep::Claimed);
    gate.abandon();
    assert!(!gate.is_initialized());
    assert_eq!(gate.poll(0), GateStep::Claimed);
    gate.complete();
    assert!(gate.is_initialized());
    assert_eq!(gate.poll(0), GateStep::Ready);
}

#[test]
fn spinning_returns() {
    spin(0);
    spin(256);
}
