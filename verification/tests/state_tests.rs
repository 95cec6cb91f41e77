use global_cell::state::{
    backoff, decide, exchange_outcome, next_step, Backoff, GateStep, InitAction, InitState,
    INITED, INITING, MAX_SPIN, UNINIT,
};

#[test]
fn codes_are_the_three_protocol_words() {
    assert_eq!(UNINIT, 0);
    assert_eq!(INITING, 1);
    assert_eq!(INITED, 2);
    assert_eq!(MAX_SPIN, 8);
    assert_eq!(InitState::Uninit.code(), 0);
    assert_eq!(InitState::Initing.code(), 1);
    assert_eq!(InitState::Inited.code(), 2);
}

#[test]
fn codes_read_back_as_their_state() {
    for state in [InitState::Uninit, InitState::Initing, InitState::Inited] {
        assert_eq!(InitState::from_code(state.code()), Some(state));
    }
    assert_eq!(InitState::from_code(3), None);
    assert_eq!(InitState::from_code(255), None);
}

#[test]
fn backoff_spins_doubling_then_yields() {
    assert_eq!(backoff(0), Backoff::Spin(1));
    assert_eq!(backoff(1), Backoff::Spin(2));
    assert_eq!(backoff(5), Backoff::Spin(32));
    assert_eq!(backoff(8), Backoff::Spin(256));
    assert_eq!(backoff(9), Backoff::Yield);
    assert_eq!(backoff(255), Backoff::Yield);
}

#[test]
fn step_counter_saturates() {
    assert_eq!(next_step(0), 1);
    assert_eq!(next_step(8), 9);
    assert_eq!(next_step(254), 255);
    assert_eq!(next_step(255), 255);
}

#[test]
fn waiter_yields_after_more_than_max_spin_rounds() {
    let mut step: u8 = 0;
    let mut rounds = 0;
    while backoff(step) != Backoff::Yield {
        step = next_step(step);
        rounds += 1;
    }
    assert_eq!(rounds, MAX_SPIN as u32 + 1);
    for _ in 0..300 {
        step = next_step(step);
        assert_eq!(backoff(step), Backoff::Yield);
    }
}

#[test]
fn decisions_follow_the_observed_word() {
    assert_eq!(decide(INITED, 0), InitAction::Done);
    assert_eq!(decide(INITED, 200), InitAction::Done);
    assert_eq!(decide(UNINIT, 3), InitAction::Claim);
    assert_eq!(decide(INITING, 3), InitAction::Wait(Backoff::Spin(8)));
    assert_eq!(decide(INITING, 12), InitAction::Wait(Backoff::Yield));
    assert_eq!(decide(7, 0), InitAction::Retry);
}

#[test]
fn exchange_outcomes() {
    assert_eq!(exchange_outcome(Ok(UNINIT), 0), GateStep::Claimed);
    assert_eq!(exchange_outcome(Err(INITED), 0), GateStep::Ready);
    assert_eq!(exchange_outcome(Err(INITING), 2), GateStep::Wait(Backoff::Spin(4)));
    assert_eq!(exchange_outcome(Err(INITING), 10), GateStep::Wait(Backoff::Yield));
    assert_eq!(exchange_outcome(Err(UNINIT), 0), GateStep::Retry);
    assert_eq!(exchange_outcome(Err(42), 0), GateStep::Retry);
}
