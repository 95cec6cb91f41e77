//! The atomic state word of a raw cell that threads share.
//!
//! [`InitGate`] performs the reads, exchanges and stores of the protocol in
//! [`crate::state`] on a real atomic byte. What another thread writes to the
//! byte is unknown here, so each round promises only that its outcome is the
//! decision of the protocol for some value that the byte held; the caller runs
//! the rounds in a loop, backs off as told, produces the value when it wins the
//! claim, and then calls [`InitGate::complete`] (or [`InitGate::abandon`] if
//! producing the value failed).
use vstd::prelude::*;
use std::sync::atomic::AtomicU8;
use std::sync::atomic::Ordering;
use crate::state;
use crate::state::{decide, exchange_outcome, GateStep, InitAction, INITED, INITING, UNINIT};

verus! {

/// The state word of a cell shared between threads.
pub struct InitGate {
    state: AtomicU8,
}

impl InitGate {
    /// A word that reads [`UNINIT`].
    pub fn new() -> (gate: InitGate) {
        InitGate { state: AtomicU8::new(UNINIT) }
    }

    /// A word that reads [`INITED`], for a cell built with its value.
    pub fn new_initialized() -> (gate: InitGate) {
        InitGate { state: AtomicU8::new(INITED) }
    }

    /// Whether the word reads [`INITED`] now.
    pub fn is_initialized(&self) -> (inited: bool) {
        self.state.load(Ordering::Acquire) == INITED
    }

    /// One round that reads the word first, and tries the claim only when it
    /// read [`UNINIT`].
    pub fn poll(&self, step: u8) -> (outcome: GateStep)
        ensures
            exists|seen: u8, exchanged: Result<u8, u8>|
                outcome == state::spec_poll_outcome(seen, exchanged, step),
    {
        let seen = self.state.load(Ordering::Acquire);
        self.round_after_read(seen, step)
    }

    /// The rest of a read-first round, once the word read `seen`: done only on
    /// [`INITED`], waiting by the round's backoff on [`INITING`], and on
    /// [`UNINIT`] the claimant if the exchange for [`INITING`] takes place.
    pub fn round_after_read(&self, seen: u8, step: u8) -> (outcome: GateStep)
        ensures
            (outcome == GateStep::Ready) <==> seen == INITED,
            seen == INITING ==> outcome == GateStep::Wait(state::spec_backoff(step)),
            outcome == GateStep::Claimed ==> seen == UNINIT,
            seen == UNINIT ==> (outcome == GateStep::Claimed || outcome == GateStep::Retry),
            exists|exchanged: Result<u8, u8>|
                outcome == state::spec_poll_outcome(seen, exchanged, step),
    {
        match decide(seen, step) {
            InitAction::Done => GateStep::Ready,
            InitAction::Claim => {
                let exchanged = self.state.compare_exchange(
                    UNINIT,
                    INITING,
                    Ordering::AcqRel,
                    Ordering::Acquire,
                );
                let outcome = match exchanged {
                    Ok(_) => GateStep::Claimed,
                    Err(_) => GateStep::Retry,
                };
                assert(outcome == state::spec_poll_outcome(seen, exchanged, step));
                outcome
            },
            InitAction::Wait(b) => {
                assert(GateStep::Wait(b) == state::spec_poll_outcome(seen, Ok(seen), step));
                GateStep::Wait(b)
            },
            InitAction::Retry => {
                assert(GateStep::Retry == state::spec_poll_outcome(seen, Ok(seen), step));
                GateStep::Retry
            },
        }
    }

    /// One round that tries the claim at once and decides on the word that a
    /// failed claim returned.
    pub fn exchange(&self, step: u8) -> (outcome: GateStep)
        ensures
            exists|exchanged: Result<u8, u8>| outcome == state::spec_exchange_outcome(exchanged, step),
    {
        let exchanged = self.state.compare_exchange(
            UNINIT,
            INITING,
            Ordering::Acquire,
            Ordering::Acquire,
        );
        exchange_outcome(exchanged, step)
    }

    /// Marks the value as stored; the claimant calls this once it wrote the value.
    pub fn complete(&self) {
        self.state.store(INITED, Ordering::Release);
    }

    /// Gives the claim back after producing the value failed, so that another
    /// caller may try again.
    pub fn abandon(&self) {
        self.state.store(UNINIT, Ordering::Release);
    }
}

/// Tells the processor that the thread busy-waits.
///
/// Wraps `std::hint::spin_loop`, which has no result and no effect on any
/// value; nothing is claimed of it.
#[verifier::external_body]
fn spin_hint() {
    std::hint::spin_loop()
}

/// Busy-waits for `count` rounds, as a [`Backoff::Spin`] asks.
pub fn spin(count: u32) {
    let mut i: u32 = 0;
    while i < count
        invariant
            i <= count,
        decreases count - i,
    {
        spin_hint();
        i = i + 1;
    }
}

} // verus!
