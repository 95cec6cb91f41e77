//! The initialization protocol as a whole, across the callers that share one
//! cell: its state (the word, and the caller that holds the claim), the steps
//! that callers take on it, and the laws that every run of steps keeps.
//!
//! A round of [`crate::gate::InitGate`] is one of these steps: `poll` reads the
//! word and, on [`UNINIT`], claims; `exchange` claims at once; the claimant
//! then completes or abandons. What a claim returns is decided on by
//! `spec_exchange_outcome` in [`crate::state`].
use vstd::prelude::*;
use crate::state;
use crate::state::{GateStep, InitState, INITED, INITING, UNINIT};

verus! {

/// The shared state of a cell's initialization: the state word, and the
/// caller that holds the claim, if any.
pub struct ProtocolState {
    pub word: u8,
    pub claimant: Option<u64>,
}

/// A step that one caller takes.
pub enum ProtocolStep {
    /// Reads the word.
    Read,
    /// Tries to exchange [`UNINIT`] for [`INITING`].
    Claim,
    /// Marks the value as stored; only the claimant's takes effect.
    Complete,
    /// Gives the claim back; only the claimant's takes effect.
    Abandon,
}

/// The state of a cell that nobody has touched.
pub open spec fn initial_state() -> ProtocolState {
    ProtocolState { word: UNINIT, claimant: None }
}

/// The protocol's invariant: the word is one of the three states, and
/// someone holds the claim exactly while the word reads [`INITING`].
pub open spec fn protocol_inv(s: ProtocolState) -> bool {
    &&& InitState::spec_from_code(s.word) is Some
    &&& (s.word == INITING <==> s.claimant is Some)
}

/// What an exchange of [`UNINIT`] for [`INITING`] returns: the word it
/// found, as `Ok` when the exchange took place.
pub open spec fn claim_result(s: ProtocolState) -> Result<u8, u8> {
    if s.word == UNINIT {
        Ok(UNINIT)
    } else {
        Err(s.word)
    }
}

/// The state after `caller` takes `step`.
pub open spec fn protocol_next(s: ProtocolState, caller: u64, step: ProtocolStep) -> ProtocolState {
    match step {
        ProtocolStep::Read => s,
        ProtocolStep::Claim => if s.word == UNINIT {
            ProtocolState { word: INITING, claimant: Some(caller) }
        } else {
            s
        },
        ProtocolStep::Complete => if s.claimant == Some(caller) {
            ProtocolState { word: INITED, claimant: None }
        } else {
            s
        },
        ProtocolStep::Abandon => if s.claimant == Some(caller) {
            ProtocolState { word: UNINIT, claimant: None }
        } else {
            s
        },
    }
}

/// The state after the callers take `steps` in order.
pub open spec fn protocol_run(s: ProtocolState, steps: Seq<(u64, ProtocolStep)>) -> ProtocolState
    decreases steps.len(),
{
    if steps.len() == 0 {
        s
    } else {
        protocol_run(protocol_next(s, steps[0].0, steps[0].1), steps.drop_first())
    }
}

/// The untouched state meets the invariant, and every step and every run of
/// steps keeps it.
pub proof fn lemma_protocol_inv(s: ProtocolState, caller: u64, step: ProtocolStep, steps: Seq<(u64, ProtocolStep)>)
    ensures
        protocol_inv(initial_state()),
        protocol_inv(s) ==> protocol_inv(protocol_next(s, caller, step)),
        protocol_inv(s) ==> protocol_inv(protocol_run(s, steps)),
    decreases steps.len(),
{
    if steps.len() > 0 {
        lemma_protocol_inv(protocol_next(s, steps[0].0, steps[0].1), caller, step, steps.drop_first());
    }
}

/// At most one caller holds the claim: a claim succeeds only while nobody
/// holds it, and the round of the caller whose claim succeeded ends as the
/// claimant's, while every other claim fails until the claim is given back.
pub proof fn lemma_one_claimant(s: ProtocolState, first: u64, second: u64, step: u8)
    requires
        protocol_inv(s),
    ensures
        claim_result(s) is Ok ==> s.claimant is None,
        (state::spec_exchange_outcome(claim_result(s), step) == GateStep::Claimed) <==> claim_result(s) is Ok,
        claim_result(s) is Ok ==> protocol_next(s, first, ProtocolStep::Claim).claimant == Some(first),
        claim_result(s) is Ok ==> claim_result(protocol_next(s, first, ProtocolStep::Claim)) is Err,
        claim_result(s) is Ok ==> protocol_next(protocol_next(s, first, ProtocolStep::Claim), second, ProtocolStep::Claim)
            == protocol_next(s, first, ProtocolStep::Claim),
{
}

/// [`INITED`] is never left: no step and no run of steps changes it.
pub proof fn lemma_inited_never_left(s: ProtocolState, caller: u64, step: ProtocolStep, steps: Seq<(u64, ProtocolStep)>)
    requires
        protocol_inv(s),
        s.word == INITED,
    ensures
        protocol_next(s, caller, step) == s,
        protocol_run(s, steps) == s,
    decreases steps.len(),
{
    if steps.len() > 0 {
        lemma_inited_never_left(s, steps[0].0, steps[0].1, steps.drop_first());
    }
}

/// Only the claimant leaves [`INITING`], and it leaves to [`INITED`] by
/// completing or to [`UNINIT`] by abandoning.
pub proof fn lemma_only_claimant_leaves_initing(s: ProtocolState, caller: u64, step: ProtocolStep)
    requires
        protocol_inv(s),
        s.word == INITING,
        protocol_next(s, caller, step).word != INITING,
    ensures
        s.claimant == Some(caller),
        step is Complete ==> protocol_next(s, caller, step).word == INITED,
        step is Abandon ==> protocol_next(s, caller, step).word == UNINIT,
        step is Complete || step is Abandon,
{
}

/// After an abandoned claim the cell can be claimed again.
pub proof fn lemma_abandon_allows_retry(s: ProtocolState, caller: u64, other: u64)
    requires
        protocol_inv(s),
        s.claimant == Some(caller),
    ensures
        claim_result(protocol_next(s, caller, ProtocolStep::Abandon)) is Ok,
        protocol_next(protocol_next(s, caller, ProtocolStep::Abandon), other, ProtocolStep::Claim).claimant
            == Some(other),
{
}

} // verus!
