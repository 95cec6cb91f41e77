//! The initialization protocol shared by the raw cells.
//!
//! A raw cell keeps a one-byte state word next to its storage. The word moves
//! from [`UNINIT`] to [`INITING`] when one thread claims the right to produce
//! the value, and from [`INITING`] to [`INITED`] once the value is stored. A
//! claimant whose initializer fails puts the word back to [`UNINIT`], so that a
//! later caller may try again. Every other caller looks at the word and decides
//! what to do next; those decisions live here, as total functions over the
//! observed word and the number of rounds already waited.
use vstd::prelude::*;

verus! {

/// State word of a cell whose value has not been produced.
pub const UNINIT: u8 = 0;

/// State word of a cell whose value is being produced by one claimant.
pub const INITING: u8 = 1;

/// State word of a cell whose value is stored and readable.
pub const INITED: u8 = 2;

/// Number of waiting rounds that busy-spin before a waiter yields its thread.
pub const MAX_SPIN: u8 = 8;

/// The three states of a raw cell.
#[derive(PartialEq, Eq, Structural, Clone, Copy, Debug)]
pub enum InitState {
    Uninit,
    Initing,
    Inited,
}

impl InitState {
    /// The state word that stands for this state.
    pub open spec fn spec_code(self) -> u8 {
        match self {
            InitState::Uninit => UNINIT,
            InitState::Initing => INITING,
            InitState::Inited => INITED,
        }
    }

    /// The state a word stands for; `None` for a word that the protocol never writes.
    pub open spec fn spec_from_code(code: u8) -> Option<InitState> {
        if code == UNINIT {
            Some(InitState::Uninit)
        } else if code == INITING {
            Some(InitState::Initing)
        } else if code == INITED {
            Some(InitState::Inited)
        } else {
            None
        }
    }

    pub fn code(&self) -> (code: u8)
        ensures
            code == self.spec_code(),
    {
        match self {
            InitState::Uninit => UNINIT,
            InitState::Initing => INITING,
            InitState::Inited => INITED,
        }
    }

    pub fn from_code(code: u8) -> (state: Option<InitState>)
        ensures
            state == InitState::spec_from_code(code),
    {
        if code == UNINIT {
            Some(InitState::Uninit)
        } else if code == INITING {
            Some(InitState::Initing)
        } else if code == INITED {
            Some(InitState::Inited)
        } else {
            None
        }
    }
}

/// What a waiter does before it looks at the state word again.
#[derive(PartialEq, Eq, Structural, Clone, Copy, Debug)]
pub enum Backoff {
    /// Busy-spin this many times.
    Spin(u32),
    /// Give the rest of the time slice to other threads.
    Yield,
}

/// Round `step` of waiting spins `2^step` times while `step <= MAX_SPIN`, and
/// yields the thread afterwards.
pub open spec fn spec_backoff(step: u8) -> Backoff {
    if step > MAX_SPIN {
        Backoff::Yield
    } else {
        Backoff::Spin(1u32 << step)
    }
}

pub fn backoff(step: u8) -> (b: Backoff)
    ensures
        b == spec_backoff(step),
{
    if step > MAX_SPIN {
        Backoff::Yield
    } else {
        Backoff::Spin(1u32 << step)
    }
}

/// The round counter after one more round; it stops growing at `u8::MAX`.
pub open spec fn spec_next_step(step: u8) -> u8 {
    if step == u8::MAX {
        step
    } else {
        (step + 1) as u8
    }
}

pub fn next_step(step: u8) -> (next: u8)
    ensures
        next == spec_next_step(step),
{
    if step == u8::MAX {
        step
    } else {
        step + 1
    }
}

/// The round counter after `rounds` more rounds.
pub open spec fn spec_step_after(step: u8, rounds: nat) -> u8
    decreases rounds,
{
    if rounds == 0 {
        step
    } else {
        spec_step_after(spec_next_step(step), (rounds - 1) as nat)
    }
}

/// What a caller that wants the value does after reading the state word.
#[derive(PartialEq, Eq, Structural, Clone, Copy, Debug)]
pub enum InitAction {
    /// The value is stored: nothing is left to do.
    Done,
    /// Nobody produces the value: try to claim the word.
    Claim,
    /// Another caller produces the value: back off, then look again.
    Wait(Backoff),
    /// The word held no state of the protocol: look again.
    Retry,
}

pub open spec fn spec_decide(seen: u8, step: u8) -> InitAction {
    match InitState::spec_from_code(seen) {
        Some(InitState::Inited) => InitAction::Done,
        Some(InitState::Uninit) => InitAction::Claim,
        Some(InitState::Initing) => InitAction::Wait(spec_backoff(step)),
        None => InitAction::Retry,
    }
}

/// Decides what to do after reading `seen` in round `step` of waiting.
pub fn decide(seen: u8, step: u8) -> (action: InitAction)
    ensures
        action == spec_decide(seen, step),
{
    match InitState::from_code(seen) {
        Some(InitState::Inited) => InitAction::Done,
        Some(InitState::Uninit) => InitAction::Claim,
        Some(InitState::Initing) => InitAction::Wait(backoff(step)),
        None => InitAction::Retry,
    }
}

/// The outcome of one round of the initialization loop.
#[derive(PartialEq, Eq, Structural, Clone, Copy, Debug)]
pub enum GateStep {
    /// The value is stored.
    Ready,
    /// This caller won the claim and must now produce the value.
    Claimed,
    /// Another caller produces the value: back off, then run another round.
    Wait(Backoff),
    /// The round decided nothing: run another round.
    Retry,
}

/// One round that first reads the word (`seen`) and, when it reads
/// [`UNINIT`], tries to exchange it for [`INITING`] (`exchanged` is what the
/// exchange returned). A lost exchange decides nothing.
pub open spec fn spec_poll_outcome(seen: u8, exchanged: Result<u8, u8>, step: u8) -> GateStep {
    match spec_decide(seen, step) {
        InitAction::Done => GateStep::Ready,
        InitAction::Claim => if exchanged is Ok {
            GateStep::Claimed
        } else {
            GateStep::Retry
        },
        InitAction::Wait(b) => GateStep::Wait(b),
        InitAction::Retry => GateStep::Retry,
    }
}

/// One round that tries the exchange [`UNINIT`] to [`INITING`] at once; on
/// failure the word it returned is decided on.
pub open spec fn spec_exchange_outcome(exchanged: Result<u8, u8>, step: u8) -> GateStep {
    match exchanged {
        Ok(_) => GateStep::Claimed,
        Err(seen) => match spec_decide(seen, step) {
            InitAction::Done => GateStep::Ready,
            InitAction::Claim => GateStep::Retry,
            InitAction::Wait(b) => GateStep::Wait(b),
            InitAction::Retry => GateStep::Retry,
        },
    }
}

/// Decides a round that began with the exchange [`UNINIT`] to [`INITING`].
pub fn exchange_outcome(exchanged: Result<u8, u8>, step: u8) -> (outcome: GateStep)
    ensures
        outcome == spec_exchange_outcome(exchanged, step),
        (outcome == GateStep::Claimed) <==> exchanged is Ok,
        (outcome == GateStep::Ready) <==> exchanged == Err::<u8, u8>(INITED),
        exchanged == Err::<u8, u8>(INITING) ==> outcome == GateStep::Wait(spec_backoff(step)),
{
    match exchanged {
        Ok(_) => GateStep::Claimed,
        Err(seen) => match decide(seen, step) {
            InitAction::Done => GateStep::Ready,
            InitAction::Claim => GateStep::Retry,
            InitAction::Wait(b) => GateStep::Wait(b),
            InitAction::Retry => GateStep::Retry,
        },
    }
}

/// Every state is written as a word of its own and read back as itself, and
/// every word that reads as a state is that state's word.
pub proof fn lemma_code_roundtrip(state: InitState, code: u8)
    ensures
        InitState::spec_from_code(state.spec_code()) == Some(state),
        InitState::spec_from_code(code) matches Some(s) ==> s.spec_code() == code,
{
}

/// A caller that reads [`INITED`] is done, however long it waited, in both
/// forms of the round.
pub proof fn lemma_inited_is_final(exchanged: Result<u8, u8>, step: u8)
    ensures
        spec_decide(INITED, step) == InitAction::Done,
        spec_poll_outcome(INITED, exchanged, step) == GateStep::Ready,
        spec_exchange_outcome(Err(INITED), step) == GateStep::Ready,
{
}

/// Only a caller that reads [`UNINIT`] tries to claim, and only a caller whose
/// exchange succeeded ends a round as the claimant.
pub proof fn lemma_claim_only_from_uninit(seen: u8, exchanged: Result<u8, u8>, step: u8)
    ensures
        (spec_decide(seen, step) == InitAction::Claim) <==> seen == UNINIT,
        (spec_poll_outcome(seen, exchanged, step) == GateStep::Claimed) <==> (seen == UNINIT
            && exchanged is Ok),
        (spec_exchange_outcome(exchanged, step) == GateStep::Claimed) <==> exchanged is Ok,
{
}

/// A caller waits only while another caller produces the value, and then by
/// the backoff of its round.
pub proof fn lemma_wait_only_while_initing(seen: u8, step: u8)
    ensures
        (spec_decide(seen, step) is Wait) <==> seen == INITING,
        seen == INITING ==> spec_decide(seen, step) == InitAction::Wait(spec_backoff(step)),
{
}

/// The first round spins once, and every spinning round spins twice as long
/// as the one before it.
pub proof fn lemma_backoff_doubles(step: u8)
    ensures
        spec_backoff(0) == Backoff::Spin(1),
        step < MAX_SPIN ==> spec_next_step(step) == step + 1,
        step < MAX_SPIN ==> (spec_backoff(step) matches Backoff::Spin(n) && spec_backoff(
            spec_next_step(step),
        ) matches Backoff::Spin(m) && m == 2 * n),
{
    assert(1u32 << 0u8 == 1u32) by (bit_vector);
    if step < MAX_SPIN {
        let s = step;
        let t: u8 = (s + 1) as u8;
        assert(s < 8u8 && t == s + 1 ==> 1u32 << t == 2 * (1u32 << s)) by (bit_vector);
    }
}

/// A waiter never stops yielding once it yields, and after more than
/// [`MAX_SPIN`] rounds it yields, from whatever round it started.
pub proof fn lemma_waiters_eventually_yield(step: u8, rounds: nat)
    ensures
        spec_backoff(step) == Backoff::Yield ==> spec_backoff(spec_step_after(step, rounds))
            == Backoff::Yield,
        rounds > MAX_SPIN ==> spec_backoff(spec_step_after(step, rounds)) == Backoff::Yield,
    decreases rounds,
{
    lemma_step_after_grows(step, rounds);
}

/// The round counter grows by one per round until it saturates.
proof fn lemma_step_after_grows(step: u8, rounds: nat)
    ensures
        spec_step_after(step, rounds) >= step,
        spec_step_after(step, rounds) == u8::MAX || spec_step_after(step, rounds) == step + rounds,
    decreases rounds,
{
    if rounds > 0 {
        lemma_step_after_grows(spec_next_step(step), (rounds - 1) as nat);
    }
}

/// A round of waiting spins `2^step` times while `step` is at most
/// [`MAX_SPIN`], and yields the thread in every later round.
pub proof fn lemma_backoff_is_power_of_two(step: u8)
    ensures
        step <= MAX_SPIN ==> (spec_backoff(step) matches Backoff::Spin(n) && n == vstd::arithmetic::power2::pow2(step as nat)),
        step > MAX_SPIN ==> spec_backoff(step) == Backoff::Yield,
{
    vstd::arithmetic::power2::lemma2_to64();
    let s = step;
    if s == 0 {
        assert(1u32 << s == 1u32) by (bit_vector) requires s == 0u8;
    } else if s == 1 {
        assert(1u32 << s == 2u32) by (bit_vector) requires s == 1u8;
    } else if s == 2 {
        assert(1u32 << s == 4u32) by (bit_vector) requires s == 2u8;
    } else if s == 3 {
        assert(1u32 << s == 8u32) by (bit_vector) requires s == 3u8;
    } else if s == 4 {
        assert(1u32 << s == 16u32) by (bit_vector) requires s == 4u8;
    } else if s == 5 {
        assert(1u32 << s == 32u32) by (bit_vector) requires s == 5u8;
    } else if s == 6 {
        assert(1u32 << s == 64u32) by (bit_vector) requires s == 6u8;
    } else if s == 7 {
        assert(1u32 << s == 128u32) by (bit_vector) requires s == 7u8;
    } else if s == 8 {
        assert(1u32 << s == 256u32) by (bit_vector) requires s == 8u8;
    }
}

/// A round that began by reading the word ends by what the word held: it is
/// done exactly when the word read [`INITED`]; it waits, by the backoff of its
/// round, whenever the word read [`INITING`]; it ends as the claimant exactly
/// when it read [`UNINIT`] and its exchange took place; otherwise it looks again.
pub proof fn lemma_poll_outcome_follows_word(seen: u8, exchanged: Result<u8, u8>, step: u8)
    ensures
        (spec_poll_outcome(seen, exchanged, step) == GateStep::Ready) <==> seen == INITED,
        seen == INITING ==> spec_poll_outcome(seen, exchanged, step) == GateStep::Wait(
            spec_backoff(step),
        ),
        (spec_poll_outcome(seen, exchanged, step) is Wait) <==> seen == INITING,
        (spec_poll_outcome(seen, exchanged, step) == GateStep::Claimed) <==> (seen == UNINIT
            && exchanged is Ok),
        (spec_poll_outcome(seen, exchanged, step) == GateStep::Retry) <==> (seen != INITED && seen
            != INITING && !(seen == UNINIT && exchanged is Ok)),
{
}

/// A round that began with the exchange ends by what the exchange returned:
/// as the claimant exactly when the exchange took place; done exactly when a
/// failed exchange returned [`INITED`]; waiting, by the backoff of its round,
/// whenever it returned [`INITING`]; otherwise it looks again.
pub proof fn lemma_exchange_outcome_follows_word(exchanged: Result<u8, u8>, step: u8)
    ensures
        (spec_exchange_outcome(exchanged, step) == GateStep::Claimed) <==> exchanged is Ok,
        (spec_exchange_outcome(exchanged, step) == GateStep::Ready) <==> exchanged == Err::<u8, u8>(
            INITED,
        ),
        spec_exchange_outcome(Err(INITING), step) == GateStep::Wait(spec_backoff(step)),
        (spec_exchange_outcome(exchanged, step) is Wait) <==> exchanged == Err::<u8, u8>(INITING),
        (spec_exchange_outcome(exchanged, step) == GateStep::Retry) <==> (exchanged is Err
            && exchanged != Err::<u8, u8>(INITED) && exchanged != Err::<u8, u8>(INITING)),
{
}

} // verus!
