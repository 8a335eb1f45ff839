//! The reconciliation loop's decisions: when to run a pass, when to wait,
//! and when to stop. A pass that completes is followed, after a fixed
//! interval, by the next one; a pass that fails ends the loop.
use vstd::prelude::*;

verus! {

/// The wait between two passes, in milliseconds.
pub const DELAY_MS: u64 = 10000;

/// Where the loop stands.
#[derive(PartialEq, Eq, Structural, Clone, Copy, Debug)]
pub enum LoopState {
    /// Between passes.
    Idle,
    /// A pass is in progress.
    Reconciling,
    /// A pass failed; the loop has ended.
    Aborted,
}

/// What happened since the last decision.
#[derive(PartialEq, Eq, Structural, Clone, Copy, Debug)]
pub enum LoopEvent {
    /// The interval elapsed (or the loop starts).
    Tick,
    /// The pass in progress completed.
    PassCompleted,
    /// The pass in progress failed.
    PassFailed,
}

/// What the loop does next.
#[derive(PartialEq, Eq, Structural, Clone, Copy, Debug)]
pub enum LoopAction {
    /// Run a reconciliation pass.
    StartPass,
    /// Wait this many milliseconds, then tick.
    Sleep { ms: u64 },
    /// End the loop with the pass's failure.
    Stop,
    /// Nothing: the event does not apply in this state.
    Nothing,
}

/// The loop's next state and action on an event.
pub open spec fn loop_next(state: LoopState, event: LoopEvent) -> (LoopState, LoopAction) {
    match (state, event) {
        (LoopState::Aborted, _) => (LoopState::Aborted, LoopAction::Stop),
        (LoopState::Idle, LoopEvent::Tick) => (LoopState::Reconciling, LoopAction::StartPass),
        (LoopState::Reconciling, LoopEvent::PassCompleted) => (LoopState::Idle, LoopAction::Sleep { ms: DELAY_MS }),
        (LoopState::Reconciling, LoopEvent::PassFailed) => (LoopState::Aborted, LoopAction::Stop),
        _ => (state, LoopAction::Nothing),
    }
}

/// Decides the loop's next state and action on an event.
pub fn supervise(state: LoopState, event: LoopEvent) -> (r: (LoopState, LoopAction))
    ensures
        r == loop_next(state, event),
{
    match (state, event) {
        (LoopState::Aborted, _) => (LoopState::Aborted, LoopAction::Stop),
        (LoopState::Idle, LoopEvent::Tick) => (LoopState::Reconciling, LoopAction::StartPass),
        (LoopState::Reconciling, LoopEvent::PassCompleted) => (LoopState::Idle, LoopAction::Sleep { ms: DELAY_MS }),
        (LoopState::Reconciling, LoopEvent::PassFailed) => (LoopState::Aborted, LoopAction::Stop),
        _ => (state, LoopAction::Nothing),
    }
}

} // verus!
