use vstd::prelude::*;

verus! {

/// The status with which the process ends on a second interrupt.
pub const FORCED_EXIT_CODE: i32 = 130;

/// A one-shot cancellation flag: armed until the first signal, then signaled for good.
#[derive(Clone, Copy, Debug, PartialEq, Eq, Structural)]
pub enum CancelState {
    Armed,
    Signaled,
}

/// What the signal source does after a signal.
#[derive(Clone, Copy, Debug, PartialEq, Eq, Structural)]
pub enum SignalAction {
    /// Wake every waiter: the transfer stops at its next safe boundary.
    NotifyWaiters,
    /// A second signal: end the process at once.
    ExitProcess,
}

pub open spec fn signal_next(s: CancelState) -> (CancelState, SignalAction) {
    match s {
        CancelState::Armed => (CancelState::Signaled, SignalAction::NotifyWaiters),
        CancelState::Signaled => (CancelState::Signaled, SignalAction::ExitProcess),
    }
}

impl CancelState {
    pub fn new() -> (r: CancelState)
        ensures
            r == CancelState::Armed,
    {
        CancelState::Armed
    }

    /// Records one interrupt and says what to do about it.
    pub fn signal(&mut self) -> (r: SignalAction)
        ensures
            (*final(self), r) == signal_next(*old(self)),
    {
        match *self {
            CancelState::Armed => {
                *self = CancelState::Signaled;
                SignalAction::NotifyWaiters
            },
            CancelState::Signaled => SignalAction::ExitProcess,
        }
    }

    /// Whether waiters may stop waiting.
    pub fn is_signaled(&self) -> (r: bool)
        ensures
            r == (*self == CancelState::Signaled),
    {
        match self {
            CancelState::Armed => false,
            CancelState::Signaled => true,
        }
    }
}

/// The first signal wakes the waiters and the token stays signaled; every
/// later one asks for the process to end.
pub proof fn lemma_signal_escalates(s: CancelState)
    ensures
        signal_next(CancelState::Armed) == (CancelState::Signaled, SignalAction::NotifyWaiters),
        signal_next(s).0 == CancelState::Signaled,
        signal_next(signal_next(s).0).1 == SignalAction::ExitProcess,
{
}

} // verus!
