use vstd::prelude::*;
use crate::outcome::{PollEvent, PollOutcome};

verus! {

/// The three reachable values of the shared cancellation signal. The
/// transitions away from `Alive` are one-way: once stopped or interrupted,
/// the signal never changes again.
#[derive(Debug, Clone, Copy, PartialEq, Eq, Structural)]
pub enum Signal {
    /// neither side has ended the computation
    Alive,
    /// the controller asked for a graceful stop
    Stopped,
    /// the controller signalled abnormal termination, or the adapter did so
    /// on the controller's behalf after an inner failure
    Interrupted,
}

/// Abstract state of one flag pair, as the adapter and the controller
/// together can observe it: the shared tri-state signal, and whether the
/// adapter still holds the observer half.
#[derive(Debug, Clone, Copy, PartialEq, Eq, Structural)]
pub struct PairState {
    /// the adapter still holds the observer handle (no terminal poll yet)
    pub held: bool,
    /// the shared cancellation signal
    pub signal: Signal,
}

impl PairState {
    /// The state of a freshly constructed pairing.
    pub open spec fn begin() -> PairState {
        PairState { held: true, signal: Signal::Alive }
    }

    /// The observer's liveness query: true while no cancellation was asked.
    pub open spec fn is_alive(self) -> bool {
        self.signal == Signal::Alive
    }

    /// The controller's completion query: true once the computation ended by
    /// natural completion (handle released), stop, or interrupt.
    pub open spec fn is_done(self) -> bool {
        !self.held || self.signal != Signal::Alive
    }

    /// The controller's interruption query: true only for abnormal
    /// termination, whether requested outside or forced by an inner failure.
    pub open spec fn is_interrupted(self) -> bool {
        self.signal == Signal::Interrupted
    }

    /// The controller's graceful cancellation: a no-op once the signal is no
    /// longer alive.
    pub open spec fn after_stop(self) -> PairState {
        if self.signal == Signal::Alive {
            PairState { signal: Signal::Stopped, ..self }
        } else {
            self
        }
    }

    /// The controller's abnormal cancellation: a no-op once the signal is no
    /// longer alive.
    pub open spec fn after_interrupt(self) -> PairState {
        if self.signal == Signal::Alive {
            PairState { signal: Signal::Interrupted, ..self }
        } else {
            self
        }
    }

    /// Whether a poll in this state consults the inner computation at all:
    /// only while the handle is held and the signal reports alive.
    pub open spec fn polls_inner(self) -> bool {
        self.held && self.signal == Signal::Alive
    }
}

/// One poll of the adapter: from the pair's state and the event the inner
/// computation would report, the outcome handed to the caller and the
/// pair's state afterwards. When the state does not poll the inner
/// computation (`!polls_inner`), `event` is ignored: the inner computation
/// is not consulted and a no-payload failure is reported.
pub open spec fn step<T, E>(state: PairState, event: PollEvent<T, E>) -> (PollOutcome<T, E>, PairState) {
    if !state.polls_inner() {
        (PollOutcome::Failed(None), PairState { held: false, ..state })
    } else {
        match event {
            PollEvent::Pending => (PollOutcome::Pending, state),
            PollEvent::Ready(value) => (PollOutcome::Ready(value), PairState { held: false, ..state }),
            PollEvent::Failed(err) => (
                PollOutcome::Failed(Some(err)),
                PairState { held: false, signal: Signal::Interrupted },
            ),
        }
    }
}

/// Natural completion: if the inner computation resolves to a value while
/// the controller was never touched, the poll reports exactly that value;
/// afterwards the handle is released, the controller reads done and not
/// interrupted, and no later poll can report the value again.
pub proof fn lemma_resolved_untouched<T, E>(value: T)
    ensures
        ({
            let (out, after) = step::<T, E>(PairState::begin(), PollEvent::Ready(value));
            &&& out == PollOutcome::<T, E>::Ready(value)
            &&& !after.held
            &&& after.is_done()
            &&& !after.is_interrupted()
            &&& forall|event: PollEvent<T, E>|
                (#[trigger] step(after, event)).0 == PollOutcome::<T, E>::Failed(None)
        }),
{
}

/// A stop before the inner computation resolves: the next poll reports the
/// no-payload failure whatever the inner computation would have done, and
/// afterwards the controller reads done and not interrupted.
pub proof fn lemma_stopped_before_resolve<T, E>(event: PollEvent<T, E>)
    ensures
        ({
            let (out, after) = step(PairState::begin().after_stop(), event);
            &&& out == PollOutcome::<T, E>::Failed(None)
            &&& after.is_done()
            &&& !after.is_interrupted()
        }),
{
}

/// An interrupt before the inner computation resolves: the next poll
/// reports the no-payload failure whatever the inner computation would have
/// done, and afterwards the controller reads done and interrupted.
pub proof fn lemma_interrupted_before_resolve<T, E>(event: PollEvent<T, E>)
    ensures
        ({
            let (out, after) = step(PairState::begin().after_interrupt(), event);
            &&& out == PollOutcome::<T, E>::Failed(None)
            &&& after.is_done()
            &&& after.is_interrupted()
        }),
{
}

/// An inner failure without outside cancellation: the poll reports the
/// inner error with its payload, and afterwards the controller reads done
/// and interrupted — the adapter forces the interrupt on the controller's
/// behalf.
pub proof fn lemma_inner_failure<T, E>(err: E)
    ensures
        ({
            let (out, after) = step::<T, E>(PairState::begin(), PollEvent::Failed(err));
            &&& out == PollOutcome::<T, E>::Failed(Some(err))
            &&& after.is_done()
            &&& after.is_interrupted()
        }),
{
}

/// Cancellation takes precedence once observed: after an interrupt, the
/// inner computation is not consulted at all, so even an inner failure is
/// reported as the no-payload cancellation failure and its error is
/// discarded.
pub proof fn lemma_cancellation_wins<T, E>(err: E)
    ensures
        !PairState::begin().after_interrupt().polls_inner(),
        step::<T, E>(PairState::begin().after_interrupt(), PollEvent::Failed(err)).0
            == PollOutcome::<T, E>::Failed(None),
{
}

/// Idempotence of the terminal state: once the handle was released, every
/// later poll reports the no-payload failure, does not consult the inner
/// computation, and leaves the pair's state — hence everything the
/// controller can observe — unchanged.
pub proof fn lemma_terminal_idempotent<T, E>(state: PairState, event: PollEvent<T, E>)
    requires
        !state.held,
    ensures
        !state.polls_inner(),
        step(state, event) == (PollOutcome::<T, E>::Failed(None), state),
{
}

} // verus!
