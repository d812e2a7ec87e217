//! A cancellable wrapper around a future-like computation.
//!
//! [`new`] pairs any computation with a fresh cancellable flag from
//! thread_control and returns the controller half beside a [`Managed`]
//! adapter holding the observer half. Code that drives the adapter polls in
//! two verified halves: [`Managed::gate`] consults the observer and decides
//! whether the inner computation may run at all, and [`Managed::settle`]
//! turns the inner computation's report into the adapter's outcome while
//! releasing the observer handle exactly once. The module [`machine`] states
//! the same state machine as pure mathematics and proves its laws.

use vstd::prelude::*;

pub mod machine;
pub mod outcome;
mod pair;

pub use outcome::{PollEvent, PollOutcome};

verus! {

/// A future-like computation wrapped together with the observer half of a
/// cancellable flag pair.
///
/// The observer handle is held exactly until the first terminal poll:
/// releasing it on every terminal transition is what makes a second release
/// structurally impossible.
#[derive(Debug)]
#[must_use]
pub struct Managed<F> {
    /// the wrapped computation, polled by the code that drives the adapter
    /// while `gate` answers `Poll`
    pub future: F,
    flag: Option<thread_control::Flag>,
}

/// What consulting the observer decided for the current poll.
#[derive(Debug, Clone, PartialEq, Eq)]
pub enum Gate<T, E> {
    /// the signal is alive: poll the inner computation, then hand its event
    /// to `settle`
    Poll,
    /// terminal: this outcome is the whole poll's result and the inner
    /// computation is not consulted
    Done(PollOutcome<T, E>),
}

impl<F> Managed<F> {
    /// The adapter has not yet reached a terminal outcome: the observer
    /// handle is still held.
    pub closed spec fn active(self) -> bool {
        self.flag is Some
    }

    /// The wrapped computation, as contracts speak of it: polling the
    /// adapter never replaces it.
    pub closed spec fn inner(self) -> F {
        self.future
    }

    /// First half of a poll: consult the observer. `Poll` means the signal
    /// is alive and the inner computation should be polled; `Done` carries
    /// the no-payload cancellation outcome, after releasing the observer
    /// handle if it was still held — which makes a terminal adapter safely
    /// idempotent, exactly as the non-polling branch of `machine::step`.
    pub fn gate<T, E>(&mut self) -> (r: Gate<T, E>)
        ensures
            final(self).inner() == old(self).inner(),
            r is Poll ==> old(self).active() && *final(self) == *old(self),
            r is Done ==> !final(self).active(),
            r matches Gate::Done(out) ==> out == PollOutcome::<T, E>::Failed(None),
            !old(self).active() ==> r is Done,
    {
        let alive = match &self.flag {
            Some(flag) => flag.is_alive(),
            None => false,
        };
        if alive {
            Gate::Poll
        } else {
            let _ = self.flag.take();
            Gate::Done(PollOutcome::Failed(None))
        }
    }

    /// Second half of a poll, given the event the inner computation
    /// reported: exactly `machine::step` for an alive signal. `Pending`
    /// keeps the observer handle and changes nothing; `Ready` releases it
    /// with no forced transition, so the controller reads done and not
    /// interrupted; `Failed` forces the shared state to interrupted while
    /// releasing it, and the inner error is kept as the outcome's payload.
    /// On an already terminal adapter the event is discarded and the
    /// no-payload cancellation outcome is reported.
    pub fn settle<T, E>(&mut self, event: PollEvent<T, E>) -> (r: PollOutcome<T, E>)
        ensures
            final(self).inner() == old(self).inner(),
            ({
                let (out, after) = machine::step(
                    (machine::PairState { held: old(self).active(), signal: machine::Signal::Alive }),
                    event,
                );
                r == out && final(self).active() == after.held
            }),
            event is Pending && old(self).active() ==> *final(self) == *old(self),
    {
        match self.flag.take() {
            None => PollOutcome::Failed(None),
            Some(flag) => match event {
                PollEvent::Pending => {
                    self.flag = Some(flag);
                    PollOutcome::Pending
                },
                PollEvent::Ready(value) => PollOutcome::Ready(value),
                PollEvent::Failed(err) => {
                    flag.interrupt();
                    PollOutcome::Failed(Some(err))
                },
            },
        }
    }
}

/// Pair a computation with a fresh cancellable flag: the controller half
/// goes to the caller, the observer half is stored inside the adapter.
pub fn new<F>(future: F) -> (r: (thread_control::Control, Managed<F>))
    ensures
        r.1.active(),
        r.1.inner() == future,
{
    let (flag, control) = thread_control::make_pair();
    let managed = Managed { future, flag: Some(flag) };
    (control, managed)
}

/// Postfix construction: `computation.managed()` is `new(computation)`.
pub trait ManagedExt: Sized {
    /// Wrap `self` in a cancellable adapter, returning the controller half
    /// beside it.
    fn managed(self) -> (r: (thread_control::Control, Managed<Self>))
        ensures
            r.1.active(),
            r.1.inner() == self,
    {
        new(self)
    }
}

impl<F> ManagedExt for F {
}

} // verus!
