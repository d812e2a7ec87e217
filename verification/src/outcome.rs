use vstd::prelude::*;

verus! {

/// What one poll of the wrapped inner computation reported.
#[derive(Debug, Clone, PartialEq, Eq)]
pub enum PollEvent<T, E> {
    /// the inner computation is not finished yet
    Pending,
    /// the inner computation resolved to a value
    Ready(T),
    /// the inner computation failed with an error
    Failed(E),
}

/// What the adapter reports to the code that drives it.
///
/// A `Failed` without a payload means the computation was cancelled from
/// outside; a `Failed` with a payload carries the inner computation's own
/// error. Callers can therefore tell the two apart by testing for the
/// payload alone.
#[derive(Debug, Clone, PartialEq, Eq)]
pub enum PollOutcome<T, E> {
    /// not finished yet; poll again later
    Pending,
    /// the inner computation resolved to this value
    Ready(T),
    /// terminal failure: `Some` is the inner error, `None` means cancelled
    Failed(Option<E>),
}

/// What a downstream combinator that transforms resolved values does to an
/// outcome: it rewrites the `Ready` payload and leaves everything else as
/// it is.
pub open spec fn map_outcome<T, U, E>(outcome: PollOutcome<T, E>, f: spec_fn(T) -> U) -> PollOutcome<
    U,
    E,
> {
    match outcome {
        PollOutcome::Pending => PollOutcome::Pending,
        PollOutcome::Ready(value) => PollOutcome::Ready(f(value)),
        PollOutcome::Failed(payload) => PollOutcome::Failed(payload),
    }
}

/// Composability of terminal failures: transforming an outcome downstream
/// surfaces any failure unchanged, so in particular the no-payload
/// cancellation failure propagates through value-mapping combinators
/// exactly like an inner error would.
pub proof fn lemma_map_keeps_failures<T, U, E>(payload: Option<E>, f: spec_fn(T) -> U)
    ensures
        map_outcome(PollOutcome::<T, E>::Failed(payload), f) == PollOutcome::<U, E>::Failed(payload),
        map_outcome(PollOutcome::<T, E>::Failed(None), f) == PollOutcome::<U, E>::Failed(None),
{
}

} // verus!
