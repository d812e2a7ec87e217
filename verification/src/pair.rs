use vstd::prelude::*;

verus! {

/// thread_control's observer half of a cancellable flag pair. Declared so
/// that it can stand in fields and signatures; its value is opaque here —
/// what it means is captured by the pure model in `machine`.
#[verifier::external_type_specification]
#[verifier::external_body]
pub struct ExFlag(thread_control::Flag);

/// thread_control's controller half of a cancellable flag pair. Declared so
/// that it can stand in signatures; the library itself never calls its
/// methods, it only hands the value to the caller.
#[verifier::external_type_specification]
#[verifier::external_body]
pub struct ExControl(thread_control::Control);

/// Relies on thread_control::make_pair: it allocates a fresh connected
/// observer/controller pair over shared state that starts out alive and
/// not interrupted. Nothing is claimed here: the shared state is mutable
/// from another thread, so no reading of it is a function of these values.
pub assume_specification[ thread_control::make_pair ]() -> (r: (
    thread_control::Flag,
    thread_control::Control,
));

/// Relies on thread_control::Flag::is_alive: it reads the shared state and
/// returns true while it was neither stopped nor interrupted. The
/// controller may change that state from another thread at any time, so no
/// claim ties the result to the handle's value; the adapter is verified for
/// either answer.
pub assume_specification[ thread_control::Flag::is_alive ](flag: &thread_control::Flag) -> bool;

/// Relies on thread_control::Flag::interrupt: it sets the shared state's
/// interrupted bit — one-way, the controller afterwards reads
/// `is_interrupted() == true` — and consumes the observer handle.
pub assume_specification[ thread_control::Flag::interrupt ](flag: thread_control::Flag);

} // verus!
