//! The panic-safe calling convention around one invocation of either backend.
//!
//! A guest computation — a sandboxed call or a native method body — never
//! unwinds through the dispatcher. Its run is reported as a [`CallOutcome`]:
//! either it completed with a value, or it faulted, in which case the fault
//! payload is carried as an optional message. The functions here convert an
//! outcome into the dispatcher's typed [`Error`] values, so that a single
//! failed call is a recoverable result, never a process-ending event.
//!
//! The host-side boundary that actually catches an unwind and builds the
//! [`CallOutcome`] value lives with the host glue, outside this library.

use vstd::prelude::*;

use crate::error::Error;

verus! {

/// How one run of a guest computation ended.
#[derive(Debug)]
pub enum CallOutcome<T> {
    /// The computation returned a value.
    Completed(T),
    /// The computation faulted. The payload is the fault's message when the
    /// fault carried a string, and `None` otherwise.
    Panicked(Option<String>),
}

/// The error a caught fault is reported as: `Error::RuntimePanicked` with
/// the fault's message, or a fixed text when the fault carried none.
pub open spec fn is_panic_error(p: Option<Seq<char>>, e: Error) -> bool {
    &&& e matches Error::RuntimePanicked(m) && (p matches Some(pm) ==> m@ == pm) && (p is None
        ==> m@ == "Unknown panic"@)
}

/// Model of a fault payload: the message's characters, when one was carried.
pub open spec fn payload_view(p: Option<String>) -> Option<Seq<char>> {
    match p {
        Some(m) => Some(m@),
        None => None,
    }
}

/// Converts a caught fault payload into the typed error it is reported as.
pub fn panic_error(p: Option<String>) -> (e: Error)
    ensures
        is_panic_error(payload_view(p), e),
{
    match p {
        Some(m) => Error::RuntimePanicked(m),
        None => Error::RuntimePanicked("Unknown panic".to_owned()),
    }
}

/// How the result of one guarded run of a fallible guest computation relates
/// to its outcome: a completed run's own result passes unchanged, and a
/// fault is reported as `Error::RuntimePanicked`.
pub open spec fn flattened_outcome_rel<U>(
    o: CallOutcome<Result<U, Error>>,
    r: Result<U, Error>,
) -> bool {
    match o {
        CallOutcome::Completed(inner) => r == inner,
        CallOutcome::Panicked(p) => r matches Err(e) && is_panic_error(payload_view(p), e),
    }
}

/// Seals one guarded run of a fallible guest computation: the run's own
/// result passes unchanged, a fault becomes `Error::RuntimePanicked`.
pub fn guard_flatten<U>(outcome: CallOutcome<Result<U, Error>>) -> (r: Result<U, Error>)
    ensures
        flattened_outcome_rel(outcome, r),
{
    match outcome {
        CallOutcome::Completed(inner) => inner,
        CallOutcome::Panicked(p) => Err(panic_error(p)),
    }
}

/// Converts the outcome of one guarded guest run into a result: a completed
/// run returns its value unchanged, a fault becomes `Error::RuntimePanicked`
/// with the fault's message, or a fixed text when the fault carried none.
pub fn guard_outcome<U>(outcome: CallOutcome<U>) -> (r: Result<U, Error>)
    ensures
        outcome matches CallOutcome::Completed(u) ==> r == Ok::<U, Error>(u),
        outcome matches CallOutcome::Panicked(p) ==> (r matches Err(e) && is_panic_error(
            payload_view(p),
            e,
        )),
{
    match outcome {
        CallOutcome::Completed(u) => Ok(u),
        CallOutcome::Panicked(p) => Err(panic_error(p)),
    }
}

} // verus!
