//! Typed errors surfaced by the dispatch layer.

use vstd::prelude::*;

verus! {

/// Every way a single dispatched call can fail.
///
/// A fault raised inside either backend is always converted into
/// [`Error::RuntimePanicked`] before it reaches the caller; the other
/// variants are returned, never retried.
#[derive(Debug)]
pub enum Error {
    /// The program binary was rejected while building a sandboxed module.
    InvalidCode,
    /// The named host function is referenced by the program but absent from
    /// the registry, and the policy for missing host functions disallows that.
    MissingHostFunction(String),
    /// The backend could not construct a fresh sandboxed instance.
    Instantiation,
    /// A required interface was unavailable; carries a plain message.
    ApiError(String),
    /// The native delegate knows no method with this name.
    MethodNotFound(String),
    /// A fault raised inside a call was caught and converted.
    RuntimePanicked(String),
}

/// The errors a sandboxed backend may report when building a module or an
/// instance: a rejected binary or a failed construction — never a fault, a
/// missing method, an interface error, or a host-function verdict, which are
/// this library's to produce.
pub open spec fn is_backend_error(e: Error) -> bool {
    e is InvalidCode || e is Instantiation
}

/// The errors that can surface while readying a program for a call, before
/// any method runs: a backend construction failure, or a referenced host
/// function absent under a disallowing policy.
pub open spec fn is_instantiation_error(e: Error) -> bool {
    is_backend_error(e) || e is MissingHostFunction
}

} // verus!
