//! Execution dispatch layer for a versioned, upgradable state-transition
//! program that exists both as a compiled-in native implementation and as a
//! sandboxed binary image.
//!
//! The dispatcher reads the on-chain program's declared version through the
//! sandboxed backend, decides per call whether the native implementation is
//! compatible, runs exactly one of the two implementations, and converts any
//! fault raised inside a call into a typed error instead of letting it abort
//! the host.

pub mod bytes;
pub mod cache;
pub mod error;
pub mod externalities;
pub mod guard;
pub mod host_functions;
pub mod mock;
pub mod native_executor;
pub mod version;
pub mod wasm_executor;
pub mod wasm_runtime;
