//! The boundary to the sandboxed execution backend.
//!
//! The backend — the component that turns a binary program image into an
//! executable, memory-isolated module — is an external collaborator. This
//! module states the capabilities the dispatcher relies on: building a
//! module from code, reading the module's declared version and the host
//! functions it references, constructing instances, and running one method
//! of an instance. A concrete backend implements these traits; the
//! dispatcher is verified against their contracts alone.

use vstd::prelude::*;

use crate::error::{is_backend_error, Error};
use crate::externalities::Externalities;
use crate::guard::CallOutcome;
use crate::host_functions::names_view;
use crate::version::{opt_version_view, RuntimeVersion, RuntimeVersionView};

verus! {

/// How the sandboxed backend executes a program image: compiled ahead of
/// time, or interpreted bytecode.
#[derive(Clone, Copy, Debug, PartialEq, Eq, Structural)]
pub enum WasmExecutionMethod {
    /// The image is interpreted.
    Interpreted,
    /// The image is compiled ahead of time.
    Compiled,
}

/// The number of 64KB memory pages granted to a sandboxed execution when the
/// program code does not override it.
pub const DEFAULT_HEAP_PAGES: u64 = 1024;

/// One version of the hosted program to run: its binary image, a content
/// hash that identifies it for caching, and an optional override for the
/// memory-page budget.
#[derive(Debug)]
pub struct RuntimeCode {
    /// The binary image, as fetched by its content hash.
    pub code: Vec<u8>,
    /// The content hash identifying the image.
    pub hash: Vec<u8>,
    /// Memory-page budget override; the default budget applies when absent.
    pub heap_pages: Option<u64>,
}

/// One instantiated, memory-isolated execution of a program image.
///
/// Running a method is arbitrary guest behaviour: nothing is promised about
/// the outcome or about what the run does to the environment. A fault inside
/// the run is reported as a [`CallOutcome::Panicked`] value, never by
/// unwinding into the caller.
pub trait WasmInstance: Sized {
    /// Runs the method named `method` with argument bytes `data` against the
    /// environment `ext`.
    fn call(&mut self, method: &str, data: &Vec<u8>, ext: &mut Externalities) -> CallOutcome<
        Result<Vec<u8>, Error>,
    >;
}

/// A program image made executable: it reports its declared version and the
/// host functions it references, and constructs fresh instances.
pub trait WasmModule: Sized {
    /// The instance type this module constructs.
    type Instance: WasmInstance;

    /// The version the module declares, if it declares one.
    spec fn spec_version(&self) -> Option<RuntimeVersionView>;

    /// The names of the host functions the module references.
    spec fn spec_required_host_functions(&self) -> Seq<Seq<char>>;

    /// Reads the version the module declares about itself. Read once at
    /// instantiation and cached alongside the module afterwards.
    fn declared_version(&self) -> (v: Option<RuntimeVersion>)
        ensures
            opt_version_view(v) == self.spec_version(),
    ;

    /// The names of the host functions the module references.
    fn required_host_functions(&self) -> (r: Vec<String>)
        ensures
            names_view(r) == self.spec_required_host_functions(),
    ;

    /// Constructs a fresh instance of the module. May fail, for example when
    /// a resource limit is exceeded; the failure is a typed construction
    /// error, never a fault.
    fn new_instance(&self) -> (r: Result<Self::Instance, Error>)
        ensures
            r matches Err(e) ==> is_backend_error(e),
    ;
}

/// The backend itself: builds an executable module from a binary image. A
/// bad image is a typed error, never a fault.
pub trait WasmBackend: Sized {
    /// The module type this backend builds.
    type Module: WasmModule;

    /// Builds a module from `code` under the given execution method and
    /// memory-page budget. A failure is a typed construction error; checking
    /// referenced host functions against the registry is not the backend's
    /// job.
    fn create_module(method: WasmExecutionMethod, heap_pages: u64, code: &Vec<u8>) -> (r: Result<
        Self::Module,
        Error,
    >)
        ensures
            r matches Err(e) ==> is_backend_error(e),
    ;
}

} // verus!
