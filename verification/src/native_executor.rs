//! The native/sandboxed dispatcher: picks, per call, between the compiled-in
//! native implementation and the sandboxed one, runs exactly one of the two
//! under the panic-safe convention, and reports which path ran.
//!
//! The decision procedure, in priority order: an on-chain program whose
//! version is not compatible with the native implementation always runs
//! sandboxed, whatever the caller asked for; a caller that did not ask for
//! native execution gets the sandboxed path; a caller that asked for native
//! execution and supplied a typed closure gets the closure; otherwise the
//! call is dispatched by name through the native delegate.

use core::marker::PhantomData;

use vstd::prelude::*;

use crate::error::{is_instantiation_error, Error};
use crate::externalities::Externalities;
use crate::guard::{flattened_outcome_rel, guard_outcome, is_panic_error, panic_error,
    payload_view, CallOutcome};
use crate::host_functions::{base_host_functions, names_view, spec_base_host_functions,
    HostFunctionRegistry, MissingHostFunctions};
use crate::version::{spec_can_call_with, NativeVersion, NativeVersionView, RuntimeVersion};
use crate::wasm_executor::WasmExecutor;
use crate::wasm_runtime::{RuntimeCode, WasmBackend, WasmExecutionMethod, WasmInstance};

verus! {

/// The result of one dispatched call: either a decoded native-typed value or
/// raw encoded result bytes — never both.
#[derive(Debug)]
pub enum NativeOrEncoded<R> {
    /// A native-typed value, produced by the caller's typed closure.
    Native(R),
    /// Encoded result bytes, produced by either implementation.
    Encoded(Vec<u8>),
}

/// The capability a concrete native implementation of one hosted program
/// must provide: method lookup by name, its declared version, and the host
/// functions it requires beyond the base registry.
pub trait NativeExecutionDispatch: Sized {
    /// Which method names the implementation knows.
    spec fn spec_known_method(method: Seq<char>) -> bool;

    /// Model of the version descriptor the implementation reports.
    spec fn spec_native_version() -> NativeVersionView;

    /// Model of the extension set of host-function names.
    spec fn spec_extend_host_functions() -> Seq<Seq<char>>;

    /// The version descriptor of this implementation. Pure.
    fn native_version() -> (v: NativeVersion)
        ensures
            v@ == Self::spec_native_version(),
    ;

    /// The names of the host functions this implementation requires beyond
    /// the base registry.
    fn extend_host_functions() -> (r: Vec<String>)
        ensures
            names_view(r) == Self::spec_extend_host_functions(),
    ;

    /// Runs the method named `method` with argument bytes `data` against the
    /// environment `ext`, under the panic-safe convention.
    ///
    /// An unknown method name fails with `Error::MethodNotFound`, and
    /// `Error::MethodNotFound` is returned for no other reason — in
    /// particular, it is distinct from a caught fault.
    fn dispatch(ext: &mut Externalities, method: &str, data: &Vec<u8>) -> (r: Result<
        Vec<u8>,
        Error,
    >)
        ensures
            !Self::spec_known_method(method@) ==> (r matches Err(e) && e matches
                Error::MethodNotFound(n) && n@ == method@),
            r matches Err(e) ==> (e matches Error::MethodNotFound(n) ==> (n@ == method@
                && !Self::spec_known_method(method@))),
    ;
}

/// The adapter a concrete delegate wraps around its method table: the
/// table's outcome — a value, "no such method", or a fault — becomes the
/// delegate's result. A fault becomes `Error::RuntimePanicked`, an unknown
/// method becomes `Error::MethodNotFound`, and a value passes unchanged, so
/// the two failures stay distinguishable.
pub fn dispatch_guarded(outcome: CallOutcome<Option<Vec<u8>>>, method: &str) -> (r: Result<
    Vec<u8>,
    Error,
>)
    ensures
        outcome matches CallOutcome::Completed(x) ==> match x {
            Some(b) => r == Ok::<Vec<u8>, Error>(b),
            None => r matches Err(e) && e matches Error::MethodNotFound(n) && n@ == method@,
        },
        outcome matches CallOutcome::Panicked(p) ==> (r matches Err(e) && is_panic_error(
            payload_view(p),
            e,
        )),
{
    match guard_outcome(outcome) {
        Ok(Some(b)) => Ok(b),
        Ok(None) => Err(Error::MethodNotFound(method.to_owned())),
        Err(e) => Err(e),
    }
}

/// Which implementation serves one call.
#[derive(Clone, Copy, Debug, PartialEq, Eq, Structural)]
pub enum ExecutionStrategy {
    /// The sandboxed module runs the call.
    Sandboxed,
    /// The caller's typed closure runs the call.
    NativeClosure,
    /// The native delegate runs the call, dispatched by name.
    NativeDispatch,
}

/// Whether a strategy runs the native implementation.
pub open spec fn spec_uses_native(s: ExecutionStrategy) -> bool {
    s != ExecutionStrategy::Sandboxed
}

/// The decision procedure of the dispatcher, in priority order.
pub open spec fn spec_strategy(compatible: bool, use_native: bool, has_native_call: bool)
    -> ExecutionStrategy {
    if !compatible || !use_native {
        ExecutionStrategy::Sandboxed
    } else if has_native_call {
        ExecutionStrategy::NativeClosure
    } else {
        ExecutionStrategy::NativeDispatch
    }
}

/// For any one call, exactly one of the three ways of running it is chosen.
pub proof fn lemma_exactly_one_dispatch(compatible: bool, use_native: bool, has_native_call: bool)
    ensures
        spec_strategy(compatible, use_native, has_native_call) is Sandboxed
            || spec_strategy(compatible, use_native, has_native_call) is NativeClosure
            || spec_strategy(compatible, use_native, has_native_call) is NativeDispatch,
        spec_strategy(compatible, use_native, has_native_call) is Sandboxed <==> (!compatible
            || !use_native),
        spec_strategy(compatible, use_native, has_native_call) is NativeClosure <==> (compatible
            && use_native && has_native_call),
        spec_strategy(compatible, use_native, has_native_call) is NativeDispatch <==> (compatible
            && use_native && !has_native_call),
{
}

/// An incompatible on-chain version forces the sandboxed path, whatever the
/// caller asked for and whether or not a closure was supplied; the call is
/// then reported as not having used the native implementation.
pub proof fn lemma_incompatible_forces_fallback(use_native: bool, has_native_call: bool)
    ensures
        spec_strategy(false, use_native, has_native_call) == ExecutionStrategy::Sandboxed,
        !spec_uses_native(spec_strategy(false, use_native, has_native_call)),
{
}

/// How the outcome of the caller's typed closure is lifted into the call's
/// result: a value becomes `NativeOrEncoded::Native`, the closure's own
/// failure message becomes `Error::ApiError`, and a fault becomes
/// `Error::RuntimePanicked` — never encoded bytes.
pub open spec fn native_result_rel<R>(
    o: CallOutcome<Result<R, String>>,
    r: Result<NativeOrEncoded<R>, Error>,
) -> bool {
    match o {
        CallOutcome::Completed(inner) => match inner {
            Ok(v) => r == Ok::<NativeOrEncoded<R>, Error>(NativeOrEncoded::Native(v)),
            Err(s) => r matches Err(e) && e matches Error::ApiError(m) && m == s,
        },
        CallOutcome::Panicked(p) => r matches Err(e) && is_panic_error(payload_view(p), e),
    }
}

/// Lifts the outcome of the caller's typed closure into the call's result.
pub fn lift_native_outcome<R>(o: CallOutcome<Result<R, String>>) -> (r: Result<
    NativeOrEncoded<R>,
    Error,
>)
    ensures
        native_result_rel(o, r),
{
    match o {
        CallOutcome::Completed(Ok(v)) => Ok(NativeOrEncoded::Native(v)),
        CallOutcome::Completed(Err(s)) => Err(Error::ApiError(s)),
        CallOutcome::Panicked(p) => Err(panic_error(p)),
    }
}

/// How the outcome of a sandboxed run is lifted into the call's result:
/// result bytes become `NativeOrEncoded::Encoded`, the instance's typed
/// error passes through, and a fault becomes `Error::RuntimePanicked` —
/// never a native-typed value.
pub open spec fn sandbox_result_rel<R>(
    o: CallOutcome<Result<Vec<u8>, Error>>,
    r: Result<NativeOrEncoded<R>, Error>,
) -> bool {
    match o {
        CallOutcome::Completed(inner) => match inner {
            Ok(b) => r == Ok::<NativeOrEncoded<R>, Error>(NativeOrEncoded::Encoded(b)),
            Err(e) => r == Err::<NativeOrEncoded<R>, Error>(e),
        },
        CallOutcome::Panicked(p) => r matches Err(e) && is_panic_error(payload_view(p), e),
    }
}

/// Lifts the outcome of a sandboxed run into the call's result.
pub fn lift_sandbox_outcome<R>(o: CallOutcome<Result<Vec<u8>, Error>>) -> (r: Result<
    NativeOrEncoded<R>,
    Error,
>)
    ensures
        sandbox_result_rel(o, r),
{
    match o {
        CallOutcome::Completed(Ok(b)) => Ok(NativeOrEncoded::Encoded(b)),
        CallOutcome::Completed(Err(e)) => Err(e),
        CallOutcome::Panicked(p) => Err(panic_error(p)),
    }
}

/// The dispatcher: the version descriptor of the compiled-in delegate `D`,
/// and the sandboxed backend adapter it falls back on.
pub struct NativeExecutor<D: NativeExecutionDispatch, B: WasmBackend> {
    native_version: NativeVersion,
    wasm: WasmExecutor<B>,
    dispatch: PhantomData<D>,
}

impl<D: NativeExecutionDispatch, B: WasmBackend> NativeExecutor<D, B> {
    /// The version descriptor of the compiled-in native implementation.
    pub closed spec fn spec_native_version(&self) -> NativeVersionView {
        self.native_version@
    }

    /// The sandboxed backend adapter.
    pub closed spec fn spec_wasm(&self) -> WasmExecutor<B> {
        self.wasm
    }

    /// The adapter is well formed and the stored version descriptor is the
    /// delegate's.
    pub open spec fn wf(&self) -> bool {
        &&& self.spec_wasm().wf()
        &&& self.spec_native_version() == D::spec_native_version()
    }

    /// The configuration of both dispatchers is the same.
    pub open spec fn spec_same_config(&self, other: &Self) -> bool {
        &&& self.spec_native_version() == other.spec_native_version()
        &&& self.spec_wasm().spec_same_config(&other.spec_wasm())
    }

    /// Builds a dispatcher around the delegate `D`: the host-function
    /// registry is the base set merged with the delegate's extension set —
    /// each name held exactly once — and the instance cache starts empty.
    pub fn new(
        fallback_method: WasmExecutionMethod,
        default_heap_pages: Option<u64>,
        max_runtime_instances: usize,
    ) -> (r: NativeExecutor<D, B>)
        ensures
            r.wf(),
            r.spec_native_version() == D::spec_native_version(),
            r.spec_wasm().spec_method() == fallback_method,
            r.spec_wasm().spec_cache().spec_len() == 0,
            r.spec_wasm().spec_max_runtime_instances() == max_runtime_instances,
            forall|n: Seq<char>|
                r.spec_wasm().spec_host_functions().spec_contains(n)
                    <==> (spec_base_host_functions().contains(n)
                    || D::spec_extend_host_functions().contains(n)),
    {
        let mut host_functions = base_host_functions();
        let mut extension = D::extend_host_functions();
        let ghost base_names = names_view(host_functions);
        let ghost extension_names = names_view(extension);
        host_functions.append(&mut extension);
        proof {
            assert(names_view(host_functions) =~= base_names + extension_names);
            assert forall|n: Seq<char>|
                (base_names + extension_names).contains(n) <==> (base_names.contains(n)
                    || extension_names.contains(n)) by {
                if base_names.contains(n) {
                    let i = choose|i: int| 0 <= i < base_names.len() && base_names[i] == n;
                    assert((base_names + extension_names)[i] == n);
                }
                if extension_names.contains(n) {
                    let i = choose|i: int|
                        0 <= i < extension_names.len() && extension_names[i] == n;
                    assert((base_names + extension_names)[base_names.len() + i] == n);
                }
            }
        }
        let wasm = WasmExecutor::new(
            fallback_method,
            default_heap_pages,
            host_functions,
            max_runtime_instances,
        );
        NativeExecutor { native_version: D::native_version(), wasm, dispatch: PhantomData }
    }

    /// The host-function registry of the sandboxed backend adapter.
    pub fn host_functions(&self) -> (r: &HostFunctionRegistry)
        ensures
            r == &self.spec_wasm().spec_host_functions(),
    {
        self.wasm.host_functions()
    }

    /// The version descriptor of the compiled-in native implementation.
    pub fn native_version(&self) -> (v: &NativeVersion)
        ensures
            v@ == self.spec_native_version(),
    {
        &self.native_version
    }

    /// Fetches the declared version of the on-chain program: the fetch-only
    /// variant of a call's first step. The program is built and recorded in
    /// the cache if it was not yet known, but no instance is constructed and
    /// no method of it runs. A program that declares no version is exactly
    /// `Error::ApiError("Unknown version")`, and that error arises from
    /// nothing else; on a program the cache already knows, the read cannot
    /// fail any other way.
    pub fn runtime_version(&mut self, runtime_code: &RuntimeCode) -> (r: Result<
        RuntimeVersion,
        Error,
    >)
        requires
            old(self).wf(),
        ensures
            final(self).wf(),
            final(self).spec_same_config(&old(self)),
            old(self).spec_wasm().spec_cache().spec_has(runtime_code.hash@)
                ==> final(self).spec_wasm().spec_cache().spec_same_entries(old(self).spec_wasm().spec_cache()),
            r matches Ok(v) ==> final(self).spec_wasm().spec_cache().spec_has(runtime_code.hash@)
                && final(self).spec_wasm().spec_cache().spec_version_of(runtime_code.hash@)
                == Some(v@),
            (final(self).spec_wasm().spec_cache().spec_has(runtime_code.hash@) && final(self).spec_wasm().spec_cache().spec_version_of(runtime_code.hash@) is None) ==> (r
                matches Err(e) && e matches Error::ApiError(m) && m@ == "Unknown version"@),
            r matches Err(e) ==> (e matches Error::ApiError(m) ==> (m@ == "Unknown version"@
                && final(self).spec_wasm().spec_cache().spec_has(runtime_code.hash@) && final(self).spec_wasm().spec_cache().spec_version_of(runtime_code.hash@) is None)),
    {
        match self.wasm.read_version(runtime_code, MissingHostFunctions::Disallow) {
            Ok(Some(v)) => Ok(v),
            Ok(None) => Err(Error::ApiError("Unknown version".to_owned())),
            Err(e) => Err(e),
        }
    }

    /// The primary operation: runs method `method` with argument bytes
    /// `data` against the program `runtime_code`, choosing between the
    /// native implementation and the sandboxed one.
    ///
    /// The on-chain program's declared version is always read first and an
    /// instance is readied through the cache; the instance is simply not
    /// invoked when a native path is chosen. A program that declares no
    /// version is exactly `Error::ApiError("Unknown version")` and no
    /// implementation runs. Otherwise exactly one implementation serves the
    /// call, under the panic-safe convention; the returned flag reports
    /// whether it was the native one, and it is false exactly when the
    /// sandboxed path ran or the call failed before either implementation
    /// could run — a failure that is then a typed instantiation error.
    pub fn call<R, NC: FnOnce() -> CallOutcome<Result<R, String>>>(
        &mut self,
        ext: &mut Externalities,
        runtime_code: &RuntimeCode,
        method: &str,
        data: &Vec<u8>,
        use_native: bool,
        native_call: Option<NC>,
    ) -> (r: (Result<NativeOrEncoded<R>, Error>, bool))
        requires
            old(self).wf(),
            native_call matches Some(nc) ==> call_requires(nc, ()),
        ensures
            final(self).wf(),
            final(self).spec_same_config(&old(self)),
            old(self).spec_wasm().spec_cache().spec_has(runtime_code.hash@)
                ==> final(self).spec_wasm().spec_cache().spec_same_entries(old(self).spec_wasm().spec_cache()),
            old(self).spec_wasm().spec_cache().spec_has(runtime_code.hash@) ==> (old(self).spec_wasm().spec_cache().spec_version_of(runtime_code.hash@) matches Some(ov0)
                ==> (!spec_can_call_with(ov0, old(self).spec_native_version()) ==> !r.1)),
            old(self).spec_wasm().spec_cache().spec_has(runtime_code.hash@) ==> (old(self).spec_wasm().spec_cache().spec_version_of(runtime_code.hash@) matches Some(ov0)
                ==> ((use_native && spec_can_call_with(ov0, old(self).spec_native_version()))
                ==> (r.1 || (r.0 matches Err(e) && is_instantiation_error(e))))),
            !use_native ==> r.1 == false,
            r.1 ==> use_native,
            r.1 ==> (final(self).spec_wasm().spec_cache().spec_has(runtime_code.hash@)
                && (final(self).spec_wasm().spec_cache().spec_version_of(runtime_code.hash@)
                matches Some(ov) && spec_can_call_with(ov, final(self).spec_native_version()))),
            final(self).spec_wasm().spec_cache().spec_version_of(runtime_code.hash@) matches Some(
                ov,
            ) ==> ((final(self).spec_wasm().spec_cache().spec_has(runtime_code.hash@)
                && use_native && spec_can_call_with(ov, old(self).spec_native_version())) ==> (r.1
                || (r.0 matches Err(e) && is_instantiation_error(e)))),
            (final(self).spec_wasm().spec_cache().spec_has(runtime_code.hash@)
                && final(self).spec_wasm().spec_cache().spec_version_of(runtime_code.hash@)
                is None) ==> (!r.1 && (r.0 matches Err(e) && e matches Error::ApiError(m) && m@
                == "Unknown version"@)),
            r.0 matches Ok(_) ==> (final(self).spec_wasm().spec_cache().spec_has(
                runtime_code.hash@,
            ) && final(self).spec_wasm().spec_cache().spec_version_of(runtime_code.hash@)
                matches Some(_)),
            native_call is None ==> !(r.0 matches Ok(v) && v is Native),
            (r.0 matches Ok(v) && v is Native) ==> r.1,
            !r.1 ==> exists|o: CallOutcome<Result<Vec<u8>, Error>>| sandbox_result_rel::<R>(
                o,
                r.0,
            ),
            r.1 ==> (native_call matches Some(nc) ==> exists|o: CallOutcome<Result<R, String>>|
                call_ensures(nc, (), o) && native_result_rel(o, r.0)),
            r.1 ==> ((native_call is None && !D::spec_known_method(method@)) ==> (r.0 matches Err(
                e,
            ) && e matches Error::MethodNotFound(n) && n@ == method@)),
    {
        let ghost cache0 = self.wasm.spec_cache();
        // Step one: the on-chain program's declared version, read through
        // the cache.
        let version_opt = match self.wasm.read_version(
            runtime_code,
            MissingHostFunctions::Disallow,
        ) {
            Ok(v) => v,
            Err(e) => {
                proof {
                    assert(sandbox_result_rel::<R>(
                        CallOutcome::Completed(Err::<Vec<u8>, Error>(e)),
                        Err::<NativeOrEncoded<R>, Error>(e),
                    ));
                }
                return (Err(e), false);
            },
        };
        let onchain_version = match version_opt {
            Some(v) => v,
            None => {
                let e = Error::ApiError("Unknown version".to_owned());
                proof {
                    assert(sandbox_result_rel::<R>(
                        CallOutcome::Completed(Err::<Vec<u8>, Error>(e)),
                        Err::<NativeOrEncoded<R>, Error>(e),
                    ));
                }
                return (Err(e), false);
            },
        };
        let ghost cache1 = self.wasm.spec_cache();
        // Step two: ready an instance, even when native execution will be
        // chosen; it is cheap to hold and simply not invoked then.
        let acquired = self.wasm.acquire_instance(runtime_code, MissingHostFunctions::Disallow);
        let mut instance = match acquired {
            Ok(p) => {
                proof {
                    self.wasm.spec_cache().lemma_same_entries_lookup(cache1, runtime_code.hash@);
                    if cache0.spec_has(runtime_code.hash@) {
                        self.wasm.spec_cache().lemma_same_entries_transitive(cache1, cache0);
                    }
                }
                p.0
            },
            Err(e) => {
                proof {
                    self.wasm.spec_cache().lemma_same_entries_lookup(cache1, runtime_code.hash@);
                    if cache0.spec_has(runtime_code.hash@) {
                        self.wasm.spec_cache().lemma_same_entries_transitive(cache1, cache0);
                    }
                    assert(sandbox_result_rel::<R>(
                        CallOutcome::Completed(Err::<Vec<u8>, Error>(e)),
                        Err::<NativeOrEncoded<R>, Error>(e),
                    ));
                }
                return (Err(e), false);
            },
        };
        let ghost cache2 = self.wasm.spec_cache();
        // Step three: decide and run exactly one implementation.
        let compatible = onchain_version.can_call_with(&self.native_version);
        if !compatible || !use_native {
            // The sandboxed path. An instance whose call faulted is
            // discarded instead of being handed back, so the pool stays
            // sound for the next call.
            let outcome = instance.call(method, data, ext);
            let outcome = match outcome {
                CallOutcome::Completed(inner) => {
                    self.wasm.release_instance(&runtime_code.hash, instance);
                    proof {
                        self.wasm.spec_cache().lemma_same_entries_lookup(
                            cache2,
                            runtime_code.hash@,
                        );
                        if cache0.spec_has(runtime_code.hash@) {
                            self.wasm.spec_cache().lemma_same_entries_transitive(cache2, cache0);
                        }
                    }
                    CallOutcome::Completed(inner)
                },
                CallOutcome::Panicked(p) => CallOutcome::Panicked(p),
            };
            (lift_sandbox_outcome(outcome), false)
        } else {
            self.wasm.release_instance(&runtime_code.hash, instance);
            proof {
                self.wasm.spec_cache().lemma_same_entries_lookup(cache2, runtime_code.hash@);
                if cache0.spec_has(runtime_code.hash@) {
                    self.wasm.spec_cache().lemma_same_entries_transitive(cache2, cache0);
                }
            }
            match native_call {
                Some(nc) => {
                    // The caller already holds a typed representation of the
                    // call: run its closure instead of dispatching by name.
                    let outcome = nc();
                    let result = lift_native_outcome(outcome);
                    proof {
                        assert(call_ensures(nc, (), outcome) && native_result_rel(
                            outcome,
                            result,
                        ));
                    }
                    (result, true)
                },
                None => {
                    // Dispatch by name through the delegate.
                    let dispatched = D::dispatch(ext, method, data);
                    let result = match dispatched {
                        Ok(b) => Ok(NativeOrEncoded::Encoded(b)),
                        Err(e) => Err(e),
                    };
                    (result, true)
                },
            }
        }
    }

    /// Runs one method of a program image directly through the sandboxed
    /// backend adapter, bypassing the native/sandboxed decision: the result
    /// and the cache behaviour are exactly the adapter's.
    pub fn call_in_wasm(
        &mut self,
        wasm_code: &Vec<u8>,
        code_hash: Option<Vec<u8>>,
        method: &str,
        call_data: &Vec<u8>,
        ext: &mut Externalities,
        missing_host_functions: MissingHostFunctions,
    ) -> (r: Result<Vec<u8>, Error>)
        requires
            old(self).wf(),
        ensures
            final(self).wf(),
            final(self).spec_same_config(&old(self)),
            code_hash is None ==> *final(self) == *old(self),
            code_hash matches Some(h) ==> (r matches Ok(_)
                ==> final(self).spec_wasm().spec_cache().spec_has(h@)),
            code_hash matches Some(h) ==> (old(self).spec_wasm().spec_cache().spec_has(h@)
                ==> final(self).spec_wasm().spec_cache().spec_same_entries(old(self).spec_wasm().spec_cache())),
            exists|o: CallOutcome<Result<Vec<u8>, Error>>| flattened_outcome_rel(o, r),
    {
        let ghost pre = *self;
        let r = self.wasm.call_in_wasm(
            wasm_code,
            code_hash,
            method,
            call_data,
            ext,
            missing_host_functions,
        );
        proof {
            if code_hash is None {
                assert(*self == pre);
            }
        }
        r
    }
}

} // verus!
