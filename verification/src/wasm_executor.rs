//! The sandboxed backend adapter: owns the execution-method configuration,
//! the host-function registry and the instance cache, and exposes running a
//! method against a program image as its primitive operation.
//!
//! The configuration — execution method, memory-page default, registry and
//! pool bound — is set once at construction and never changes afterwards;
//! every operation only touches the cache.

use vstd::prelude::*;

use crate::bytes::bytes_clone;
use crate::cache::RuntimeCache;
use crate::error::{is_backend_error, Error};
use crate::externalities::Externalities;
use crate::guard::{flattened_outcome_rel, guard_flatten, CallOutcome};
use crate::host_functions::{
    check_host_functions, dedup_first, names_view, HostFunctionRegistry, MissingHostFunctions,
};
use crate::version::{opt_version_view, RuntimeVersion};
use crate::wasm_runtime::{
    RuntimeCode, WasmBackend, WasmExecutionMethod, WasmInstance, WasmModule, DEFAULT_HEAP_PAGES,
};

verus! {

/// The adapter over the sandboxed execution backend `B`.
pub struct WasmExecutor<B: WasmBackend> {
    method: WasmExecutionMethod,
    default_heap_pages: u64,
    host_functions: HostFunctionRegistry,
    cache: RuntimeCache<B::Module>,
    max_runtime_instances: usize,
}

impl<B: WasmBackend> WasmExecutor<B> {
    /// The configured execution method.
    pub closed spec fn spec_method(&self) -> WasmExecutionMethod {
        self.method
    }

    /// The configured default memory-page budget.
    pub closed spec fn spec_default_heap_pages(&self) -> u64 {
        self.default_heap_pages
    }

    /// The host-function registry.
    pub closed spec fn spec_host_functions(&self) -> HostFunctionRegistry {
        self.host_functions
    }

    /// The instance cache.
    pub closed spec fn spec_cache(&self) -> RuntimeCache<B::Module> {
        self.cache
    }

    /// The configured bound on idle instances kept per program hash.
    pub closed spec fn spec_max_runtime_instances(&self) -> usize {
        self.max_runtime_instances
    }

    /// The registry holds no duplicates and the cache is well formed with
    /// the configured bound.
    pub open spec fn wf(&self) -> bool {
        &&& self.spec_host_functions().wf()
        &&& self.spec_cache().wf()
        &&& self.spec_cache().spec_max_instances() == self.spec_max_runtime_instances()
    }

    /// The configuration of both executors is the same.
    pub open spec fn spec_same_config(&self, other: &Self) -> bool {
        &&& self.spec_method() == other.spec_method()
        &&& self.spec_default_heap_pages() == other.spec_default_heap_pages()
        &&& self.spec_host_functions() == other.spec_host_functions()
        &&& self.spec_max_runtime_instances() == other.spec_max_runtime_instances()
    }

    /// Builds an adapter with the given execution method, memory-page
    /// default (the fixed default applies when absent), host-function names
    /// — de-duplicated, keeping each first occurrence — and bound on idle
    /// instances kept per program hash.
    pub fn new(
        method: WasmExecutionMethod,
        default_heap_pages: Option<u64>,
        host_functions: Vec<String>,
        max_runtime_instances: usize,
    ) -> (r: WasmExecutor<B>)
        ensures
            r.wf(),
            r.spec_method() == method,
            default_heap_pages matches Some(p) ==> r.spec_default_heap_pages() == p,
            default_heap_pages is None ==> r.spec_default_heap_pages() == DEFAULT_HEAP_PAGES,
            r.spec_host_functions()@ == dedup_first(names_view(host_functions)),
            forall|n: Seq<char>|
                r.spec_host_functions().spec_contains(n) <==> names_view(
                    host_functions,
                ).contains(n),
            r.spec_cache().spec_len() == 0,
            r.spec_max_runtime_instances() == max_runtime_instances,
    {
        let pages = match default_heap_pages {
            Some(p) => p,
            None => DEFAULT_HEAP_PAGES,
        };
        WasmExecutor {
            method,
            default_heap_pages: pages,
            host_functions: HostFunctionRegistry::from_names(&host_functions),
            cache: RuntimeCache::new(max_runtime_instances),
            max_runtime_instances,
        }
    }

    /// The host-function registry, as built at construction.
    pub fn host_functions(&self) -> (r: &HostFunctionRegistry)
        ensures
            r == &self.spec_host_functions(),
    {
        &self.host_functions
    }

    /// The memory-page budget for one program: its override, or the
    /// configured default.
    pub fn heap_pages_for(&self, runtime_code: &RuntimeCode) -> (r: u64)
        ensures
            runtime_code.heap_pages matches Some(p) ==> r == p,
            runtime_code.heap_pages is None ==> r == self.spec_default_heap_pages(),
    {
        match runtime_code.heap_pages {
            Some(p) => p,
            None => self.default_heap_pages,
        }
    }

    /// Obtains a ready instance for `runtime_code`, together with the
    /// declared version read when the program was first instantiated.
    ///
    /// On a cache miss the program is built through the backend, its
    /// referenced host functions are checked against the registry under
    /// `policy`, and the new entry is recorded; on a hit the entry is
    /// reused. The returned instance is owned by the caller — it serves this
    /// one call and no other — until it is handed back with
    /// [`WasmExecutor::release_instance`]. This is the sole point of contact
    /// with the instance cache.
    pub fn acquire_instance(&mut self, runtime_code: &RuntimeCode, policy: MissingHostFunctions)
        -> (r: Result<(<B::Module as WasmModule>::Instance, Option<RuntimeVersion>), Error>)
        requires
            old(self).wf(),
        ensures
            final(self).wf(),
            final(self).spec_same_config(&old(self)),
            old(self).spec_cache().spec_has(runtime_code.hash@)
                ==> final(self).spec_cache().spec_same_entries(old(self).spec_cache()),
            r matches Ok(p) ==> final(self).spec_cache().spec_has(runtime_code.hash@)
                && final(self).spec_cache().spec_version_of(runtime_code.hash@)
                == opt_version_view(p.1),
            r matches Err(e) ==> (is_backend_error(e) || (e matches Error::MissingHostFunction(n)
                && !policy.spec_allowed() && !old(self).spec_host_functions().spec_contains(n@))),
    {
        let ghost pre_cache = self.cache;
        match self.cache.find(&runtime_code.hash) {
            Some(i) => {
                let version = self.cache.version_at(i);
                let instance = match self.cache.pop_idle(i) {
                    Some(instance) => instance,
                    None => self.cache.new_instance_at(i)?,
                };
                proof {
                    assert(self.cache.spec_hash_at(i as int) == runtime_code.hash@);
                    assert(self.cache.spec_index_of(runtime_code.hash@) == i as int);
                }
                Ok((instance, version))
            },
            None => {
                let heap_pages = self.heap_pages_for(runtime_code);
                let module = B::create_module(self.method, heap_pages, &runtime_code.code)?;
                let required = module.required_host_functions();
                check_host_functions(&required, &self.host_functions, policy)?;
                let version = module.declared_version();
                let returned = match &version {
                    Some(v) => Some(v.clone()),
                    None => None,
                };
                let i = self.cache.insert(&runtime_code.hash, module, version);
                let instance = self.cache.new_instance_at(i)?;
                proof {
                    assert(self.cache.spec_hash_at(i as int) == runtime_code.hash@);
                    assert(self.cache.spec_index_of(runtime_code.hash@) == i as int);
                }
                Ok((instance, returned))
            },
        }
    }

    /// Reads the declared version of the program identified by
    /// `runtime_code`: from its cache entry when one exists, and otherwise by
    /// building the program through the backend — checking its referenced
    /// host functions against the registry under `policy` — and recording the
    /// new entry. No instance is constructed, so on a program the cache
    /// already knows this cannot fail.
    pub fn read_version(&mut self, runtime_code: &RuntimeCode, policy: MissingHostFunctions) -> (r:
        Result<Option<RuntimeVersion>, Error>)
        requires
            old(self).wf(),
        ensures
            final(self).wf(),
            final(self).spec_same_config(&old(self)),
            old(self).spec_cache().spec_has(runtime_code.hash@)
                ==> (final(self).spec_cache().spec_same_entries(old(self).spec_cache())
                && (r matches Ok(v) && opt_version_view(v) == old(self).spec_cache().spec_version_of(runtime_code.hash@))),
            r matches Ok(v) ==> (final(self).spec_cache().spec_has(runtime_code.hash@)
                && final(self).spec_cache().spec_version_of(runtime_code.hash@)
                == opt_version_view(v)),
            r matches Err(e) ==> (*final(self) == *old(self) && (is_backend_error(e) || (e
                matches Error::MissingHostFunction(n) && !policy.spec_allowed() && !old(self).spec_host_functions().spec_contains(n@)))),
    {
        match self.cache.find(&runtime_code.hash) {
            Some(i) => {
                proof {
                    assert(self.cache.spec_index_of(runtime_code.hash@) == i as int);
                }
                Ok(self.cache.version_at(i))
            },
            None => {
                let heap_pages = self.heap_pages_for(runtime_code);
                let module = B::create_module(self.method, heap_pages, &runtime_code.code)?;
                let required = module.required_host_functions();
                check_host_functions(&required, &self.host_functions, policy)?;
                let version = module.declared_version();
                let returned = match &version {
                    Some(v) => Some(v.clone()),
                    None => None,
                };
                let i = self.cache.insert(&runtime_code.hash, module, version);
                proof {
                    assert(self.cache.spec_hash_at(i as int) == runtime_code.hash@);
                    assert(self.cache.spec_index_of(runtime_code.hash@) == i as int);
                }
                Ok(returned)
            },
        }
    }

    /// Hands an instance back after a completed call. It rejoins the idle
    /// pool of its program exactly when the cache knows the program and the
    /// pool is below the bound, and is discarded otherwise — as it is, by
    /// simply not being handed back, when its call faulted, so that a failed
    /// call never poisons the pool.
    pub fn release_instance(
        &mut self,
        hash: &Vec<u8>,
        instance: <B::Module as WasmModule>::Instance,
    ) -> (kept: bool)
        requires
            old(self).wf(),
        ensures
            final(self).wf(),
            final(self).spec_same_config(&old(self)),
            final(self).spec_cache().spec_same_entries(old(self).spec_cache()),
            kept == (old(self).spec_cache().spec_has(hash@) && old(self).spec_cache().spec_idle_of(
                hash@,
            ) < old(self).spec_cache().spec_max_instances()),
            old(self).spec_cache().spec_has(hash@) ==> ((kept ==> final(self).spec_cache().spec_idle_of(hash@) == old(self).spec_cache().spec_idle_of(hash@) + 1)
                && (!kept ==> final(self).spec_cache().spec_idle_of(hash@) == old(self).spec_cache().spec_idle_of(hash@))),
    {
        let ghost pre = self.cache;
        match self.cache.find(hash) {
            Some(i) => {
                proof {
                    assert(pre.spec_index_of(hash@) == i as int);
                }
                let kept = self.cache.push_idle(i, instance);
                proof {
                    self.cache.lemma_same_entries_lookup(pre, hash@);
                }
                kept
            },
            None => false,
        }
    }

    /// Runs one method of a program image directly.
    ///
    /// With a content hash the image is served through the instance cache,
    /// exactly as dispatched calls are — a success is possible only once the
    /// cache holds an entry for that hash, and entries the cache already
    /// held are preserved; without a hash a throwaway module is built, runs
    /// the one call, and is discarded, leaving the adapter untouched. Either
    /// way the result is the guarded outcome of one run: the run's own
    /// result, or `Error::RuntimePanicked` for a fault; errors on the way to
    /// the run pass through unchanged.
    pub fn call_in_wasm(
        &mut self,
        wasm_code: &Vec<u8>,
        code_hash: Option<Vec<u8>>,
        method: &str,
        call_data: &Vec<u8>,
        ext: &mut Externalities,
        missing_host_functions: MissingHostFunctions,
    ) -> (r: Result<Vec<u8>, Error>)
        requires
            old(self).wf(),
        ensures
            final(self).wf(),
            final(self).spec_same_config(&old(self)),
            code_hash is None ==> *final(self) == *old(self),
            code_hash matches Some(h) ==> (r matches Ok(_)
                ==> final(self).spec_cache().spec_has(h@)),
            code_hash matches Some(h) ==> (old(self).spec_cache().spec_has(h@)
                ==> final(self).spec_cache().spec_same_entries(old(self).spec_cache())),
            exists|o: CallOutcome<Result<Vec<u8>, Error>>| flattened_outcome_rel(o, r),
    {
        match code_hash {
            Some(hash) => {
                let ghost cache0 = self.cache;
                let code = RuntimeCode {
                    code: bytes_clone(wasm_code),
                    hash,
                    heap_pages: None,
                };
                let acquired = self.acquire_instance(&code, missing_host_functions);
                let (mut instance, _version) = match acquired {
                    Ok(p) => p,
                    Err(e) => {
                        proof {
                            assert(flattened_outcome_rel(
                                CallOutcome::Completed(Err::<Vec<u8>, Error>(e)),
                                Err::<Vec<u8>, Error>(e),
                            ));
                        }
                        return Err(e);
                    },
                };
                let ghost cache1 = self.cache;
                let outcome = instance.call(method, call_data, ext);
                let outcome = match outcome {
                    CallOutcome::Completed(inner) => {
                        self.release_instance(&code.hash, instance);
                        proof {
                            if cache0.spec_has(code.hash@) {
                                self.cache.lemma_same_entries_transitive(cache1, cache0);
                            }
                            self.cache.lemma_same_entries_lookup(cache1, code.hash@);
                        }
                        CallOutcome::Completed(inner)
                    },
                    CallOutcome::Panicked(p) => CallOutcome::Panicked(p),
                };
                guard_flatten(outcome)
            },
            None => {
                let module = match B::create_module(
                    self.method,
                    self.default_heap_pages,
                    wasm_code,
                ) {
                    Ok(m) => m,
                    Err(e) => {
                        proof {
                            assert(flattened_outcome_rel(
                                CallOutcome::Completed(Err::<Vec<u8>, Error>(e)),
                                Err::<Vec<u8>, Error>(e),
                            ));
                        }
                        return Err(e);
                    },
                };
                let required = module.required_host_functions();
                match check_host_functions(&required, &self.host_functions, missing_host_functions) {
                    Ok(_) => (),
                    Err(e) => {
                        proof {
                            assert(flattened_outcome_rel(
                                CallOutcome::Completed(Err::<Vec<u8>, Error>(e)),
                                Err::<Vec<u8>, Error>(e),
                            ));
                        }
                        return Err(e);
                    },
                }
                let mut instance = match module.new_instance() {
                    Ok(instance) => instance,
                    Err(e) => {
                        proof {
                            assert(flattened_outcome_rel(
                                CallOutcome::Completed(Err::<Vec<u8>, Error>(e)),
                                Err::<Vec<u8>, Error>(e),
                            ));
                        }
                        return Err(e);
                    },
                };
                let outcome = instance.call(method, call_data, ext);
                guard_flatten(outcome)
            },
        }
    }
}

} // verus!
