//! The cache of instantiated sandboxed modules.
//!
//! One entry per program hash, holding the built module, the version it
//! declared at instantiation, and a bounded pool of idle instances. An
//! instance leaves the pool while it serves a call — ownership moves to the
//! caller, so one live instance can never serve two calls at once — and is
//! returned afterwards only while the pool is below its bound. An instance
//! whose call faulted is simply not returned, so a failed call never
//! poisons the pool.

use vstd::prelude::*;
use vstd::std_specs::vec::vec_index_mut;

use crate::bytes::{bytes_clone, bytes_eq};
use crate::error::{is_backend_error, Error};
use crate::version::{opt_version_view, RuntimeVersion, RuntimeVersionView};
use crate::wasm_runtime::WasmModule;

verus! {

struct CacheEntry<M: WasmModule> {
    hash: Vec<u8>,
    module: M,
    version: Option<RuntimeVersion>,
    idle: Vec<M::Instance>,
}

/// The cache: entries keyed by program hash, each with a bounded pool of
/// idle instances.
pub struct RuntimeCache<M: WasmModule> {
    max_instances: usize,
    entries: Vec<CacheEntry<M>>,
}

impl<M: WasmModule> RuntimeCache<M> {
    /// The bound on idle instances kept per entry.
    pub closed spec fn spec_max_instances(&self) -> nat {
        self.max_instances as nat
    }

    /// How many entries the cache holds.
    pub closed spec fn spec_len(&self) -> nat {
        self.entries@.len()
    }

    /// The program hash of the entry at `i`.
    pub closed spec fn spec_hash_at(&self, i: int) -> Seq<u8> {
        self.entries@[i].hash@
    }

    /// The declared version stored with the entry at `i`.
    pub closed spec fn spec_version_at(&self, i: int) -> Option<RuntimeVersionView> {
        opt_version_view(self.entries@[i].version)
    }

    /// How many idle instances the entry at `i` holds.
    pub closed spec fn spec_idle_at(&self, i: int) -> nat {
        self.entries@[i].idle@.len()
    }

    /// Whether some entry is keyed by `h`.
    pub open spec fn spec_has(&self, h: Seq<u8>) -> bool {
        exists|i: int| 0 <= i < self.spec_len() && #[trigger] self.spec_hash_at(i) == h
    }

    /// Entries are keyed by distinct hashes and no idle pool exceeds the
    /// bound.
    pub open spec fn wf(&self) -> bool {
        &&& forall|i: int, j: int|
            0 <= i < j < self.spec_len() ==> #[trigger] self.spec_hash_at(i)
                != #[trigger] self.spec_hash_at(j)
        &&& forall|i: int| 0 <= i < self.spec_len() ==> #[trigger] self.spec_idle_at(i)
            <= self.spec_max_instances()
    }

    /// The position of the entry keyed by `h`. Meaningful when the cache
    /// holds one and is well formed, so that the position is unique.
    pub open spec fn spec_index_of(&self, h: Seq<u8>) -> int {
        choose|i: int| 0 <= i < self.spec_len() && #[trigger] self.spec_hash_at(i) == h
    }

    /// The version stored with the entry keyed by `h`.
    pub open spec fn spec_version_of(&self, h: Seq<u8>) -> Option<RuntimeVersionView> {
        self.spec_version_at(self.spec_index_of(h))
    }

    /// How many idle instances the entry keyed by `h` holds.
    pub open spec fn spec_idle_of(&self, h: Seq<u8>) -> nat {
        self.spec_idle_at(self.spec_index_of(h))
    }

    /// Both caches hold the same entries — same hashes and versions at the
    /// same positions, same bound — and only idle pools may differ.
    pub open spec fn spec_same_entries(self, pre: Self) -> bool {
        &&& self.spec_len() == pre.spec_len()
        &&& self.spec_max_instances() == pre.spec_max_instances()
        &&& forall|j: int|
            0 <= j < self.spec_len() ==> #[trigger] self.spec_hash_at(j) == pre.spec_hash_at(j)
                && self.spec_version_at(j) == pre.spec_version_at(j)
    }

    /// The cache after an operation on the pool of entry `i`: every entry
    /// keeps its hash and version, every other entry also keeps its idle
    /// pool, and the bound and the number of entries stand.
    pub open spec fn unchanged_except_idle(self, pre: Self, i: int) -> bool {
        &&& self.spec_len() == pre.spec_len()
        &&& self.spec_max_instances() == pre.spec_max_instances()
        &&& forall|j: int|
            0 <= j < self.spec_len() ==> #[trigger] self.spec_hash_at(j) == pre.spec_hash_at(j)
                && self.spec_version_at(j) == pre.spec_version_at(j)
        &&& forall|j: int|
            0 <= j < self.spec_len() && j != i ==> #[trigger] self.spec_idle_at(j)
                == pre.spec_idle_at(j)
    }

    /// Holding the same entries is transitive.
    pub proof fn lemma_same_entries_transitive(self, mid: Self, pre: Self)
        requires
            self.spec_same_entries(mid),
            mid.spec_same_entries(pre),
        ensures
            self.spec_same_entries(pre),
    {
        assert forall|j: int|
            0 <= j < self.spec_len() implies #[trigger] self.spec_hash_at(j) == pre.spec_hash_at(
            j,
        ) && self.spec_version_at(j) == pre.spec_version_at(j) by {
            assert(self.spec_hash_at(j) == mid.spec_hash_at(j));
            assert(mid.spec_hash_at(j) == pre.spec_hash_at(j));
        }
    }

    /// Entry lookups agree between two caches with the same entries: the
    /// entry keyed by a hash sits at the same position and stores the same
    /// version.
    pub proof fn lemma_same_entries_lookup(self, pre: Self, h: Seq<u8>)
        requires
            self.spec_same_entries(pre),
            pre.wf(),
            pre.spec_has(h),
        ensures
            self.spec_has(h),
            self.spec_index_of(h) == pre.spec_index_of(h),
            self.spec_version_of(h) == pre.spec_version_of(h),
    {
        let i = pre.spec_index_of(h);
        assert(0 <= i < pre.spec_len() && pre.spec_hash_at(i) == h);
        assert(self.spec_hash_at(i) == h);
        assert(self.spec_has(h));
        let j = self.spec_index_of(h);
        assert(0 <= j < self.spec_len() && self.spec_hash_at(j) == h);
        if i != j {
            let a = if i < j { i } else { j };
            let b = if i < j { j } else { i };
            assert(pre.spec_hash_at(a) != pre.spec_hash_at(b));
        }
    }

    /// An empty cache keeping at most `max_instances` idle instances per
    /// entry.
    pub fn new(max_instances: usize) -> (r: RuntimeCache<M>)
        ensures
            r.wf(),
            r.spec_len() == 0,
            r.spec_max_instances() == max_instances,
    {
        RuntimeCache { max_instances, entries: Vec::new() }
    }

    /// Finds the entry keyed by `hash`.
    pub fn find(&self, hash: &Vec<u8>) -> (r: Option<usize>)
        ensures
            r matches Some(i) ==> 0 <= i < self.spec_len() && self.spec_hash_at(i as int)
                == hash@,
            r is None ==> !self.spec_has(hash@),
    {
        let mut k: usize = 0;
        while k < self.entries.len()
            invariant
                k <= self.spec_len(),
                forall|j: int| 0 <= j < k ==> #[trigger] self.spec_hash_at(j) != hash@,
            decreases self.spec_len() - k,
        {
            if bytes_eq(&self.entries[k].hash, hash) {
                return Some(k);
            }
            k += 1;
        }
        None
    }

    /// Adds an entry for `hash` holding `module` and the version it
    /// declared, with an empty idle pool. Returns the entry's position.
    pub fn insert(&mut self, hash: &Vec<u8>, module: M, version: Option<RuntimeVersion>) -> (i:
        usize)
        requires
            old(self).wf(),
            !old(self).spec_has(hash@),
        ensures
            final(self).wf(),
            i == old(self).spec_len(),
            final(self).spec_len() == old(self).spec_len() + 1,
            final(self).spec_max_instances() == old(self).spec_max_instances(),
            final(self).spec_hash_at(i as int) == hash@,
            final(self).spec_version_at(i as int) == opt_version_view(version),
            final(self).spec_idle_at(i as int) == 0,
            forall|j: int|
                0 <= j < old(self).spec_len() ==> #[trigger] final(self).spec_hash_at(j)
                    == old(self).spec_hash_at(j) && final(self).spec_version_at(j) == old(
                    self,
                ).spec_version_at(j) && final(self).spec_idle_at(j) == old(self).spec_idle_at(j),
    {
        let ghost pre = *self;
        let i = self.entries.len();
        let stored_hash = bytes_clone(hash);
        self.entries.push(CacheEntry { hash: stored_hash, module, version, idle: Vec::new() });
        proof {
            assert forall|j: int| 0 <= j < i implies self.entries@[j] == pre.entries@[j] by {}
            assert forall|a: int, b: int|
                0 <= a < b < self.spec_len() implies self.spec_hash_at(a) != self.spec_hash_at(
                b,
            ) by {
                if b < i {
                    assert(pre.spec_hash_at(a) != pre.spec_hash_at(b));
                } else {
                    assert(b == i);
                    assert(pre.spec_hash_at(a) == self.spec_hash_at(a));
                    if self.spec_hash_at(a) == hash@ {
                        assert(pre.spec_has(hash@));
                    }
                }
            }
            assert(self.spec_idle_at(i as int) == 0);
            assert forall|j: int|
                0 <= j < self.spec_len() implies #[trigger] self.spec_idle_at(j)
                    <= self.spec_max_instances() by {
                if j < i {
                    assert(pre.spec_idle_at(j) <= pre.spec_max_instances());
                }
            }
        }
        i
    }

    /// The declared version stored with the entry at `i`.
    pub fn version_at(&self, i: usize) -> (v: Option<RuntimeVersion>)
        requires
            i < self.spec_len(),
        ensures
            opt_version_view(v) == self.spec_version_at(i as int),
    {
        match &self.entries[i].version {
            Some(rv) => Some(rv.clone()),
            None => None,
        }
    }

    /// Takes one idle instance out of the pool of the entry at `i`, if the
    /// pool holds any. The caller owns the instance until it is returned
    /// with [`RuntimeCache::push_idle`].
    pub fn pop_idle(&mut self, i: usize) -> (r: Option<<M as WasmModule>::Instance>)
        requires
            old(self).wf(),
            i < old(self).spec_len(),
        ensures
            final(self).wf(),
            final(self).unchanged_except_idle(*old(self), i as int),
            old(self).spec_idle_at(i as int) == 0 ==> r is None && final(self).spec_idle_at(
                i as int,
            ) == 0,
            old(self).spec_idle_at(i as int) > 0 ==> r is Some && final(self).spec_idle_at(
                i as int,
            ) == old(self).spec_idle_at(i as int) - 1,
    {
        let ghost pre = *self;
        let entry = vec_index_mut(&mut self.entries, i);
        let r = entry.idle.pop();
        proof {
            assert forall|j: int|
                0 <= j < self.entries@.len() && j != i implies self.entries@[j]
                    == pre.entries@[j] by {}
            assert(self.entries@[i as int].hash@ == pre.entries@[i as int].hash@);
            assert(self.entries@[i as int].version == pre.entries@[i as int].version);
            assert(self.entries@[i as int].idle@.len() <= pre.entries@[i as int].idle@.len());
            assert forall|a: int, b: int|
                0 <= a < b < self.spec_len() implies self.spec_hash_at(a) != self.spec_hash_at(
                b,
            ) by {
                assert(pre.spec_hash_at(a) != pre.spec_hash_at(b));
            }
            assert forall|j: int|
                0 <= j < self.spec_len() implies #[trigger] self.spec_idle_at(j)
                    <= self.spec_max_instances() by {
                assert(pre.spec_idle_at(j) <= pre.spec_max_instances());
            }
        }
        r
    }

    /// Returns an instance to the pool of the entry at `i`. The instance is
    /// kept only while the pool is below the bound; otherwise it is
    /// discarded. Returns whether it was kept.
    pub fn push_idle(&mut self, i: usize, instance: <M as WasmModule>::Instance) -> (kept: bool)
        requires
            old(self).wf(),
            i < old(self).spec_len(),
        ensures
            final(self).wf(),
            final(self).unchanged_except_idle(*old(self), i as int),
            kept == (old(self).spec_idle_at(i as int) < old(self).spec_max_instances()),
            kept ==> final(self).spec_idle_at(i as int) == old(self).spec_idle_at(i as int) + 1,
            !kept ==> final(self).spec_idle_at(i as int) == old(self).spec_idle_at(i as int),
    {
        let ghost pre = *self;
        let cap = self.max_instances;
        let entry = vec_index_mut(&mut self.entries, i);
        let kept: bool;
        if entry.idle.len() < cap {
            entry.idle.push(instance);
            kept = true;
        } else {
            kept = false;
        }
        proof {
            assert forall|j: int|
                0 <= j < self.entries@.len() && j != i implies self.entries@[j]
                    == pre.entries@[j] by {}
            assert(self.entries@[i as int].hash@ == pre.entries@[i as int].hash@);
            assert(self.entries@[i as int].version == pre.entries@[i as int].version);
            assert forall|a: int, b: int|
                0 <= a < b < self.spec_len() implies self.spec_hash_at(a) != self.spec_hash_at(
                b,
            ) by {
                assert(pre.spec_hash_at(a) != pre.spec_hash_at(b));
            }
            assert forall|j: int|
                0 <= j < self.spec_len() implies #[trigger] self.spec_idle_at(j)
                    <= self.spec_max_instances() by {
                if j != i {
                    assert(pre.spec_idle_at(j) <= pre.spec_max_instances());
                }
            }
        }
        kept
    }

    /// Builds a fresh instance from the module of the entry at `i`.
    pub fn new_instance_at(&self, i: usize) -> (r: Result<<M as WasmModule>::Instance, Error>)
        requires
            i < self.spec_len(),
        ensures
            r matches Err(e) ==> is_backend_error(e),
    {
        self.entries[i].module.new_instance()
    }
}

} // verus!
