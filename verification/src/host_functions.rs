//! The registry of named host functions exposed into the sandbox, and the
//! policy for program images that reference host functions the registry does
//! not hold.
//!
//! The registry is an ordered collection without duplicates. It is built once
//! when a dispatcher is constructed, from a base set merged with the
//! extension set of the concrete native implementation, keeping the first
//! occurrence of every name.

use vstd::prelude::*;

use crate::error::Error;

verus! {

/// Model of a list of names: the sequence of their character sequences.
pub open spec fn names_view(list: Vec<String>) -> Seq<Seq<char>> {
    list@.map_values(|n: String| n@)
}

/// First-occurrence de-duplication of a sequence of names: the result keeps
/// every name of `s` exactly once, in the order in which each first appears.
pub open spec fn dedup_first(s: Seq<Seq<char>>) -> Seq<Seq<char>>
    decreases s.len(),
{
    if s.len() == 0 {
        Seq::empty()
    } else {
        let d = dedup_first(s.drop_last());
        if d.contains(s.last()) {
            d
        } else {
            d.push(s.last())
        }
    }
}

/// De-duplication keeps membership: a name is in the result exactly when it
/// is in the input.
pub proof fn lemma_dedup_first_membership(s: Seq<Seq<char>>)
    ensures
        forall|n: Seq<char>| dedup_first(s).contains(n) <==> s.contains(n),
    decreases s.len(),
{
    if s.len() == 0 {
    } else {
        lemma_dedup_first_membership(s.drop_last());
        let d = dedup_first(s.drop_last());
        assert forall|n: Seq<char>| s.contains(n) implies dedup_first(s).contains(n) by {
            let i = choose|i: int| 0 <= i < s.len() && s[i] == n;
            if i < s.len() - 1 {
                assert(s.drop_last()[i] == n);
                assert(s.drop_last().contains(n));
                if !d.contains(s.last()) {
                    let j = choose|j: int| 0 <= j < d.len() && d[j] == n;
                    assert(d.push(s.last())[j] == n);
                }
            } else {
                if d.contains(s.last()) {
                } else {
                    assert(d.push(s.last())[d.len() as int] == n);
                }
            }
        }
        assert forall|n: Seq<char>| dedup_first(s).contains(n) implies s.contains(n) by {
            if s.drop_last().contains(n) {
                let i = choose|i: int| 0 <= i < s.drop_last().len() && s.drop_last()[i] == n;
                assert(s[i] == n);
            }
        }
    }
}

/// The result of de-duplication holds no name twice.
pub proof fn lemma_dedup_first_no_duplicates(s: Seq<Seq<char>>)
    ensures
        forall|i: int, j: int|
            0 <= i < j < dedup_first(s).len() ==> dedup_first(s)[i] != dedup_first(s)[j],
    decreases s.len(),
{
    if s.len() == 0 {
    } else {
        lemma_dedup_first_no_duplicates(s.drop_last());
        let d = dedup_first(s.drop_last());
        if !d.contains(s.last()) {
            assert forall|i: int, j: int|
                0 <= i < j < dedup_first(s).len() implies dedup_first(s)[i] != dedup_first(
                s,
            )[j] by {
                if j < d.len() {
                } else {
                    assert(dedup_first(s)[j] == s.last());
                    assert(d.contains(d[i]));
                }
            }
        }
    }
}

/// A sequence without duplicates is its own de-duplication.
pub proof fn lemma_dedup_first_of_distinct(s: Seq<Seq<char>>)
    requires
        forall|i: int, j: int| 0 <= i < j < s.len() ==> s[i] != s[j],
    ensures
        dedup_first(s) == s,
    decreases s.len(),
{
    if s.len() == 0 {
        assert(dedup_first(s) =~= s);
    } else {
        lemma_dedup_first_of_distinct(s.drop_last());
        if s.drop_last().contains(s.last()) {
            let i = choose|i: int|
                0 <= i < s.drop_last().len() && s.drop_last()[i] == s.last();
            assert(s[i] == s[s.len() - 1]);
            assert(false);
        }
        assert(dedup_first(s) =~= s);
    }
}

/// The ordered, de-duplicated collection of host-function names exposed into
/// the sandbox.
#[derive(Debug)]
pub struct HostFunctionRegistry {
    names: Vec<String>,
}

impl View for HostFunctionRegistry {
    type V = Seq<Seq<char>>;

    closed spec fn view(&self) -> Seq<Seq<char>> {
        names_view(self.names)
    }
}

impl HostFunctionRegistry {
    /// No name occurs twice.
    pub open spec fn wf(&self) -> bool {
        forall|i: int, j: int| 0 <= i < j < self@.len() ==> self@[i] != self@[j]
    }

    /// Whether the registry holds `name`.
    pub open spec fn spec_contains(&self, name: Seq<char>) -> bool {
        self@.contains(name)
    }

    /// An empty registry.
    pub fn new() -> (r: HostFunctionRegistry)
        ensures
            r@ == Seq::<Seq<char>>::empty(),
            r.wf(),
    {
        HostFunctionRegistry { names: Vec::new() }
    }

    /// How many names the registry holds.
    pub fn len(&self) -> (r: usize)
        ensures
            r == self@.len(),
    {
        self.names.len()
    }

    /// The name at position `i`, in registration order.
    pub fn name_at(&self, i: usize) -> (r: &String)
        requires
            i < self@.len(),
        ensures
            r@ == self@[i as int],
    {
        &self.names[i]
    }

    /// Whether the registry holds `name`.
    pub fn contains(&self, name: &String) -> (r: bool)
        ensures
            r == self.spec_contains(name@),
    {
        let mut k: usize = 0;
        while k < self.names.len()
            invariant
                k <= self.names.len(),
                forall|j: int| 0 <= j < k ==> self@[j] != name@,
            decreases self.names.len() - k,
        {
            if self.names[k].eq(name) {
                assert(self@[k as int] == name@);
                return true;
            }
            k += 1;
        }
        false
    }

    /// Appends every name of `extra` that the registry does not hold yet, in
    /// order; the merged registry holds a name exactly when the old registry
    /// or `extra` holds it, and still holds no name twice.
    pub fn extend(&mut self, extra: &Vec<String>)
        requires
            old(self).wf(),
        ensures
            final(self)@ == dedup_first(old(self)@ + names_view(*extra)),
            final(self).wf(),
            forall|n: Seq<char>|
                final(self).spec_contains(n) <==> old(self).spec_contains(n) || names_view(
                    *extra,
                ).contains(n),
    {
        let ghost base = self@;
        let ghost extra_names = names_view(*extra);
        proof {
            lemma_dedup_first_of_distinct(base);
            assert(base + extra_names.take(0) =~= base);
        }
        let mut k: usize = 0;
        while k < extra.len()
            invariant
                k <= extra.len(),
                self@ == dedup_first(base + extra_names.take(k as int)),
                extra_names.len() == extra.len(),
                forall|j: int| 0 <= j < extra.len() ==> extra_names[j] == extra@[j]@,
            decreases extra.len() - k,
        {
            let ghost pre = self@;
            let present = self.contains(&extra[k]);
            if !present {
                self.names.push(extra[k].clone());
                proof {
                    assert(self@ =~= pre.push(extra@[k as int]@));
                }
            }
            proof {
                let t = base + extra_names.take(k as int + 1);
                assert(t.drop_last() =~= base + extra_names.take(k as int));
                assert(t.last() == extra_names[k as int]);
            }
            k += 1;
        }
        proof {
            assert(base + extra_names.take(extra_names.len() as int) =~= base + extra_names);
            lemma_dedup_first_no_duplicates(base + extra_names);
            lemma_dedup_first_membership(base + extra_names);
            assert forall|n: Seq<char>|
                (base + extra_names).contains(n) <==> base.contains(n) || extra_names.contains(
                    n,
                ) by {
                if base.contains(n) {
                    let i = choose|i: int| 0 <= i < base.len() && base[i] == n;
                    assert((base + extra_names)[i] == n);
                }
                if extra_names.contains(n) {
                    let i = choose|i: int| 0 <= i < extra_names.len() && extra_names[i] == n;
                    assert((base + extra_names)[base.len() + i] == n);
                }
            }
        }
    }

    /// Builds a registry from a list of names, keeping the first occurrence
    /// of every name.
    pub fn from_names(list: &Vec<String>) -> (r: HostFunctionRegistry)
        ensures
            r@ == dedup_first(names_view(*list)),
            r.wf(),
            forall|n: Seq<char>| r.spec_contains(n) <==> names_view(*list).contains(n),
    {
        let mut r = HostFunctionRegistry::new();
        proof {
            assert(Seq::<Seq<char>>::empty() + names_view(*list) =~= names_view(*list));
        }
        r.extend(list);
        r
    }
}

/// The names of the base host functions every dispatcher exposes into the
/// sandbox, before the extension set of the concrete native implementation
/// is merged in.
pub open spec fn spec_base_host_functions() -> Seq<Seq<char>> {
    seq![
        "ext_allocator_malloc"@,
        "ext_allocator_free"@,
        "ext_storage_get"@,
        "ext_storage_set"@,
        "ext_hashing_blake2_256"@,
    ]
}

/// The base host functions every dispatcher exposes into the sandbox.
pub fn base_host_functions() -> (r: Vec<String>)
    ensures
        names_view(r) == spec_base_host_functions(),
{
    let mut r: Vec<String> = Vec::new();
    r.push("ext_allocator_malloc".to_owned());
    r.push("ext_allocator_free".to_owned());
    r.push("ext_storage_get".to_owned());
    r.push("ext_storage_set".to_owned());
    r.push("ext_hashing_blake2_256".to_owned());
    proof {
        assert(names_view(r) =~= spec_base_host_functions());
    }
    r
}

/// How instantiating a program image that references host functions absent
/// from the registry is treated.
#[derive(Clone, Copy, Debug, PartialEq, Eq, Structural)]
pub enum MissingHostFunctions {
    /// Absent host functions are tolerated; they trap only if invoked.
    Allow,
    /// Absent host functions are tolerated, but worth a warning to operators.
    Warn,
    /// Instantiation fails with a typed error.
    Disallow,
}

impl MissingHostFunctions {
    /// Whether instantiation may proceed with absent host functions.
    pub open spec fn spec_allowed(&self) -> bool {
        !(*self is Disallow)
    }

    /// Whether instantiation may proceed with absent host functions.
    pub fn allowed(&self) -> (r: bool)
        ensures
            r == self.spec_allowed(),
    {
        match self {
            MissingHostFunctions::Disallow => false,
            _ => true,
        }
    }
}

/// Whether the registry holds every name of `required`.
pub open spec fn all_present(required: Seq<String>, registry: HostFunctionRegistry) -> bool {
    forall|i: int| 0 <= i < required.len() ==> registry.spec_contains(#[trigger] required[i]@)
}

/// Checks the host functions a program image requires against the registry:
/// under a disallowing policy the first absent name is a typed error, and
/// otherwise instantiation may proceed.
pub fn check_host_functions(
    required: &Vec<String>,
    registry: &HostFunctionRegistry,
    policy: MissingHostFunctions,
) -> (r: Result<(), Error>)
    ensures
        r is Ok <==> (policy.spec_allowed() || all_present(required@, *registry)),
        r matches Err(e) ==> (e matches Error::MissingHostFunction(n) && exists|i: int|
            0 <= i < required@.len() && n@ == required@[i]@ && !registry.spec_contains(
                required@[i]@,
            ) && (forall|j: int| 0 <= j < i ==> registry.spec_contains(#[trigger] required@[j]@))),
{
    if policy.allowed() {
        return Ok(());
    }
    let mut k: usize = 0;
    while k < required.len()
        invariant
            !policy.spec_allowed(),
            k <= required.len(),
            forall|j: int| 0 <= j < k ==> registry.spec_contains(#[trigger] required@[j]@),
        decreases required.len() - k,
    {
        if !registry.contains(&required[k]) {
            proof {
                assert(!registry.spec_contains(required@[k as int]@));
                assert(!all_present(required@, *registry));
            }
            return Err(Error::MissingHostFunction(required[k].clone()));
        }
        k += 1;
    }
    Ok(())
}

} // verus!
