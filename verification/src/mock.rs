//! A complete mock program for exercising the dispatcher: a sandboxed
//! backend that interprets a tiny image format, a native delegate
//! implementing the same three methods, and the helpers a test harness
//! needs.
//!
//! The mock program knows the methods `echo` (returns its argument bytes),
//! `deposit_event` (records its argument bytes as an event in the
//! environment) and `trap` (faults). Calling any other method of the
//! sandboxed program traps without a message; the native delegate reports it
//! as method-not-found.

use vstd::prelude::*;

use crate::bytes::{bytes_clone, bytes_eq};
use crate::error::Error;
use crate::externalities::{Externalities, ExternalitiesView, Timepoint};
use crate::guard::CallOutcome;
use crate::host_functions::names_view;
use crate::native_executor::{dispatch_guarded, NativeExecutionDispatch};
use crate::version::{
    opt_version_view, ApiVersionView, NativeVersion, NativeVersionView, RuntimeVersion,
    RuntimeVersionView,
};
use crate::wasm_runtime::{WasmBackend, WasmExecutionMethod, WasmInstance, WasmModule};

verus! {

/// Compares two method names.
fn str_eq(a: &str, b: &str) -> (r: bool)
    ensures
        r == (a@ == b@),
{
    let x = a.to_owned();
    let y = b.to_owned();
    x == y
}

/// The method names the mock program implements.
pub open spec fn spec_mock_known_method(method: Seq<char>) -> bool {
    method == "echo"@ || method == "deposit_event"@ || method == "trap"@
}

/// The host-function name a byte of a mock image references.
pub open spec fn spec_mock_import_name(b: u8) -> Seq<char> {
    if b == 1 {
        "ext_storage_get"@
    } else if b == 2 {
        "ext_custom_interface"@
    } else {
        "ext_missing"@
    }
}

/// The host-function name a byte of a mock image references: byte 1 names a
/// base host function, byte 2 the mock delegate's extension, and any other
/// byte a name that is never registered.
pub fn mock_import_name(b: u8) -> (r: String)
    ensures
        r@ == spec_mock_import_name(b),
{
    if b == 1 {
        "ext_storage_get".to_owned()
    } else if b == 2 {
        "ext_custom_interface".to_owned()
    } else {
        "ext_missing".to_owned()
    }
}

/// The three method names of the mock program are pairwise distinct.
proof fn lemma_mock_method_names_distinct()
    ensures
        "echo"@ != "deposit_event"@,
        "echo"@ != "trap"@,
        "deposit_event"@ != "trap"@,
{
    reveal_strlit("echo");
    reveal_strlit("deposit_event");
    reveal_strlit("trap");
    assert("echo"@.len() == 4);
    assert("deposit_event"@.len() == 13);
    assert("trap"@.len() == 4);
    assert("echo"@[0] == 'e' && "trap"@[0] == 't');
}

/// An instance of the mock program.
pub struct MockInstance {}

impl MockInstance {
    /// The mock program's methods, with their exact behaviour: `echo`
    /// returns its argument bytes, `deposit_event` records its argument
    /// bytes as an event and returns nothing, `trap` faults with a message,
    /// and any other method traps without one.
    pub fn run(&self, method: &str, data: &Vec<u8>, ext: &mut Externalities) -> (o: CallOutcome<
        Result<Vec<u8>, Error>,
    >)
        ensures
            method@ == "echo"@ ==> (o matches CallOutcome::Completed(res) && res matches Ok(b)
                && b@ == data@ && *final(ext) == *old(ext)),
            method@ == "deposit_event"@ ==> (o matches CallOutcome::Completed(res) && res
                matches Ok(b) && b@.len() == 0 && final(ext)@ == (ExternalitiesView {
                events: old(ext)@.events.push(data@),
                ..old(ext)@
            })),
            method@ == "trap"@ ==> (o matches CallOutcome::Panicked(p) && p matches Some(m) && m@
                == "sandboxed trap"@ && *final(ext) == *old(ext)),
            !spec_mock_known_method(method@) ==> (o matches CallOutcome::Panicked(p) && p is None
                && *final(ext) == *old(ext)),
    {
        proof {
            lemma_mock_method_names_distinct();
        }
        if str_eq(method, "echo") {
            CallOutcome::Completed(Ok(bytes_clone(data)))
        } else if str_eq(method, "deposit_event") {
            ext.deposit_event(bytes_clone(data));
            CallOutcome::Completed(Ok(Vec::new()))
        } else if str_eq(method, "trap") {
            CallOutcome::Panicked(Some("sandboxed trap".to_owned()))
        } else {
            CallOutcome::Panicked(None)
        }
    }
}

impl WasmInstance for MockInstance {
    fn call(&mut self, method: &str, data: &Vec<u8>, ext: &mut Externalities) -> CallOutcome<
        Result<Vec<u8>, Error>,
    > {
        self.run(method, data, ext)
    }
}

/// A parsed mock program image.
pub struct MockModule {
    version: Option<RuntimeVersion>,
    imports: Vec<String>,
    fail_instantiate: bool,
}

impl WasmModule for MockModule {
    type Instance = MockInstance;

    closed spec fn spec_version(&self) -> Option<RuntimeVersionView> {
        opt_version_view(self.version)
    }

    closed spec fn spec_required_host_functions(&self) -> Seq<Seq<char>> {
        names_view(self.imports)
    }

    fn declared_version(&self) -> (v: Option<RuntimeVersion>) {
        match &self.version {
            Some(rv) => Some(rv.clone()),
            None => None,
        }
    }

    fn required_host_functions(&self) -> (r: Vec<String>) {
        let r = self.imports.clone();
        proof {
            assert forall|i: int| 0 <= i < self.imports@.len() implies r@[i]@
                == self.imports@[i]@ by {
                assert(cloned::<String>(self.imports@[i], r@[i]));
            }
            assert(names_view(r) =~= names_view(self.imports));
        }
        r
    }

    fn new_instance(&self) -> Result<MockInstance, Error> {
        if self.fail_instantiate {
            Err(Error::Instantiation)
        } else {
            Ok(MockInstance {})
        }
    }
}

/// The mock sandboxed backend. Its image format: images shorter than three
/// bytes are invalid; byte 0 holds flags — bit 0 set means the image
/// declares a version, bit 1 set means instantiation fails — bytes 1 and 2
/// hold the declared specification and transaction-format version numbers,
/// and every further byte references one host function (see
/// [`mock_import_name`]).
pub struct MockBackend {}

impl WasmBackend for MockBackend {
    type Module = MockModule;

    fn create_module(_method: WasmExecutionMethod, _heap_pages: u64, code: &Vec<u8>) -> Result<
        MockModule,
        Error,
    > {
        if code.len() < 3 {
            return Err(Error::InvalidCode);
        }
        let flags = code[0];
        let version = if flags & 1 == 1 {
            Some(
                RuntimeVersion {
                    spec_name: "mock".to_owned(),
                    spec_version: code[1] as u32,
                    impl_version: 0,
                    apis: Vec::new(),
                    transaction_version: code[2] as u32,
                },
            )
        } else {
            None
        };
        let fail_instantiate = flags & 2 == 2;
        let mut imports: Vec<String> = Vec::new();
        let mut k: usize = 3;
        while k < code.len()
            invariant
                3 <= k <= code@.len(),
            decreases code@.len() - k,
        {
            imports.push(mock_import_name(code[k]));
            k += 1;
        }
        Ok(MockModule { version, imports, fail_instantiate })
    }
}

/// A mock image declaring the given specification and transaction-format
/// versions and referencing the given host functions.
pub fn mock_code(spec_version: u8, transaction_version: u8, imports: &Vec<u8>) -> (r: Vec<u8>)
    ensures
        r@.len() == 3 + imports@.len(),
        r@[0] == 1u8,
        r@[1] == spec_version,
        r@[2] == transaction_version,
        forall|i: int| 0 <= i < imports@.len() ==> r@[3 + i] == imports@[i],
{
    let mut r: Vec<u8> = Vec::new();
    r.push(1);
    r.push(spec_version);
    r.push(transaction_version);
    let mut k: usize = 0;
    while k < imports.len()
        invariant
            k <= imports@.len(),
            r@.len() == 3 + k,
            r@[0] == 1u8 && r@[1] == spec_version && r@[2] == transaction_version,
            forall|i: int| 0 <= i < k ==> r@[3 + i] == imports@[i],
        decreases imports@.len() - k,
    {
        r.push(imports[k]);
        k += 1;
    }
    r
}

/// The concrete native delegate used to exercise the dispatcher: a native
/// implementation of the mock program, at specification version 2,
/// supporting on-chain versions back to 1.
pub struct Test;

/// The filter the mock program applies to incoming calls: only the methods
/// the program implements pass.
pub struct TestBaseCallFilter;

impl TestBaseCallFilter {
    /// Whether the mock program accepts a call of the method named `method`.
    pub fn filter(method: &str) -> (r: bool)
        ensures
            r == spec_mock_known_method(method@),
    {
        str_eq(method, "echo") || str_eq(method, "deposit_event") || str_eq(method, "trap")
    }
}

impl Test {
    /// The method table of the native implementation, with its exact
    /// behaviour: the same three methods as the sandboxed mock program, and
    /// `None` for an unknown name.
    fn raw_dispatch(ext: &mut Externalities, method: &str, data: &Vec<u8>) -> (o: CallOutcome<
        Option<Vec<u8>>,
    >)
        ensures
            o matches CallOutcome::Completed(x) ==> ((x is None) <==> !spec_mock_known_method(
                method@,
            )),
            method@ == "echo"@ ==> (o matches CallOutcome::Completed(x) && x matches Some(b) && b@
                == data@ && *final(ext) == *old(ext)),
            method@ == "deposit_event"@ ==> (o matches CallOutcome::Completed(x) && x matches Some(
                b,
            ) && b@.len() == 0 && final(ext)@ == (ExternalitiesView {
                events: old(ext)@.events.push(data@),
                ..old(ext)@
            })),
            method@ == "trap"@ ==> (o matches CallOutcome::Panicked(p) && p matches Some(m) && m@
                == "native trap"@ && *final(ext) == *old(ext)),
            !spec_mock_known_method(method@) ==> (o == CallOutcome::Completed(None::<Vec<u8>>)
                && *final(ext) == *old(ext)),
    {
        proof {
            lemma_mock_method_names_distinct();
        }
        if str_eq(method, "echo") {
            CallOutcome::Completed(Some(bytes_clone(data)))
        } else if str_eq(method, "deposit_event") {
            ext.deposit_event(bytes_clone(data));
            CallOutcome::Completed(Some(Vec::new()))
        } else if str_eq(method, "trap") {
            CallOutcome::Panicked(Some("native trap".to_owned()))
        } else {
            CallOutcome::Completed(None)
        }
    }
}

impl NativeExecutionDispatch for Test {
    open spec fn spec_known_method(method: Seq<char>) -> bool {
        spec_mock_known_method(method)
    }

    open spec fn spec_native_version() -> NativeVersionView {
        NativeVersionView {
            runtime_version: RuntimeVersionView {
                spec_name: "mock"@,
                spec_version: 2,
                impl_version: 1,
                apis: Seq::empty(),
                transaction_version: 1,
            },
            min_spec_version: 1,
        }
    }

    open spec fn spec_extend_host_functions() -> Seq<Seq<char>> {
        seq!["ext_custom_interface"@]
    }

    fn native_version() -> (v: NativeVersion) {
        let v = NativeVersion {
            runtime_version: RuntimeVersion {
                spec_name: "mock".to_owned(),
                spec_version: 2,
                impl_version: 1,
                apis: Vec::new(),
                transaction_version: 1,
            },
            min_spec_version: 1,
        };
        proof {
            assert(v.runtime_version@.apis =~= Seq::<ApiVersionView>::empty());
        }
        v
    }

    fn extend_host_functions() -> (r: Vec<String>) {
        let mut r: Vec<String> = Vec::new();
        r.push("ext_custom_interface".to_owned());
        proof {
            assert(names_view(r) =~= Self::spec_extend_host_functions());
        }
        r
    }

    fn dispatch(ext: &mut Externalities, method: &str, data: &Vec<u8>) -> (r: Result<
        Vec<u8>,
        Error,
    >) {
        let outcome = Test::raw_dispatch(ext, method, data);
        dispatch_guarded(outcome, method)
    }
}

/// A fresh test environment, positioned at block number one.
pub fn new_test_ext() -> (r: Externalities)
    ensures
        r@.block_number == 1,
        r@.extrinsic_index == 0,
        r@.events == Seq::<Seq<u8>>::empty(),
{
    let mut ext = Externalities::new();
    ext.set_block_number(1);
    ext
}

/// The current position of the environment.
pub fn now(ext: &Externalities) -> (t: Timepoint)
    ensures
        t.height == ext@.block_number,
        t.index == ext@.extrinsic_index,
{
    Timepoint { height: ext.block_number(), index: ext.extrinsic_index() }
}

/// The most recently recorded event, if any was recorded.
pub fn last_event(ext: &Externalities) -> (r: Option<Vec<u8>>)
    ensures
        ext@.events.len() == 0 ==> r is None,
        ext@.events.len() > 0 ==> (r matches Some(e) && e@ == ext@.events.last()),
{
    let n = ext.event_count();
    if n == 0 {
        None
    } else {
        Some(bytes_clone(ext.event_at(n - 1)))
    }
}

/// Whether the most recently recorded event is `event`.
pub fn expect_event(ext: &Externalities, event: &Vec<u8>) -> (r: bool)
    ensures
        r == (ext@.events.len() > 0 && ext@.events.last() == event@),
{
    match last_event(ext) {
        Some(e) => bytes_eq(&e, event),
        None => false,
    }
}

} // verus!
