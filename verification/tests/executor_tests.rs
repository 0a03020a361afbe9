use sc_executor::error::Error;
use sc_executor::externalities::Externalities;
use sc_executor::host_functions::{HostFunctionRegistry, MissingHostFunctions};
use sc_executor::mock::{mock_code, new_test_ext, MockBackend, Test};
use sc_executor::native_executor::NativeExecutor;
use sc_executor::wasm_executor::WasmExecutor;
use sc_executor::wasm_runtime::{RuntimeCode, WasmExecutionMethod};

fn new_executor() -> NativeExecutor<Test, MockBackend> {
    NativeExecutor::new(WasmExecutionMethod::Interpreted, None, 8)
}

fn count_in_registry(registry: &HostFunctionRegistry, name: &str) -> usize {
    let mut count: usize = 0;
    let mut i: usize = 0;
    while i < registry.len() {
        if registry.name_at(i).as_str() == name {
            count += 1;
        }
        i += 1;
    }
    count
}

#[test]
fn native_executor_registers_custom_interface() {
    let executor = new_executor();
    let registry = executor.host_functions();
    assert_eq!(count_in_registry(registry, "ext_custom_interface"), 1);
    assert_eq!(count_in_registry(registry, "ext_storage_get"), 1);
    assert_eq!(count_in_registry(registry, "ext_allocator_malloc"), 1);
}

#[test]
fn registry_deduplicates_and_keeps_first_occurrence_order() {
    let names = vec![
        "g".to_string(),
        "h".to_string(),
        "g".to_string(),
        "i".to_string(),
        "h".to_string(),
    ];
    let executor: WasmExecutor<MockBackend> =
        WasmExecutor::new(WasmExecutionMethod::Interpreted, None, names, 4);
    let registry = executor.host_functions();
    assert_eq!(registry.len(), 3);
    assert_eq!(registry.name_at(0).as_str(), "g");
    assert_eq!(registry.name_at(1).as_str(), "h");
    assert_eq!(registry.name_at(2).as_str(), "i");
    assert!(registry.contains(&"g".to_string()));
    assert!(!registry.contains(&"x".to_string()));
}

#[test]
fn missing_host_function_under_disallow_is_typed_error() {
    let mut executor = new_executor();
    let mut ext = new_test_ext();
    // Import byte 9 references a host function that is never registered.
    let code = RuntimeCode { code: mock_code(2, 1, &vec![9]), hash: vec![4], heap_pages: None };
    let result = executor.call_in_wasm(
        &code.code,
        Some(code.hash.clone()),
        "echo",
        &vec![1],
        &mut ext,
        MissingHostFunctions::Disallow,
    );
    match result {
        Err(Error::MissingHostFunction(name)) => assert_eq!(name, "ext_missing"),
        other => panic!("expected a missing-host-function error, got {:?}", other),
    }
}

#[test]
fn missing_host_function_allowed_runs_fine() {
    let mut executor = new_executor();
    let mut ext = new_test_ext();
    let code = mock_code(2, 1, &vec![9]);
    let result = executor.call_in_wasm(
        &code,
        Some(vec![5]),
        "echo",
        &vec![2, 3],
        &mut ext,
        MissingHostFunctions::Allow,
    );
    assert_eq!(result.unwrap(), vec![2, 3]);
}

#[test]
fn registered_imports_pass_under_disallow() {
    let mut executor = new_executor();
    let mut ext = new_test_ext();
    // Byte 1 references a base host function, byte 2 the delegate's
    // extension; both are in the merged registry.
    let code = mock_code(2, 1, &vec![1, 2]);
    let result = executor.call_in_wasm(
        &code,
        Some(vec![6]),
        "echo",
        &vec![4],
        &mut ext,
        MissingHostFunctions::Disallow,
    );
    assert_eq!(result.unwrap(), vec![4]);
}

#[test]
fn call_in_wasm_uncached_runs_one_call() {
    let mut executor = new_executor();
    let mut ext = new_test_ext();
    let code = mock_code(2, 1, &vec![]);
    let result =
        executor.call_in_wasm(&code, None, "echo", &vec![9], &mut ext, MissingHostFunctions::Allow);
    assert_eq!(result.unwrap(), vec![9]);
}

#[test]
fn call_in_wasm_invalid_code_is_typed_error() {
    let mut executor = new_executor();
    let mut ext = new_test_ext();
    let result = executor.call_in_wasm(
        &vec![],
        None,
        "echo",
        &vec![],
        &mut ext,
        MissingHostFunctions::Allow,
    );
    assert!(matches!(result, Err(Error::InvalidCode)));
}

#[test]
fn call_in_wasm_trap_is_runtime_panicked() {
    let mut executor = new_executor();
    let mut ext = new_test_ext();
    let code = mock_code(2, 1, &vec![]);
    let result =
        executor.call_in_wasm(&code, None, "trap", &vec![], &mut ext, MissingHostFunctions::Allow);
    assert!(matches!(result, Err(Error::RuntimePanicked(m)) if m == "sandboxed trap"));
}

#[test]
fn instantiation_failure_is_typed_error() {
    let mut executor = new_executor();
    let mut ext = new_test_ext();
    // Flags 3: the image declares a version and its instantiation fails.
    let code = RuntimeCode { code: vec![3, 2, 1], hash: vec![7], heap_pages: None };
    let result = executor.call_in_wasm(
        &code.code,
        Some(code.hash.clone()),
        "echo",
        &vec![],
        &mut ext,
        MissingHostFunctions::Allow,
    );
    assert!(matches!(result, Err(Error::Instantiation)));
}

#[test]
fn runtime_version_reads_declared_version() {
    let mut executor = new_executor();
    let code = RuntimeCode { code: mock_code(2, 1, &vec![]), hash: vec![8], heap_pages: None };
    let version = executor.runtime_version(&code).unwrap();
    assert_eq!(version.spec_name, "mock");
    assert_eq!(version.spec_version, 2);
    assert_eq!(version.transaction_version, 1);
}

#[test]
fn runtime_version_missing_is_api_error() {
    let mut executor = new_executor();
    let code = RuntimeCode { code: vec![0, 0, 0], hash: vec![9], heap_pages: None };
    match executor.runtime_version(&code) {
        Err(Error::ApiError(m)) => assert_eq!(m, "Unknown version"),
        other => panic!("expected an api error, got {:?}", other),
    }
}

#[test]
fn acquired_instances_are_exclusive_and_pool_is_bounded() {
    // Pool bound of one idle instance per program hash.
    let mut executor: WasmExecutor<MockBackend> =
        WasmExecutor::new(WasmExecutionMethod::Interpreted, None, vec![], 1);
    let code = RuntimeCode { code: mock_code(2, 1, &vec![]), hash: vec![1], heap_pages: None };

    // Two concurrent-style acquisitions: each caller owns its instance, so
    // no live instance ever serves two calls at once.
    let (first, _) = executor.acquire_instance(&code, MissingHostFunctions::Allow).unwrap();
    let (second, _) = executor.acquire_instance(&code, MissingHostFunctions::Allow).unwrap();

    // Only one of them fits back into the idle pool.
    assert!(executor.release_instance(&code.hash, first));
    assert!(!executor.release_instance(&code.hash, second));
}

#[test]
fn released_instance_is_reused() {
    let mut executor: WasmExecutor<MockBackend> =
        WasmExecutor::new(WasmExecutionMethod::Interpreted, None, vec![], 2);
    let code = RuntimeCode { code: mock_code(2, 1, &vec![]), hash: vec![1], heap_pages: None };
    let (instance, version) = executor.acquire_instance(&code, MissingHostFunctions::Allow).unwrap();
    assert!(version.is_some());
    assert!(executor.release_instance(&code.hash, instance));
    let (_again, version) = executor.acquire_instance(&code, MissingHostFunctions::Allow).unwrap();
    assert!(version.is_some());
}

#[test]
fn release_for_unknown_hash_discards_the_instance() {
    let mut executor: WasmExecutor<MockBackend> =
        WasmExecutor::new(WasmExecutionMethod::Interpreted, None, vec![], 2);
    let code = RuntimeCode { code: mock_code(2, 1, &vec![]), hash: vec![1], heap_pages: None };
    let (instance, _) = executor.acquire_instance(&code, MissingHostFunctions::Allow).unwrap();
    assert!(!executor.release_instance(&vec![99], instance));
}

#[test]
fn default_heap_pages_apply_when_not_overridden() {
    let executor: WasmExecutor<MockBackend> =
        WasmExecutor::new(WasmExecutionMethod::Interpreted, None, vec![], 2);
    let without = RuntimeCode { code: vec![], hash: vec![], heap_pages: None };
    let with = RuntimeCode { code: vec![], hash: vec![], heap_pages: Some(64) };
    assert_eq!(executor.heap_pages_for(&without), 1024);
    assert_eq!(executor.heap_pages_for(&with), 64);

    let custom: WasmExecutor<MockBackend> =
        WasmExecutor::new(WasmExecutionMethod::Interpreted, Some(16), vec![], 2);
    assert_eq!(custom.heap_pages_for(&without), 16);
}

#[test]
fn externalities_start_empty() {
    let ext = Externalities::new();
    assert_eq!(ext.block_number(), 0);
    assert_eq!(ext.extrinsic_index(), 0);
    assert_eq!(ext.event_count(), 0);
}

#[test]
fn runtime_version_is_fetch_only() {
    let mut executor = new_executor();
    // The image declares a version but cannot be instantiated (flags 3):
    // reading the version needs no instance and succeeds anyway.
    let code = RuntimeCode { code: vec![3, 2, 1], hash: vec![11], heap_pages: None };
    let version = executor.runtime_version(&code).unwrap();
    assert_eq!(version.spec_version, 2);
    assert_eq!(version.transaction_version, 1);

    // Actually calling the program still needs an instance and fails with
    // the backend's typed construction error.
    let mut ext = new_test_ext();
    let (result, used_native) = executor.call::<Vec<u8>, fn() -> sc_executor::guard::CallOutcome<
        Result<Vec<u8>, String>,
    >>(&mut ext, &code, "echo", &vec![], false, None);
    assert!(!used_native);
    assert!(matches!(result, Err(Error::Instantiation)));
}
