use sc_executor::error::Error;
use sc_executor::guard::CallOutcome;
use sc_executor::mock::{mock_code, new_test_ext, MockBackend, Test};
use sc_executor::native_executor::{NativeExecutor, NativeOrEncoded};
use sc_executor::wasm_runtime::{RuntimeCode, WasmExecutionMethod};

type NoCall = fn() -> CallOutcome<Result<Vec<u8>, String>>;

fn new_executor() -> NativeExecutor<Test, MockBackend> {
    NativeExecutor::new(WasmExecutionMethod::Interpreted, None, 8)
}

fn compatible_code(hash: u8) -> RuntimeCode {
    RuntimeCode { code: mock_code(2, 1, &vec![]), hash: vec![hash], heap_pages: None }
}

#[test]
fn call_dispatches_native_by_name() {
    let mut executor = new_executor();
    let mut ext = new_test_ext();
    let code = compatible_code(1);
    let (result, used_native) =
        executor.call::<Vec<u8>, NoCall>(&mut ext, &code, "echo", &vec![7, 8], true, None);
    assert!(used_native);
    match result {
        Ok(NativeOrEncoded::Encoded(bytes)) => assert_eq!(bytes, vec![7, 8]),
        other => panic!("expected encoded bytes, got {:?}", other),
    }
}

#[test]
fn call_runs_native_closure() {
    let mut executor = new_executor();
    let mut ext = new_test_ext();
    let code = compatible_code(1);
    let (result, used_native) = executor.call(
        &mut ext,
        &code,
        "echo",
        &vec![],
        true,
        Some(|| CallOutcome::Completed(Ok(42u32))),
    );
    assert!(used_native);
    match result {
        Ok(NativeOrEncoded::Native(v)) => assert_eq!(v, 42),
        other => panic!("expected native value, got {:?}", other),
    }
}

#[test]
fn native_closure_error_is_api_error() {
    let mut executor = new_executor();
    let mut ext = new_test_ext();
    let code = compatible_code(1);
    let (result, used_native) = executor.call::<u32, _>(
        &mut ext,
        &code,
        "echo",
        &vec![],
        true,
        Some(|| CallOutcome::Completed(Err("boom".to_string()))),
    );
    assert!(used_native);
    match result {
        Err(Error::ApiError(m)) => assert_eq!(m, "boom"),
        other => panic!("expected api error, got {:?}", other),
    }
}

#[test]
fn native_closure_fault_is_contained() {
    let mut executor = new_executor();
    let mut ext = new_test_ext();
    let code = compatible_code(1);
    let (result, used_native) = executor.call::<u32, _>(
        &mut ext,
        &code,
        "echo",
        &vec![],
        true,
        Some(|| CallOutcome::Panicked(Some("bang".to_string()))),
    );
    assert!(used_native);
    assert!(matches!(result, Err(Error::RuntimePanicked(m)) if m == "bang"));

    // The same dispatcher still serves the next, unrelated call.
    let (result, used_native) =
        executor.call::<Vec<u8>, NoCall>(&mut ext, &code, "echo", &vec![5], false, None);
    assert!(!used_native);
    assert!(matches!(result, Ok(NativeOrEncoded::Encoded(b)) if b == vec![5]));
}

#[test]
fn incompatible_forces_fallback() {
    let mut executor = new_executor();
    let mut ext = new_test_ext();
    // On-chain specification version 9 exceeds what the native
    // implementation declares support for (versions 1 through 2).
    let code = RuntimeCode { code: mock_code(9, 1, &vec![]), hash: vec![2], heap_pages: None };
    let mut invoked = false;
    let (result, used_native) = executor.call(
        &mut ext,
        &code,
        "echo",
        &vec![3, 4],
        true,
        Some(|| {
            invoked = true;
            CallOutcome::Completed(Ok(9u32))
        }),
    );
    assert!(!used_native);
    match result {
        Ok(NativeOrEncoded::Encoded(bytes)) => assert_eq!(bytes, vec![3, 4]),
        other => panic!("expected the sandboxed path, got {:?}", other),
    }
    assert!(!invoked);
}

#[test]
fn no_native_request_runs_sandboxed() {
    let mut executor = new_executor();
    let mut ext = new_test_ext();
    let code = compatible_code(1);
    let mut invoked = false;
    let (result, used_native) = executor.call(
        &mut ext,
        &code,
        "echo",
        &vec![1],
        false,
        Some(|| {
            invoked = true;
            CallOutcome::Completed(Ok(1u32))
        }),
    );
    assert!(!used_native);
    assert!(matches!(result, Ok(NativeOrEncoded::Encoded(b)) if b == vec![1]));
    assert!(!invoked);
}

#[test]
fn unknown_native_method_is_method_not_found() {
    let mut executor = new_executor();
    let mut ext = new_test_ext();
    let code = compatible_code(1);
    let (result, used_native) =
        executor.call::<Vec<u8>, NoCall>(&mut ext, &code, "no_such_method", &vec![], true, None);
    assert!(used_native);
    match result {
        Err(Error::MethodNotFound(name)) => assert_eq!(name, "no_such_method"),
        other => panic!("expected method-not-found, got {:?}", other),
    }
}

#[test]
fn native_trap_is_runtime_panicked_not_method_not_found() {
    let mut executor = new_executor();
    let mut ext = new_test_ext();
    let code = compatible_code(1);
    let (result, used_native) =
        executor.call::<Vec<u8>, NoCall>(&mut ext, &code, "trap", &vec![], true, None);
    assert!(used_native);
    assert!(matches!(result, Err(Error::RuntimePanicked(m)) if m == "native trap"));
}

#[test]
fn sandbox_trap_is_contained_and_pool_survives() {
    let mut executor = new_executor();
    let mut ext = new_test_ext();
    let code = compatible_code(1);
    let (result, used_native) =
        executor.call::<Vec<u8>, NoCall>(&mut ext, &code, "trap", &vec![], false, None);
    assert!(!used_native);
    assert!(matches!(result, Err(Error::RuntimePanicked(m)) if m == "sandboxed trap"));

    // A fault in one call leaves the cache usable for the next.
    let (result, used_native) =
        executor.call::<Vec<u8>, NoCall>(&mut ext, &code, "echo", &vec![6], false, None);
    assert!(!used_native);
    assert!(matches!(result, Ok(NativeOrEncoded::Encoded(b)) if b == vec![6]));
}

#[test]
fn sandbox_unknown_method_traps_without_message() {
    let mut executor = new_executor();
    let mut ext = new_test_ext();
    let code = compatible_code(1);
    let (result, used_native) =
        executor.call::<Vec<u8>, NoCall>(&mut ext, &code, "no_such_method", &vec![], false, None);
    assert!(!used_native);
    assert!(matches!(result, Err(Error::RuntimePanicked(m)) if m == "Unknown panic"));
}

#[test]
fn missing_version_is_api_error_and_never_native() {
    let mut executor = new_executor();
    let mut ext = new_test_ext();
    // Flag byte zero: the image declares no version.
    let code = RuntimeCode { code: vec![0, 0, 0], hash: vec![3], heap_pages: None };
    let (result, used_native) =
        executor.call::<Vec<u8>, NoCall>(&mut ext, &code, "echo", &vec![], true, None);
    assert!(!used_native);
    match result {
        Err(Error::ApiError(m)) => assert_eq!(m, "Unknown version"),
        other => panic!("expected an api error, got {:?}", other),
    }
}

#[test]
fn native_dispatch_deposits_event_in_environment() {
    let mut executor = new_executor();
    let mut ext = new_test_ext();
    let code = compatible_code(1);
    let (result, used_native) = executor.call::<Vec<u8>, NoCall>(
        &mut ext,
        &code,
        "deposit_event",
        &vec![0xAA],
        true,
        None,
    );
    assert!(used_native);
    assert!(matches!(result, Ok(NativeOrEncoded::Encoded(b)) if b.is_empty()));
    assert!(sc_executor::mock::expect_event(&ext, &vec![0xAA]));
}
