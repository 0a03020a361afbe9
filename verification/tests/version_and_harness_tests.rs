use sc_executor::externalities::Timepoint;
use sc_executor::mock::{
    expect_event, last_event, mock_import_name, new_test_ext, now, MockBackend, Test,
    TestBaseCallFilter,
};
use sc_executor::native_executor::{NativeExecutionDispatch, NativeExecutor};
use sc_executor::version::{NativeVersion, RuntimeVersion};
use sc_executor::wasm_runtime::{RuntimeCode, WasmExecutionMethod};

fn onchain(spec_version: u32, transaction_version: u32) -> RuntimeVersion {
    RuntimeVersion {
        spec_name: "mock".to_string(),
        spec_version,
        impl_version: 0,
        apis: Vec::new(),
        transaction_version,
    }
}

#[test]
fn compatibility_is_a_supported_range_not_equality() {
    let native = Test::native_version();
    // The native implementation is at specification version 2 and supports
    // on-chain versions back to 1.
    assert!(onchain(2, 1).can_call_with(&native));
    assert!(onchain(1, 1).can_call_with(&native));
    assert!(!onchain(0, 1).can_call_with(&native));
    assert!(!onchain(3, 1).can_call_with(&native));
}

#[test]
fn compatibility_requires_matching_names_and_transaction_versions() {
    let native = Test::native_version();
    assert!(!onchain(2, 2).can_call_with(&native));
    let mut other = onchain(2, 1);
    other.spec_name = "other".to_string();
    assert!(!other.can_call_with(&native));
}

#[test]
fn compatibility_with_a_custom_native_range() {
    let native = NativeVersion { runtime_version: onchain(5, 7), min_spec_version: 3 };
    assert!(!onchain(2, 7).can_call_with(&native));
    assert!(onchain(3, 7).can_call_with(&native));
    assert!(onchain(5, 7).can_call_with(&native));
    assert!(!onchain(6, 7).can_call_with(&native));
}

#[test]
fn new_test_ext_starts_at_block_one() {
    let ext = new_test_ext();
    assert_eq!(ext.block_number(), 1);
    assert_eq!(ext.event_count(), 0);
}

#[test]
fn now_reports_the_current_position() {
    let mut ext = new_test_ext();
    assert_eq!(now(&ext), Timepoint { height: 1, index: 0 });
    ext.set_block_number(5);
    ext.set_extrinsic_index(2);
    assert_eq!(now(&ext), Timepoint { height: 5, index: 2 });
}

#[test]
fn last_event_and_expect_event_follow_the_log() {
    let mut ext = new_test_ext();
    assert!(last_event(&ext).is_none());
    assert!(!expect_event(&ext, &vec![1]));
    ext.deposit_event(vec![1]);
    ext.deposit_event(vec![2, 3]);
    assert_eq!(last_event(&ext), Some(vec![2, 3]));
    assert!(expect_event(&ext, &vec![2, 3]));
    assert!(!expect_event(&ext, &vec![1]));
}

#[test]
fn test_base_call_filter_passes_only_known_methods() {
    assert!(TestBaseCallFilter::filter("echo"));
    assert!(TestBaseCallFilter::filter("deposit_event"));
    assert!(TestBaseCallFilter::filter("trap"));
    assert!(!TestBaseCallFilter::filter("transfer"));
    assert!(!TestBaseCallFilter::filter(""));
}

#[test]
fn mock_import_names_map_bytes_to_registry_names() {
    assert_eq!(mock_import_name(1), "ext_storage_get");
    assert_eq!(mock_import_name(2), "ext_custom_interface");
    assert_eq!(mock_import_name(9), "ext_missing");
}

#[test]
fn native_version_accessor_reports_the_delegate_version() {
    let executor: NativeExecutor<Test, MockBackend> =
        NativeExecutor::new(WasmExecutionMethod::Interpreted, None, 8);
    let v = executor.native_version();
    assert_eq!(v.runtime_version.spec_name, "mock");
    assert_eq!(v.runtime_version.spec_version, 2);
    assert_eq!(v.min_spec_version, 1);
}

#[test]
fn dispatch_runs_methods_and_reports_unknown_names() {
    let mut ext = new_test_ext();
    let echoed = Test::dispatch(&mut ext, "echo", &vec![1, 2]).unwrap();
    assert_eq!(echoed, vec![1, 2]);
    let err = Test::dispatch(&mut ext, "transfer", &vec![]).unwrap_err();
    assert!(matches!(err, sc_executor::error::Error::MethodNotFound(n) if n == "transfer"));
}

#[test]
fn runtime_code_carries_an_override() {
    let code = RuntimeCode { code: vec![1], hash: vec![2], heap_pages: Some(7) };
    assert_eq!(code.heap_pages, Some(7));
}
