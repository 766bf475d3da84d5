use shimmy::engine::CoreError;
use shimmy::registry::{BackendInitState, BackendRegistry, RegistryAction};

#[test]
fn test_registry_first_request_initializes() {
    let reg = BackendRegistry::new();
    assert!(matches!(reg.state, BackendInitState::Uninitialized));
    assert!(matches!(reg.on_request(), RegistryAction::RunInit));
    assert!(reg.observed().is_none());
}

#[test]
fn test_registry_success_is_shared() {
    let mut reg = BackendRegistry::new();
    assert!(matches!(reg.on_request(), RegistryAction::RunInit));
    reg.complete_init(Ok(()));
    // Every later request borrows the same initialized runtime.
    for _ in 0..3 {
        assert!(matches!(reg.on_request(), RegistryAction::UseExisting));
        assert!(matches!(reg.observed(), Some(Ok(()))));
    }
}

#[test]
fn test_registry_failure_is_cached() {
    let mut reg = BackendRegistry::new();
    reg.complete_init(Err("no driver".to_string()));
    // The first error is cached and never retried: all later requests fail
    // identically and none is told to initialize again.
    for _ in 0..3 {
        match reg.on_request() {
            RegistryAction::Fail(m) => assert_eq!(m, "no driver"),
            other => panic!("expected the cached failure, got {:?}", other),
        }
    }
    match reg.observed() {
        Some(Err(CoreError::BackendInit(m))) => assert_eq!(m, "no driver"),
        other => panic!("expected the cached init error, got {:?}", other),
    }
}
