use yamlstar::isolate::{check_isolate_creation, teardown_outcome};
use yamlstar::loader::validate_symbols;
use yamlstar::Error;

#[test]
fn isolate_creation_zero_is_success() {
    assert!(check_isolate_creation(0).is_ok());
}

#[test]
fn isolate_creation_failure_carries_the_code() {
    match check_isolate_creation(7) {
        Err(Error::GraalVM(code)) => assert_eq!(code, 7),
        other => panic!("expected a runtime error, got {:?}", other),
    }
}

#[test]
fn teardown_zero_passes_silently() {
    assert!(teardown_outcome(0).is_none());
}

#[test]
fn teardown_failure_is_only_a_warning() {
    let warning = teardown_outcome(-1).unwrap();
    assert_eq!(warning, "Warning: Failed to tear down yamlstar's GraalVM isolate");
}

#[test]
fn all_symbols_resolved_is_success() {
    assert!(validate_symbols(true, true, true, true, true).is_ok());
}

#[test]
fn any_null_symbol_fails_the_batch() {
    match validate_symbols(false, true, true, true, true) {
        Err(Error::Load(m)) => assert_eq!(m, "a required symbol resolved to a null address"),
        other => panic!("expected a load error, got {:?}", other),
    }
    assert!(matches!(validate_symbols(true, true, false, true, true), Err(Error::Load(_))));
    assert!(matches!(validate_symbols(true, true, true, true, false), Err(Error::Load(_))));
}
