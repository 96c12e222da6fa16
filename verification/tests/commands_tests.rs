use backend_commands::commands::{
    allocate_buffer, async_delay_outcome, greet, test_basic_operation, test_error_handling,
    test_memory_usage, ASYNC_DELAY_MS, MEMORY_TEST_BYTES,
};
use backend_commands::failure::{CommandFailure, FailureKind};

#[test]
fn greet_formats_name() {
    let r = greet("Alice").unwrap();
    assert_eq!(r, "Bonjour, Alice! Bienvenue dans votre app Tauri + SvelteKit.");
}

#[test]
fn greet_empty_name() {
    let r = greet("").unwrap();
    assert_eq!(r, "Bonjour, ! Bienvenue dans votre app Tauri + SvelteKit.");
}

#[test]
fn basic_operation_fixed_string() {
    assert_eq!(test_basic_operation().unwrap(), "✅ Opération basique fonctionnelle");
}

#[test]
fn error_handling_always_fails() {
    let r = test_error_handling();
    assert!(r.is_err());
    let f = r.unwrap_err();
    assert_eq!(f.kind, FailureKind::DeliberateTestFailure);
    assert_eq!(f.message, "❌ Erreur de test volontaire");
}

#[test]
fn async_delay_fixed_outcome() {
    assert_eq!(ASYNC_DELAY_MS, 1000);
    assert_eq!(async_delay_outcome().unwrap(), "✅ Opération async terminée après 1 seconde");
}

#[test]
fn memory_usage_fixed_string() {
    assert_eq!(MEMORY_TEST_BYTES, 1024 * 1024);
    assert_eq!(test_memory_usage().unwrap(), "✅ Test mémoire: 1MB alloué temporairement");
}

#[test]
fn allocate_buffer_is_zero_filled() {
    let v = allocate_buffer(17);
    assert_eq!(v.len(), 17);
    assert!(v.iter().all(|b| *b == 0));
    assert_eq!(allocate_buffer(0).len(), 0);
}

#[test]
fn failure_constructor_keeps_kind_and_message() {
    let f = CommandFailure::new(FailureKind::IoFailure, "boom".to_string());
    assert_eq!(f.kind, FailureKind::IoFailure);
    assert_eq!(f.message, "boom");
}
