use backend_commands::failure::FailureKind;
use backend_commands::file_ops::{
    file_operations_outcome, file_test_content, save_text_file_outcome,
};

#[test]
fn roundtrip_success_reports_content() {
    let content = file_test_content().to_string();
    assert_eq!(content, "Test de fichier");
    let r = file_operations_outcome(Ok(()), Ok(content));
    assert_eq!(r.unwrap(), "✅ Fichier écrit/lu: Test de fichier");
}

#[test]
fn write_failure_is_io_failure() {
    let r = file_operations_outcome(Err("permission denied".to_string()), Err(String::new()));
    let f = r.unwrap_err();
    assert_eq!(f.kind, FailureKind::IoFailure);
    assert_eq!(f.message, "Échec écriture: permission denied");
}

#[test]
fn read_failure_is_io_failure() {
    let r = file_operations_outcome(Ok(()), Err("file vanished".to_string()));
    let f = r.unwrap_err();
    assert_eq!(f.kind, FailureKind::IoFailure);
    assert_eq!(f.message, "Échec lecture: file vanished");
}

#[test]
fn save_success_passes_through() {
    assert!(save_text_file_outcome(Ok(())).is_ok());
}

#[test]
fn save_failure_embeds_error() {
    let r = save_text_file_outcome(Err("disk full".to_string()));
    let f = r.unwrap_err();
    assert_eq!(f.kind, FailureKind::IoFailure);
    assert_eq!(f.message, "Failed to write file: disk full");
}
