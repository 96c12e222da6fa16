use backend_commands::system_info::get_system_info;

#[test]
fn snapshot_carries_given_environment() {
    let info = get_system_info("linux".to_string(), "x86_64".to_string()).unwrap();
    assert_eq!(info.os(), "linux");
    assert_eq!(info.version(), "1.0");
    assert_eq!(info.arch(), "x86_64");
}

#[test]
fn snapshot_is_idempotent() {
    let a = get_system_info("macos".to_string(), "aarch64".to_string()).unwrap();
    let b = get_system_info("macos".to_string(), "aarch64".to_string()).unwrap();
    assert_eq!(a.os(), b.os());
    assert_eq!(a.version(), b.version());
    assert_eq!(a.arch(), b.arch());
}
