use backend_commands::dispatch::{command_kind_of, CommandKind};

#[test]
fn every_registered_name_routes() {
    assert_eq!(command_kind_of("get_system_info"), Some(CommandKind::GetSystemInfo));
    assert_eq!(command_kind_of("greet"), Some(CommandKind::Greet));
    assert_eq!(command_kind_of("test_basic_operation"), Some(CommandKind::TestBasicOperation));
    assert_eq!(command_kind_of("test_math_operation"), Some(CommandKind::TestMathOperation));
    assert_eq!(command_kind_of("test_async_delay"), Some(CommandKind::TestAsyncDelay));
    assert_eq!(command_kind_of("test_error_handling"), Some(CommandKind::TestErrorHandling));
    assert_eq!(command_kind_of("test_file_operations"), Some(CommandKind::TestFileOperations));
    assert_eq!(command_kind_of("test_json_parsing"), Some(CommandKind::TestJsonParsing));
    assert_eq!(
        command_kind_of("test_network_simulation"),
        Some(CommandKind::TestNetworkSimulation)
    );
    assert_eq!(command_kind_of("test_memory_usage"), Some(CommandKind::TestMemoryUsage));
    assert_eq!(command_kind_of("save_text_file"), Some(CommandKind::SaveTextFile));
}

#[test]
fn unknown_names_do_not_route() {
    assert_eq!(command_kind_of(""), None);
    assert_eq!(command_kind_of("Greet"), None);
    assert_eq!(command_kind_of("greet "), None);
    assert_eq!(command_kind_of("shutdown"), None);
}
