use vstd::prelude::*;

verus! {

/// The fixed set of commands the backend registers with the host runtime.
#[derive(Clone, Copy, Debug, PartialEq, Eq, Structural)]
pub enum CommandKind {
    GetSystemInfo,
    Greet,
    TestBasicOperation,
    TestMathOperation,
    TestAsyncDelay,
    TestErrorHandling,
    TestFileOperations,
    TestJsonParsing,
    TestNetworkSimulation,
    TestMemoryUsage,
    SaveTextFile,
}

/// The wire name each command is invoked under.
pub open spec fn command_name_spec(k: CommandKind) -> Seq<char> {
    match k {
        CommandKind::GetSystemInfo => "get_system_info"@,
        CommandKind::Greet => "greet"@,
        CommandKind::TestBasicOperation => "test_basic_operation"@,
        CommandKind::TestMathOperation => "test_math_operation"@,
        CommandKind::TestAsyncDelay => "test_async_delay"@,
        CommandKind::TestErrorHandling => "test_error_handling"@,
        CommandKind::TestFileOperations => "test_file_operations"@,
        CommandKind::TestJsonParsing => "test_json_parsing"@,
        CommandKind::TestNetworkSimulation => "test_network_simulation"@,
        CommandKind::TestMemoryUsage => "test_memory_usage"@,
        CommandKind::SaveTextFile => "save_text_file"@,
    }
}

/// No two commands share a wire name, so a name routes to at most one
/// command and the dispatcher's choice is unambiguous.
pub proof fn lemma_command_names_distinct(k1: CommandKind, k2: CommandKind)
    ensures
        command_name_spec(k1) == command_name_spec(k2) ==> k1 == k2,
{
    reveal_strlit("get_system_info");
    reveal_strlit("greet");
    reveal_strlit("test_basic_operation");
    reveal_strlit("test_math_operation");
    reveal_strlit("test_async_delay");
    reveal_strlit("test_error_handling");
    reveal_strlit("test_file_operations");
    reveal_strlit("test_json_parsing");
    reveal_strlit("test_network_simulation");
    reveal_strlit("test_memory_usage");
    reveal_strlit("save_text_file");
    assert("get_system_info"@.len() == 15);
    assert("greet"@.len() == 5);
    assert("test_basic_operation"@.len() == 20);
    assert("test_math_operation"@.len() == 19);
    assert("test_async_delay"@.len() == 16);
    assert("test_error_handling"@.len() == 19);
    assert("test_file_operations"@.len() == 20);
    assert("test_json_parsing"@.len() == 17);
    assert("test_network_simulation"@.len() == 23);
    assert("test_memory_usage"@.len() == 17);
    assert("save_text_file"@.len() == 14);
    // the pairs of names of equal length differ right after "test_"
    assert("test_math_operation"@[5] == 'm' && "test_error_handling"@[5] == 'e');
    assert("test_basic_operation"@[5] == 'b' && "test_file_operations"@[5] == 'f');
    assert("test_json_parsing"@[5] == 'j' && "test_memory_usage"@[5] == 'm');
}

fn str_eq(a: &str, b: &str) -> (r: bool)
    ensures
        r == (a@ == b@),
{
    let a_owned = a.to_owned();
    let b_owned = b.to_owned();
    a_owned == b_owned
}

/// Routes an incoming wire name to the matching command: `Some` exactly when
/// the name is registered, and then the returned command is the one whose
/// wire name it is.
pub fn command_kind_of(name: &str) -> (r: Option<CommandKind>)
    ensures
        r matches Some(k) ==> command_name_spec(k) == name@,
        r is None ==> forall|k: CommandKind| command_name_spec(k) != name@,
{
    if str_eq(name, "get_system_info") {
        Some(CommandKind::GetSystemInfo)
    } else if str_eq(name, "greet") {
        Some(CommandKind::Greet)
    } else if str_eq(name, "test_basic_operation") {
        Some(CommandKind::TestBasicOperation)
    } else if str_eq(name, "test_math_operation") {
        Some(CommandKind::TestMathOperation)
    } else if str_eq(name, "test_async_delay") {
        Some(CommandKind::TestAsyncDelay)
    } else if str_eq(name, "test_error_handling") {
        Some(CommandKind::TestErrorHandling)
    } else if str_eq(name, "test_file_operations") {
        Some(CommandKind::TestFileOperations)
    } else if str_eq(name, "test_json_parsing") {
        Some(CommandKind::TestJsonParsing)
    } else if str_eq(name, "test_network_simulation") {
        Some(CommandKind::TestNetworkSimulation)
    } else if str_eq(name, "test_memory_usage") {
        Some(CommandKind::TestMemoryUsage)
    } else if str_eq(name, "save_text_file") {
        Some(CommandKind::SaveTextFile)
    } else {
        None
    }
}

} // verus!
