use vstd::prelude::*;
use vstd::string::StringExecFns;

use crate::failure::{CommandFailure, FailureKind};

verus! {

/// The fixed text the file-operations self-test writes and reads back.
pub open spec fn file_test_content_spec() -> Seq<char> {
    "Test de fichier"@
}

/// The failure message when the write step fails with `err`.
pub open spec fn write_failure_spec(err: Seq<char>) -> Seq<char> {
    "Échec écriture: "@ + err
}

/// The failure message when the read step fails with `err`.
pub open spec fn read_failure_spec(err: Seq<char>) -> Seq<char> {
    "Échec lecture: "@ + err
}

/// The success message reporting the round-tripped `content`.
pub open spec fn file_roundtrip_spec(content: Seq<char>) -> Seq<char> {
    "✅ Fichier écrit/lu: "@ + content
}

/// The failure message when saving a caller-specified file fails with `err`.
pub open spec fn save_failure_spec(err: Seq<char>) -> Seq<char> {
    "Failed to write file: "@ + err
}

/// The text the file-operations self-test writes to its temporary file.
pub fn file_test_content() -> (r: &'static str)
    ensures
        r@ == file_test_content_spec(),
{
    "Test de fichier"
}

/// Decides the outcome of the file-operations self-test from the results of
/// its two filesystem steps. A write failure wins over everything and is
/// reported as an I/O failure; otherwise a read failure is reported as an
/// I/O failure; otherwise the round-tripped content is reported verbatim in
/// the success message. When the write step failed, the read step never ran
/// and its value is ignored.
pub fn file_operations_outcome(
    write_result: Result<(), String>,
    read_result: Result<String, String>,
) -> (r: Result<String, CommandFailure>)
    ensures
        write_result is Err ==> r is Err && r->Err_0.kind == FailureKind::IoFailure
            && r->Err_0.message@ == write_failure_spec(write_result->Err_0@),
        write_result is Ok && read_result is Err ==> r is Err
            && r->Err_0.kind == FailureKind::IoFailure
            && r->Err_0.message@ == read_failure_spec(read_result->Err_0@),
        write_result is Ok && read_result is Ok ==> r is Ok
            && r->Ok_0@ == file_roundtrip_spec(read_result->Ok_0@),
{
    match write_result {
        Err(e) => {
            let mut m = "Échec écriture: ".to_owned();
            m.append(e.as_str());
            Err(CommandFailure::new(FailureKind::IoFailure, m))
        },
        Ok(()) => match read_result {
            Err(e) => {
                let mut m = "Échec lecture: ".to_owned();
                m.append(e.as_str());
                Err(CommandFailure::new(FailureKind::IoFailure, m))
            },
            Ok(content) => {
                let mut m = "✅ Fichier écrit/lu: ".to_owned();
                m.append(content.as_str());
                Ok(m)
            },
        },
    }
}

/// Decides the outcome of saving a caller-specified text file from the
/// result of the write step: success passes through, and a write error is
/// reported as an I/O failure embedding the error's text.
pub fn save_text_file_outcome(write_result: Result<(), String>) -> (r: Result<
    (),
    CommandFailure,
>)
    ensures
        r is Ok <==> write_result is Ok,
        write_result is Err ==> r->Err_0.kind == FailureKind::IoFailure
            && r->Err_0.message@ == save_failure_spec(write_result->Err_0@),
{
    match write_result {
        Ok(()) => Ok(()),
        Err(e) => {
            let mut m = "Failed to write file: ".to_owned();
            m.append(e.as_str());
            Err(CommandFailure::new(FailureKind::IoFailure, m))
        },
    }
}

} // verus!
