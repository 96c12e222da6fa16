use vstd::prelude::*;
use vstd::string::StringExecFns;

use crate::failure::{CommandFailure, FailureKind};

verus! {

/// The greeting the backend answers with for a given name.
pub open spec fn greeting_spec(name: Seq<char>) -> Seq<char> {
    "Bonjour, "@ + name + "! Bienvenue dans votre app Tauri + SvelteKit."@
}

/// Formats the greeting for `name`. Always succeeds.
pub fn greet(name: &str) -> (r: Result<String, CommandFailure>)
    ensures
        r is Ok,
        r->Ok_0@ == greeting_spec(name@),
{
    let mut s = "Bonjour, ".to_owned();
    s.append(name);
    s.append("! Bienvenue dans votre app Tauri + SvelteKit.");
    Ok(s)
}

/// Answers with the fixed success string. Always succeeds.
pub fn test_basic_operation() -> (r: Result<String, CommandFailure>)
    ensures
        r is Ok,
        r->Ok_0@ == "✅ Opération basique fonctionnelle"@,
{
    Ok("✅ Opération basique fonctionnelle".to_owned())
}

/// Always fails, with the fixed deliberate-failure message; never returns a
/// success value.
pub fn test_error_handling() -> (r: Result<String, CommandFailure>)
    ensures
        r is Err,
        r->Err_0.kind == FailureKind::DeliberateTestFailure,
        r->Err_0.message@ == "❌ Erreur de test volontaire"@,
{
    Err(CommandFailure::new(
        FailureKind::DeliberateTestFailure,
        "❌ Erreur de test volontaire".to_owned(),
    ))
}

/// How long the asynchronous-delay self-test suspends, in milliseconds.
pub const ASYNC_DELAY_MS: u64 = 1000;

/// Reports the outcome of the asynchronous-delay self-test, once the
/// suspension of `ASYNC_DELAY_MS` milliseconds has elapsed: always the fixed
/// success string.
pub fn async_delay_outcome() -> (r: Result<String, CommandFailure>)
    ensures
        r is Ok,
        r->Ok_0@ == "✅ Opération async terminée après 1 seconde"@,
{
    Ok("✅ Opération async terminée après 1 seconde".to_owned())
}

/// How many bytes the memory self-test transiently allocates.
pub const MEMORY_TEST_BYTES: usize = 1024 * 1024;

/// Builds a zero-filled buffer of exactly `len` bytes.
pub fn allocate_buffer(len: usize) -> (v: Vec<u8>)
    ensures
        v@.len() == len,
        forall|i: int| 0 <= i < v@.len() ==> v@[i] == 0,
{
    let mut v: Vec<u8> = Vec::new();
    while v.len() < len
        invariant
            v@.len() <= len,
            forall|i: int| 0 <= i < v@.len() ==> v@[i] == 0,
        decreases len - v.len(),
    {
        v.push(0);
    }
    v
}

/// Transiently allocates and discards a `MEMORY_TEST_BYTES` buffer, then
/// answers with the fixed success string. Always succeeds.
pub fn test_memory_usage() -> (r: Result<String, CommandFailure>)
    ensures
        r is Ok,
        r->Ok_0@ == "✅ Test mémoire: 1MB alloué temporairement"@,
{
    let _buffer = allocate_buffer(MEMORY_TEST_BYTES);
    Ok("✅ Test mémoire: 1MB alloué temporairement".to_owned())
}

} // verus!
