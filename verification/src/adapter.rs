//! The bridge's public call surface: each operation maps onto zero or one
//! toolchain invocation and translates the outcome into a uniform value or
//! a human-readable error string.

use vstd::prelude::*;

use crate::execution::ExecutionResult;
use crate::toolchain::build_outcome;
use crate::toolchain::execute_source;
use crate::toolchain::install_fault_hook;
use crate::toolchain::lex_outcome;
use crate::toolchain::render_error;
use crate::toolchain::tokenize_source;
use crate::toolchain::toolchain_accepts;
use crate::toolchain::validate_source;

verus! {

/// The fixed, build-time-embedded semantic version string the bridge
/// reports.
pub open spec fn version_text() -> Seq<char> {
    "0.1.0"@
}

/// One-time, process-wide initialization: installs a fault handler that
/// turns otherwise-fatal runtime faults into a reported diagnostic instead
/// of a silent termination. Idempotent; the host calls it once at startup,
/// before any other operation.
pub fn init() {
    install_fault_hook();
}

/// Reports the bridge's version. Pure: the result is the same non-empty
/// string on every call and the operation cannot fail.
pub fn get_version() -> (r: String)
    ensures
        r@ == version_text(),
        r@.len() > 0,
{
    proof {
        reveal_strlit("0.1.0");
    }
    "0.1.0".to_owned()
}

/// Identity pass-through and a documented placeholder for a future
/// formatter: returns its input unchanged, for every input, and never
/// fails. It must not validate or mutate the text.
pub fn format_code(source_code: String) -> (r: Result<String, String>)
    ensures
        r is Ok,
        r->Ok_0@ == source_code@,
{
    Ok(source_code)
}

/// Syntax-check-only invocation: runs the toolchain's lexer and then its
/// staged build, without executing the program. Returns `true` exactly
/// when the toolchain accepts the source; a rejection is surfaced as the
/// rendered toolchain error, never as `false`, and the whole result is a
/// function of the source text alone. On the rare tokenizable inputs
/// where the pinned toolchain itself aborts instead of reporting a
/// structured error, no result is returned and the fault hook installed
/// by `init` reports the abort.
pub fn check_syntax(source_code: String) -> (r: Result<bool, String>)
    ensures
        r is Ok <==> toolchain_accepts(source_code@),
        r is Ok ==> r->Ok_0 == true,
        r is Err ==> r->Err_0@.len() > 0,
        lex_outcome(source_code@) is Err ==> r is Err && r->Err_0@ == lex_outcome(
            source_code@,
        )->Err_0,
        lex_outcome(source_code@) is Ok && build_outcome(source_code@) is Err ==> r is Err
            && r->Err_0@ == build_outcome(source_code@)->Err_0,
{
    match tokenize_source(&source_code) {
        Ok(_) => match validate_source(&source_code) {
            Ok(_) => Ok(true),
            Err(e) => Err(e),
        },
        Err(e) => Err(e),
    }
}

/// Exact translation of a run outcome into the host-facing result: a
/// completed run becomes the fixed success value, and a failure propagates
/// the toolchain's error string unchanged. No result with a false success
/// flag is ever produced.
pub fn run_outcome_into_result(outcome: Result<(), String>) -> (r: Result<
    ExecutionResult,
    String,
>)
    ensures
        outcome is Ok ==> r is Ok && r->Ok_0.is_completed_run(),
        outcome is Err ==> r is Err && r->Err_0@ == outcome->Err_0@,
{
    match outcome {
        Ok(_) => Ok(ExecutionResult::completed_run()),
        Err(e) => Err(e),
    }
}

/// Build-and-run invocation: hands the source to the toolchain for its
/// lexer and staged build, followed by execution. A completed run yields
/// the fixed success value; any toolchain failure yields its rendered
/// error string, and a source the toolchain rejects always fails. No
/// partial or failed result value exists. On the rare inputs where the
/// pinned toolchain itself aborts instead of reporting a structured
/// error, no result is returned and the fault hook installed by `init`
/// reports the abort.
pub fn compile_and_run(source_code: String) -> (r: Result<ExecutionResult, String>)
    ensures
        r is Ok ==> r->Ok_0.is_completed_run(),
        !toolchain_accepts(source_code@) ==> r is Err,
        lex_outcome(source_code@) is Err ==> r is Err && r->Err_0@ == lex_outcome(
            source_code@,
        )->Err_0,
{
    match tokenize_source(&source_code) {
        Ok(_) => {
            let outcome = match execute_source(&source_code) {
                Ok(_) => Ok(()),
                Err(e) => Err(render_error(e)),
            };
            run_outcome_into_result(outcome)
        },
        Err(e) => run_outcome_into_result(Err(e)),
    }
}

} // verus!
