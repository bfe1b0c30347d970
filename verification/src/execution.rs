//! The result model: an immutable value describing the outcome of a run
//! request, exposed to the host through read-only accessors.

use vstd::prelude::*;

verus! {

/// The fixed text the bridge reports as captured stdout for a completed run.
/// It is a placeholder for a future capture mechanism and deliberately does
/// not reflect what the executed program printed.
pub open spec fn success_stdout_text() -> Seq<char> {
    "Execution completed successfully."@
}

/// Outcome of a run request: a success flag, captured stdout, captured
/// stderr and a process-style exit code. The bridge only ever constructs
/// the success form; failures are surfaced as error strings instead.
pub struct ExecutionResult {
    success: bool,
    stdout: String,
    stderr: String,
    exit_code: i32,
}

impl ExecutionResult {
    /// Whether the run was reported as successful.
    pub closed spec fn spec_success(&self) -> bool {
        self.success
    }

    /// The captured stdout text.
    pub closed spec fn spec_stdout(&self) -> Seq<char> {
        self.stdout@
    }

    /// The captured stderr text.
    pub closed spec fn spec_stderr(&self) -> Seq<char> {
        self.stderr@
    }

    /// The process-style exit code.
    pub closed spec fn spec_exit_code(&self) -> i32 {
        self.exit_code
    }

    /// A successful outcome always pairs with a zero exit code and an empty
    /// stderr; no partial or failed value of this type is ever built.
    pub open spec fn wf(&self) -> bool {
        self.spec_success() ==> self.spec_exit_code() == 0 && self.spec_stderr().len() == 0
    }

    /// The one shape the adapter constructs: success, the fixed stdout
    /// line, an empty stderr and a zero exit code.
    pub open spec fn is_completed_run(&self) -> bool {
        &&& self.spec_success()
        &&& self.spec_stdout() == success_stdout_text()
        &&& self.spec_stderr() == Seq::<char>::empty()
        &&& self.spec_exit_code() == 0
    }

    /// Builds the fixed success report for a run that the toolchain
    /// completed without a structured error.
    pub(crate) fn completed_run() -> (r: ExecutionResult)
        ensures
            r.is_completed_run(),
    {
        ExecutionResult {
            success: true,
            stdout: "Execution completed successfully.".to_owned(),
            stderr: String::new(),
            exit_code: 0,
        }
    }

    /// Read-only accessor for the success flag.
    pub fn success(&self) -> (r: bool)
        ensures
            r == self.spec_success(),
    {
        self.success
    }

    /// Read-only accessor returning an independent copy of the stdout text.
    pub fn stdout(&self) -> (r: String)
        ensures
            r@ == self.spec_stdout(),
    {
        self.stdout.clone()
    }

    /// Read-only accessor returning an independent copy of the stderr text.
    pub fn stderr(&self) -> (r: String)
        ensures
            r@ == self.spec_stderr(),
    {
        self.stderr.clone()
    }

    /// Read-only accessor for the exit code.
    pub fn exit_code(&self) -> (r: i32)
        ensures
            r == self.spec_exit_code(),
    {
        self.exit_code
    }
}

/// Every value built on the success path is well formed: a successful
/// outcome pairs with a zero exit code and an empty stderr.
pub proof fn lemma_completed_run_well_formed(r: ExecutionResult)
    requires
        r.is_completed_run(),
    ensures
        r.wf(),
{
}

} // verus!
