//! Classification of a helper script's execution outcome.
//!
//! The caller spawns the resolved script as a child process and reports what
//! happened as a [`SpawnOutcome`]; this module turns that report into the
//! structured result the orchestrator promises: success with the captured
//! standard output as the summary, or an execution error whose detail text
//! keeps a spawn failure distinguishable from a nonzero exit.

use vstd::prelude::*;

use crate::errors::ErrorView;
use crate::errors::OrchestratorError;

verus! {

/// What happened when the caller tried to run a script: the process ran to
/// completion with the given exit disposition and captured streams, or it
/// could not be spawned at all.
#[derive(Debug, Clone)]
pub enum SpawnOutcome {
    Exited { exit_zero: bool, stdout: String, stderr: String },
    SpawnFailed { message: String },
}

/// The structured result of a successful script run: the captured standard
/// output as the summary and the captured standard error as the detail.
#[derive(Debug, Clone)]
pub struct ExecutionResult {
    pub success: bool,
    pub summary: String,
    pub detail: String,
}

/// The detail text reported for a script that exited with a nonzero status.
pub open spec fn exit_failure_detail(stderr: Seq<char>) -> Seq<char> {
    "script exited with a nonzero status: "@ + stderr
}

/// The detail text reported for a script that could not be spawned.
pub open spec fn spawn_failure_detail(message: Seq<char>) -> Seq<char> {
    "failed to spawn script: "@ + message
}

/// Turns the reported outcome of a script run into the orchestrator's
/// result: a zero exit yields success carrying the captured output, a
/// nonzero exit yields an execution error carrying the captured standard
/// error, and a spawn failure yields an execution error carrying the spawn
/// diagnostic, marked so the two failures stay distinguishable.
pub fn classify_run(outcome: SpawnOutcome) -> (r: Result<ExecutionResult, OrchestratorError>)
    ensures
        outcome matches SpawnOutcome::Exited { exit_zero, stdout, stderr } ==> ({
            &&& exit_zero ==> (r matches Ok(res) && res.success && res.summary@ == stdout@
                && res.detail@ == stderr@)
            &&& !exit_zero ==> (r matches Err(e) && e@ == (ErrorView::Execution {
                detail: exit_failure_detail(stderr@),
            }))
        }),
        outcome matches SpawnOutcome::SpawnFailed { message } ==> (r matches Err(e) && e@ == (
        ErrorView::Execution { detail: spawn_failure_detail(message@) })),
{
    match outcome {
        SpawnOutcome::Exited { exit_zero, stdout, stderr } => {
            if exit_zero {
                Ok(ExecutionResult { success: true, summary: stdout, detail: stderr })
            } else {
                let mut detail = "script exited with a nonzero status: ".to_owned();
                detail.append(stderr.as_str());
                Err(OrchestratorError::Execution { detail })
            }
        },
        SpawnOutcome::SpawnFailed { message } => {
            let mut detail = "failed to spawn script: ".to_owned();
            detail.append(message.as_str());
            Err(OrchestratorError::Execution { detail })
        },
    }
}

/// The detail of a nonzero exit never reads the same as the detail of a
/// spawn failure, whatever was captured or reported: the two failure causes
/// stay distinguishable in the error text.
pub proof fn lemma_failure_details_distinguishable(stderr: Seq<char>, message: Seq<char>)
    ensures
        exit_failure_detail(stderr) != spawn_failure_detail(message),
{
    reveal_strlit("script exited with a nonzero status: ");
    reveal_strlit("failed to spawn script: ");
    assert(exit_failure_detail(stderr)[0] == 's');
    assert(spawn_failure_detail(message)[0] == 'f');
}

} // verus!
