//! The failure taxonomy of the orchestrator.
//!
//! Every component-level operation reports failure through
//! [`OrchestratorError`]; nothing in the crate panics on these conditions.
//! Contracts speak about errors through [`ErrorView`], the mathematical view
//! of an error value.

use vstd::prelude::*;

verus! {

/// A typed failure of one of the orchestration operations.
///
/// - `Environment`: a required OS directory could not be located.
/// - `NotFound`: the resolved script path does not exist; carries the
///   attempted path so callers can surface a precise diagnostic.
/// - `Execution`: the child process failed to spawn or exited nonzero.
/// - `Io`: copying or removing the autostart file failed.
/// - `NoUpdate`: an installation was attempted while no update is available.
/// - `Install`: the download or installation of an update failed.
/// - `Feed`: the update check itself failed.
#[derive(Debug, Clone)]
pub enum OrchestratorError {
    Environment { detail: String },
    NotFound { attempted_path: String },
    Execution { detail: String },
    Io { detail: String },
    NoUpdate,
    Install { detail: String },
    Feed { detail: String },
}

/// The mathematical view of an [`OrchestratorError`]: the same variants with
/// every carried string abstracted to its character sequence.
pub enum ErrorView {
    Environment { detail: Seq<char> },
    NotFound { attempted_path: Seq<char> },
    Execution { detail: Seq<char> },
    Io { detail: Seq<char> },
    NoUpdate,
    Install { detail: Seq<char> },
    Feed { detail: Seq<char> },
}

impl View for OrchestratorError {
    type V = ErrorView;

    open spec fn view(&self) -> ErrorView {
        match self {
            OrchestratorError::Environment { detail } => (ErrorView::Environment {
                detail: detail@,
            }),
            OrchestratorError::NotFound { attempted_path } => (ErrorView::NotFound {
                attempted_path: attempted_path@,
            }),
            OrchestratorError::Execution { detail } => (ErrorView::Execution { detail: detail@ }),
            OrchestratorError::Io { detail } => (ErrorView::Io { detail: detail@ }),
            OrchestratorError::NoUpdate => ErrorView::NoUpdate,
            OrchestratorError::Install { detail } => (ErrorView::Install { detail: detail@ }),
            OrchestratorError::Feed { detail } => (ErrorView::Feed { detail: detail@ }),
        }
    }
}

} // verus!
