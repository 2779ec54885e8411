//! The caller-facing boundary of the orchestrator.
//!
//! The facade owns no state and performs no business logic: it renders every
//! typed failure as a human-readable message that still names the failure's
//! kind, never dropping an error silently, and it reports the embedded build
//! version and the state of an update session as display text.

use vstd::prelude::*;

use crate::errors::ErrorView;
use crate::errors::OrchestratorError;
use crate::update::UpdateStatus;

verus! {

/// The embedded build version of the application.
pub open spec fn app_version_spec() -> Seq<char> {
    "0.1.0"@
}

/// The caller-facing message of each typed failure: a fixed kind-naming
/// prefix followed by the carried detail, so the structured kind stays
/// diagnosable from the text alone.
pub open spec fn message_of(e: ErrorView) -> Seq<char> {
    match e {
        ErrorView::Environment { detail } => "environment error: "@ + detail,
        ErrorView::NotFound { attempted_path } => "script not found: "@ + attempted_path,
        ErrorView::Execution { detail } => "execution error: "@ + detail,
        ErrorView::Io { detail } => "autostart file error: "@ + detail,
        ErrorView::NoUpdate => "no update is available"@,
        ErrorView::Install { detail } => "update installation error: "@ + detail,
        ErrorView::Feed { detail } => "update check error: "@ + detail,
    }
}

/// Renders a typed failure as its caller-facing message.
pub fn error_message(e: &OrchestratorError) -> (r: String)
    ensures
        r@ == message_of(e@),
{
    match e {
        OrchestratorError::Environment { detail } => {
            let mut r = "environment error: ".to_owned();
            r.append(detail.as_str());
            r
        },
        OrchestratorError::NotFound { attempted_path } => {
            let mut r = "script not found: ".to_owned();
            r.append(attempted_path.as_str());
            r
        },
        OrchestratorError::Execution { detail } => {
            let mut r = "execution error: ".to_owned();
            r.append(detail.as_str());
            r
        },
        OrchestratorError::Io { detail } => {
            let mut r = "autostart file error: ".to_owned();
            r.append(detail.as_str());
            r
        },
        OrchestratorError::NoUpdate => "no update is available".to_owned(),
        OrchestratorError::Install { detail } => {
            let mut r = "update installation error: ".to_owned();
            r.append(detail.as_str());
            r
        },
        OrchestratorError::Feed { detail } => {
            let mut r = "update check error: ".to_owned();
            r.append(detail.as_str());
            r
        },
    }
}

/// Passes a success through unchanged and renders a failure as its message,
/// so every underlying error reaches the caller as text and none is
/// swallowed.
pub fn to_caller_result<T>(r: Result<T, OrchestratorError>) -> (out: Result<T, String>)
    ensures
        r matches Ok(v) ==> (out matches Ok(w) && w == v),
        r matches Err(e) ==> (out matches Err(m) && m@ == message_of(e@)),
{
    match r {
        Ok(v) => Ok(v),
        Err(e) => Err(error_message(&e)),
    }
}

/// The embedded build version.
pub fn get_version() -> (r: String)
    ensures
        r@ == app_version_spec(),
{
    "0.1.0".to_owned()
}

/// The display text for each update-session state.
pub open spec fn status_message_of(s: UpdateStatus) -> Seq<char> {
    match s {
        UpdateStatus::Idle => "no update check has run"@,
        UpdateStatus::Checking => "checking for updates"@,
        UpdateStatus::UpToDate => "up to date"@,
        UpdateStatus::Available { version } => "update available: "@ + version@,
        UpdateStatus::Downloading { .. } => "downloading update"@,
        UpdateStatus::Installing => "installing update"@,
        UpdateStatus::Installed => "update installed"@,
        UpdateStatus::Failed { reason } => "update failed: "@ + reason@,
    }
}

/// Renders an update-session state as display text: an available update
/// names its version, a failure names its reason.
pub fn describe_status(s: &UpdateStatus) -> (r: String)
    ensures
        r@ == status_message_of(*s),
{
    match s {
        UpdateStatus::Idle => "no update check has run".to_owned(),
        UpdateStatus::Checking => "checking for updates".to_owned(),
        UpdateStatus::UpToDate => "up to date".to_owned(),
        UpdateStatus::Available { version } => {
            let mut r = "update available: ".to_owned();
            r.append(version.as_str());
            r
        },
        UpdateStatus::Downloading { .. } => "downloading update".to_owned(),
        UpdateStatus::Installing => "installing update".to_owned(),
        UpdateStatus::Installed => "update installed".to_owned(),
        UpdateStatus::Failed { reason } => {
            let mut r = "update failed: ".to_owned();
            r.append(reason.as_str());
            r
        },
    }
}

} // verus!
