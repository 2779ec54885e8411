//! Path resolution for bundled helper scripts.
//!
//! A script is identified by a bare file name and lives in a fixed
//! subdirectory of a base directory that depends on the build mode: the
//! current working directory of a development tree, or the installed resource
//! directory of a packaged build. The base directories themselves are
//! environment lookups performed by the caller; this module does the joining
//! and the case analysis, and states exactly which path is produced.

use vstd::prelude::*;

use crate::errors::ErrorView;
use crate::errors::OrchestratorError;

verus! {

/// Whether the process runs from a development workspace or from an installed
/// package. Fixed once per build; never probed at runtime, and resolution
/// never falls back from one mode to the other.
#[derive(Debug, Clone, Copy, PartialEq, Eq, Structural)]
pub enum BuildMode {
    Development,
    Packaged,
}

/// The base directory that the given mode prescribes: the working directory
/// in development, the resource directory when packaged. `None` means the
/// corresponding environment lookup failed.
pub open spec fn resolved_base(
    mode: BuildMode,
    cwd: Option<Seq<char>>,
    resource_dir: Option<Seq<char>>,
) -> Option<Seq<char>> {
    match mode {
        BuildMode::Development => cwd,
        BuildMode::Packaged => resource_dir,
    }
}

/// The path of the named script under the given base directory: the base
/// joined with the fixed scripts subdirectory and the file name.
pub open spec fn script_path_spec(base: Seq<char>, name: Seq<char>) -> Seq<char> {
    base + "/target/bat_files/"@ + name
}

/// The diagnostic for a base directory that could not be determined.
pub open spec fn base_dir_failure_msg() -> Seq<char> {
    "cannot determine the script base directory"@
}

/// The view of an optional borrowed string.
pub open spec fn opt_view(s: Option<&String>) -> Option<Seq<char>> {
    match s {
        Some(p) => Some(p@),
        None => None,
    }
}

/// Joins a base directory with the scripts subdirectory and a file name.
pub fn script_path_under(base: &str, name: &str) -> (r: String)
    ensures
        r@ == script_path_spec(base@, name@),
{
    let mut r = base.to_owned();
    r.append("/target/bat_files/");
    r.append(name);
    r
}

/// Computes the path at which the named script is expected for the given
/// mode, or reports that the mode's base directory is unavailable.
pub fn candidate_script_path(
    script_ref: &str,
    mode: BuildMode,
    cwd: Option<&String>,
    resource_dir: Option<&String>,
) -> (r: Result<String, OrchestratorError>)
    ensures
        match resolved_base(mode, opt_view(cwd), opt_view(resource_dir)) {
            Some(b) => r matches Ok(p) && p@ == script_path_spec(b, script_ref@),
            None => r matches Err(e) && e@ == (ErrorView::Environment {
                detail: base_dir_failure_msg(),
            }),
        },
{
    let base = match mode {
        BuildMode::Development => cwd,
        BuildMode::Packaged => resource_dir,
    };
    match base {
        Some(b) => Ok(script_path_under(b.as_str(), script_ref)),
        None => Err(
            OrchestratorError::Environment {
                detail: "cannot determine the script base directory".to_owned(),
            },
        ),
    }
}

/// Accepts a resolved path when the probe found a file there, and otherwise
/// fails with a not-found error carrying the attempted path.
pub fn require_exists(path: String, exists: bool) -> (r: Result<String, OrchestratorError>)
    ensures
        exists ==> (r matches Ok(p) && p == path),
        !exists ==> (r matches Err(e) && e@ == (ErrorView::NotFound { attempted_path: path@ })),
{
    if exists {
        Ok(path)
    } else {
        Err(OrchestratorError::NotFound { attempted_path: path })
    }
}

/// Resolves the named script for the given mode against an environment
/// snapshot: the optional base directories and whether a file exists at the
/// expected path.
///
/// Whenever the mode's base directory is known and the file exists at the
/// expected path, resolution returns exactly that path; when the file is
/// missing there, it fails with a not-found error carrying the attempted
/// path; when the base directory is unavailable, it fails with an
/// environment error.
pub fn resolve(
    script_ref: &str,
    mode: BuildMode,
    cwd: Option<&String>,
    resource_dir: Option<&String>,
    exists_at_expected: bool,
) -> (r: Result<String, OrchestratorError>)
    ensures
        match resolved_base(mode, opt_view(cwd), opt_view(resource_dir)) {
            Some(b) => {
                &&& exists_at_expected ==> (r matches Ok(p) && p@ == script_path_spec(
                    b,
                    script_ref@,
                ))
                &&& !exists_at_expected ==> (r matches Err(e) && e@ == (ErrorView::NotFound {
                    attempted_path: script_path_spec(b, script_ref@),
                }))
            },
            None => r matches Err(e) && e@ == (ErrorView::Environment {
                detail: base_dir_failure_msg(),
            }),
        },
{
    let candidate = candidate_script_path(script_ref, mode, cwd, resource_dir)?;
    require_exists(candidate, exists_at_expected)
}

} // verus!
