//! Autostart registration planning.
//!
//! Autostart is a single file: a copy of the named helper script placed in
//! the OS startup folder. Its presence is the autostart state. This module
//! locates the startup folder under the user configuration root, decides
//! which filesystem operation a toggle requires, and proves, over a map model
//! of the filesystem, what carrying the operation out leaves behind. The
//! caller performs the actual copy or removal and reports failures as I/O
//! errors.

use vstd::prelude::*;

use crate::errors::ErrorView;
use crate::errors::OrchestratorError;
use crate::paths::opt_view;
use crate::paths::resolved_base;
use crate::paths::script_path_spec;
use crate::paths::BuildMode;
use crate::paths::base_dir_failure_msg;
use crate::paths::candidate_script_path;

verus! {

/// The startup folder under a user configuration root.
pub open spec fn startup_dir_spec(config_root: Seq<char>) -> Seq<char> {
    config_root + "/Microsoft/Windows/Start Menu/Programs/Startup"@
}

/// The startup-folder entry for the named script: the startup folder joined
/// with the bare file name.
pub open spec fn startup_path_spec(startup_dir: Seq<char>, name: Seq<char>) -> Seq<char> {
    startup_dir + "/"@ + name
}

/// The diagnostic for a user configuration directory that could not be
/// located.
pub open spec fn config_dir_failure_msg() -> Seq<char> {
    "cannot locate the user configuration directory"@
}

/// The diagnostic for enabling autostart when the source script is missing.
pub open spec fn missing_source_msg() -> Seq<char> {
    "cannot enable autostart: the source script does not exist"@
}

/// The diagnostic for disabling autostart when no startup entry exists.
pub open spec fn not_enabled_msg() -> Seq<char> {
    "cannot disable autostart: no startup entry exists"@
}

/// The single filesystem operation that a successful autostart toggle
/// requires of the caller.
#[derive(Debug, Clone)]
pub enum FsAction {
    CopyFile { from: String, to: String },
    RemoveFile { path: String },
}

/// A map model of the filesystem: each existing file's absolute path mapped
/// to its byte content.
pub open spec fn apply_fs_action(fs: Map<Seq<char>, Seq<u8>>, a: FsAction) -> Map<
    Seq<char>,
    Seq<u8>,
> {
    match a {
        FsAction::CopyFile { from, to } => if fs.dom().contains(from@) {
            fs.insert(to@, fs[from@])
        } else {
            fs
        },
        FsAction::RemoveFile { path } => fs.remove(path@),
    }
}

/// Relies on dirs::config_dir: yields the user's configuration directory, or
/// `None` when the platform defines none. The result depends on the process
/// environment, so nothing is promised of it.
#[verifier::external_body]
fn config_dir_string() -> (r: Option<String>)
{
    dirs::config_dir().map(|p| p.to_string_lossy().into_owned())
}

/// Joins a user configuration root with the fixed startup-folder segments.
pub fn startup_dir_under(config_root: &str) -> (r: String)
    ensures
        r@ == startup_dir_spec(config_root@),
{
    let mut r = config_root.to_owned();
    r.append("/Microsoft/Windows/Start Menu/Programs/Startup");
    r
}

/// Joins a startup folder with a script's bare file name.
pub fn startup_path_under(startup_dir: &str, name: &str) -> (r: String)
    ensures
        r@ == startup_path_spec(startup_dir@, name@),
{
    let mut r = startup_dir.to_owned();
    r.append("/");
    r.append(name);
    r
}

/// Locates the startup folder of this user: the configuration root reported
/// by the environment, extended with the fixed startup-folder segments.
/// Fails with an environment error when no configuration root exists.
pub fn locate_startup_dir() -> (r: Result<String, OrchestratorError>)
    ensures
        r matches Ok(p) ==> (exists|c: Seq<char>| p@ == startup_dir_spec(c)),
        r matches Err(e) ==> e@ == (ErrorView::Environment { detail: config_dir_failure_msg() }),
{
    match config_dir_string() {
        Some(root) => Ok(startup_dir_under(root.as_str())),
        None => Err(
            OrchestratorError::Environment {
                detail: "cannot locate the user configuration directory".to_owned(),
            },
        ),
    }
}

/// Decides the filesystem operation that toggling autostart requires.
///
/// The source script is resolved by the same build-mode convention as script
/// execution. Enabling yields a copy of the source over the startup entry,
/// whether or not an entry already exists, but fails when the source script
/// is missing; disabling yields the removal of the startup entry, and fails
/// when no entry exists, since that usually indicates a state mismatch the
/// caller should know about. A missing startup folder or base directory is
/// an environment error.
pub fn plan_autostart(
    script_ref: &str,
    enabled: bool,
    mode: BuildMode,
    cwd: Option<&String>,
    resource_dir: Option<&String>,
    startup_dir: Option<&String>,
    source_exists: bool,
    dest_exists: bool,
) -> (r: Result<FsAction, OrchestratorError>)
    ensures
        startup_dir is None ==> (r matches Err(e) && e@ == (ErrorView::Environment {
            detail: config_dir_failure_msg(),
        })),
        startup_dir matches Some(sd) ==> match resolved_base(
            mode,
            opt_view(cwd),
            opt_view(resource_dir),
        ) {
            Some(b) => {
                &&& (enabled && source_exists) ==> (r matches Ok(a) && a matches
                    FsAction::CopyFile { from, to } && from@ == script_path_spec(b, script_ref@)
                    && to@ == startup_path_spec(sd@, script_ref@))
                &&& (enabled && !source_exists) ==> (r matches Err(e) && e@ == (ErrorView::Io {
                    detail: missing_source_msg(),
                }))
                &&& (!enabled && dest_exists) ==> (r matches Ok(a) && a matches
                    FsAction::RemoveFile { path } && path@ == startup_path_spec(sd@, script_ref@))
                &&& (!enabled && !dest_exists) ==> (r matches Err(e) && e@ == (ErrorView::Io {
                    detail: not_enabled_msg(),
                }))
            },
            None => r matches Err(e) && e@ == (ErrorView::Environment {
                detail: base_dir_failure_msg(),
            }),
        },
{
    let sd = match startup_dir {
        Some(sd) => sd,
        None => {
            return Err(
                OrchestratorError::Environment {
                    detail: "cannot locate the user configuration directory".to_owned(),
                },
            );
        },
    };
    let source = candidate_script_path(script_ref, mode, cwd, resource_dir)?;
    let entry = startup_path_under(sd.as_str(), script_ref);
    if enabled {
        if source_exists {
            Ok(FsAction::CopyFile { from: source, to: entry })
        } else {
            Err(
                OrchestratorError::Io {
                    detail: "cannot enable autostart: the source script does not exist".to_owned(),
                },
            )
        }
    } else {
        if dest_exists {
            Ok(FsAction::RemoveFile { path: entry })
        } else {
            Err(
                OrchestratorError::Io {
                    detail: "cannot disable autostart: no startup entry exists".to_owned(),
                },
            )
        }
    }
}

/// Enabling autostart and then disabling it leaves no file at the startup
/// entry: applying the planned copy and then the planned removal to any
/// filesystem yields one with no file at that path.
pub proof fn lemma_enable_then_disable(
    fs: Map<Seq<char>, Seq<u8>>,
    enable: FsAction,
    disable: FsAction,
    entry: Seq<char>,
)
    requires
        enable matches FsAction::CopyFile { to, .. } && to@ == entry,
        disable matches FsAction::RemoveFile { path } && path@ == entry,
    ensures
        !apply_fs_action(apply_fs_action(fs, enable), disable).dom().contains(entry),
{
}

/// Enabling autostart when an entry already exists overwrites it rather than
/// failing: after the planned copy, whatever stood at the startup entry, the
/// entry holds exactly the source script's bytes.
pub proof fn lemma_enable_overwrites(fs: Map<Seq<char>, Seq<u8>>, enable: FsAction, entry: Seq<char>)
    requires
        enable matches FsAction::CopyFile { from, to } && to@ == entry && fs.dom().contains(
            from@,
        ),
    ensures
        apply_fs_action(fs, enable).dom().contains(entry),
        apply_fs_action(fs, enable)[entry] == fs[enable->CopyFile_from@],
{
}

} // verus!
