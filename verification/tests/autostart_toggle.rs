use orchestrator::autostart::locate_startup_dir;
use orchestrator::autostart::plan_autostart;
use orchestrator::autostart::startup_dir_under;
use orchestrator::autostart::startup_path_under;
use orchestrator::autostart::FsAction;
use orchestrator::errors::OrchestratorError;
use orchestrator::paths::BuildMode;

#[test]
fn startup_dir_is_fixed_under_the_configuration_root() {
    let dir = startup_dir_under("/home/user/.config");
    assert_eq!(dir, "/home/user/.config/Microsoft/Windows/Start Menu/Programs/Startup");
    let entry = startup_path_under(&dir, "start.sh");
    assert_eq!(
        entry,
        "/home/user/.config/Microsoft/Windows/Start Menu/Programs/Startup/start.sh"
    );
}

#[test]
fn enabling_plans_a_copy_from_source_to_startup_entry() {
    let cwd = String::from("/work");
    let startup = String::from("/cfg/Startup");
    let r = plan_autostart(
        "start.sh",
        true,
        BuildMode::Development,
        Some(&cwd),
        None,
        Some(&startup),
        true,
        false,
    );
    match r {
        Ok(FsAction::CopyFile { from, to }) => {
            assert_eq!(from, "/work/target/bat_files/start.sh");
            assert_eq!(to, "/cfg/Startup/start.sh");
        },
        _ => panic!("enabling should plan a copy"),
    }
}

#[test]
fn enabling_twice_overwrites_rather_than_erroring() {
    let cwd = String::from("/work");
    let startup = String::from("/cfg/Startup");
    let again = plan_autostart(
        "start.sh",
        true,
        BuildMode::Development,
        Some(&cwd),
        None,
        Some(&startup),
        true,
        true,
    );
    match again {
        Ok(FsAction::CopyFile { from, to }) => {
            assert_eq!(from, "/work/target/bat_files/start.sh");
            assert_eq!(to, "/cfg/Startup/start.sh");
        },
        _ => panic!("enabling over an existing entry should still plan a copy"),
    }
}

#[test]
fn packaged_mode_copies_from_the_resource_tree() {
    let resources = String::from("/opt/app/resources");
    let startup = String::from("/cfg/Startup");
    let r = plan_autostart(
        "start.sh",
        true,
        BuildMode::Packaged,
        None,
        Some(&resources),
        Some(&startup),
        true,
        false,
    );
    match r {
        Ok(FsAction::CopyFile { from, .. }) => {
            assert_eq!(from, "/opt/app/resources/target/bat_files/start.sh");
        },
        _ => panic!("enabling should plan a copy"),
    }
}

#[test]
fn disabling_plans_removal_of_the_startup_entry() {
    let cwd = String::from("/work");
    let startup = String::from("/cfg/Startup");
    let r = plan_autostart(
        "start.sh",
        false,
        BuildMode::Development,
        Some(&cwd),
        None,
        Some(&startup),
        true,
        true,
    );
    match r {
        Ok(FsAction::RemoveFile { path }) => assert_eq!(path, "/cfg/Startup/start.sh"),
        _ => panic!("disabling should plan a removal"),
    }
}

#[test]
fn disabling_when_not_enabled_is_an_io_error() {
    let cwd = String::from("/work");
    let startup = String::from("/cfg/Startup");
    let r = plan_autostart(
        "start.sh",
        false,
        BuildMode::Development,
        Some(&cwd),
        None,
        Some(&startup),
        true,
        false,
    );
    match r {
        Err(OrchestratorError::Io { detail }) => {
            assert_eq!(detail, "cannot disable autostart: no startup entry exists");
        },
        _ => panic!("disabling a missing entry should be an I/O error"),
    }
}

#[test]
fn enabling_with_a_missing_source_is_an_io_error() {
    let cwd = String::from("/work");
    let startup = String::from("/cfg/Startup");
    let r = plan_autostart(
        "start.sh",
        true,
        BuildMode::Development,
        Some(&cwd),
        None,
        Some(&startup),
        false,
        false,
    );
    match r {
        Err(OrchestratorError::Io { detail }) => {
            assert_eq!(detail, "cannot enable autostart: the source script does not exist");
        },
        _ => panic!("a missing source should be an I/O error"),
    }
}

#[test]
fn missing_startup_folder_is_an_environment_error() {
    let cwd = String::from("/work");
    let r = plan_autostart(
        "start.sh",
        true,
        BuildMode::Development,
        Some(&cwd),
        None,
        None,
        true,
        false,
    );
    assert!(matches!(r, Err(OrchestratorError::Environment { .. })));
}

#[test]
fn missing_base_directory_is_an_environment_error() {
    let startup = String::from("/cfg/Startup");
    let r = plan_autostart(
        "start.sh",
        true,
        BuildMode::Development,
        None,
        None,
        Some(&startup),
        true,
        false,
    );
    assert!(matches!(r, Err(OrchestratorError::Environment { .. })));
}

#[test]
fn located_startup_dir_ends_with_the_fixed_segments() {
    match locate_startup_dir() {
        Ok(dir) => {
            assert!(dir.ends_with("/Microsoft/Windows/Start Menu/Programs/Startup"));
        },
        Err(e) => assert!(matches!(e, OrchestratorError::Environment { .. })),
    }
}
