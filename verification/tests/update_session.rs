use orchestrator::errors::OrchestratorError;
use orchestrator::facade::describe_status;
use orchestrator::update::FeedEvent;
use orchestrator::update::UpdateAction;
use orchestrator::update::UpdateSession;
use orchestrator::update::UpdateStatus;

#[test]
fn a_fresh_session_is_idle() {
    let s = UpdateSession::new();
    assert!(matches!(s.status, UpdateStatus::Idle));
    assert!(!s.install_pending);
    assert_eq!(describe_status(&s.status), "no update check has run");
}

#[test]
fn check_reports_a_newer_version_as_available() {
    let mut s = UpdateSession::new();
    let action = s.start_check().expect("a settled session accepts a check");
    assert_eq!(action, UpdateAction::QueryFeed);
    let r = s.on_feed_event(FeedEvent::CheckDone { latest: Some(String::from("2.0.0")) });
    assert!(matches!(r, Ok(UpdateAction::DoNothing)));
    match &s.status {
        UpdateStatus::Available { version } => assert_eq!(version, "2.0.0"),
        _ => panic!("a newer version should settle to available"),
    }
    assert_eq!(describe_status(&s.status), "update available: 2.0.0");
}

#[test]
fn check_reports_no_newer_version_as_up_to_date() {
    let mut s = UpdateSession::new();
    s.start_check().expect("a settled session accepts a check");
    let r = s.on_feed_event(FeedEvent::CheckDone { latest: None });
    assert!(matches!(r, Ok(UpdateAction::DoNothing)));
    assert!(matches!(s.status, UpdateStatus::UpToDate));
    assert_eq!(describe_status(&s.status), "up to date");
}

#[test]
fn an_unreachable_feed_settles_the_check_to_failed() {
    let mut s = UpdateSession::new();
    s.start_check().expect("a settled session accepts a check");
    let r = s.on_feed_event(FeedEvent::CheckFailed { reason: String::from("network unreachable") });
    match r {
        Err(OrchestratorError::Feed { detail }) => assert_eq!(detail, "network unreachable"),
        _ => panic!("a failed check should surface a feed error"),
    }
    match &s.status {
        UpdateStatus::Failed { reason } => assert_eq!(reason, "network unreachable"),
        _ => panic!("a failed check should settle to failed"),
    }
}

#[test]
fn install_reverifies_and_downloads_an_available_update() {
    let mut s = UpdateSession::new();
    let first = s.start_install().expect("a settled session accepts an install");
    assert_eq!(first, UpdateAction::QueryFeed);
    let begin = s
        .on_feed_event(FeedEvent::CheckDone { latest: Some(String::from("2.0.0")) })
        .expect("a fresh availability report starts the download");
    assert_eq!(begin, UpdateAction::BeginDownload);
    assert!(matches!(s.status, UpdateStatus::Downloading { progress: 0, total: None }));
    s.on_feed_event(FeedEvent::Progress { downloaded: 10, total: Some(100) })
        .expect("progress is accepted");
    assert!(matches!(s.status, UpdateStatus::Downloading { progress: 10, total: Some(100) }));
    s.on_feed_event(FeedEvent::DownloadComplete).expect("completion is accepted");
    assert!(matches!(s.status, UpdateStatus::Installing));
    s.on_feed_event(FeedEvent::InstallDone).expect("the installation outcome is accepted");
    assert!(matches!(s.status, UpdateStatus::Installed));
}

#[test]
fn install_with_no_update_available_fails_without_a_download() {
    let mut s = UpdateSession::new();
    s.start_install().expect("a settled session accepts an install");
    let r = s.on_feed_event(FeedEvent::CheckDone { latest: None });
    assert!(matches!(r, Err(OrchestratorError::NoUpdate)));
    assert!(matches!(s.status, UpdateStatus::UpToDate));
}

#[test]
fn a_second_install_while_one_is_in_flight_is_rejected() {
    let mut s = UpdateSession::new();
    s.start_install().expect("a settled session accepts an install");
    let rejected = s.start_install();
    match rejected {
        Err(OrchestratorError::Install { detail }) => {
            assert_eq!(detail, "an update operation is already in progress");
        },
        _ => panic!("a concurrent install request should be rejected"),
    }
    let mut downloads = 0;
    if let Ok(UpdateAction::BeginDownload) = s.on_feed_event(FeedEvent::CheckDone {
        latest: Some(String::from("2.0.0")),
    }) {
        downloads += 1;
    }
    let rejected_again = s.start_install();
    assert!(matches!(rejected_again, Err(OrchestratorError::Install { .. })));
    assert_eq!(downloads, 1);
    assert!(matches!(s.status, UpdateStatus::Downloading { .. }));
}

#[test]
fn a_check_while_an_install_is_in_flight_is_rejected() {
    let mut s = UpdateSession::new();
    s.start_install().expect("a settled session accepts an install");
    let r = s.start_check();
    match r {
        Err(OrchestratorError::Feed { detail }) => {
            assert_eq!(detail, "an update operation is already in progress");
        },
        _ => panic!("a concurrent check should be rejected"),
    }
}

#[test]
fn progress_never_moves_backwards() {
    let mut s = UpdateSession::new();
    s.start_install().expect("a settled session accepts an install");
    s.on_feed_event(FeedEvent::CheckDone { latest: Some(String::from("3.1.0")) })
        .expect("the download starts");
    s.on_feed_event(FeedEvent::Progress { downloaded: 40, total: Some(100) })
        .expect("progress is accepted");
    s.on_feed_event(FeedEvent::Progress { downloaded: 25, total: None })
        .expect("a stale report is accepted");
    assert!(matches!(s.status, UpdateStatus::Downloading { progress: 40, total: Some(100) }));
    s.on_feed_event(FeedEvent::Progress { downloaded: 90, total: None })
        .expect("progress is accepted");
    assert!(matches!(s.status, UpdateStatus::Downloading { progress: 90, total: Some(100) }));
}

#[test]
fn a_settled_session_ignores_stray_feed_events() {
    let mut s = UpdateSession::new();
    let r = s.on_feed_event(FeedEvent::InstallDone);
    assert!(matches!(r, Ok(UpdateAction::DoNothing)));
    assert!(matches!(s.status, UpdateStatus::Idle));
    let r = s.on_feed_event(FeedEvent::Progress { downloaded: 7, total: None });
    assert!(matches!(r, Ok(UpdateAction::DoNothing)));
    assert!(matches!(s.status, UpdateStatus::Idle));
}

#[test]
fn an_installation_failure_settles_to_failed() {
    let mut s = UpdateSession::new();
    s.start_install().expect("a settled session accepts an install");
    s.on_feed_event(FeedEvent::CheckDone { latest: Some(String::from("2.0.0")) })
        .expect("the download starts");
    let r = s.on_feed_event(FeedEvent::InstallFailed { reason: String::from("disk full") });
    match r {
        Err(OrchestratorError::Install { detail }) => assert_eq!(detail, "disk full"),
        _ => panic!("an installation failure should surface an install error"),
    }
    match &s.status {
        UpdateStatus::Failed { reason } => assert_eq!(reason, "disk full"),
        _ => panic!("an installation failure should settle to failed"),
    }
}

#[test]
fn a_session_can_check_again_after_settling() {
    let mut s = UpdateSession::new();
    s.start_check().expect("a settled session accepts a check");
    s.on_feed_event(FeedEvent::CheckDone { latest: None }).expect("the check settles");
    let again = s.start_check().expect("a settled session accepts another check");
    assert_eq!(again, UpdateAction::QueryFeed);
    assert!(matches!(s.status, UpdateStatus::Checking));
}
