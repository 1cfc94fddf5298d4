//! Updates, from their lookup to their installation.

use mywallpaper_desktop::error::AppError;
use mywallpaper_desktop::updater::{
    build_updater, check_for_updates, download_and_install_update, updater_error, CheckOutcome,
    FoundUpdate, InstallAction, InstallEvent, InstallStage, InstallStep, UpdateStatus, UpdaterStep,
};

const ENDPOINT: &str = "https://github.com/MyWallpapers/client/releases/download/v9/latest.json";

fn found(version: &str) -> CheckOutcome {
    CheckOutcome::Found {
        update: FoundUpdate {
            version: version.to_string(),
            body: Some("notes".to_string()),
            date: None,
        },
    }
}

fn message(e: AppError) -> String {
    match e {
        AppError::Updater(m) => m,
        AppError::Validation(m) => format!("refused: {}", m),
        _ => panic!("another error"),
    }
}

fn answer(step: InstallStep) -> Result<(), String> {
    match step.action {
        InstallAction::Answer { result } => result.map_err(message),
        _ => panic!("no answer"),
    }
}

#[test]
fn failures_name_their_step() {
    for (step, expected) in [
        (UpdaterStep::Url, "Invalid URL: x"),
        (UpdaterStep::Endpoint, "Invalid endpoint: x"),
        (UpdaterStep::Build, "Build failed: x"),
        (UpdaterStep::Default, "Updater not available: x"),
        (UpdaterStep::Check, "Update check failed: x"),
        (UpdaterStep::Install, "Update install failed: x"),
    ] {
        assert_eq!(message(updater_error(step, "x")), expected);
    }
}

#[test]
fn a_named_endpoint_is_checked_first() {
    assert_eq!(build_updater(None).unwrap(), None);
    assert_eq!(build_updater(Some(ENDPOINT.to_string())).unwrap(), Some(ENDPOINT.to_string()));
    let refused = build_updater(Some("http://github.com/".to_string())).unwrap_err();
    assert_eq!(message(refused), "refused: Endpoint must use HTTPS");
}

#[test]
fn an_update_is_described() {
    let info = check_for_updates("1.0.0", found("v1.1.0")).unwrap().unwrap();
    assert_eq!(info.version, "v1.1.0");
    assert_eq!(info.current_version, "1.0.0");
    assert_eq!(info.body, Some("notes".to_string()));
    assert_eq!(info.date, None);
    assert!(check_for_updates("1.0.0", CheckOutcome::UpToDate).unwrap().is_none());
    assert_eq!(
        message(check_for_updates("1.0.0", found("0.9.0")).unwrap_err()),
        "refused: Refusing downgrade from 1.0.0 to 0.9.0"
    );
    let failed = CheckOutcome::Failed { reason: "offline".to_string() };
    assert_eq!(
        message(check_for_updates("1.0.0", failed).unwrap_err()),
        "Update check failed: offline"
    );
}

#[test]
fn an_installation_runs_through() {
    let mut stage = InstallStage::Idle;
    let mut told: Vec<&str> = Vec::new();
    let step = download_and_install_update(
        "1.0.0",
        &mut stage,
        InstallEvent::Requested { endpoint: Some(ENDPOINT.to_string()) },
    );
    told.extend(step.status.map(|s| s.as_str()));
    match step.action {
        InstallAction::Build { endpoint } => assert_eq!(endpoint, Some(ENDPOINT.to_string())),
        _ => panic!("expected to build the updater"),
    }
    let step = download_and_install_update("1.0.0", &mut stage, InstallEvent::Built);
    told.extend(step.status.map(|s| s.as_str()));
    assert!(matches!(step.action, InstallAction::Check));
    let step = download_and_install_update(
        "1.0.0",
        &mut stage,
        InstallEvent::Checked { outcome: found("1.0.1") },
    );
    told.extend(step.status.map(|s| s.as_str()));
    assert!(matches!(step.action, InstallAction::Install));
    match &stage {
        InstallStage::Installing { version } => assert_eq!(version, "1.0.1"),
        _ => panic!("expected to install"),
    }
    let step = download_and_install_update("1.0.0", &mut stage, InstallEvent::Installed);
    told.extend(step.status.map(|s| s.as_str()));
    assert_eq!(answer(step), Ok(()));
    assert_eq!(told, vec!["checking", "downloading", "installed"]);
    // What has ended stays so.
    let step = download_and_install_update("1.0.0", &mut stage, InstallEvent::Installed);
    assert!(step.status.is_none());
    assert!(matches!(step.action, InstallAction::Nothing));
    assert!(matches!(stage, InstallStage::Finished));
}

#[test]
fn an_installation_can_fail_at_every_step() {
    let mut stage = InstallStage::Idle;
    let step = download_and_install_update(
        "1.0.0",
        &mut stage,
        InstallEvent::Requested { endpoint: Some("http://x/".to_string()) },
    );
    assert_eq!(step.status, Some(UpdateStatus::Checking));
    assert_eq!(answer(step), Err("refused: Endpoint must use HTTPS".to_string()));

    let mut stage = InstallStage::Building;
    let failed = InstallEvent::BuildFailed {
        step: UpdaterStep::Default,
        reason: "no key".to_string(),
    };
    let step = download_and_install_update("1.0.0", &mut stage, failed);
    assert_eq!(answer(step), Err("Updater not available: no key".to_string()));

    for (outcome, expected) in [
        (CheckOutcome::UpToDate, "No update available"),
        (CheckOutcome::Failed { reason: "offline".to_string() }, "Update check failed: offline"),
        (found("0.1.0"), "refused: Refusing downgrade from 1.0.0 to 0.1.0"),
    ] {
        let mut stage = InstallStage::Checking;
        let checked = InstallEvent::Checked { outcome };
        let step = download_and_install_update("1.0.0", &mut stage, checked);
        assert!(step.status.is_none());
        assert_eq!(answer(step), Err(expected.to_string()));
        assert!(matches!(stage, InstallStage::Finished));
    }

    let mut stage = InstallStage::Installing { version: "2.0.0".to_string() };
    let failed = InstallEvent::InstallFailed { reason: "disk full".to_string() };
    let step = download_and_install_update("1.0.0", &mut stage, failed);
    assert!(step.status.is_none());
    assert_eq!(answer(step), Err("Update install failed: disk full".to_string()));
}

#[test]
fn an_event_out_of_turn_changes_nothing() {
    let mut stage = InstallStage::Idle;
    let step = download_and_install_update("1.0.0", &mut stage, InstallEvent::Installed);
    assert!(step.status.is_none());
    assert!(matches!(step.action, InstallAction::Nothing));
    assert!(matches!(stage, InstallStage::Idle));
}
