use zerohz_tray::CheckOutcome;
use zerohz_tray::CheckTrigger;
use zerohz_tray::DialogKind;
use zerohz_tray::InstallOutcome;
use zerohz_tray::TrayState;
use zerohz_tray::UpdateStatus;
use zerohz_tray::on_check_outcome;
use zerohz_tray::on_install_outcome;

fn started_state() -> TrayState {
    TrayState::new("1.2.0".to_string(), false)
}

// Scenario: the automatic startup check finds no update. The status becomes
// Latest of the running version, the passive label changes, and no dialog
// is shown.
#[test]
fn automatic_check_up_to_date_is_silent() {
    let mut state = started_state();
    state.apply_update_state(UpdateStatus::Checking);
    let dialog = on_check_outcome(&mut state, CheckTrigger::Automatic, CheckOutcome::UpToDate);
    assert!(dialog.is_none());
    assert!(matches!(state.status, UpdateStatus::Latest(ref v) if v == "1.2.0"));
    assert_eq!(state.update_status.text, "✓ Up to date");
}

#[test]
fn automatic_check_up_to_date_korean_label() {
    let mut state = started_state();
    state.sync_language_tray("ko");
    state.apply_update_state(UpdateStatus::Checking);
    let dialog = on_check_outcome(&mut state, CheckTrigger::Automatic, CheckOutcome::UpToDate);
    assert!(dialog.is_none());
    assert_eq!(state.update_status.text, "✓ 최신 버전");
}

// Scenario: a manual check finds an update and the user declines. The
// status stays Available, the dialog offered Install/Later, and no restart
// was requested.
#[test]
fn manual_check_update_found_then_declined() {
    let mut state = started_state();
    state.apply_update_state(UpdateStatus::Checking);
    let dialog = on_check_outcome(
        &mut state,
        CheckTrigger::Manual,
        CheckOutcome::UpdateFound("1.3.0".to_string()),
    );
    let dialog = dialog.expect("a manual check answers with a dialog");
    assert_eq!(dialog.kind, DialogKind::Question);
    assert_eq!(dialog.title, "Update Available");
    assert_eq!(
        dialog.message,
        "New version 1.3.0 is available. Download and install now?"
    );
    let (install_label, later_label) = dialog.buttons.expect("a confirm dialog names its buttons");
    assert_eq!(install_label, "Install");
    assert_eq!(later_label, "Later");
    // The user clicks "Later": no install runs, nothing else changes.
    assert!(matches!(state.status, UpdateStatus::Available(ref v) if v == "1.3.0"));
    assert_eq!(state.update_status.text, "⬆ Update available: v1.3.0");
    assert_eq!(state.check_update.text, "Install update (v1.3.0)");
}

// Scenario: a manual check finds an update, the user accepts, and the
// install succeeds. A ready dialog is shown and a restart is requested
// exactly once.
#[test]
fn manual_check_update_found_then_installed() {
    let mut state = started_state();
    state.apply_update_state(UpdateStatus::Checking);
    let dialog = on_check_outcome(
        &mut state,
        CheckTrigger::Manual,
        CheckOutcome::UpdateFound("1.3.0".to_string()),
    );
    assert!(dialog.is_some());
    let mut restarts = 0;
    let (ready_dialog, restart) = on_install_outcome(&mut state, InstallOutcome::Installed);
    if restart {
        restarts += 1;
    }
    assert_eq!(ready_dialog.kind, DialogKind::Info);
    assert_eq!(ready_dialog.title, "Update Ready");
    assert_eq!(ready_dialog.message, "Update installed. ZeroHz will restart to apply it.");
    assert!(ready_dialog.buttons.is_none());
    assert_eq!(restarts, 1);
    // The status still shows the available update; the process restarts.
    assert!(matches!(state.status, UpdateStatus::Available(ref v) if v == "1.3.0"));
}

#[test]
fn failed_install_reports_and_marks_failed() {
    let mut state = started_state();
    state.apply_update_state(UpdateStatus::Checking);
    on_check_outcome(
        &mut state,
        CheckTrigger::Manual,
        CheckOutcome::UpdateFound("1.3.0".to_string()),
    );
    let (dialog, restart) = on_install_outcome(&mut state, InstallOutcome::InstallFailed);
    assert!(!restart);
    assert_eq!(dialog.kind, DialogKind::Error);
    assert_eq!(dialog.title, "Update Error");
    assert_eq!(dialog.message, "Failed to download or install the update. Please try again.");
    assert!(matches!(state.status, UpdateStatus::Failed));
    assert_eq!(state.update_status.text, "⚠ Update check failed");
}

// Scenario: the automatic check fails with a network error. The status
// becomes Failed, the passive label changes, and no dialog is shown.
#[test]
fn automatic_check_failure_is_silent() {
    let mut state = started_state();
    state.apply_update_state(UpdateStatus::Checking);
    let dialog = on_check_outcome(&mut state, CheckTrigger::Automatic, CheckOutcome::CheckFailed);
    assert!(dialog.is_none());
    assert!(matches!(state.status, UpdateStatus::Failed));
    assert_eq!(state.update_status.text, "⚠ Update check failed");
    assert_eq!(state.check_update.text, "Retry update check");
}

#[test]
fn manual_check_failure_shows_error_dialog() {
    let mut state = started_state();
    state.apply_update_state(UpdateStatus::Checking);
    let dialog = on_check_outcome(&mut state, CheckTrigger::Manual, CheckOutcome::CheckFailed);
    let dialog = dialog.expect("a manual check answers with a dialog");
    assert_eq!(dialog.kind, DialogKind::Error);
    assert_eq!(dialog.title, "Update Check Failed");
    assert_eq!(
        dialog.message,
        "Failed to check for updates. Please check your connection and try again."
    );
    assert!(matches!(state.status, UpdateStatus::Failed));
}

#[test]
fn manual_check_up_to_date_shows_info_dialog() {
    let mut state = started_state();
    state.apply_update_state(UpdateStatus::Checking);
    let dialog = on_check_outcome(&mut state, CheckTrigger::Manual, CheckOutcome::UpToDate);
    let dialog = dialog.expect("a manual check answers with a dialog");
    assert_eq!(dialog.kind, DialogKind::Info);
    assert_eq!(dialog.title, "No Updates Available");
    assert_eq!(
        dialog.message,
        "You are already running the latest version (v1.2.0)."
    );
    assert!(dialog.buttons.is_none());
}

#[test]
fn updater_unavailable_shows_init_error_dialog() {
    let mut state = started_state();
    state.apply_update_state(UpdateStatus::Checking);
    let dialog = on_check_outcome(
        &mut state,
        CheckTrigger::Manual,
        CheckOutcome::UpdaterUnavailable,
    );
    let dialog = dialog.expect("a manual check answers with a dialog");
    assert_eq!(dialog.kind, DialogKind::Error);
    assert_eq!(dialog.title, "Updater Error");
    assert_eq!(dialog.message, "Failed to initialize the updater. Please try again later.");
    assert!(matches!(state.status, UpdateStatus::Failed));
}

#[test]
fn updater_unavailable_is_silent_for_automatic_trigger() {
    let mut state = started_state();
    state.apply_update_state(UpdateStatus::Checking);
    let dialog = on_check_outcome(
        &mut state,
        CheckTrigger::Automatic,
        CheckOutcome::UpdaterUnavailable,
    );
    assert!(dialog.is_none());
    assert!(matches!(state.status, UpdateStatus::Failed));
}

#[test]
fn manual_dialogs_follow_the_current_language() {
    let mut state = started_state();
    state.sync_language_tray("ko");
    state.apply_update_state(UpdateStatus::Checking);
    let dialog = on_check_outcome(
        &mut state,
        CheckTrigger::Manual,
        CheckOutcome::UpdateFound("1.3.0".to_string()),
    );
    let dialog = dialog.expect("a manual check answers with a dialog");
    assert_eq!(dialog.title, "업데이트 가능");
    assert_eq!(
        dialog.message,
        "새 버전 1.3.0이 준비되었습니다. 지금 다운로드하고 설치할까요?"
    );
    let (install_label, later_label) = dialog.buttons.expect("a confirm dialog names its buttons");
    assert_eq!(install_label, "설치");
    assert_eq!(later_label, "나중에");
}

// Overlapping runs are not serialized: the write that lands last wins,
// whichever run it comes from.
#[test]
fn overlapping_runs_last_write_wins() {
    let mut state = started_state();
    // An automatic run and a manual run both commit Checking, then their
    // outcomes land in either order; the status afterwards is the last one.
    state.apply_update_state(UpdateStatus::Checking);
    state.apply_update_state(UpdateStatus::Checking);
    on_check_outcome(
        &mut state,
        CheckTrigger::Manual,
        CheckOutcome::UpdateFound("1.3.0".to_string()),
    );
    on_check_outcome(&mut state, CheckTrigger::Automatic, CheckOutcome::UpToDate);
    assert!(matches!(state.status, UpdateStatus::Latest(ref v) if v == "1.2.0"));
    assert_eq!(state.update_status.text, "✓ Up to date");
}
