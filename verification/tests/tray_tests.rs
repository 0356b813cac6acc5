use zerohz_tray::TrayLabels;
use zerohz_tray::TrayState;
use zerohz_tray::UpdateStatus;

fn fresh_state() -> TrayState {
    TrayState::new("1.2.0".to_string(), false)
}

#[test]
fn initial_state_as_built() {
    let state = fresh_state();
    assert_eq!(state.show_window.text, "Show Window");
    assert!(state.show_window.checked);
    assert_eq!(state.session_history.text, "Session History");
    assert_eq!(state.usage.text, "Usage");
    assert_eq!(state.autostart.text, "Start at Login");
    assert!(!state.autostart.checked);
    assert_eq!(state.activate_license.text, "Activate License");
    assert!(state.activate_license.enabled);
    assert_eq!(state.language_menu.text, "Language");
    assert_eq!(state.lang_ko.text, "한국어");
    assert_eq!(state.lang_en.text, "English");
    assert!(!state.lang_ko.checked);
    assert!(!state.lang_en.checked);
    assert_eq!(state.update_status.text, "Update status");
    assert!(!state.update_status.enabled);
    assert_eq!(state.version_item.text, "Version 1.2.0");
    assert!(!state.version_item.enabled);
    assert_eq!(state.check_update.text, "Check for Updates");
    assert_eq!(state.quit.text, "Quit");
    assert_eq!(state.version, "1.2.0");
    assert!(matches!(state.status, UpdateStatus::Latest(ref v) if v == "1.2.0"));
}

#[test]
fn initial_autostart_mirrors_registration() {
    let state = TrayState::new("1.2.0".to_string(), true);
    assert!(state.autostart.checked);
}

// Mutual exclusion: after any sequence of language changes, exactly one
// language toggle is checked, and it is the most recent argument's.
#[test]
fn language_toggles_are_mutually_exclusive() {
    let mut state = fresh_state();
    for (code, ko_checked) in [
        ("ko", true),
        ("ko", true),
        ("en", false),
        ("ko", true),
        ("en", false),
        ("en", false),
    ] {
        state.sync_language_tray(code);
        assert_eq!(state.lang_ko.checked, ko_checked);
        assert_eq!(state.lang_en.checked, !ko_checked);
    }
}

#[test]
fn language_change_rerenders_version_label() {
    let mut state = fresh_state();
    state.sync_language_tray("ko");
    assert_eq!(state.version_item.text, "버전 1.2.0");
    state.sync_language_tray("en");
    assert_eq!(state.version_item.text, "Version 1.2.0");
}

// Scenario: a language change while an update is available re-renders the
// status text from the stored state, without another updater query.
#[test]
fn language_change_rerenders_available_status() {
    let mut state = TrayState::new("1.2.0".to_string(), false);
    state.apply_update_state(UpdateStatus::Available("1.3.0".to_string()));
    assert_eq!(state.update_status.text, "⬆ Update available: v1.3.0");
    state.sync_language_tray("ko");
    assert_eq!(state.update_status.text, "⬆ 업데이트 가능: v1.3.0");
    assert_eq!(state.check_update.text, "업데이트 설치 (v1.3.0)");
    assert!(matches!(state.status, UpdateStatus::Available(ref v) if v == "1.3.0"));
}

// Idempotence: applying the same status twice renders exactly what applying
// it once renders.
#[test]
fn applying_same_status_twice_is_idempotent() {
    let mut once = fresh_state();
    once.apply_update_state(UpdateStatus::Latest("1.2.0".to_string()));
    let status_text = once.update_status.text.clone();
    let action_text = once.check_update.text.clone();
    once.apply_update_state(UpdateStatus::Latest("1.2.0".to_string()));
    assert_eq!(once.update_status.text, status_text);
    assert_eq!(once.check_update.text, action_text);
    assert!(matches!(once.status, UpdateStatus::Latest(ref v) if v == "1.2.0"));
}

#[test]
fn status_rerenders_status_and_action_labels() {
    let mut state = fresh_state();
    state.apply_update_state(UpdateStatus::Checking);
    assert_eq!(state.update_status.text, "… Checking for updates");
    assert_eq!(state.check_update.text, "Check for Updates");
    state.apply_update_state(UpdateStatus::Failed);
    assert_eq!(state.update_status.text, "⚠ Update check failed");
    assert_eq!(state.check_update.text, "Retry update check");
}

#[test]
fn bulk_labels_replace_static_texts_only() {
    let mut state = fresh_state();
    state.apply_update_state(UpdateStatus::Failed);
    let status_text = state.update_status.text.clone();
    state.update_tray_menu(TrayLabels {
        show_window: "창 표시".to_string(),
        session_history: "세션 기록".to_string(),
        usage: "사용량".to_string(),
        start_at_login: "로그인 시 시작".to_string(),
        activate_license: "라이선스 활성화".to_string(),
        language: "언어".to_string(),
        check_for_updates: "업데이트 확인".to_string(),
        quit: "종료".to_string(),
    });
    assert_eq!(state.show_window.text, "창 표시");
    assert_eq!(state.session_history.text, "세션 기록");
    assert_eq!(state.usage.text, "사용량");
    assert_eq!(state.autostart.text, "로그인 시 시작");
    assert_eq!(state.activate_license.text, "라이선스 활성화");
    assert_eq!(state.language_menu.text, "언어");
    assert_eq!(state.check_update.text, "업데이트 확인");
    assert_eq!(state.quit.text, "종료");
    assert_eq!(state.update_status.text, status_text);
    assert_eq!(state.version_item.text, "Version 1.2.0");
    assert!(matches!(state.status, UpdateStatus::Failed));
}

#[test]
fn pro_status_disables_license_item() {
    let mut state = fresh_state();
    state.sync_pro_status(true, "Licensed".to_string());
    assert_eq!(state.activate_license.text, "Licensed");
    assert!(!state.activate_license.enabled);
    // idempotent
    state.sync_pro_status(true, "Licensed".to_string());
    assert_eq!(state.activate_license.text, "Licensed");
    assert!(!state.activate_license.enabled);
    state.sync_pro_status(false, "Activate License".to_string());
    assert_eq!(state.activate_license.text, "Activate License");
    assert!(state.activate_license.enabled);
}
