use std::path::PathBuf;
use steam_throttle::automation::RuntimeSnapshot;
use steam_throttle::control::{
    apply_saved_settings, exit_restore, record_restored, should_capture_baseline,
    switch_automation, tray_command, update_message, TrayCommand,
};
use steam_throttle::policy::BandwidthAction;
use steam_throttle::settings::AppSettings;

fn snapshot(enabled: bool, steam: bool) -> RuntimeSnapshot {
    let settings = AppSettings {
        automation_enabled: enabled,
        ..AppSettings::default()
    };
    let path = if steam {
        Some(PathBuf::from(r"C:\Steam\steam.exe"))
    } else {
        None
    };
    RuntimeSnapshot::initial(settings, path)
}

#[test]
fn baseline_is_captured_only_when_switching_on() {
    assert!(should_capture_baseline(true, false));
    assert!(!should_capture_baseline(true, true));
    assert!(!should_capture_baseline(false, true));
    assert!(!should_capture_baseline(false, false));
}

#[test]
fn disabling_automation_restores_the_captured_baseline() {
    let mut s = snapshot(false, true);
    let baseline = BandwidthAction::Limit {
        bytes_per_second: 5_000_000,
    };
    assert_eq!(switch_automation(&mut s, true, Some(baseline)), None);
    assert!(s.automation_enabled);
    assert!(s.settings.automation_enabled);
    assert_eq!(s.baseline_action, Some(baseline));
    let restore = switch_automation(&mut s, false, None);
    assert_eq!(restore, Some(baseline));
    assert!(!s.automation_enabled);
    assert!(!s.settings.automation_enabled);
    record_restored(&mut s, baseline);
    assert_eq!(s.applied_action, Some(baseline));
}

#[test]
fn disabling_without_baseline_removes_the_limit() {
    let mut s = snapshot(true, true);
    assert_eq!(
        switch_automation(&mut s, false, None),
        Some(BandwidthAction::Unlimited)
    );
    let mut unknown_steam = snapshot(true, false);
    assert_eq!(switch_automation(&mut unknown_steam, false, None), None);
}

#[test]
fn saved_settings_take_effect() {
    let mut s = snapshot(false, true);
    let settings = AppSettings {
        automation_enabled: true,
        combat_limit_bytes_per_second: 1_000_000,
        ..AppSettings::default()
    };
    apply_saved_settings(&mut s, settings);
    assert!(s.automation_enabled);
    assert_eq!(s.settings, settings);
}

#[test]
fn exit_restores_only_when_asked_and_steam_is_known() {
    let mut s = snapshot(true, true);
    assert_eq!(exit_restore(&s), Some(BandwidthAction::Unlimited));
    s.baseline_action = Some(BandwidthAction::Pause);
    assert_eq!(exit_restore(&s), Some(BandwidthAction::Pause));
    s.settings.restore_on_exit = false;
    assert_eq!(exit_restore(&s), None);
    assert_eq!(exit_restore(&snapshot(true, false)), None);
}

#[test]
fn update_messages() {
    assert_eq!(
        update_message(Some("0.2.0")),
        "Steam Throttle 0.2.0 is available on GitHub Releases"
    );
    assert_eq!(update_message(None), "Steam Throttle is up to date");
}

#[test]
fn tray_menu_ids() {
    assert_eq!(tray_command("open"), Some(TrayCommand::Open));
    assert_eq!(tray_command("restore"), Some(TrayCommand::RemoveLimit));
    assert_eq!(tray_command("quit"), Some(TrayCommand::Quit));
    assert_eq!(tray_command("Quit"), None);
}
