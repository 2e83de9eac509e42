use steam_throttle::settings::{check_limit, from_stored, migrate, AppSettings};

#[test]
fn new_installations_default_to_throttling_instead_of_pausing() {
    assert!(!AppSettings::default().pause_during_other_modes);
}

#[test]
fn version_two_settings_migrate_away_from_implicit_pausing() {
    let old = AppSettings {
        schema_version: 2,
        pause_during_other_modes: true,
        ..AppSettings::default()
    };

    let migrated = migrate(old);

    assert_eq!(migrated.schema_version, 3);
    assert!(!migrated.pause_during_other_modes);
}

#[test]
fn current_settings_preserve_an_explicit_pause_choice() {
    let current = AppSettings {
        schema_version: 3,
        pause_during_other_modes: true,
        ..AppSettings::default()
    };

    assert!(migrate(current).pause_during_other_modes);
}

#[test]
fn defaults_match_a_new_installation() {
    let d = AppSettings::default();
    assert_eq!(d.schema_version, 3);
    assert!(!d.automation_enabled);
    assert_eq!(d.combat_limit_bytes_per_second, 10_000_000);
    assert!(d.throttle_while_alive);
    assert!(d.download_while_dead);
    assert!(d.download_between_rounds);
    assert!(d.restore_on_exit);
    assert!(!d.start_with_windows);
    assert!(d.close_to_tray);
}

#[test]
fn migration_keeps_every_other_choice_and_is_idempotent() {
    let old = AppSettings {
        schema_version: 1,
        automation_enabled: true,
        combat_limit_bytes_per_second: 500_000,
        throttle_while_alive: false,
        download_while_dead: false,
        download_between_rounds: false,
        pause_during_other_modes: true,
        restore_on_exit: false,
        start_with_windows: true,
        close_to_tray: false,
    };
    let once = migrate(old);
    assert_eq!(
        once,
        AppSettings {
            schema_version: 3,
            pause_during_other_modes: false,
            ..old
        }
    );
    assert_eq!(migrate(once), once);
    let future = AppSettings {
        schema_version: 9,
        pause_during_other_modes: true,
        ..AppSettings::default()
    };
    assert_eq!(migrate(future).schema_version, 3);
    assert!(migrate(future).pause_during_other_modes);
}

#[test]
fn unreadable_settings_fall_back_to_defaults() {
    assert_eq!(from_stored(None), AppSettings::default());
    let stored = AppSettings {
        schema_version: 2,
        pause_during_other_modes: true,
        automation_enabled: true,
        ..AppSettings::default()
    };
    let loaded = from_stored(Some(stored));
    assert!(loaded.automation_enabled);
    assert!(!loaded.pause_during_other_modes);
}

#[test]
fn throttle_range_is_checked_at_both_ends() {
    let with = |limit: u64| AppSettings {
        combat_limit_bytes_per_second: limit,
        ..AppSettings::default()
    };
    assert_eq!(check_limit(&with(128_000)), Ok(()));
    assert_eq!(check_limit(&with(125_000_000)), Ok(()));
    assert_eq!(
        check_limit(&with(127_999)),
        Err("Throttled speed limit must be between 0.128 and 125 MB/s".to_string())
    );
    assert!(check_limit(&with(125_000_001)).is_err());
    assert!(check_limit(&with(0)).is_err());
}
