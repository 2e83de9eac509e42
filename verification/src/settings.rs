//! The user's settings, their defaults, their migration between schema
//! versions and the range that a throttle may take.
use vstd::prelude::*;

verus! {

/// The user's settings.
#[derive(Debug, Clone, Copy, PartialEq, Eq, Structural)]
pub struct AppSettings {
    pub schema_version: u32,
    pub automation_enabled: bool,
    pub combat_limit_bytes_per_second: u64,
    pub throttle_while_alive: bool,
    pub download_while_dead: bool,
    pub download_between_rounds: bool,
    pub pause_during_other_modes: bool,
    pub restore_on_exit: bool,
    pub start_with_windows: bool,
    pub close_to_tray: bool,
}

/// The schema version that this release writes.
pub const SCHEMA_VERSION: u32 = 3;

/// The settings of a new installation.
pub open spec fn default_settings() -> AppSettings {
    AppSettings {
        schema_version: SCHEMA_VERSION,
        automation_enabled: false,
        combat_limit_bytes_per_second: 10_000_000,
        throttle_while_alive: true,
        download_while_dead: true,
        download_between_rounds: true,
        pause_during_other_modes: false,
        restore_on_exit: true,
        start_with_windows: false,
        close_to_tray: true,
    }
}

impl Default for AppSettings {
    fn default() -> (r: Self)
        ensures
            r == default_settings(),
    {
        AppSettings {
            schema_version: SCHEMA_VERSION,
            automation_enabled: false,
            combat_limit_bytes_per_second: 10_000_000,
            throttle_while_alive: true,
            download_while_dead: true,
            download_between_rounds: true,
            pause_during_other_modes: false,
            restore_on_exit: true,
            start_with_windows: false,
            close_to_tray: true,
        }
    }
}

/// Settings brought to the current schema: settings written before version 3
/// lose their pausing during other modes, which was implicit then; all else
/// is kept.
pub open spec fn migrated(s: AppSettings) -> AppSettings {
    AppSettings {
        schema_version: SCHEMA_VERSION,
        pause_during_other_modes: if s.schema_version < 3 {
            false
        } else {
            s.pause_during_other_modes
        },
        ..s
    }
}

/// Brings settings to the current schema.
pub fn migrate(settings: AppSettings) -> (r: AppSettings)
    ensures
        r == migrated(settings),
{
    let mut settings = settings;
    if settings.schema_version < 3 {
        settings.pause_during_other_modes = false;
    }
    settings.schema_version = SCHEMA_VERSION;
    settings
}

/// The settings in force after loading: the stored ones where they could be
/// read, the defaults otherwise, migrated to the current schema.
pub fn from_stored(stored: Option<AppSettings>) -> (r: AppSettings)
    ensures
        r == migrated(
            match stored {
                Some(s) => s,
                None => default_settings(),
            },
        ),
{
    let settings = match stored {
        Some(s) => s,
        None => AppSettings::default(),
    };
    migrate(settings)
}

/// Migrating twice changes nothing more than migrating once.
pub proof fn lemma_migrate_idempotent(s: AppSettings)
    ensures
        migrated(migrated(s)) == migrated(s),
{
}

/// The slowest throttle that may be saved, in bytes per second.
pub const MIN_COMBAT_LIMIT: u64 = 128_000;

/// The fastest throttle that may be saved, in bytes per second.
pub const MAX_COMBAT_LIMIT: u64 = 125_000_000;

/// The throttle of `s` lies in the range that may be saved.
pub open spec fn limit_in_range(s: AppSettings) -> bool {
    MIN_COMBAT_LIMIT <= s.combat_limit_bytes_per_second <= MAX_COMBAT_LIMIT
}

/// The message with which settings outside the range are refused.
pub open spec fn limit_error_message() -> Seq<char> {
    "Throttled speed limit must be between 0.128 and 125 MB/s"@
}

/// Accepts settings whose throttle lies between 0.128 and 125 MB/s, and
/// refuses the others with a message that says so.
pub fn check_limit(settings: &AppSettings) -> (r: Result<(), String>)
    ensures
        r is Ok <==> limit_in_range(*settings),
        r matches Err(e) ==> e@ == limit_error_message(),
{
    if MIN_COMBAT_LIMIT <= settings.combat_limit_bytes_per_second
        && settings.combat_limit_bytes_per_second <= MAX_COMBAT_LIMIT {
        Ok(())
    } else {
        Err(String::from_str("Throttled speed limit must be between 0.128 and 125 MB/s"))
    }
}

} // verus!
