//! The decisions behind the application's commands: switching automation,
//! saving settings, restoring Steam on exit, and the update message.
use vstd::prelude::*;
use crate::automation::RuntimeSnapshot;
use crate::policy::BandwidthAction;
use crate::settings::AppSettings;
use crate::text::{chars_of, spells};

verus! {

/// The action that gives the user back Steam as it was: the throttle
/// captured before automation began, or no throttle where none was
/// captured.
pub open spec fn restore_target(s: RuntimeSnapshot) -> BandwidthAction {
    match s.baseline_action {
        Some(a) => a,
        None => BandwidthAction::Unlimited,
    }
}

/// What Steam is given back depends on the captured baseline alone, never on
/// the action that the automation applied: the baseline where one was
/// captured, no throttle where none was.
pub proof fn lemma_restore_ignores_automation(s: RuntimeSnapshot, t: RuntimeSnapshot)
    requires
        s.baseline_action == t.baseline_action,
    ensures
        restore_target(s) == restore_target(t),
        s.baseline_action is None ==> restore_target(s) == BandwidthAction::Unlimited,
        s.baseline_action matches Some(a) ==> restore_target(s) == a,
{
}

/// The baseline is read from Steam only when automation is switched on from
/// off.
pub fn should_capture_baseline(enabled: bool, was_enabled: bool) -> (r: bool)
    ensures
        r == (enabled && !was_enabled),
{
    enabled && !was_enabled
}

/// Switches automation on or off, keeping a freshly captured baseline.
/// Where automation is switched off and Steam is known, the result is the
/// action that gives the user back Steam as it was; the caller applies it
/// and then records it with `record_restored`.
pub fn switch_automation(
    snapshot: &mut RuntimeSnapshot,
    enabled: bool,
    captured_baseline: Option<BandwidthAction>,
) -> (restore: Option<BandwidthAction>)
    ensures
        final(snapshot).baseline_action == (if captured_baseline is Some {
            captured_baseline
        } else {
            old(snapshot).baseline_action
        }),
        final(snapshot).automation_enabled == enabled,
        final(snapshot).settings == (AppSettings {
            automation_enabled: enabled,
            ..old(snapshot).settings
        }),
        restore == (if !enabled && old(snapshot).steam_path is Some {
            Some(restore_target(*final(snapshot)))
        } else {
            None
        }),
        final(snapshot).applied_action == old(snapshot).applied_action,
        final(snapshot).desired_action == old(snapshot).desired_action,
        final(snapshot).observation == old(snapshot).observation,
        final(snapshot).steam_path == old(snapshot).steam_path,
        final(snapshot).activity == old(snapshot).activity,
        final(snapshot).matched_rule == old(snapshot).matched_rule,
        final(snapshot).adapter_health == old(snapshot).adapter_health,
        final(snapshot).last_transition == old(snapshot).last_transition,
{
    if captured_baseline.is_some() {
        snapshot.baseline_action = captured_baseline;
    }
    snapshot.automation_enabled = enabled;
    snapshot.settings.automation_enabled = enabled;
    if !enabled && snapshot.steam_path.is_some() {
        let restore = match snapshot.baseline_action {
            Some(a) => a,
            None => BandwidthAction::Unlimited,
        };
        Some(restore)
    } else {
        None
    }
}

/// Records that Steam was given back `restored`.
pub fn record_restored(snapshot: &mut RuntimeSnapshot, restored: BandwidthAction)
    ensures
        final(snapshot).applied_action == Some(restored),
        final(snapshot).baseline_action == old(snapshot).baseline_action,
        final(snapshot).automation_enabled == old(snapshot).automation_enabled,
        final(snapshot).settings == old(snapshot).settings,
        final(snapshot).desired_action == old(snapshot).desired_action,
        final(snapshot).observation == old(snapshot).observation,
        final(snapshot).steam_path == old(snapshot).steam_path,
        final(snapshot).activity == old(snapshot).activity,
        final(snapshot).matched_rule == old(snapshot).matched_rule,
        final(snapshot).adapter_health == old(snapshot).adapter_health,
        final(snapshot).last_transition == old(snapshot).last_transition,
{
    snapshot.applied_action = Some(restored);
}

/// Puts saved settings in force: they replace the old ones, and automation
/// follows them.
pub fn apply_saved_settings(snapshot: &mut RuntimeSnapshot, settings: AppSettings)
    ensures
        final(snapshot).settings == settings,
        final(snapshot).automation_enabled == settings.automation_enabled,
        final(snapshot).applied_action == old(snapshot).applied_action,
        final(snapshot).baseline_action == old(snapshot).baseline_action,
        final(snapshot).desired_action == old(snapshot).desired_action,
        final(snapshot).observation == old(snapshot).observation,
        final(snapshot).steam_path == old(snapshot).steam_path,
        final(snapshot).activity == old(snapshot).activity,
        final(snapshot).matched_rule == old(snapshot).matched_rule,
        final(snapshot).adapter_health == old(snapshot).adapter_health,
        final(snapshot).last_transition == old(snapshot).last_transition,
{
    snapshot.automation_enabled = settings.automation_enabled;
    snapshot.settings = settings;
}

/// On exit, Steam is given back as it was where the user asked for that and
/// Steam is known.
pub fn exit_restore(snapshot: &RuntimeSnapshot) -> (r: Option<BandwidthAction>)
    ensures
        r == (if snapshot.settings.restore_on_exit && snapshot.steam_path is Some {
            Some(restore_target(*snapshot))
        } else {
            None
        }),
{
    if snapshot.settings.restore_on_exit && snapshot.steam_path.is_some() {
        match snapshot.baseline_action {
            Some(a) => Some(a),
            None => Some(BandwidthAction::Unlimited),
        }
    } else {
        None
    }
}

/// The message that reports the outcome of an update check.
pub open spec fn update_text(version: Option<Seq<char>>) -> Seq<char> {
    match version {
        Some(v) => "Steam Throttle "@ + v + " is available on GitHub Releases"@,
        None => "Steam Throttle is up to date"@,
    }
}

/// Reports the outcome of an update check: the version that is available,
/// or that none is.
pub fn update_message(version: Option<&str>) -> (r: String)
    ensures
        r@ == update_text(
            match version {
                Some(v) => Some(v@),
                None => None,
            },
        ),
{
    match version {
        Some(v) => {
            let mut text = String::from_str("Steam Throttle ");
            text.append(v);
            text.append(" is available on GitHub Releases");
            text
        },
        None => String::from_str("Steam Throttle is up to date"),
    }
}

/// The entries of the tray menu.
#[derive(Debug, Clone, Copy, PartialEq, Eq, Structural)]
pub enum TrayCommand {
    Open,
    RemoveLimit,
    Quit,
}

/// The tray entry with menu id `id`.
pub open spec fn tray_entry(id: Seq<char>) -> Option<TrayCommand> {
    if id == "open"@ {
        Some(TrayCommand::Open)
    } else if id == "restore"@ {
        Some(TrayCommand::RemoveLimit)
    } else if id == "quit"@ {
        Some(TrayCommand::Quit)
    } else {
        None
    }
}

/// Reads a tray menu id.
pub fn tray_command(id: &str) -> (r: Option<TrayCommand>)
    ensures
        r == tray_entry(id@),
{
    let chars = chars_of(id);
    if spells(&chars, "open") {
        Some(TrayCommand::Open)
    } else if spells(&chars, "restore") {
        Some(TrayCommand::RemoveLimit)
    } else if spells(&chars, "quit") {
        Some(TrayCommand::Quit)
    } else {
        None
    }
}

} // verus!
