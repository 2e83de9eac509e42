use steam_throttle::automation::{
    decide, observe_client, observe_match, poll_interval_ms, policy_rules, record_transition,
    restrictiveness, state_label, still_wanted, LiveTelemetry, MonitorState, RuntimeSnapshot,
    TransitionOutcome, ACTIVITY_LIMIT,
};
use steam_throttle::league::{ActivePlayer, GameData, LiveData, LivePlayer};
use steam_throttle::policy::{
    evaluate, ArenaPhase, BandwidthAction, ClientPhase, GameMode, LifeState, ObservedGameState,
};
use steam_throttle::settings::AppSettings;
use std::path::PathBuf;

#[test]
fn disabling_alive_throttling_allows_full_speed() {
    let settings = AppSettings {
        throttle_while_alive: false,
        ..AppSettings::default()
    };
    let state = ObservedGameState::arena(ArenaPhase::Combat, LifeState::Alive);
    assert_eq!(
        evaluate(&policy_rules(&settings), &state).action,
        BandwidthAction::Unlimited
    );
}

#[test]
fn arena_download_preferences_control_dead_and_between_round_states() {
    let settings = AppSettings {
        download_while_dead: false,
        download_between_rounds: false,
        ..AppSettings::default()
    };

    let dead = ObservedGameState::arena(ArenaPhase::Combat, LifeState::Dead);
    let between = ObservedGameState::arena(ArenaPhase::Preparation, LifeState::Alive);
    assert_eq!(
        evaluate(&policy_rules(&settings), &dead).action,
        BandwidthAction::Pause
    );
    assert_eq!(
        evaluate(&policy_rules(&settings), &between).action,
        BandwidthAction::Pause
    );
}

#[test]
fn non_arena_preference_can_allow_full_speed() {
    let settings = AppSettings {
        pause_during_other_modes: false,
        ..AppSettings::default()
    };
    let state = ObservedGameState::league_match(GameMode::Other);
    assert_eq!(
        evaluate(&policy_rules(&settings), &state).action,
        BandwidthAction::Unlimited
    );
}

fn limited(bytes_per_second: u64) -> BandwidthAction {
    BandwidthAction::Limit { bytes_per_second }
}

#[test]
fn default_policy_follows_the_documented_table() {
    let settings = AppSettings::default();
    let rules = policy_rules(&settings);
    let action = |s: ObservedGameState| evaluate(&rules, &s).action;
    assert_eq!(action(ObservedGameState::default()), BandwidthAction::Unlimited);
    assert_eq!(
        action(ObservedGameState::arena(ArenaPhase::Preparation, LifeState::Alive)),
        BandwidthAction::Unlimited
    );
    assert_eq!(
        action(ObservedGameState::arena(ArenaPhase::Combat, LifeState::Alive)),
        limited(10_000_000)
    );
    assert_eq!(
        action(ObservedGameState::arena(ArenaPhase::Combat, LifeState::Dead)),
        BandwidthAction::Unlimited
    );
    let loading = ObservedGameState {
        client_phase: ClientPhase::Loading,
        ..ObservedGameState::default()
    };
    assert_eq!(action(loading), limited(10_000_000));
    let lobby = ObservedGameState {
        client_phase: ClientPhase::Lobby,
        ..ObservedGameState::default()
    };
    assert_eq!(action(lobby), BandwidthAction::Unlimited);
}

#[test]
fn configured_limit_and_pausing_choice_are_used() {
    let settings = AppSettings {
        combat_limit_bytes_per_second: 2_500_000,
        pause_during_other_modes: true,
        ..AppSettings::default()
    };
    let rules = policy_rules(&settings);
    assert_eq!(
        evaluate(&rules, &ObservedGameState::arena(ArenaPhase::Combat, LifeState::Alive)).action,
        limited(2_500_000)
    );
    assert_eq!(
        evaluate(&rules, &ObservedGameState::league_match(GameMode::Other)).action,
        BandwidthAction::Pause
    );
    let decided = decide(&settings, &ObservedGameState::league_match(GameMode::Unknown));
    assert_eq!(decided.rule_id, "fail-safe");
    assert_eq!(decided.rule_name, "Unknown state");
    assert_eq!(decided.action, limited(2_500_000));
    assert_eq!(rules[1].action, limited(2_500_000));
    assert_eq!(rules[6].action, limited(2_500_000));
}

#[test]
fn labels_name_the_observation() {
    assert_eq!(state_label(&ObservedGameState::default()), "League idle");
    assert_eq!(
        state_label(&ObservedGameState::arena(ArenaPhase::Combat, LifeState::Alive)),
        "Arena Combat · Alive"
    );
    assert_eq!(
        state_label(&ObservedGameState::league_match(GameMode::Other)),
        "League match"
    );
    assert_eq!(
        state_label(&ObservedGameState::league_match(GameMode::Unknown)),
        "League state unknown"
    );
    let post = ObservedGameState {
        client_phase: ClientPhase::EndOfGame,
        ..ObservedGameState::default()
    };
    assert_eq!(state_label(&post), "League post-game");
}

#[test]
fn restrictiveness_orders_actions() {
    assert_eq!(restrictiveness(&BandwidthAction::Unlimited), 0);
    assert_eq!(restrictiveness(&limited(1)), 1);
    assert_eq!(restrictiveness(&BandwidthAction::Pause), 2);
}

fn enabled_snapshot() -> RuntimeSnapshot {
    let settings = AppSettings {
        automation_enabled: true,
        ..AppSettings::default()
    };
    RuntimeSnapshot::initial(settings, Some(PathBuf::from("steam.exe")))
}

#[test]
fn initial_snapshot_decides_an_idle_client() {
    let snapshot = RuntimeSnapshot::initial(AppSettings::default(), None);
    assert_eq!(snapshot.adapter_health, "Steam not found");
    assert_eq!(snapshot.desired_action, BandwidthAction::Unlimited);
    assert_eq!(snapshot.matched_rule.rule_id, "idle");
    assert_eq!(snapshot.applied_action, None);
    assert!(!snapshot.automation_enabled);
    assert!(snapshot.activity.is_empty());
    let ready = enabled_snapshot();
    assert_eq!(ready.adapter_health, "Ready");
    assert!(ready.automation_enabled);
}

#[test]
fn tightening_applies_at_once_and_relaxing_waits_a_sample() {
    let mut snapshot = enabled_snapshot();
    let mut monitor = MonitorState::new();
    let path = Some(PathBuf::from("steam.exe"));
    let alive = ObservedGameState::arena(ArenaPhase::Combat, LifeState::Alive);
    let dead = ObservedGameState::arena(ArenaPhase::Combat, LifeState::Dead);

    let first = monitor.observe(&mut snapshot, alive, path.clone(), 1);
    assert!(first.should_apply);
    assert_eq!(first.desired, limited(10_000_000));
    record_transition(&mut snapshot, first.desired, TransitionOutcome::Applied);
    assert_eq!(snapshot.applied_action, Some(limited(10_000_000)));
    assert_eq!(snapshot.adapter_health, "Connected");

    let relax = monitor.observe(&mut snapshot, dead, path.clone(), 2);
    assert!(!relax.should_apply);
    let relax_again = monitor.observe(&mut snapshot, dead, path.clone(), 3);
    assert!(relax_again.should_apply);
    assert_eq!(relax_again.desired, BandwidthAction::Unlimited);
    record_transition(&mut snapshot, relax_again.desired, TransitionOutcome::Applied);

    // revived: the throttle returns on the first sample
    let revived = monitor.observe(&mut snapshot, alive, path.clone(), 4);
    assert!(revived.should_apply);
    assert_eq!(revived.desired, limited(10_000_000));
}

#[test]
fn an_interrupted_relaxation_starts_over() {
    let mut snapshot = enabled_snapshot();
    let mut monitor = MonitorState::new();
    let path = Some(PathBuf::from("steam.exe"));
    let alive = ObservedGameState::arena(ArenaPhase::Combat, LifeState::Alive);
    let dead = ObservedGameState::arena(ArenaPhase::Combat, LifeState::Dead);
    let step = monitor.observe(&mut snapshot, alive, path.clone(), 1);
    record_transition(&mut snapshot, step.desired, TransitionOutcome::Applied);
    assert!(!monitor.observe(&mut snapshot, dead, path.clone(), 2).should_apply);
    assert!(!monitor.observe(&mut snapshot, alive, path.clone(), 3).should_apply);
    assert!(!monitor.observe(&mut snapshot, dead, path.clone(), 4).should_apply);
    assert!(monitor.observe(&mut snapshot, dead, path.clone(), 5).should_apply);
}

#[test]
fn nothing_is_applied_while_automation_is_off() {
    let mut snapshot = RuntimeSnapshot::initial(AppSettings::default(), None);
    let mut monitor = MonitorState::new();
    let step = monitor.observe(
        &mut snapshot,
        ObservedGameState::arena(ArenaPhase::Combat, LifeState::Alive),
        None,
        7,
    );
    assert!(!step.should_apply);
    assert!(!step.automation);
    assert_eq!(step.steam_path, None);
    assert_eq!(snapshot.adapter_health, "Steam not found");
    assert_eq!(snapshot.desired_action, limited(10_000_000));
}

#[test]
fn activity_log_keeps_the_newest_forty_changes() {
    let mut snapshot = enabled_snapshot();
    let mut monitor = MonitorState::new();
    let alive = ObservedGameState::arena(ArenaPhase::Combat, LifeState::Alive);
    let dead = ObservedGameState::arena(ArenaPhase::Combat, LifeState::Dead);
    for i in 0..50u128 {
        let state = if i % 2 == 0 { alive } else { dead };
        monitor.observe(&mut snapshot, state, None, i);
    }
    assert_eq!(snapshot.activity.len(), ACTIVITY_LIMIT);
    assert_eq!(snapshot.activity[0].timestamp_ms, 49);
    assert_eq!(snapshot.activity[0].state, "Arena Combat · Dead");
    assert_eq!(snapshot.activity[0].reason, "Arena combat — dead");
    assert_eq!(snapshot.activity[0].action, BandwidthAction::Unlimited);
    assert_eq!(snapshot.activity[39].timestamp_ms, 10);
    assert_eq!(snapshot.last_transition, Some(49));
    // an unchanged sample is not logged
    monitor.observe(&mut snapshot, dead, None, 99);
    assert_eq!(snapshot.activity[0].timestamp_ms, 49);
    assert_eq!(snapshot.last_transition, Some(49));
}

#[test]
fn failed_transitions_keep_the_applied_action() {
    let mut snapshot = enabled_snapshot();
    record_transition(
        &mut snapshot,
        BandwidthAction::Pause,
        TransitionOutcome::Failed("Steam command exited with 1".to_string()),
    );
    assert_eq!(snapshot.applied_action, None);
    assert_eq!(snapshot.adapter_health, "Steam command exited with 1");
    record_transition(&mut snapshot, BandwidthAction::Pause, TransitionOutcome::SteamMissing);
    assert_eq!(snapshot.adapter_health, "Steam executable not found");
    assert_eq!(snapshot.applied_action, None);
}

fn live(mode: &str, map: u32, players: Vec<LivePlayer>) -> LiveData {
    LiveData {
        active_player: ActivePlayer {
            summoner_name: "Local".to_string(),
            riot_id_game_name: String::new(),
        },
        game_data: GameData {
            game_mode: mode.to_string(),
            map_number: map,
        },
        all_players: players,
    }
}

#[test]
fn observations_follow_the_telemetry() {
    assert_eq!(observe_client(None), ObservedGameState::default());
    assert_eq!(
        observe_client(Some(ClientPhase::ChampSelect)).client_phase,
        ClientPhase::ChampSelect
    );
    let loading = observe_match(&LiveTelemetry::Unreachable);
    assert_eq!(loading.client_phase, ClientPhase::Loading);
    assert_eq!(loading.confidence, 60);
    assert_eq!(
        observe_match(&LiveTelemetry::Malformed),
        ObservedGameState::league_match(GameMode::Unknown)
    );
    assert_eq!(
        observe_match(&LiveTelemetry::Unreadable),
        ObservedGameState::league_match(GameMode::Unknown)
    );
    assert_eq!(
        observe_match(&LiveTelemetry::Reported(live("CLASSIC", 11, vec![]))).mode,
        GameMode::Other
    );
    assert_eq!(poll_interval_ms(true), 250);
    assert_eq!(poll_interval_ms(false), 2_000);
}

#[test]
fn stale_actions_are_not_applied() {
    let mut snapshot = enabled_snapshot();
    let mut monitor = MonitorState::new();
    let alive = ObservedGameState::arena(ArenaPhase::Combat, LifeState::Alive);
    let step = monitor.observe(&mut snapshot, alive, None, 1);
    assert!(still_wanted(&snapshot, &step.desired));
    monitor.observe(&mut snapshot, ObservedGameState::default(), None, 2);
    assert!(!still_wanted(&snapshot, &step.desired));
    snapshot.automation_enabled = false;
    assert!(!still_wanted(&snapshot, &BandwidthAction::Unlimited));
}

#[test]
fn uncertain_telemetry_is_throttled_by_default() {
    let rules = policy_rules(&AppSettings::default());
    for telemetry in [
        LiveTelemetry::Unreachable,
        LiveTelemetry::Unreadable,
        LiveTelemetry::Malformed,
    ] {
        let state = observe_match(&telemetry);
        assert_eq!(evaluate(&rules, &state).action, limited(10_000_000));
    }
    assert_eq!(
        evaluate(&rules, &ObservedGameState::league_match(GameMode::Unknown)).action,
        limited(10_000_000)
    );
    let pausing = AppSettings {
        pause_during_other_modes: true,
        throttle_while_alive: false,
        ..AppSettings::default()
    };
    assert_eq!(
        evaluate(&policy_rules(&pausing), &observe_match(&LiveTelemetry::Malformed)).action,
        limited(10_000_000)
    );
}
