//! The automation: the policy that the settings configure, and the decisions
//! of the monitor that watches League and drives Steam.
use vstd::prelude::*;
use crate::policy::{
    applies, decided_action, default_actions, default_conditions, default_rule_ids,
    default_rule_names, default_rules, first_applicable, is_first_applicable, is_rule_table,
    lemma_first_applicable, lemma_first_applicable_unique, ArenaPhase, BandwidthAction,
    ClientPhase, GameMode, LifeState, ObservedGameState, Rule, RuleMatch,
    decided_id, decided_name, evaluate, idle_observation, effective_action,
    league_match_observation,
};
use crate::settings::AppSettings;
use crate::text::{chars_of, spells};
use crate::host::clone_optional_path;
use crate::league::{live_observation, observe_live_data, LiveData};
use std::path::PathBuf;

verus! {

/// The actions of the built-in rules as the settings configure them.
pub open spec fn configured_actions(settings: AppSettings) -> Seq<BandwidthAction> {
    let limit = BandwidthAction::Limit { bytes_per_second: settings.combat_limit_bytes_per_second };
    seq![
        BandwidthAction::Unlimited,
        limit,
        if settings.pause_during_other_modes {
            BandwidthAction::Pause
        } else {
            BandwidthAction::Unlimited
        },
        if settings.download_between_rounds {
            BandwidthAction::Unlimited
        } else {
            BandwidthAction::Pause
        },
        if settings.download_while_dead {
            BandwidthAction::Unlimited
        } else {
            BandwidthAction::Pause
        },
        if settings.throttle_while_alive {
            limit
        } else {
            BandwidthAction::Unlimited
        },
        limit,
    ]
}

/// The intended behaviour of the configured policy. Outside a match
/// downloads run free; while a match loads, and while its telemetry is
/// uncertain (the live client cannot be reached, or its data cannot be read,
/// so that the mode of the match is not known), they are throttled to the
/// configured limit; in Arena they run free between rounds and after death,
/// and are throttled in combat while the player lives or its life is not
/// known (or run free where the user turned the throttle off). These rows
/// follow the README and the changelog. Two rows follow the tests where
/// those documents say otherwise: in other modes downloads run free unless
/// the user chose pausing (then they pause), and where the user turned
/// Arena's free windows off, those windows pause rather than throttle.
pub open spec fn documented_action(settings: AppSettings, s: ObservedGameState) -> BandwidthAction {
    let limit = BandwidthAction::Limit { bytes_per_second: settings.combat_limit_bytes_per_second };
    if !(s.client_phase == ClientPhase::Loading || s.client_phase == ClientPhase::InGame) {
        BandwidthAction::Unlimited
    } else if s.client_phase == ClientPhase::Loading {
        limit
    } else if s.mode == GameMode::Unknown {
        limit
    } else if s.mode == GameMode::Other {
        if settings.pause_during_other_modes {
            BandwidthAction::Pause
        } else {
            BandwidthAction::Unlimited
        }
    } else if s.arena_phase == Some(ArenaPhase::Preparation) {
        if settings.download_between_rounds {
            BandwidthAction::Unlimited
        } else {
            BandwidthAction::Pause
        }
    } else if s.arena_phase == Some(ArenaPhase::Combat) && s.life == LifeState::Dead {
        if settings.download_while_dead {
            BandwidthAction::Unlimited
        } else {
            BandwidthAction::Pause
        }
    } else if settings.throttle_while_alive {
        limit
    } else {
        BandwidthAction::Unlimited
    }
}

/// The built-in rules with the actions that `settings` choose: the loading
/// rule and the fail-safe rule (which decides matches of unknown mode)
/// throttle to the configured limit; the other rules follow the user's
/// choices.
pub fn policy_rules(settings: &AppSettings) -> (rules: Vec<Rule>)
    ensures
        is_rule_table(rules@, configured_actions(*settings)),
{
    let defaults = default_rules();
    let mut rules: Vec<Rule> = Vec::new();
    let mut i: usize = 0;
    while i < defaults.len()
        invariant
            i <= defaults.len(),
            is_rule_table(defaults@, default_actions()),
            rules@.len() == i,
            forall|j: int|
                0 <= j < i ==> {
                    &&& (#[trigger] rules@[j]).id@ == default_rule_ids()[j]
                    &&& rules@[j].name@ == default_rule_names()[j]
                    &&& rules@[j].enabled
                    &&& rules@[j].priority == j
                    &&& rules@[j].condition == default_conditions()[j]
                    &&& rules@[j].action == configured_actions(*settings)[j]
                },
        decreases defaults.len() - i,
    {
        let rule = &defaults[i];
        assert(rule.id@ == default_rule_ids()[i as int]);
        let id = chars_of(rule.id.as_str());
        let limit = BandwidthAction::Limit {
            bytes_per_second: settings.combat_limit_bytes_per_second,
        };
        let action = if spells(&id, "loading") {
            limit
        } else if spells(&id, "other-match") && !settings.pause_during_other_modes {
            BandwidthAction::Unlimited
        } else if spells(&id, "arena-prep") && !settings.download_between_rounds {
            BandwidthAction::Pause
        } else if spells(&id, "arena-dead") && !settings.download_while_dead {
            BandwidthAction::Pause
        } else if spells(&id, "arena-combat") && !settings.throttle_while_alive {
            BandwidthAction::Unlimited
        } else if spells(&id, "arena-combat") {
            limit
        } else if spells(&id, "fail-safe") {
            limit
        } else {
            rule.action
        };
        assert(action == configured_actions(*settings)[i as int]) by {
            assert(rule.action == default_actions()[i as int]);
            reveal_strlit("idle");
            reveal_strlit("loading");
            reveal_strlit("other-match");
            reveal_strlit("arena-prep");
            reveal_strlit("arena-dead");
            reveal_strlit("arena-combat");
            reveal_strlit("fail-safe");
            // the two ids of equal length differ in their seventh character
            assert("arena-prep"@[6] != "arena-dead"@[6]);
            if i == 0 {
                assert(id@ == "idle"@);
            } else if i == 1 {
                assert(id@ == "loading"@);
            } else if i == 2 {
                assert(id@ == "other-match"@);

            } else if i == 3 {
                assert(id@ == "arena-prep"@);
            } else if i == 4 {
                assert(id@ == "arena-dead"@);
            } else if i == 5 {
                assert(id@ == "arena-combat"@);
            } else {
                assert(id@ == "fail-safe"@);
            }
        }
        rules.push(
            Rule {
                id: rule.id.clone(),
                name: rule.name.clone(),
                enabled: rule.enabled,
                priority: rule.priority,
                condition: rule.condition,
                action,
            },
        );
        i = i + 1;
    }
    rules
}

/// `rules[k]` decides `s`.
proof fn lemma_decided_by(rules: Seq<Rule>, s: ObservedGameState, k: int)
    requires
        is_first_applicable(rules, s, k),
    ensures
        first_applicable(rules, s) == Some(k),
{
    lemma_first_applicable(rules, s);
    lemma_first_applicable_unique(rules, s, k, first_applicable(rules, s)->0);
}

/// The index of the built-in rule that decides `s`: outside a match the
/// idle rule, then loading, other modes, and in Arena preparation, combat
/// after death, and the rest of combat; a match of unknown mode falls
/// through to the final fail-safe rule.
pub open spec fn deciding_rule(s: ObservedGameState) -> int {
    if !(s.client_phase == ClientPhase::Loading || s.client_phase == ClientPhase::InGame) {
        0
    } else if s.client_phase == ClientPhase::Loading {
        1
    } else if s.mode == GameMode::Unknown {
        6
    } else if s.mode == GameMode::Other {
        2
    } else if s.arena_phase == Some(ArenaPhase::Preparation) {
        3
    } else if s.arena_phase == Some(ArenaPhase::Combat) && s.life == LifeState::Dead {
        4
    } else {
        5
    }
}

/// The configured policy behaves as intended: for every choice of settings
/// and every observation, the rules that `policy_rules` makes decide by the
/// rule `deciding_rule` names, and choose the action that `documented_action` states.
pub proof fn lemma_policy_is_documented(
    rules: Seq<Rule>,
    settings: AppSettings,
    s: ObservedGameState,
)
    requires
        is_rule_table(rules, configured_actions(settings)),
    ensures
        first_applicable(rules, s) == Some(deciding_rule(s)),
        decided_action(rules, s) == documented_action(settings, s),
        decided_id(rules, s) == default_rule_ids()[deciding_rule(s)],
        decided_name(rules, s) == default_rule_names()[deciding_rule(s)],
{
    let k = deciding_rule(s);
    assert(rules[k].condition == default_conditions()[k]);
    assert(is_first_applicable(rules, s, k)) by {
        assert forall|j: int| 0 <= j < k implies !applies(#[trigger] rules[j], s) by {
            assert(rules[j].condition == default_conditions()[j]);
        }
    }
    lemma_decided_by(rules, s, k);
}

/// Decides `state` by the policy that `settings` configure.
pub fn decide(settings: &AppSettings, state: &ObservedGameState) -> (m: RuleMatch)
    ensures
        m.action == documented_action(*settings, *state),
        m.rule_id@ == default_rule_ids()[deciding_rule(*state)],
        m.rule_name@ == default_rule_names()[deciding_rule(*state)],
{
    let rules = policy_rules(settings);
    proof {
        lemma_policy_is_documented(rules@, *settings, *state);
    }
    evaluate(rules.as_slice(), state)
}

// ---------------------------------------------------------------------------
// The runtime snapshot
// ---------------------------------------------------------------------------

/// One entry of the activity log.
#[derive(Debug, Clone)]
pub struct ActivityEntry {
    pub timestamp_ms: u128,
    pub state: String,
    pub action: BandwidthAction,
    pub reason: String,
}

/// Everything the automation knows and shows.
#[derive(Debug, Clone)]
pub struct RuntimeSnapshot {
    pub observation: ObservedGameState,
    pub matched_rule: RuleMatch,
    pub desired_action: BandwidthAction,
    pub applied_action: Option<BandwidthAction>,
    pub baseline_action: Option<BandwidthAction>,
    pub adapter_health: String,
    pub last_transition: Option<u128>,
    pub automation_enabled: bool,
    pub steam_path: Option<PathBuf>,
    pub settings: AppSettings,
    pub activity: Vec<ActivityEntry>,
}

/// The health reported before anything was sent to Steam.
pub open spec fn initial_health(steam_found: bool) -> Seq<char> {
    if steam_found {
        "Ready"@
    } else {
        "Steam not found"@
    }
}

impl RuntimeSnapshot {
    /// The snapshot at start-up: nothing observed yet, nothing applied, the
    /// decision for an idle client, and automation as the settings say.
    pub fn initial(settings: AppSettings, steam_path: Option<PathBuf>) -> (r: Self)
        ensures
            r.observation == idle_observation(),
            r.matched_rule.action == documented_action(settings, idle_observation()),
            r.matched_rule.rule_id@ == default_rule_ids()[deciding_rule(idle_observation())],
            r.matched_rule.rule_name@ == default_rule_names()[deciding_rule(idle_observation())],
            r.desired_action == documented_action(settings, idle_observation()),
            r.applied_action is None,
            r.baseline_action is None,
            r.adapter_health@ == initial_health(steam_path is Some),
            r.last_transition is None,
            r.automation_enabled == settings.automation_enabled,
            r.steam_path == steam_path,
            r.settings == settings,
            r.activity@.len() == 0,
    {
        let observation = ObservedGameState::default();
        let matched_rule = decide(&settings, &observation);
        let adapter_health = if steam_path.is_some() {
            String::from_str("Ready")
        } else {
            String::from_str("Steam not found")
        };
        RuntimeSnapshot {
            observation,
            desired_action: matched_rule.action,
            matched_rule,
            applied_action: None,
            baseline_action: None,
            adapter_health,
            last_transition: None,
            automation_enabled: settings.automation_enabled,
            steam_path,
            settings,
            activity: Vec::new(),
        }
    }
}

// ---------------------------------------------------------------------------
// Labels
// ---------------------------------------------------------------------------

/// The name of an Arena round phase.
pub open spec fn phase_name(p: ArenaPhase) -> Seq<char> {
    match p {
        ArenaPhase::Preparation => "Preparation"@,
        ArenaPhase::Combat => "Combat"@,
        ArenaPhase::Ambiguous => "Ambiguous"@,
    }
}

/// The name of a life state.
pub open spec fn life_name(l: LifeState) -> Seq<char> {
    match l {
        LifeState::Alive => "Alive"@,
        LifeState::Dead => "Dead"@,
        LifeState::Unknown => "Unknown"@,
    }
}

/// How an observation reads in the activity log.
pub open spec fn state_text(s: ObservedGameState) -> Seq<char> {
    match s.client_phase {
        ClientPhase::Idle => "League idle"@,
        ClientPhase::Lobby => "League lobby"@,
        ClientPhase::Matchmaking => "League matchmaking"@,
        ClientPhase::ReadyCheck => "League ready check"@,
        ClientPhase::ChampSelect => "League champion select"@,
        ClientPhase::Loading => "League loading"@,
        ClientPhase::EndOfGame => "League post-game"@,
        ClientPhase::InGame => if s.mode == GameMode::Other {
            "League match"@
        } else if s.mode == GameMode::Arena && s.arena_phase is Some {
            "Arena "@ + phase_name(s.arena_phase->0) + " · "@ + life_name(s.life)
        } else {
            "League state unknown"@
        },
    }
}

/// How an observation reads in the activity log.
pub fn state_label(state: &ObservedGameState) -> (r: String)
    ensures
        r@ == state_text(*state),
{
    match state.client_phase {
        ClientPhase::Idle => String::from_str("League idle"),
        ClientPhase::Lobby => String::from_str("League lobby"),
        ClientPhase::Matchmaking => String::from_str("League matchmaking"),
        ClientPhase::ReadyCheck => String::from_str("League ready check"),
        ClientPhase::ChampSelect => String::from_str("League champion select"),
        ClientPhase::Loading => String::from_str("League loading"),
        ClientPhase::EndOfGame => String::from_str("League post-game"),
        ClientPhase::InGame => {
            if state.mode == GameMode::Other {
                String::from_str("League match")
            } else if state.mode == GameMode::Arena && state.arena_phase.is_some() {
                let mut label = String::from_str("Arena ");
                match state.arena_phase {
                    Some(ArenaPhase::Preparation) => label.append("Preparation"),
                    Some(ArenaPhase::Combat) => label.append("Combat"),
                    _ => label.append("Ambiguous"),
                }
                label.append(" · ");
                match state.life {
                    LifeState::Alive => label.append("Alive"),
                    LifeState::Dead => label.append("Dead"),
                    LifeState::Unknown => label.append("Unknown"),
                }
                label
            } else {
                String::from_str("League state unknown")
            }
        },
    }
}

// ---------------------------------------------------------------------------
// The monitor
// ---------------------------------------------------------------------------

/// How restrictive an action is: running free, throttled, paused.
pub open spec fn restrictiveness_of(a: BandwidthAction) -> int {
    match a {
        BandwidthAction::Unlimited => 0,
        BandwidthAction::Limit { .. } => 1,
        BandwidthAction::Pause => 2,
    }
}

/// How restrictive an action is.
pub fn restrictiveness(action: &BandwidthAction) -> (r: u8)
    ensures
        r == restrictiveness_of(*action),
{
    match action {
        BandwidthAction::Unlimited => 0,
        BandwidthAction::Limit { .. } => 1,
        BandwidthAction::Pause => 2,
    }
}

/// A change to `next` from `current` takes effect at once: nothing is
/// applied yet, or `next` is at least as restrictive.
pub open spec fn is_immediate(current: Option<BandwidthAction>, next: BandwidthAction) -> bool {
    match current {
        None => true,
        Some(old) => restrictiveness_of(next) >= restrictiveness_of(old),
    }
}

/// One more sample, staying at the largest count.
pub open spec fn one_more(samples: u8) -> u8 {
    if samples == u8::MAX {
        samples
    } else {
        (samples + 1) as u8
    }
}

/// The debouncing of relaxations: from the candidate relaxation and the
/// number of consecutive samples that desired it, the applied action and
/// the newly desired one, the next candidate, count, and whether the desired
/// action is stable enough to apply. A tightening is stable at once; a
/// relaxation once it has been desired on two consecutive samples.
pub open spec fn debounce(
    candidate: Option<BandwidthAction>,
    samples: u8,
    current: Option<BandwidthAction>,
    next: BandwidthAction,
) -> (Option<BandwidthAction>, u8, bool) {
    if is_immediate(current, next) {
        (None, 0, true)
    } else if candidate == Some(next) {
        (candidate, one_more(samples), one_more(samples) >= 2)
    } else {
        (Some(next), 1, false)
    }
}

/// The most entries the activity log keeps.
pub const ACTIVITY_LIMIT: usize = 40;

/// The state that the monitor keeps between samples: the relaxation that is
/// waiting to be applied, and on how many consecutive samples it was
/// desired.
#[derive(Debug, Clone, Copy, PartialEq, Eq, Structural)]
pub struct MonitorState {
    relaxed_candidate: Option<BandwidthAction>,
    relaxed_samples: u8,
}

/// What the monitor does after a sample.
#[derive(Debug, Clone)]
pub struct StepDecision {
    pub should_apply: bool,
    pub steam_path: Option<PathBuf>,
    pub desired: BandwidthAction,
    pub automation: bool,
}

/// `e` records an observation labelled `label` at `timestamp_ms`, decided
/// by the rule named `reason` with `action`.
pub open spec fn records(
    e: ActivityEntry,
    timestamp_ms: u128,
    label: Seq<char>,
    action: BandwidthAction,
    reason: Seq<char>,
) -> bool {
    &&& e.timestamp_ms == timestamp_ms
    &&& e.state@ == label
    &&& e.action == action
    &&& e.reason@ == reason
}

/// `log` is `before` with `newest` in front, keeping at most
/// `ACTIVITY_LIMIT` entries.
pub open spec fn logged_in_front(
    log: Seq<ActivityEntry>,
    before: Seq<ActivityEntry>,
    newest: ActivityEntry,
) -> bool {
    log == (seq![newest] + before).take(
        if before.len() + 1 > ACTIVITY_LIMIT {
            ACTIVITY_LIMIT as int
        } else {
            before.len() + 1int
        },
    )
}

impl MonitorState {
    /// A candidate relaxation is counted, and only then.
    #[verifier::type_invariant]
    spec fn counted(self) -> bool {
        (self.relaxed_candidate is None) == (self.relaxed_samples == 0)
    }

    /// The relaxation that waits to be applied.
    pub closed spec fn candidate(self) -> Option<BandwidthAction> {
        self.relaxed_candidate
    }

    /// On how many consecutive samples the candidate was desired.
    pub closed spec fn samples(self) -> u8 {
        self.relaxed_samples
    }

    /// No relaxation waits.
    pub fn new() -> (r: Self)
        ensures
            r.candidate() is None,
            r.samples() == 0,
    {
        MonitorState { relaxed_candidate: None, relaxed_samples: 0 }
    }

    /// Takes one sample: records the observation and the steam path in the
    /// snapshot, decides the action by the configured policy, logs the
    /// observation when it or the desired action changed, and says whether the
    /// desired action is to be applied now: automation is on, the action is
    /// not the applied one, and it is either a tightening or a relaxation
    /// desired on two consecutive samples.
    pub fn observe(
        &mut self,
        snapshot: &mut RuntimeSnapshot,
        observation: ObservedGameState,
        detected_steam_path: Option<PathBuf>,
        timestamp_ms: u128,
    ) -> (d: StepDecision)
        ensures
            ({
                let before = *old(snapshot);
                let after = *final(snapshot);
                let desired = documented_action(before.settings, observation);
                let k = deciding_rule(observation);
                let changed = before.observation != observation || before.desired_action
                    != desired;
                let next = debounce(
                    old(self).candidate(),
                    old(self).samples(),
                    before.applied_action,
                    desired,
                );
                &&& after.steam_path == detected_steam_path
                &&& after.adapter_health@ == (if detected_steam_path is None {
                    "Steam not found"@
                } else {
                    before.adapter_health@
                })
                &&& after.observation == observation
                &&& after.matched_rule.action == desired
                &&& after.matched_rule.rule_id@ == default_rule_ids()[k]
                &&& after.matched_rule.rule_name@ == default_rule_names()[k]
                &&& after.desired_action == desired
                &&& after.applied_action == before.applied_action
                &&& after.baseline_action == before.baseline_action
                &&& after.automation_enabled == before.automation_enabled
                &&& after.settings == before.settings
                &&& if changed {
                    &&& after.last_transition == Some(timestamp_ms)
                    &&& after.activity@.len() > 0
                    &&& records(
                        after.activity@[0],
                        timestamp_ms,
                        state_text(observation),
                        desired,
                        default_rule_names()[k],
                    )
                    &&& logged_in_front(after.activity@, before.activity@, after.activity@[0])
                } else {
                    &&& after.last_transition == before.last_transition
                    &&& after.activity == before.activity
                }
                &&& final(self).candidate() == next.0
                &&& final(self).samples() == next.1
                &&& d.should_apply == (before.automation_enabled && before.applied_action
                    != Some(desired) && next.2)
                &&& d.steam_path == detected_steam_path
                &&& d.desired == desired
                &&& d.automation == before.automation_enabled
            }),
    {
        proof {
            use_type_invariant(&*self);
        }
        snapshot.steam_path = detected_steam_path;
        if snapshot.steam_path.is_none() {
            snapshot.adapter_health = String::from_str("Steam not found");
        }
        let matched = decide(&snapshot.settings, &observation);
        let desired = matched.action;
        let effective = effective_action(&desired);
        let current = snapshot.applied_action;
        let changed = snapshot.observation != observation || snapshot.desired_action != desired;
        let reason = matched.rule_name.clone();
        snapshot.observation = observation;
        snapshot.matched_rule = matched;
        snapshot.desired_action = desired;
        let immediate = match current {
            None => true,
            Some(old) => restrictiveness(&effective) >= restrictiveness(&old),
        };
        let stable_relaxation = if immediate {
            *self = MonitorState { relaxed_candidate: None, relaxed_samples: 0 };
            true
        } else if self.relaxed_candidate == Some(effective) {
            let samples = self.relaxed_samples.saturating_add(1);
            *self = MonitorState { relaxed_candidate: Some(effective), relaxed_samples: samples };
            samples >= 2
        } else {
            *self = MonitorState { relaxed_candidate: Some(effective), relaxed_samples: 1 };
            false
        };
        let should_apply = snapshot.automation_enabled && current != Some(effective)
            && stable_relaxation;
        if changed {
            let entry = ActivityEntry {
                timestamp_ms,
                state: state_label(&observation),
                action: desired,
                reason,
            };
            let ghost before = snapshot.activity@;
            snapshot.activity.insert(0, entry);
            if snapshot.activity.len() > ACTIVITY_LIMIT {
                snapshot.activity.truncate(ACTIVITY_LIMIT);
            }
            assert(snapshot.activity@ =~= (seq![snapshot.activity@[0]] + before).take(
                if before.len() + 1 > ACTIVITY_LIMIT {
                    ACTIVITY_LIMIT as int
                } else {
                    before.len() + 1int
                },
            ));
            snapshot.last_transition = Some(timestamp_ms);
        }
        StepDecision {
            should_apply,
            steam_path: clone_optional_path(&snapshot.steam_path),
            desired: effective,
            automation: snapshot.automation_enabled,
        }
    }
}

/// Debouncing never delays a tightening: an action at least as restrictive
/// as the applied one is stable on its first sample.
pub proof fn lemma_tightening_is_immediate(
    candidate: Option<BandwidthAction>,
    samples: u8,
    current: Option<BandwidthAction>,
    next: BandwidthAction,
)
    requires
        is_immediate(current, next),
    ensures
        debounce(candidate, samples, current, next).2,
{
}

/// A relaxation is stable only where the sample before already desired the
/// same relaxation.
pub proof fn lemma_relaxation_waits_one_sample(
    candidate: Option<BandwidthAction>,
    samples: u8,
    current: Option<BandwidthAction>,
    next: BandwidthAction,
)
    requires
        (candidate is None) == (samples == 0),
        !is_immediate(current, next),
        debounce(candidate, samples, current, next).2,
    ensures
        candidate == Some(next),
        samples >= 1,
{
}

/// A relaxation desired on two consecutive samples is stable on the second,
/// whatever came before.
pub proof fn lemma_relaxation_applies_on_second_sample(
    candidate: Option<BandwidthAction>,
    samples: u8,
    current: Option<BandwidthAction>,
    next: BandwidthAction,
)
    requires
        (candidate is None) == (samples == 0),
        !is_immediate(current, next),
    ensures
        ({
            let first = debounce(candidate, samples, current, next);
            debounce(first.0, first.1, current, next).2
        }),
{
}

/// The activity log never holds more than `ACTIVITY_LIMIT` entries.
pub proof fn lemma_activity_is_bounded(
    log: Seq<ActivityEntry>,
    before: Seq<ActivityEntry>,
    newest: ActivityEntry,
)
    requires
        logged_in_front(log, before, newest),
    ensures
        log.len() <= ACTIVITY_LIMIT,
        log.len() > 0 ==> log[0] == newest,
{
}

/// An action decided on an earlier sample is still to be applied once Steam
/// is free: automation is still on and the action is still the desired one.
/// Stale actions are dropped, so that an outdated command never overrides a
/// newer decision.
pub fn still_wanted(snapshot: &RuntimeSnapshot, desired: &BandwidthAction) -> (r: bool)
    ensures
        r == (snapshot.automation_enabled && snapshot.desired_action == *desired),
{
    snapshot.automation_enabled && snapshot.desired_action == *desired
}

/// What became of an attempt to apply an action to Steam.
#[derive(Debug, Clone)]
pub enum TransitionOutcome {
    /// No Steam executable is known.
    SteamMissing,
    /// Steam accepted the commands.
    Applied,
    /// Steam refused, with this message.
    Failed(String),
}

/// The health reported after an attempt.
pub open spec fn health_after(before: Seq<char>, outcome: TransitionOutcome) -> Seq<char> {
    match outcome {
        TransitionOutcome::SteamMissing => "Steam executable not found"@,
        TransitionOutcome::Applied => "Connected"@,
        TransitionOutcome::Failed(e) => e@,
    }
}

/// Records an attempt to apply `desired`: the applied action changes only
/// where Steam accepted it; the health says what happened.
pub fn record_transition(
    snapshot: &mut RuntimeSnapshot,
    desired: BandwidthAction,
    outcome: TransitionOutcome,
)
    ensures
        final(snapshot).applied_action == (match outcome {
            TransitionOutcome::Applied => Some(desired),
            _ => old(snapshot).applied_action,
        }),
        final(snapshot).adapter_health@ == health_after(old(snapshot).adapter_health@, outcome),
        final(snapshot).observation == old(snapshot).observation,
        final(snapshot).desired_action == old(snapshot).desired_action,
        final(snapshot).baseline_action == old(snapshot).baseline_action,
        final(snapshot).automation_enabled == old(snapshot).automation_enabled,
        final(snapshot).settings == old(snapshot).settings,
        final(snapshot).steam_path == old(snapshot).steam_path,
        final(snapshot).last_transition == old(snapshot).last_transition,
        final(snapshot).activity == old(snapshot).activity,
        final(snapshot).matched_rule == old(snapshot).matched_rule,
{
    match outcome {
        TransitionOutcome::SteamMissing => {
            snapshot.adapter_health = String::from_str("Steam executable not found");
        },
        TransitionOutcome::Applied => {
            snapshot.applied_action = Some(desired);
            snapshot.adapter_health = String::from_str("Connected");
        },
        TransitionOutcome::Failed(error) => {
            snapshot.adapter_health = error;
        },
    }
}

/// The observation while no match runs: an idle client, in the phase that
/// the client reported where it could be asked.
pub fn observe_client(phase: Option<ClientPhase>) -> (r: ObservedGameState)
    ensures
        r == (match phase {
            Some(p) => ObservedGameState { client_phase: p, ..idle_observation() },
            None => idle_observation(),
        }),
{
    let mut state = ObservedGameState::default();
    if let Some(p) = phase {
        state.client_phase = p;
    }
    state
}

/// What came of asking the live client of a running match for its data.
#[derive(Debug, Clone)]
pub enum LiveTelemetry {
    /// The live client did not answer, or answered with an error status.
    Unreachable,
    /// Its answer could not be read.
    Unreadable,
    /// Its answer was not the expected data.
    Malformed,
    /// Its data.
    Reported(LiveData),
}

/// A match whose telemetry cannot be reached yet: it is still loading.
pub open spec fn loading_observation() -> ObservedGameState {
    ObservedGameState {
        client_phase: ClientPhase::Loading,
        mode: GameMode::Unknown,
        arena_phase: None,
        life: LifeState::Unknown,
        confidence: 60,
    }
}

/// The observation while a match runs. Where the telemetry is uncertain
/// (unreachable, unreadable or malformed), every configured policy throttles
/// to its limit.
pub fn observe_match(telemetry: &LiveTelemetry) -> (r: ObservedGameState)
    ensures
        r == (match *telemetry {
            LiveTelemetry::Unreachable => loading_observation(),
            LiveTelemetry::Unreadable => league_match_observation(GameMode::Unknown),
            LiveTelemetry::Malformed => league_match_observation(GameMode::Unknown),
            LiveTelemetry::Reported(d) => live_observation(d),
        }),
        !(*telemetry is Reported) ==> forall|settings: AppSettings|
            #[trigger] documented_action(settings, r) == (BandwidthAction::Limit {
                bytes_per_second: settings.combat_limit_bytes_per_second,
            }),
{
    match telemetry {
        LiveTelemetry::Unreachable => ObservedGameState {
            client_phase: ClientPhase::Loading,
            mode: GameMode::Unknown,
            arena_phase: None,
            life: LifeState::Unknown,
            confidence: 60,
        },
        LiveTelemetry::Unreadable => ObservedGameState::league_match(GameMode::Unknown),
        LiveTelemetry::Malformed => ObservedGameState::league_match(GameMode::Unknown),
        LiveTelemetry::Reported(data) => observe_live_data(data),
    }
}

/// How long the monitor waits before the next sample, in milliseconds:
/// a quarter second while a match runs, two seconds otherwise.
pub fn poll_interval_ms(league_running: bool) -> (r: u64)
    ensures
        r == (if league_running {
            250u64
        } else {
            2000u64
        }),
{
    if league_running {
        250
    } else {
        2000
    }
}

} // verus!
