//! The bandwidth policy: what is observed of League, the rules that map an
//! observation to a Steam bandwidth action, and their evaluation.
use vstd::prelude::*;

verus! {

/// A side of an Arena pairing as the live client reports it.
#[derive(Debug, Clone, Copy, PartialEq, Eq, Structural)]
pub enum Team {
    Order,
    Chaos,
}

/// One player of an Arena match.
#[derive(Debug, Clone, Copy, PartialEq, Eq, Structural)]
pub struct ArenaPlayer {
    pub team: Team,
    pub is_dead: bool,
    pub is_local: bool,
}

/// The round phase of an Arena match.
#[derive(Debug, Clone, Copy, PartialEq, Eq, Structural)]
pub enum ArenaPhase {
    Preparation,
    Combat,
    Ambiguous,
}

/// Whether the local player is alive.
#[derive(Debug, Clone, Copy, PartialEq, Eq, Structural)]
pub enum LifeState {
    Alive,
    Dead,
    Unknown,
}

/// The kind of League match.
#[derive(Debug, Clone, Copy, PartialEq, Eq, Structural)]
pub enum GameMode {
    Arena,
    Other,
    Unknown,
}

/// The phase of the League client.
#[derive(Debug, Clone, Copy, PartialEq, Eq, Structural)]
pub enum ClientPhase {
    Idle,
    Lobby,
    Matchmaking,
    ReadyCheck,
    ChampSelect,
    Loading,
    InGame,
    EndOfGame,
}

/// Everything the policy knows of the game at one moment.
#[derive(Debug, Clone, Copy, PartialEq, Eq, Structural)]
pub struct ObservedGameState {
    pub client_phase: ClientPhase,
    pub mode: GameMode,
    pub arena_phase: Option<ArenaPhase>,
    pub life: LifeState,
    pub confidence: u8,
}

/// The observation when nothing is known of a match: the client is idle.
pub open spec fn idle_observation() -> ObservedGameState {
    ObservedGameState {
        client_phase: ClientPhase::Idle,
        mode: GameMode::Unknown,
        arena_phase: None,
        life: LifeState::Unknown,
        confidence: 100,
    }
}

/// A match of mode `mode` in progress, with nothing known of its rounds.
pub open spec fn league_match_observation(mode: GameMode) -> ObservedGameState {
    ObservedGameState {
        client_phase: ClientPhase::InGame,
        mode,
        arena_phase: None,
        life: LifeState::Unknown,
        confidence: 80,
    }
}

impl Default for ObservedGameState {
    fn default() -> (r: Self)
        ensures
            r == idle_observation(),
    {
        ObservedGameState {
            client_phase: ClientPhase::Idle,
            mode: GameMode::Unknown,
            arena_phase: None,
            life: LifeState::Unknown,
            confidence: 100,
        }
    }
}

impl ObservedGameState {
    /// An Arena match in progress, fully trusted.
    pub fn arena(arena_phase: ArenaPhase, life: LifeState) -> (r: Self)
        ensures
            r == (ObservedGameState {
                client_phase: ClientPhase::InGame,
                mode: GameMode::Arena,
                arena_phase: Some(arena_phase),
                life,
                confidence: 100,
            }),
    {
        ObservedGameState {
            client_phase: ClientPhase::InGame,
            mode: GameMode::Arena,
            arena_phase: Some(arena_phase),
            life,
            confidence: 100,
        }
    }

    /// A match of mode `mode` in progress, with nothing known of its rounds.
    pub fn league_match(mode: GameMode) -> (r: Self)
        ensures
            r == league_match_observation(mode),
    {
        ObservedGameState {
            client_phase: ClientPhase::InGame,
            mode,
            arena_phase: None,
            life: LifeState::Unknown,
            confidence: 80,
        }
    }
}

/// Some player of `team` is alive.
pub open spec fn team_alive(players: Seq<ArenaPlayer>, team: Team) -> bool {
    exists|i: int| 0 <= i < players.len() && !(#[trigger] players[i]).is_dead && players[i].team == team
}

/// Combat while both teams have a living player, preparation while only one
/// has, and no telling when neither has.
pub open spec fn arena_phase_of(players: Seq<ArenaPlayer>) -> ArenaPhase {
    let order = team_alive(players, Team::Order);
    let chaos = team_alive(players, Team::Chaos);
    if order && chaos {
        ArenaPhase::Combat
    } else if order || chaos {
        ArenaPhase::Preparation
    } else {
        ArenaPhase::Ambiguous
    }
}

/// The round phase depends only on which teams have a living player,
/// wherever in the list that player stands: combat exactly where some `Order`
/// player and some `Chaos` player are alive, no telling exactly where every
/// player is dead, and preparation otherwise.
pub proof fn lemma_phase_by_living_players(players: Seq<ArenaPlayer>)
    ensures
        ({
            let order = exists|i: int|
                0 <= i < players.len() && (#[trigger] players[i]).team == Team::Order
                    && !players[i].is_dead;
            let chaos = exists|i: int|
                0 <= i < players.len() && (#[trigger] players[i]).team == Team::Chaos
                    && !players[i].is_dead;
            &&& arena_phase_of(players) == ArenaPhase::Combat <==> order && chaos
            &&& arena_phase_of(players) == ArenaPhase::Preparation <==> order != chaos
            &&& arena_phase_of(players) == ArenaPhase::Ambiguous <==> forall|i: int|
                0 <= i < players.len() ==> (#[trigger] players[i]).is_dead
        }),
{
    let order = exists|i: int|
        0 <= i < players.len() && (#[trigger] players[i]).team == Team::Order
            && !players[i].is_dead;
    let chaos = exists|i: int|
        0 <= i < players.len() && (#[trigger] players[i]).team == Team::Chaos
            && !players[i].is_dead;
    assert(team_alive(players, Team::Order) == order);
    assert(team_alive(players, Team::Chaos) == chaos);
    if !order && !chaos {
        assert forall|i: int| 0 <= i < players.len() implies (#[trigger] players[i]).is_dead by {
            if players[i].team == Team::Order {
                assert(!(players[i].team == Team::Order && !players[i].is_dead));
            } else {
                assert(!(players[i].team == Team::Chaos && !players[i].is_dead));
            }
        }
    }
}

fn any_alive(players: &[ArenaPlayer], team: Team) -> (r: bool)
    ensures
        r == team_alive(players@, team),
{
    let mut i: usize = 0;
    while i < players.len()
        invariant
            i <= players.len(),
            forall|j: int| 0 <= j < i ==> !(!(#[trigger] players@[j]).is_dead && players@[j].team == team),
        decreases players.len() - i,
    {
        if !players[i].is_dead && players[i].team == team {
            assert(!players@[i as int].is_dead && players@[i as int].team == team);
            return true;
        }
        i = i + 1;
    }
    false
}

/// The round phase of an Arena match, from its players.
pub fn classify_arena(players: &[ArenaPlayer]) -> (r: ArenaPhase)
    ensures
        r == arena_phase_of(players@),
{
    let order_alive = any_alive(players, Team::Order);
    let chaos_alive = any_alive(players, Team::Chaos);
    if order_alive && chaos_alive {
        ArenaPhase::Combat
    } else if order_alive || chaos_alive {
        ArenaPhase::Preparation
    } else {
        ArenaPhase::Ambiguous
    }
}

/// What Steam is told to do with downloads.
#[derive(Debug, Clone, Copy, PartialEq, Eq, Structural)]
pub enum BandwidthAction {
    Unlimited,
    Limit { bytes_per_second: u64 },
    Pause,
}

/// The situations that a rule can apply to.
#[derive(Debug, Clone, Copy, PartialEq, Eq, Structural)]
pub enum RuleCondition {
    Always,
    Idle,
    Loading,
    NonArenaMatch,
    ArenaPreparation,
    ArenaCombatDead,
    ArenaCombat,
}

/// One rule of a policy.
#[derive(Debug, Clone, PartialEq, Eq)]
pub struct Rule {
    pub id: String,
    pub name: String,
    pub enabled: bool,
    pub priority: u32,
    pub condition: RuleCondition,
    pub action: BandwidthAction,
}

/// Whether condition `c` holds of `s`.
pub open spec fn condition_holds(c: RuleCondition, s: ObservedGameState) -> bool {
    match c {
        RuleCondition::Always => true,
        RuleCondition::Idle => !(s.client_phase == ClientPhase::Loading || s.client_phase
            == ClientPhase::InGame),
        RuleCondition::Loading => s.client_phase == ClientPhase::Loading,
        RuleCondition::NonArenaMatch => s.client_phase == ClientPhase::InGame && s.mode
            == GameMode::Other,
        RuleCondition::ArenaPreparation => s.mode == GameMode::Arena && s.arena_phase == Some(
            ArenaPhase::Preparation,
        ),
        RuleCondition::ArenaCombatDead => s.mode == GameMode::Arena && s.arena_phase == Some(
            ArenaPhase::Combat,
        ) && s.life == LifeState::Dead,
        RuleCondition::ArenaCombat => s.mode == GameMode::Arena && s.arena_phase != Some(
            ArenaPhase::Preparation,
        ),
    }
}

/// Rule `r` is enabled and its condition holds of `s`.
pub open spec fn applies(r: Rule, s: ObservedGameState) -> bool {
    r.enabled && condition_holds(r.condition, s)
}

/// `rules[i]` applies to `s` and no rule before it does.
pub open spec fn is_first_applicable(rules: Seq<Rule>, s: ObservedGameState, i: int) -> bool {
    &&& 0 <= i < rules.len()
    &&& applies(rules[i], s)
    &&& forall|j: int| 0 <= j < i ==> !applies(#[trigger] rules[j], s)
}

/// The index of the first rule that applies to `s`, if any does.
pub open spec fn first_applicable(rules: Seq<Rule>, s: ObservedGameState) -> Option<int> {
    if exists|i: int| is_first_applicable(rules, s, i) {
        Some(choose|i: int| is_first_applicable(rules, s, i))
    } else {
        None
    }
}

/// The id reported when no rule applies.
pub open spec fn fail_safe_id() -> Seq<char> {
    "internal-fail-safe"@
}

/// The name reported when no rule applies.
pub open spec fn fail_safe_name() -> Seq<char> {
    "Internal fail-safe"@
}

/// The action that a policy chooses for `s`: that of the first rule that
/// applies, and a pause where none does.
pub open spec fn decided_action(rules: Seq<Rule>, s: ObservedGameState) -> BandwidthAction {
    match first_applicable(rules, s) {
        Some(i) => rules[i].action,
        None => BandwidthAction::Pause,
    }
}

/// The id of the rule that decides `s`.
pub open spec fn decided_id(rules: Seq<Rule>, s: ObservedGameState) -> Seq<char> {
    match first_applicable(rules, s) {
        Some(i) => rules[i].id@,
        None => fail_safe_id(),
    }
}

/// The name of the rule that decides `s`.
pub open spec fn decided_name(rules: Seq<Rule>, s: ObservedGameState) -> Seq<char> {
    match first_applicable(rules, s) {
        Some(i) => rules[i].name@,
        None => fail_safe_name(),
    }
}

/// Only one index is the first applicable one.
pub proof fn lemma_first_applicable_unique(rules: Seq<Rule>, s: ObservedGameState, i: int, k: int)
    requires
        is_first_applicable(rules, s, i),
        is_first_applicable(rules, s, k),
    ensures
        i == k,
{
    if i < k {
        assert(!applies(rules[i], s));
    } else if k < i {
        assert(!applies(rules[k], s));
    }
}

/// `first_applicable` names the first rule that applies, and is `None` only
/// where no rule applies.
pub proof fn lemma_first_applicable(rules: Seq<Rule>, s: ObservedGameState)
    ensures
        match first_applicable(rules, s) {
            Some(i) => is_first_applicable(rules, s, i),
            None => forall|j: int| 0 <= j < rules.len() ==> !applies(#[trigger] rules[j], s),
        },
{
    if first_applicable(rules, s) is None {
        assert forall|j: int| 0 <= j < rules.len() implies !applies(#[trigger] rules[j], s) by {
            if applies(rules[j], s) {
                lemma_least_applicable(rules, s, j);
            }
        }
    }
}

/// Where some rule at or before `j` applies, a first applicable rule exists.
proof fn lemma_least_applicable(rules: Seq<Rule>, s: ObservedGameState, j: int)
    requires
        0 <= j < rules.len(),
        applies(rules[j], s),
    ensures
        exists|i: int| is_first_applicable(rules, s, i),
    decreases j,
{
    if forall|k: int| 0 <= k < j ==> !applies(#[trigger] rules[k], s) {
        assert(is_first_applicable(rules, s, j));
    } else {
        let k = choose|k: int| 0 <= k < j && applies(#[trigger] rules[k], s);
        lemma_least_applicable(rules, s, k);
    }
}

/// The rule that decided an observation, and its action.
#[derive(Debug, Clone, PartialEq, Eq)]
pub struct RuleMatch {
    pub rule_id: String,
    pub rule_name: String,
    pub action: BandwidthAction,
}

impl Rule {
    /// An enabled rule of priority 0 that applies to everything.
    pub fn always(id: &str, action: BandwidthAction) -> (r: Self)
        ensures
            r.id@ == id@,
            r.name@ == id@,
            r.enabled,
            r.priority == 0,
            r.condition == RuleCondition::Always,
            r.action == action,
    {
        Rule {
            id: String::from_str(id),
            name: String::from_str(id),
            enabled: true,
            priority: 0,
            condition: RuleCondition::Always,
            action,
        }
    }

    fn matches(&self, state: &ObservedGameState) -> (r: bool)
        ensures
            r == condition_holds(self.condition, *state),
    {
        match self.condition {
            RuleCondition::Always => true,
            RuleCondition::Idle => !(state.client_phase == ClientPhase::Loading
                || state.client_phase == ClientPhase::InGame),
            RuleCondition::Loading => state.client_phase == ClientPhase::Loading,
            RuleCondition::NonArenaMatch => {
                state.client_phase == ClientPhase::InGame && state.mode == GameMode::Other
            },
            RuleCondition::ArenaPreparation => {
                state.mode == GameMode::Arena && state.arena_phase == Some(ArenaPhase::Preparation)
            },
            RuleCondition::ArenaCombatDead => {
                state.mode == GameMode::Arena && state.arena_phase == Some(ArenaPhase::Combat)
                    && state.life == LifeState::Dead
            },
            RuleCondition::ArenaCombat => {
                state.mode == GameMode::Arena && state.arena_phase != Some(ArenaPhase::Preparation)
            },
        }
    }
}

/// The throttle applied in Arena combat unless the settings say otherwise,
/// in bytes per second.
pub const DEFAULT_COMBAT_LIMIT: u64 = 10_000_000;

/// The ids of the built-in rules, in order.
pub open spec fn default_rule_ids() -> Seq<Seq<char>> {
    seq![
        "idle"@,
        "loading"@,
        "other-match"@,
        "arena-prep"@,
        "arena-dead"@,
        "arena-combat"@,
        "fail-safe"@,
    ]
}

/// The names of the built-in rules, in order.
pub open spec fn default_rule_names() -> Seq<Seq<char>> {
    seq![
        "Outside a match"@,
        "Game loading"@,
        "Non-Arena match"@,
        "Arena preparation"@,
        "Arena combat — dead"@,
        "Arena combat"@,
        "Unknown state"@,
    ]
}

/// The conditions of the built-in rules, in order.
pub open spec fn default_conditions() -> Seq<RuleCondition> {
    seq![
        RuleCondition::Idle,
        RuleCondition::Loading,
        RuleCondition::NonArenaMatch,
        RuleCondition::ArenaPreparation,
        RuleCondition::ArenaCombatDead,
        RuleCondition::ArenaCombat,
        RuleCondition::Always,
    ]
}

/// The actions of the built-in rules, in order.
pub open spec fn default_actions() -> Seq<BandwidthAction> {
    seq![
        BandwidthAction::Unlimited,
        BandwidthAction::Pause,
        BandwidthAction::Pause,
        BandwidthAction::Unlimited,
        BandwidthAction::Unlimited,
        BandwidthAction::Limit { bytes_per_second: DEFAULT_COMBAT_LIMIT },
        BandwidthAction::Pause,
    ]
}

/// `rules` are the built-in rules, enabled, in order, with priorities
/// 0 to 6, carrying `actions`.
pub open spec fn is_rule_table(rules: Seq<Rule>, actions: Seq<BandwidthAction>) -> bool {
    &&& rules.len() == 7
    &&& actions.len() == 7
    &&& forall|i: int|
        0 <= i < 7 ==> {
            &&& (#[trigger] rules[i]).id@ == default_rule_ids()[i]
            &&& rules[i].name@ == default_rule_names()[i]
            &&& rules[i].enabled
            &&& rules[i].priority == i
            &&& rules[i].condition == default_conditions()[i]
            &&& rules[i].action == actions[i]
        }
}

fn make_rule(
    id: &str,
    name: &str,
    priority: u32,
    condition: RuleCondition,
    action: BandwidthAction,
) -> (r: Rule)
    ensures
        r.id@ == id@,
        r.name@ == name@,
        r.enabled,
        r.priority == priority,
        r.condition == condition,
        r.action == action,
{
    Rule {
        id: String::from_str(id),
        name: String::from_str(name),
        enabled: true,
        priority,
        condition,
        action,
    }
}

/// The built-in rules.
pub fn default_rules() -> (rules: Vec<Rule>)
    ensures
        is_rule_table(rules@, default_actions()),
{
    let mut rules: Vec<Rule> = Vec::new();
    rules.push(
        make_rule("idle", "Outside a match", 0, RuleCondition::Idle, BandwidthAction::Unlimited),
    );
    rules.push(
        make_rule("loading", "Game loading", 1, RuleCondition::Loading, BandwidthAction::Pause),
    );
    rules.push(
        make_rule(
            "other-match",
            "Non-Arena match",
            2,
            RuleCondition::NonArenaMatch,
            BandwidthAction::Pause,
        ),
    );
    rules.push(
        make_rule(
            "arena-prep",
            "Arena preparation",
            3,
            RuleCondition::ArenaPreparation,
            BandwidthAction::Unlimited,
        ),
    );
    rules.push(
        make_rule(
            "arena-dead",
            "Arena combat — dead",
            4,
            RuleCondition::ArenaCombatDead,
            BandwidthAction::Unlimited,
        ),
    );
    rules.push(
        make_rule(
            "arena-combat",
            "Arena combat",
            5,
            RuleCondition::ArenaCombat,
            BandwidthAction::Limit { bytes_per_second: DEFAULT_COMBAT_LIMIT },
        ),
    );
    rules.push(
        make_rule("fail-safe", "Unknown state", 6, RuleCondition::Always, BandwidthAction::Pause),
    );
    assert(is_rule_table(rules@, default_actions()));
    rules
}

/// Decides `state` by the first enabled rule whose condition holds; where no
/// rule applies, the result is the internal fail-safe, which pauses.
pub fn evaluate(rules: &[Rule], state: &ObservedGameState) -> (m: RuleMatch)
    ensures
        m.rule_id@ == decided_id(rules@, *state),
        m.rule_name@ == decided_name(rules@, *state),
        m.action == decided_action(rules@, *state),
{
    let mut i: usize = 0;
    while i < rules.len()
        invariant
            i <= rules.len(),
            forall|j: int| 0 <= j < i ==> !applies(#[trigger] rules@[j], *state),
        decreases rules.len() - i,
    {
        if rules[i].enabled && rules[i].matches(state) {
            proof {
                assert(is_first_applicable(rules@, *state, i as int));
                lemma_first_applicable(rules@, *state);
                lemma_first_applicable_unique(
                    rules@,
                    *state,
                    i as int,
                    first_applicable(rules@, *state)->0,
                );
            }
            return RuleMatch {
                rule_id: rules[i].id.clone(),
                rule_name: rules[i].name.clone(),
                action: rules[i].action,
            };
        }
        i = i + 1;
    }
    proof {
        lemma_first_applicable(rules@, *state);
        if let Some(k) = first_applicable(rules@, *state) {
            assert(!applies(rules@[k], *state));
        }
    }
    RuleMatch {
        rule_id: String::from_str("internal-fail-safe"),
        rule_name: String::from_str("Internal fail-safe"),
        action: BandwidthAction::Pause,
    }
}

/// Steam's throttle unit for a rate in bytes per second: kilobits per
/// second, the bit count saturating at `u64::MAX`.
pub open spec fn steam_kbps(bytes_per_second: u64) -> int {
    let bits = bytes_per_second * 8;
    (if bits > u64::MAX {
        u64::MAX as int
    } else {
        bits
    }) / 1000
}

/// Converts bytes per second to Steam's kilobits per second.
pub fn bytes_per_second_to_steam_kbps(bytes_per_second: u64) -> (kbps: u64)
    ensures
        kbps == steam_kbps(bytes_per_second),
{
    if bytes_per_second > u64::MAX / 8 {
        u64::MAX / 1_000
    } else {
        bytes_per_second * 8 / 1_000
    }
}

/// The action that is sent to Steam for a desired action: the same one; a
/// pause is never turned into a throttle.
pub fn effective_action(action: &BandwidthAction) -> (r: BandwidthAction)
    ensures
        r == *action,
{
    *action
}

/// Whether Steam's downloads were enabled.
#[derive(Debug, Clone, Copy, PartialEq, Eq, Structural)]
pub enum DownloadGate {
    Enabled,
    Paused,
    Unknown,
}

/// Who owns a pause of Steam downloads: a pause is only ever lifted by
/// whoever set it.
#[derive(Debug, Clone, Copy, PartialEq, Eq, Structural)]
pub struct PauseOwnership {
    baseline: DownloadGate,
    owned_pause: bool,
}

impl PauseOwnership {
    /// Only a pause over enabled downloads can be owned.
    #[verifier::type_invariant]
    spec fn only_owns_over_enabled(self) -> bool {
        self.owned_pause ==> self.baseline == DownloadGate::Enabled
    }

    /// The state of downloads before the first pause.
    pub closed spec fn baseline_gate(self) -> DownloadGate {
        self.baseline
    }

    /// A pause is in place that this application set.
    pub closed spec fn owns_pause(self) -> bool {
        self.owned_pause
    }

    /// Ownership before any pause, over downloads that were `baseline`.
    pub fn from_baseline(baseline: DownloadGate) -> (r: Self)
        ensures
            r.baseline_gate() == baseline,
            !r.owns_pause(),
    {
        PauseOwnership { baseline, owned_pause: false }
    }

    /// After this application paused downloads: it owns the pause only if
    /// downloads were enabled before.
    pub fn after_owned_pause(self) -> (r: Self)
        ensures
            r.baseline_gate() == self.baseline_gate(),
            r.owns_pause() == (self.owns_pause() || self.baseline_gate() == DownloadGate::Enabled),
    {
        if self.baseline == DownloadGate::Enabled {
            PauseOwnership { baseline: self.baseline, owned_pause: true }
        } else {
            self
        }
    }

    /// Which gate to put back: enabled downloads where the pause is owned,
    /// nothing otherwise. A pause that the user had set (or one over
    /// downloads in an unknown state) is never lifted.
    pub fn restore_gate(self) -> (r: Option<DownloadGate>)
        ensures
            r == restored_gate(self),
            r is Some ==> self.baseline_gate() == DownloadGate::Enabled,
    {
        proof {
            use_type_invariant(&self);
        }
        if self.owned_pause {
            Some(DownloadGate::Enabled)
        } else {
            None
        }
    }
}

/// What restoring puts back: enabled downloads where the pause is
/// owned, nothing otherwise.
pub open spec fn restored_gate(p: PauseOwnership) -> Option<DownloadGate> {
    if p.owns_pause() {
        Some(DownloadGate::Enabled)
    } else {
        None
    }
}

/// `states` is a history of pause ownership: it starts as
/// `from_baseline(baseline)` leaves it, and each later state is what
/// `after_owned_pause` makes of the one before.
pub open spec fn is_pause_history(states: Seq<PauseOwnership>, baseline: DownloadGate) -> bool {
    &&& states.len() >= 1
    &&& states[0].baseline_gate() == baseline
    &&& !states[0].owns_pause()
    &&& forall|i: int|
        1 <= i < states.len() ==> {
            &&& (#[trigger] states[i]).baseline_gate() == states[i - 1].baseline_gate()
            &&& states[i].owns_pause() == (states[i - 1].owns_pause() || states[i
                - 1].baseline_gate() == DownloadGate::Enabled)
        }
}

proof fn lemma_pause_history_state(states: Seq<PauseOwnership>, baseline: DownloadGate, k: int)
    requires
        is_pause_history(states, baseline),
        0 <= k < states.len(),
    ensures
        states[k].baseline_gate() == baseline,
        states[k].owns_pause() == (baseline == DownloadGate::Enabled && k >= 1),
    decreases k,
{
    if k > 0 {
        lemma_pause_history_state(states, baseline, k - 1);
        assert(states[k].baseline_gate() == states[k - 1].baseline_gate());
    }
}

/// However many pauses the application sets in a row, restoring gives back
/// enabled downloads exactly where they were enabled before the first pause
/// and at least one pause was set; a paused or unknown baseline is never
/// resumed, and repeating a pause changes nothing.
pub proof fn lemma_restore_after_pauses(states: Seq<PauseOwnership>, baseline: DownloadGate)
    requires
        is_pause_history(states, baseline),
    ensures
        restored_gate(states.last()) == (if baseline == DownloadGate::Enabled && states.len()
            >= 2 {
            Some(DownloadGate::Enabled)
        } else {
            None
        }),
        states.last().baseline_gate() == baseline,
{
    lemma_pause_history_state(states, baseline, states.len() - 1);
}

} // verus!
