//! League of Legends: the client's lockfile and gameflow phase, and what
//! the live client data of a match says of the game.
use vstd::prelude::*;
use std::path::PathBuf;
use crate::host::{first_named_path, first_path_named, is_running, any_named, select_path, ProcessEntry};
use crate::policy::{
    arena_phase_of, classify_arena, team_alive, ArenaPhase, league_match_observation, ArenaPlayer, ClientPhase, GameMode,
    LifeState, ObservedGameState, Team,
};
use crate::text::{
    ascii_lower, chars_of, decimal, decimal_string, is_white, lemma_split_after_piece,
    lemma_split_single, lemma_trim_untouched, parse_number, parse_unsigned, same_ignoring_ascii_case,
    same_ignoring_case, spells, split_chars, split_on, piece_views, string_of, to_lower, trim_chars,
    trimmed,
};

verus! {

/// How to reach the League client's local API.
#[derive(Debug, Clone)]
pub struct LcuLockfile {
    pub port: u16,
    pub password: String,
    pub protocol: String,
}

/// The colon-separated fields of a lockfile.
pub open spec fn lockfile_fields(contents: Seq<char>) -> Seq<Seq<char>> {
    split_on(trimmed(contents, false), ':')
}

/// A lockfile is read where it has exactly five fields and the third is a
/// port number.
pub open spec fn lockfile_readable(contents: Seq<char>) -> bool {
    let f = lockfile_fields(contents);
    f.len() == 5 && parse_unsigned(f[2], u16::MAX as int) is Some
}

/// Reads a lockfile (`name:pid:port:password:protocol`): the port, the
/// password as it stands, and the protocol in lower case.
pub fn parse_lockfile(contents: &str) -> (r: Option<LcuLockfile>)
    ensures
        r is Some <==> lockfile_readable(contents@),
        r matches Some(l) ==> {
            let f = lockfile_fields(contents@);
            &&& parse_unsigned(f[2], u16::MAX as int) == Some(l.port as int)
            &&& l.password@ == f[3]
            &&& l.protocol@ == ascii_lower(f[4])
        },
{
    let text = chars_of(contents);
    let trimmed_text = trim_chars(&text, false);
    let parts = split_chars(&trimmed_text, ':');
    assert(piece_views(parts@) == lockfile_fields(contents@));
    if parts.len() != 5 {
        return None;
    }
    assert(parts@[2]@ == lockfile_fields(contents@)[2]);
    assert(parts@[3]@ == lockfile_fields(contents@)[3]);
    assert(parts@[4]@ == lockfile_fields(contents@)[4]);
    let port = match parse_number(&parts[2], u16::MAX as u64) {
        Some(p) => p,
        None => return None,
    };
    let protocol = to_lower(&parts[4]);
    Some(LcuLockfile { port: port as u16, password: string_of(&parts[3]), protocol: string_of(&protocol) })
}

/// A lockfile `name:pid:port:password:protocol` whose fields hold no colon
/// (and which does not start or end in white space) has exactly those five
/// fields: the password comes back character for character, case kept.
/// Where the port field is a port number, the lockfile is read.
pub proof fn lemma_lockfile_fields(
    name: Seq<char>,
    pid: Seq<char>,
    port: Seq<char>,
    password: Seq<char>,
    protocol: Seq<char>,
)
    requires
        forall|i: int| 0 <= i < name.len() ==> name[i] != ':',
        forall|i: int| 0 <= i < pid.len() ==> pid[i] != ':',
        forall|i: int| 0 <= i < port.len() ==> port[i] != ':',
        forall|i: int| 0 <= i < password.len() ==> password[i] != ':',
        forall|i: int| 0 <= i < protocol.len() ==> protocol[i] != ':',
        name.len() > 0 && !is_white(name[0]),
        protocol.len() > 0 && !is_white(protocol[protocol.len() - 1]),
    ensures
        ({
            let contents = name + seq![':'] + pid + seq![':'] + port + seq![':'] + password
                + seq![':'] + protocol;
            &&& lockfile_fields(contents) == seq![name, pid, port, password, protocol]
            &&& parse_unsigned(port, u16::MAX as int) is Some ==> lockfile_readable(contents)
        }),
{
    let r4 = protocol;
    let r3 = password + seq![':'] + r4;
    let r2 = port + seq![':'] + r3;
    let r1 = pid + seq![':'] + r2;
    let contents = name + seq![':'] + pid + seq![':'] + port + seq![':'] + password + seq![':']
        + protocol;
    assert(contents =~= name + seq![':'] + r1);
    assert(contents[0] == name[0]);
    assert(contents[contents.len() - 1] == protocol[protocol.len() - 1]);
    lemma_trim_untouched(contents);
    lemma_split_single(r4, ':');
    lemma_split_after_piece(password, ':', r4);
    lemma_split_after_piece(port, ':', r3);
    lemma_split_after_piece(pid, ':', r2);
    lemma_split_after_piece(name, ':', r1);
    assert(lockfile_fields(contents) =~= seq![name, pid, port, password, protocol]);
}

/// The round phase that the live data of an Arena match gives counts every
/// player of team `ORDER` or `CHAOS`, the local player included: it is
/// combat exactly where some `ORDER` player and some `CHAOS` player are not
/// dead, and no telling exactly where no such player lives.
pub proof fn lemma_live_phase_counts_every_player(d: LiveData)
    requires
        is_arena_game(d),
    ensures
        ({
            let ps = d.all_players@;
            let order = exists|i: int|
                0 <= i < ps.len() && (#[trigger] ps[i]).team@ == "ORDER"@ && !ps[i].is_dead;
            let chaos = exists|i: int|
                0 <= i < ps.len() && (#[trigger] ps[i]).team@ == "CHAOS"@ && !ps[i].is_dead;
            &&& live_observation(d).arena_phase == Some(ArenaPhase::Combat) <==> order && chaos
            &&& live_observation(d).arena_phase == Some(ArenaPhase::Ambiguous) <==> !order
                && !chaos
        }),
{
    lemma_living_on_team(d, d.all_players@, Team::Order);
    lemma_living_on_team(d, d.all_players@, Team::Chaos);
}

/// The name that the live data gives a team.
pub open spec fn team_label(team: Team) -> Seq<char> {
    match team {
        Team::Order => "ORDER"@,
        Team::Chaos => "CHAOS"@,
    }
}

proof fn lemma_living_on_team(d: LiveData, ps: Seq<LivePlayer>, team: Team)
    ensures
        team_alive(arena_players(d, ps), team) <==> exists|i: int|
            0 <= i < ps.len() && (#[trigger] ps[i]).team@ == team_label(team) && !ps[i].is_dead,
    decreases ps.len(),
{
    reveal_strlit("ORDER");
    reveal_strlit("CHAOS");
    assert("ORDER"@[0] != "CHAOS"@[0]);
    if ps.len() > 0 {
        let init = ps.drop_last();
        let p = ps.last();
        lemma_living_on_team(d, init, team);
        let ai = arena_players(d, init);
        let a = arena_players(d, ps);
        assert(player_team(p) == Some(team) <==> p.team@ == team_label(team));
        if exists|i: int| 0 <= i < ps.len() && (#[trigger] ps[i]).team@ == team_label(team) && !ps[i].is_dead {
            let i = choose|i: int| 0 <= i < ps.len() && (#[trigger] ps[i]).team@ == team_label(team) && !ps[i].is_dead;
            if i < ps.len() - 1 {
                assert(init[i] == ps[i]);
                let k = choose|k: int| 0 <= k < ai.len() && !(#[trigger] ai[k]).is_dead && ai[k].team == team;
                assert(a[k] == ai[k]);
            } else {
                assert(p == ps[i]);
                assert(a[a.len() - 1].team == team);
            }
            assert(team_alive(a, team));
        }
        if team_alive(a, team) {
            let k = choose|k: int| 0 <= k < a.len() && !(#[trigger] a[k]).is_dead && a[k].team == team;
            if k < ai.len() {
                assert(a[k] == ai[k]);
                assert(team_alive(ai, team));
                let i = choose|i: int| 0 <= i < init.len() && (#[trigger] init[i]).team@ == team_label(team) && !init[i].is_dead;
                assert(ps[i] == init[i]);
            } else {
                assert(ps[ps.len() - 1] == p);
            }
        }
    }
}

/// The address of the client's gameflow-phase endpoint.
pub open spec fn gameflow_address(l: LcuLockfile) -> Seq<char> {
    l.protocol@ + "://127.0.0.1:"@ + decimal(l.port as nat) + "/lol-gameflow/v1/gameflow-phase"@
}

/// The address of the client's gameflow-phase endpoint, on this machine at
/// the lockfile's port and protocol.
pub fn gameflow_url(lockfile: &LcuLockfile) -> (r: String)
    ensures
        r@ == gameflow_address(*lockfile),
{
    let mut url = lockfile.protocol.clone();
    url.append("://127.0.0.1:");
    let port = decimal_string(lockfile.port as u64);
    url.append(port.as_str());
    url.append("/lol-gameflow/v1/gameflow-phase");
    url
}

/// The League client's gameflow phase, from the body of its
/// `gameflow-phase` endpoint: a JSON string, read without its surrounding
/// white space and quotes.
pub open spec fn gameflow_phase(json: Seq<char>) -> ClientPhase {
    let t = trimmed(trimmed(json, false), true);
    if t == "Lobby"@ {
        ClientPhase::Lobby
    } else if t == "Matchmaking"@ {
        ClientPhase::Matchmaking
    } else if t == "ReadyCheck"@ {
        ClientPhase::ReadyCheck
    } else if t == "ChampSelect"@ {
        ClientPhase::ChampSelect
    } else if t == "GameStart"@ || t == "Reconnect"@ {
        ClientPhase::Loading
    } else if t == "InProgress"@ {
        ClientPhase::InGame
    } else if t == "WaitingForStats"@ || t == "PreEndOfGame"@ || t == "EndOfGame"@ {
        ClientPhase::EndOfGame
    } else {
        ClientPhase::Idle
    }
}

/// Reads the client's gameflow phase; anything unknown is idle.
pub fn parse_gameflow_phase(json: &str) -> (r: ClientPhase)
    ensures
        r == gameflow_phase(json@),
{
    let text = chars_of(json);
    let t = trim_chars(&trim_chars(&text, false), true);
    if spells(&t, "Lobby") {
        ClientPhase::Lobby
    } else if spells(&t, "Matchmaking") {
        ClientPhase::Matchmaking
    } else if spells(&t, "ReadyCheck") {
        ClientPhase::ReadyCheck
    } else if spells(&t, "ChampSelect") {
        ClientPhase::ChampSelect
    } else if spells(&t, "GameStart") || spells(&t, "Reconnect") {
        ClientPhase::Loading
    } else if spells(&t, "InProgress") {
        ClientPhase::InGame
    } else if spells(&t, "WaitingForStats") || spells(&t, "PreEndOfGame") || spells(
        &t,
        "EndOfGame",
    ) {
        ClientPhase::EndOfGame
    } else {
        ClientPhase::Idle
    }
}

/// The lockfile of the first running `LeagueClientUx.exe` (any ASCII case)
/// that has one, or else the lockfile at the usual install location where
/// it exists.
pub fn find_lcu_lockfile(processes: &Vec<ProcessEntry>, installed: Option<PathBuf>) -> (r: Option<
    PathBuf,
>)
    ensures
        r == (match first_named_path(processes@, "LeagueClientUx.exe"@, 0) {
            Some(p) => Some(p),
            None => installed,
        }),
{
    select_path(first_path_named(processes, "LeagueClientUx.exe"), installed)
}

/// Whether a League match is running: a process `League of Legends.exe`
/// (any ASCII case) exists.
pub fn league_running(processes: &Vec<ProcessEntry>) -> (r: bool)
    ensures
        r == any_named(processes@, "League of Legends.exe"@),
{
    is_running(processes, "League of Legends.exe")
}

/// The player whose client this is, as the live client data names it.
#[derive(Debug, Clone)]
pub struct ActivePlayer {
    pub summoner_name: String,
    pub riot_id_game_name: String,
}

/// The match as the live client data describes it.
#[derive(Debug, Clone)]
pub struct GameData {
    pub game_mode: String,
    pub map_number: u32,
}

/// One player of the match, as the live client data describes it.
#[derive(Debug, Clone)]
pub struct LivePlayer {
    pub summoner_name: String,
    pub riot_id_game_name: String,
    pub team: String,
    pub is_dead: bool,
}

/// The live client data of a match.
#[derive(Debug, Clone)]
pub struct LiveData {
    pub active_player: ActivePlayer,
    pub game_data: GameData,
    pub all_players: Vec<LivePlayer>,
}

/// A player's name: the Riot ID game name where there is one, else the
/// summoner name.
pub open spec fn display_name(summoner_name: Seq<char>, riot_id_game_name: Seq<char>) -> Seq<char> {
    if riot_id_game_name.len() == 0 {
        summoner_name
    } else {
        riot_id_game_name
    }
}

/// The name of the local player.
pub open spec fn local_name(d: LiveData) -> Seq<char> {
    display_name(d.active_player.summoner_name@, d.active_player.riot_id_game_name@)
}

/// `p` is the local player: the local player has a name, and `p`'s name
/// equals it, ignoring ASCII case.
pub open spec fn is_local_player(d: LiveData, p: LivePlayer) -> bool {
    let local = local_name(d);
    local.len() > 0 && same_ignoring_ascii_case(
        display_name(p.summoner_name@, p.riot_id_game_name@),
        local,
    )
}

/// Arena is the game mode `CHERRY`, or map 30.
pub open spec fn is_arena_game(d: LiveData) -> bool {
    d.game_data.game_mode@ == "CHERRY"@ || d.game_data.map_number == 30
}

/// A player's team, where it is one of the two that Arena reports.
pub open spec fn player_team(p: LivePlayer) -> Option<Team> {
    if p.team@ == "ORDER"@ {
        Some(Team::Order)
    } else if p.team@ == "CHAOS"@ {
        Some(Team::Chaos)
    } else {
        None
    }
}

/// The players of `ps` that are on a known team, in order.
pub open spec fn arena_players(d: LiveData, ps: Seq<LivePlayer>) -> Seq<ArenaPlayer>
    decreases ps.len(),
{
    if ps.len() == 0 {
        Seq::empty()
    } else {
        let init = arena_players(d, ps.drop_last());
        let p = ps.last();
        match player_team(p) {
            Some(team) => init.push(ArenaPlayer { team, is_dead: p.is_dead, is_local: is_local_player(d, p) }),
            None => init,
        }
    }
}

/// Whether the local player lives, by the last entry of `ps` that is the
/// local player; unknown where there is none.
pub open spec fn local_life(d: LiveData, ps: Seq<LivePlayer>) -> LifeState
    decreases ps.len(),
{
    if ps.len() == 0 {
        LifeState::Unknown
    } else if is_local_player(d, ps.last()) {
        if ps.last().is_dead {
            LifeState::Dead
        } else {
            LifeState::Alive
        }
    } else {
        local_life(d, ps.drop_last())
    }
}

/// What the live client data says of the game: a match of another mode, or
/// an Arena match whose round phase follows from the living players and
/// whose life state is that of the local player.
pub open spec fn live_observation(d: LiveData) -> ObservedGameState {
    if !is_arena_game(d) {
        league_match_observation(GameMode::Other)
    } else {
        ObservedGameState {
            client_phase: ClientPhase::InGame,
            mode: GameMode::Arena,
            arena_phase: Some(arena_phase_of(arena_players(d, d.all_players@))),
            life: local_life(d, d.all_players@),
            confidence: 100,
        }
    }
}

fn display_chars(summoner_name: &String, riot_id_game_name: &String) -> (r: Vec<char>)
    ensures
        r@ == display_name(summoner_name@, riot_id_game_name@),
{
    let riot = chars_of(riot_id_game_name.as_str());
    if riot.len() == 0 {
        chars_of(summoner_name.as_str())
    } else {
        riot
    }
}

/// What the live client data of a match says of the game.
pub fn observe_live_data(data: &LiveData) -> (r: ObservedGameState)
    ensures
        r == live_observation(*data),
{
    let mode = chars_of(data.game_data.game_mode.as_str());
    if !spells(&mode, "CHERRY") && data.game_data.map_number != 30 {
        return ObservedGameState::league_match(GameMode::Other);
    }
    let local = display_chars(&data.active_player.summoner_name, &data.active_player.riot_id_game_name);
    let mut life = LifeState::Unknown;
    let mut players: Vec<ArenaPlayer> = Vec::new();
    let ghost all = data.all_players@;
    let mut i: usize = 0;
    while i < data.all_players.len()
        invariant
            i <= data.all_players.len(),
            all == data.all_players@,
            local@ == local_name(*data),
            players@ == arena_players(*data, all.take(i as int)),
            life == local_life(*data, all.take(i as int)),
        decreases data.all_players.len() - i,
    {
        let player = &data.all_players[i];
        let name = display_chars(&player.summoner_name, &player.riot_id_game_name);
        let is_local = local.len() > 0 && same_ignoring_case(&name, &local);
        assert(all.take(i + 1).drop_last() =~= all.take(i as int));
        assert(all.take(i + 1).last() == *player);
        assert(is_local == is_local_player(*data, *player));
        if is_local {
            life = if player.is_dead {
                LifeState::Dead
            } else {
                LifeState::Alive
            };
        }
        let team = chars_of(player.team.as_str());
        if spells(&team, "ORDER") {
            players.push(ArenaPlayer { team: Team::Order, is_dead: player.is_dead, is_local });
        } else if spells(&team, "CHAOS") {
            players.push(ArenaPlayer { team: Team::Chaos, is_dead: player.is_dead, is_local });
        }
        i = i + 1;
    }
    assert(all.take(all.len() as int) =~= all);
    ObservedGameState {
        client_phase: ClientPhase::InGame,
        mode: GameMode::Arena,
        arena_phase: Some(classify_arena(players.as_slice())),
        life,
        confidence: 100,
    }
}

} // verus!
