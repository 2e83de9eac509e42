use std::path::PathBuf;
use steam_throttle::host::ProcessEntry;
use steam_throttle::league::{
    find_lcu_lockfile, gameflow_url, league_running, observe_live_data, parse_gameflow_phase,
    parse_lockfile, ActivePlayer, GameData, LiveData, LivePlayer,
};
use steam_throttle::policy::{ArenaPhase, ClientPhase, GameMode, LifeState};

fn live_player(name: &str, team: &str, dead: bool) -> LivePlayer {
    LivePlayer {
        summoner_name: name.to_string(),
        riot_id_game_name: String::new(),
        team: team.to_string(),
        is_dead: dead,
    }
}

fn live_data(mode: &str, map: u32, local: &str, players: Vec<LivePlayer>) -> LiveData {
    LiveData {
        active_player: ActivePlayer {
            summoner_name: local.to_string(),
            riot_id_game_name: String::new(),
        },
        game_data: GameData {
            game_mode: mode.to_string(),
            map_number: map,
        },
        all_players: players,
    }
}

#[test]
fn parses_arena_combat_and_local_life() {
    let data = live_data(
        "CHERRY",
        30,
        "Local",
        vec![
            live_player("Local", "ORDER", false),
            live_player("Ally", "ORDER", false),
            live_player("Enemy", "CHAOS", false),
            live_player("Out", "CHAOS", true),
        ],
    );
    let state = observe_live_data(&data);
    assert_eq!(state.mode, GameMode::Arena);
    assert_eq!(state.arena_phase, Some(ArenaPhase::Combat));
    assert_eq!(state.life, LifeState::Alive);
}

#[test]
fn eliminated_players_do_not_confuse_preparation() {
    let data = live_data(
        "CHERRY",
        30,
        "Local",
        vec![
            live_player("Local", "ORDER", false),
            live_player("Ally", "ORDER", false),
            live_player("Eliminated", "CHAOS", true),
        ],
    );
    let state = observe_live_data(&data);
    assert_eq!(state.arena_phase, Some(ArenaPhase::Preparation));
}

#[test]
fn any_other_mode_is_a_non_arena_match() {
    let data = live_data("CLASSIC", 11, "Local", vec![]);
    assert_eq!(observe_live_data(&data).mode, GameMode::Other);
}

#[test]
fn maps_lcu_gameflow_without_exposing_credentials() {
    let lockfile = parse_lockfile("LeagueClient:1234:54321:secret:HTTPS").unwrap();
    assert_eq!(lockfile.port, 54321);
    assert_eq!(lockfile.password, "secret");
    assert_eq!(
        parse_gameflow_phase("\"ChampSelect\""),
        ClientPhase::ChampSelect
    );
    assert_eq!(
        parse_gameflow_phase("\"Matchmaking\""),
        ClientPhase::Matchmaking
    );
    assert_eq!(
        parse_gameflow_phase("\"ReadyCheck\""),
        ClientPhase::ReadyCheck
    );
}

#[test]
fn lockfile_fields_are_checked() {
    let lockfile = parse_lockfile("  LeagueClient:1:+8080:pa:ss:\n").map(|l| l.port);
    assert_eq!(lockfile, None);
    let padded = parse_lockfile("\n LeagueClient:1:+8080:p w:HttpS \r\n").unwrap();
    assert_eq!(padded.port, 8080);
    assert_eq!(padded.password, "p w");
    assert_eq!(padded.protocol, "https");
    assert!(parse_lockfile("LeagueClient:1:65536:x:https").is_none());
    assert!(parse_lockfile("LeagueClient:1:65535:x:https").is_some());
    assert!(parse_lockfile("LeagueClient:1::x:https").is_none());
    assert!(parse_lockfile("LeagueClient:1:80:x").is_none());
    assert!(parse_lockfile("").is_none());
    let empty_password = parse_lockfile("a:b:1::c").unwrap();
    assert_eq!(empty_password.password, "");
    assert_eq!(
        gameflow_url(&parse_lockfile("LeagueClient:1234:54321:secret:HTTPS").unwrap()),
        "https://127.0.0.1:54321/lol-gameflow/v1/gameflow-phase"
    );
}

#[test]
fn gameflow_phases_map_to_client_phases() {
    assert_eq!(parse_gameflow_phase(" \"Lobby\"\n"), ClientPhase::Lobby);
    assert_eq!(parse_gameflow_phase("\"GameStart\""), ClientPhase::Loading);
    assert_eq!(parse_gameflow_phase("\"Reconnect\""), ClientPhase::Loading);
    assert_eq!(parse_gameflow_phase("\"InProgress\""), ClientPhase::InGame);
    assert_eq!(
        parse_gameflow_phase("\"WaitingForStats\""),
        ClientPhase::EndOfGame
    );
    assert_eq!(
        parse_gameflow_phase("\"PreEndOfGame\""),
        ClientPhase::EndOfGame
    );
    assert_eq!(parse_gameflow_phase("EndOfGame"), ClientPhase::EndOfGame);
    assert_eq!(parse_gameflow_phase("\"\"Lobby\"\""), ClientPhase::Lobby);
    assert_eq!(parse_gameflow_phase("\"None\""), ClientPhase::Idle);
    assert_eq!(parse_gameflow_phase("\"lobby\""), ClientPhase::Idle);
    assert_eq!(parse_gameflow_phase(""), ClientPhase::Idle);
}

#[test]
fn local_player_is_found_by_riot_id_in_any_case() {
    let mut data = live_data(
        "ARAM",
        30,
        "Summoner",
        vec![
            live_player("Other", "ORDER", false),
            LivePlayer {
                summoner_name: "Summoner".to_string(),
                riot_id_game_name: "MyRiotName".to_string(),
                team: "CHAOS".to_string(),
                is_dead: true,
            },
            live_player("Spectator", "NEUTRAL", false),
        ],
    );
    data.active_player.riot_id_game_name = "myriotname".to_string();
    let state = observe_live_data(&data);
    assert_eq!(state.mode, GameMode::Arena);
    assert_eq!(state.life, LifeState::Dead);
    assert_eq!(state.arena_phase, Some(ArenaPhase::Preparation));
    assert_eq!(state.client_phase, ClientPhase::InGame);
    assert_eq!(state.confidence, 100);

    let nameless = live_data("CHERRY", 0, "", vec![live_player("", "ORDER", true)]);
    let state = observe_live_data(&nameless);
    assert_eq!(state.life, LifeState::Unknown);
    assert_eq!(state.arena_phase, Some(ArenaPhase::Ambiguous));
}

fn process(name: &str, path: Option<&str>) -> ProcessEntry {
    ProcessEntry {
        name: name.to_string(),
        path: path.map(PathBuf::from),
    }
}

#[test]
fn client_lockfile_and_running_match_are_found_by_process_name() {
    let installed = Some(PathBuf::from(r"C:\Riot Games\League of Legends\lockfile"));
    let processes = vec![
        process("leagueclientux.exe", Some(r"D:\League\lockfile")),
        process("League of Legends.exe", None),
    ];
    assert_eq!(
        find_lcu_lockfile(&processes, installed.clone()),
        Some(PathBuf::from(r"D:\League\lockfile"))
    );
    assert_eq!(find_lcu_lockfile(&vec![], installed.clone()), installed);
    assert_eq!(find_lcu_lockfile(&vec![], None), None);
    assert!(league_running(&processes));
    assert!(!league_running(&vec![process("LeagueClientUx.exe", None)]));
}
