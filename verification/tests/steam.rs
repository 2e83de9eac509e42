use std::path::PathBuf;
use steam_throttle::host::ProcessEntry;
use steam_throttle::policy::BandwidthAction;
use steam_throttle::steam::{
    command_for, commands_for_transition, default_steam_path, steam_install_locations, names_steam_executable, parse_latest_throttle,
    running_steam_path, select_steam_path, should_restore_foreground,
};

#[test]
fn builds_documented_runtime_console_commands() {
    assert_eq!(
        command_for(&BandwidthAction::Unlimited),
        vec!["+set_download_throttle", "0", "false"]
    );
    assert_eq!(
        command_for(&BandwidthAction::Pause),
        vec!["+app_download_enable", "0"]
    );
    assert_eq!(
        command_for(&BandwidthAction::Limit {
            bytes_per_second: 10_000_000
        }),
        vec!["+set_download_throttle", "80000", "false"]
    );
}

#[test]
fn resuming_sets_the_new_rate_before_enabling_downloads() {
    let commands = commands_for_transition(
        Some(&BandwidthAction::Pause),
        &BandwidthAction::Limit {
            bytes_per_second: 10_000_000,
        },
    );
    assert_eq!(
        commands,
        vec![
            vec!["+set_download_throttle", "80000", "false"],
            vec!["+app_download_enable", "1"],
        ]
    );
}

#[test]
fn parses_latest_reported_throttle_from_console_log() {
    let log = "Current download throttle rate: 160000 Kbps\nnoise\nCurrent download throttle rate: 80000 Kbps";
    assert_eq!(
        parse_latest_throttle(log),
        Some(BandwidthAction::Limit {
            bytes_per_second: 10_000_000
        })
    );
    assert_eq!(
        parse_latest_throttle("Current download throttle rate: 0 Kbps"),
        Some(BandwidthAction::Unlimited)
    );
}

#[test]
fn foreground_is_restored_only_when_another_window_took_focus() {
    assert!(!should_restore_foreground(0, 44));
    assert!(!should_restore_foreground(44, 44));
    assert!(should_restore_foreground(44, 91));
}

#[test]
fn running_steam_path_takes_priority_over_an_installed_fallback() {
    let running = PathBuf::from(r"D:\Portable\Steam\steam.exe");
    let installed = PathBuf::from(r"C:\Program Files (x86)\Steam\steam.exe");
    assert_eq!(
        select_steam_path(Some(running.clone()), Some(installed)),
        Some(running)
    );
}

#[test]
fn installed_steam_is_used_when_none_runs() {
    let installed = PathBuf::from(r"C:\Program Files\Steam\steam.exe");
    assert_eq!(
        select_steam_path(None, Some(installed.clone())),
        Some(installed)
    );
    assert_eq!(select_steam_path(None, None), None);
}

#[test]
fn other_transitions_send_one_command() {
    let limit = BandwidthAction::Limit {
        bytes_per_second: 1_000,
    };
    assert_eq!(
        commands_for_transition(None, &limit),
        vec![vec!["+set_download_throttle", "8", "false"]]
    );
    assert_eq!(
        commands_for_transition(Some(&BandwidthAction::Pause), &BandwidthAction::Pause),
        vec![vec!["+app_download_enable", "0"]]
    );
    assert_eq!(
        commands_for_transition(Some(&limit), &BandwidthAction::Unlimited),
        vec![vec!["+set_download_throttle", "0", "false"]]
    );
    assert_eq!(
        commands_for_transition(Some(&BandwidthAction::Pause), &BandwidthAction::Unlimited),
        vec![
            vec!["+set_download_throttle", "0", "false"],
            vec!["+app_download_enable", "1"],
        ]
    );
}

#[test]
fn huge_limits_saturate_in_commands() {
    assert_eq!(
        command_for(&BandwidthAction::Limit {
            bytes_per_second: u64::MAX
        }),
        vec![
            "+set_download_throttle".to_string(),
            (u64::MAX / 1_000).to_string(),
            "false".to_string()
        ]
    );
    assert_eq!(
        command_for(&BandwidthAction::Limit {
            bytes_per_second: 100
        }),
        vec!["+set_download_throttle", "0", "false"]
    );
}

#[test]
fn throttle_reports_that_cannot_be_read() {
    assert_eq!(parse_latest_throttle(""), None);
    assert_eq!(parse_latest_throttle("Current download throttle rate: "), None);
    assert_eq!(
        parse_latest_throttle("Current download throttle rate: fast Kbps"),
        None
    );
    assert_eq!(
        parse_latest_throttle("Current download throttle rate: -5 Kbps"),
        None
    );
    assert_eq!(
        parse_latest_throttle("Current download throttle rate: 99999999999999999999 Kbps"),
        None
    );
}

#[test]
fn throttle_reports_read_as_rust_parses_numbers() {
    // no marker: the first word of the whole log
    assert_eq!(
        parse_latest_throttle("  800 Kbps"),
        Some(BandwidthAction::Limit {
            bytes_per_second: 100_000
        })
    );
    assert_eq!(
        parse_latest_throttle("Current download throttle rate: +8\tKbps"),
        Some(BandwidthAction::Limit {
            bytes_per_second: 1_000
        })
    );
    assert_eq!(
        parse_latest_throttle("Current download throttle rate:\u{3000}7 Kbps"),
        None
    );
    assert_eq!(
        parse_latest_throttle("Current download throttle rate: 18446744073709551615 Kbps"),
        Some(BandwidthAction::Limit {
            bytes_per_second: u64::MAX / 8
        })
    );
    assert_eq!(
        parse_latest_throttle("Current download throttle rate: 1 Kbps\nCurrent download throttle rate: 0 Kbps trailing"),
        Some(BandwidthAction::Unlimited)
    );
}

fn process(name: &str, path: Option<&str>) -> ProcessEntry {
    ProcessEntry {
        name: name.to_string(),
        path: path.map(PathBuf::from),
    }
}

#[test]
fn running_steam_is_found_by_name_in_any_case() {
    let processes = vec![
        process("explorer.exe", Some(r"C:\Windows\explorer.exe")),
        process("steam.exe", None),
        process("STEAM.EXE", Some(r"D:\Steam\steam.exe")),
        process("steam.exe", Some(r"E:\Steam\steam.exe")),
    ];
    assert_eq!(
        running_steam_path(&processes),
        Some(PathBuf::from(r"D:\Steam\steam.exe"))
    );
    assert_eq!(running_steam_path(&vec![process("steamwebhelper.exe", Some("x"))]), None);
}

#[test]
fn commands_only_go_to_steam_executables() {
    assert!(names_steam_executable(Some("steam.exe")));
    assert!(names_steam_executable(Some("Steam.EXE")));
    assert!(!names_steam_executable(Some("steam.exe.bak")));
    assert!(!names_steam_executable(Some("cmd.exe")));
    assert!(!names_steam_executable(None));
}

#[test]
fn a_commanded_rate_reads_back_from_the_log() {
    for bytes_per_second in [125u64, 128_000, 10_000_000, 125_000_000] {
        let action = BandwidthAction::Limit { bytes_per_second };
        let command = command_for(&action);
        let log = format!(
            "noise\nCurrent download throttle rate: 1 Kbps\nCurrent download throttle rate: {} Kbps\n",
            command[1]
        );
        assert_eq!(parse_latest_throttle(&log), Some(action));
    }
}

#[test]
fn installed_steam_prefers_the_32_bit_program_folder() {
    assert_eq!(
        steam_install_locations(),
        vec![
            r"C:\Program Files (x86)\Steam\steam.exe",
            r"C:\Program Files\Steam\steam.exe"
        ]
    );
    let x86 = PathBuf::from(r"C:\Program Files (x86)\Steam\steam.exe");
    let x64 = PathBuf::from(r"C:\Program Files\Steam\steam.exe");
    assert_eq!(default_steam_path(Some(x86.clone()), Some(x64.clone())), Some(x86));
    assert_eq!(default_steam_path(None, Some(x64.clone())), Some(x64));
    assert_eq!(default_steam_path(None, None), None);
}
