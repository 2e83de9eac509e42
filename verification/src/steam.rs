//! Steam: the console commands that carry out a bandwidth action, the
//! reading of Steam's reported throttle, and the choice of the Steam
//! executable.
use vstd::prelude::*;
use std::path::PathBuf;
use crate::host::{first_named_path, first_path_named, select_path, ProcessEntry};
use crate::policy::{bytes_per_second_to_steam_kbps, steam_kbps, BandwidthAction};
use crate::text::{
    after_last, after_last_chars, chars_of, decimal, decimal_string, first_word,
    first_word_chars, is_white, lemma_decimal_reads_back, lemma_first_word_is_number,
    lemma_last_occurrence_at, occurs_at, parse_number, parse_unsigned, same_ignoring_ascii_case, same_ignoring_case,
};

verus! {

/// The views of a list of strings.
pub open spec fn texts(v: Seq<String>) -> Seq<Seq<char>> {
    v.map_values(|s: String| s@)
}

/// The views of a list of commands.
pub open spec fn command_texts(v: Seq<Vec<String>>) -> Seq<Seq<Seq<char>>> {
    v.map_values(|c: Vec<String>| texts(c@))
}

/// The console command that carries out `a`: a throttle in kilobits per
/// second (0 for none), or disabling downloads.
pub open spec fn command_spec(a: BandwidthAction) -> Seq<Seq<char>> {
    match a {
        BandwidthAction::Unlimited => seq!["+set_download_throttle"@, "0"@, "false"@],
        BandwidthAction::Limit { bytes_per_second } => seq![
            "+set_download_throttle"@,
            decimal(steam_kbps(bytes_per_second) as nat),
            "false"@,
        ],
        BandwidthAction::Pause => seq!["+app_download_enable"@, "0"@],
    }
}

/// The command that enables downloads again.
pub open spec fn resume_spec() -> Seq<Seq<char>> {
    seq!["+app_download_enable"@, "1"@]
}

/// The commands that take Steam from `previous` to `next`: the command of
/// `next`, then, when leaving a pause for something else, enabling
/// downloads, so that the new rate is in place before downloads resume.
pub open spec fn transition_spec(previous: Option<BandwidthAction>, next: BandwidthAction) -> Seq<
    Seq<Seq<char>>,
> {
    if previous == Some(BandwidthAction::Pause) && next != BandwidthAction::Pause {
        seq![command_spec(next), resume_spec()]
    } else {
        seq![command_spec(next)]
    }
}

/// A transition starts with the command of the new action; it re-enables
/// downloads exactly when it leaves a pause for something else; and where
/// the new action is a pause, its last command disables downloads, so that
/// Steam ends up paused.
pub proof fn lemma_transition_commands(previous: Option<BandwidthAction>, next: BandwidthAction)
    ensures
        ({
            let cmds = transition_spec(previous, next);
            let resume = seq!["+app_download_enable"@, "1"@];
            &&& cmds.len() >= 1
            &&& cmds[0] == command_spec(next)
            &&& cmds.contains(resume) <==> (previous == Some(BandwidthAction::Pause) && next
                != BandwidthAction::Pause)
            &&& next == BandwidthAction::Pause ==> cmds.last() == seq![
                "+app_download_enable"@,
                "0"@,
            ]
        }),
{
    reveal_strlit("0");
    reveal_strlit("1");
    let cmds = transition_spec(previous, next);
    let resume = seq!["+app_download_enable"@, "1"@];
    assert(command_spec(next) != resume) by {
        if next == BandwidthAction::Pause {
            assert(command_spec(next)[1][0] != resume[1][0]);
        } else {
            assert(command_spec(next).len() != resume.len());
        }
    }
    if previous == Some(BandwidthAction::Pause) && next != BandwidthAction::Pause {
        assert(cmds[1] == resume);
    } else {
        if cmds.contains(resume) {
            let k = choose|k: int| 0 <= k < cmds.len() && cmds[k] == resume;
            assert(k == 0);
        }
    }
}

fn words2(a: &str, b: &str) -> (r: Vec<String>)
    ensures
        texts(r@) == seq![a@, b@],
{
    let mut r: Vec<String> = Vec::new();
    r.push(String::from_str(a));
    r.push(String::from_str(b));
    assert(texts(r@) =~= seq![a@, b@]);
    r
}

/// The console command that carries out `action`.
pub fn command_for(action: &BandwidthAction) -> (r: Vec<String>)
    ensures
        texts(r@) == command_spec(*action),
{
    match action {
        BandwidthAction::Unlimited => {
            let mut r: Vec<String> = Vec::new();
            r.push(String::from_str("+set_download_throttle"));
            r.push(String::from_str("0"));
            r.push(String::from_str("false"));
            assert(texts(r@) =~= command_spec(*action));
            r
        },
        BandwidthAction::Limit { bytes_per_second } => {
            let mut r: Vec<String> = Vec::new();
            r.push(String::from_str("+set_download_throttle"));
            r.push(decimal_string(bytes_per_second_to_steam_kbps(*bytes_per_second)));
            r.push(String::from_str("false"));
            assert(texts(r@) =~= command_spec(*action));
            r
        },
        BandwidthAction::Pause => {
            let r = words2("+app_download_enable", "0");
            r
        },
    }
}

/// The action behind an optional reference.
pub open spec fn deref_action(a: Option<&BandwidthAction>) -> Option<BandwidthAction> {
    match a {
        Some(x) => Some(*x),
        None => None,
    }
}

/// The commands that take Steam from `previous` to `next`.
pub fn commands_for_transition(previous: Option<&BandwidthAction>, next: &BandwidthAction) -> (r: Vec<
    Vec<String>,
>)
    ensures
        command_texts(r@) == transition_spec(deref_action(previous), *next),
{
    let mut commands: Vec<Vec<String>> = Vec::new();
    commands.push(command_for(next));
    let was_paused = match previous {
        Some(BandwidthAction::Pause) => true,
        _ => false,
    };
    let is_pause = match next {
        BandwidthAction::Pause => true,
        _ => false,
    };
    if was_paused && !is_pause {
        commands.push(words2("+app_download_enable", "1"));
    }
    assert(command_texts(commands@) =~= transition_spec(deref_action(previous), *next));
    commands
}

/// The text that precedes each throttle that Steam reports in its console
/// log.
pub open spec fn throttle_marker() -> Seq<char> {
    "Current download throttle rate: "@
}

/// The action that a reported throttle of `kbps` kilobits per second
/// stands for: none for 0, else the rate in bytes per second (the
/// multiplication by 1000 saturating at `u64::MAX`).
pub open spec fn action_for_kbps(kbps: int) -> BandwidthAction {
    if kbps == 0 {
        BandwidthAction::Unlimited
    } else {
        let bits = kbps * 1000;
        BandwidthAction::Limit {
            bytes_per_second: ((if bits > u64::MAX {
                u64::MAX as int
            } else {
                bits
            }) / 8) as u64,
        }
    }
}

/// The throttle that Steam reported last in `log`: the first word after the
/// last report marker (or of the whole log, where there is no marker), read
/// as a number of kilobits per second.
pub open spec fn latest_throttle(log: Seq<char>) -> Option<BandwidthAction> {
    match first_word(after_last(log, throttle_marker())) {
        None => None,
        Some(w) => match parse_unsigned(w, u64::MAX as int) {
            None => None,
            Some(kbps) => Some(action_for_kbps(kbps)),
        },
    }
}

/// Reads the last throttle that Steam reported in its console log.
pub fn parse_latest_throttle(log: &str) -> (r: Option<BandwidthAction>)
    ensures
        r == latest_throttle(log@),
{
    let text = chars_of(log);
    let marker = chars_of("Current download throttle rate: ");
    let tail = after_last_chars(&text, &marker);
    assert(tail@ == after_last(log@, throttle_marker()));
    let word = match first_word_chars(&tail) {
        Some(w) => w,
        None => return None,
    };
    let kbps = match parse_number(&word, u64::MAX) {
        Some(k) => k,
        None => return None,
    };
    assert(first_word(after_last(log@, throttle_marker())) == Some(word@));
    assert(parse_unsigned(word@, u64::MAX as int) == Some(kbps as int));
    if kbps == 0 {
        Some(BandwidthAction::Unlimited)
    } else {
        let bytes = if kbps > u64::MAX / 1_000 {
            assert(kbps * 1000 > u64::MAX) by (nonlinear_arith)
                requires
                    kbps > u64::MAX / 1_000,
            ;
            u64::MAX / 8
        } else {
            assert(kbps * 1000 <= u64::MAX) by (nonlinear_arith)
                requires
                    kbps <= u64::MAX / 1_000,
            ;
            kbps * 1_000 / 8
        };
        Some(BandwidthAction::Limit { bytes_per_second: bytes })
    }
}

/// A rate that is a whole number of kilobits per second, as a Steam
/// throttle, is read back as the same rate.
pub proof fn lemma_throttle_round_trip(bytes_per_second: u64)
    requires
        0 < bytes_per_second <= u64::MAX / 8,
        bytes_per_second % 125 == 0,
    ensures
        action_for_kbps(steam_kbps(bytes_per_second)) == (BandwidthAction::Limit {
            bytes_per_second,
        }),
{
    let q = bytes_per_second / 125;
    assert(bytes_per_second == q * 125);
    assert(steam_kbps(bytes_per_second) == q);
    assert(q * 1000 / 8 == q * 125);
}

/// The rate that a throttle command carries is read back, from a report of
/// it, as the limit that the command carried out, wherever that limit is a
/// whole number of kilobits per second.
pub proof fn lemma_command_rate_reads_back(bytes_per_second: u64)
    requires
        0 < bytes_per_second <= u64::MAX / 8,
        bytes_per_second % 125 == 0,
    ensures
        ({
            let written = command_spec(BandwidthAction::Limit { bytes_per_second })[1];
            &&& parse_unsigned(written, u64::MAX as int) == Some(steam_kbps(bytes_per_second))
            &&& action_for_kbps(steam_kbps(bytes_per_second)) == (BandwidthAction::Limit {
                bytes_per_second,
            })
        }),
{
    lemma_throttle_round_trip(bytes_per_second);
    assert(steam_kbps(bytes_per_second) <= u64::MAX);
    lemma_decimal_reads_back(steam_kbps(bytes_per_second) as nat, u64::MAX as int);
}

/// The throttle read from a console log is the one in its last report:
/// where the last report marker in `log` stands at `i` and is followed by
/// the decimal number `kbps` and then white space or the end of the log,
/// the log reads as that number of kilobits per second.
pub proof fn lemma_last_report_decides(log: Seq<char>, i: int, kbps: nat)
    requires
        kbps <= u64::MAX,
        occurs_at(log, throttle_marker(), i),
        forall|j: int| i < j ==> !occurs_at(log, throttle_marker(), j),
        ({
            let rest = log.subrange(i + throttle_marker().len(), log.len() as int);
            let d = decimal(kbps);
            &&& rest.len() >= d.len()
            &&& rest.subrange(0, d.len() as int) == d
            &&& (rest.len() == d.len() || is_white(rest[d.len() as int]))
        }),
    ensures
        latest_throttle(log) == Some(action_for_kbps(kbps as int)),
{
    let m = throttle_marker();
    lemma_last_occurrence_at(log, m, log.len() - m.len(), i);
    let rest = log.subrange(i + m.len(), log.len() as int);
    assert(after_last(log, m) == rest);
    lemma_first_word_is_number(rest, kbps);
    lemma_decimal_reads_back(kbps, u64::MAX as int);
}

/// Whether the focus should be handed back: there was a focused window
/// before, and another one has the focus now.
pub fn should_restore_foreground(original: usize, current: usize) -> (r: bool)
    ensures
        r == (original != 0 && original != current),
{
    original != 0 && original != current
}

/// The Steam executable to drive: the running one, or else the installed
/// one.
pub fn select_steam_path(running_path: Option<PathBuf>, installed_fallback: Option<PathBuf>) -> (r:
    Option<PathBuf>)
    ensures
        r == (if running_path is Some {
            running_path
        } else {
            installed_fallback
        }),
{
    select_path(running_path, installed_fallback)
}

/// Where Steam is installed unless the user chose otherwise: the 32-bit and
/// the 64-bit program folders, in that order.
pub open spec fn install_locations() -> Seq<Seq<char>> {
    seq![
        "C:\\Program Files (x86)\\Steam\\steam.exe"@,
        "C:\\Program Files\\Steam\\steam.exe"@,
    ]
}

/// The places to look for an installed Steam executable, in order.
pub fn steam_install_locations() -> (r: Vec<String>)
    ensures
        texts(r@) == install_locations(),
{
    let mut r: Vec<String> = Vec::new();
    r.push(String::from_str("C:\\Program Files (x86)\\Steam\\steam.exe"));
    r.push(String::from_str("C:\\Program Files\\Steam\\steam.exe"));
    assert(texts(r@) =~= install_locations());
    r
}

/// The first of the install locations where Steam exists, given each one
/// where it exists: the 32-bit program folder before the 64-bit one.
pub fn default_steam_path(x86_install: Option<PathBuf>, install: Option<PathBuf>) -> (r: Option<
    PathBuf,
>)
    ensures
        r == (if x86_install is Some {
            x86_install
        } else {
            install
        }),
{
    select_path(x86_install, install)
}

/// The executable of the first running `steam.exe` (any ASCII case) whose
/// executable file exists.
pub fn running_steam_path(processes: &Vec<ProcessEntry>) -> (r: Option<PathBuf>)
    ensures
        r == first_named_path(processes@, "steam.exe"@, 0),
{
    first_path_named(processes, "steam.exe")
}

/// A file name names the Steam executable: `steam.exe`, in any ASCII case.
pub open spec fn is_steam_executable(file_name: Option<Seq<char>>) -> bool {
    match file_name {
        Some(n) => same_ignoring_ascii_case(n, "steam.exe"@),
        None => false,
    }
}

/// Whether a path's file name names the Steam executable; Steam commands are
/// only ever sent to such a path.
pub fn names_steam_executable(file_name: Option<&str>) -> (r: bool)
    ensures
        r == is_steam_executable(
            match file_name {
                Some(n) => Some(n@),
                None => None,
            },
        ),
{
    match file_name {
        Some(n) => {
            let name = chars_of(n);
            let steam = chars_of("steam.exe");
            same_ignoring_case(&name, &steam)
        },
        None => false,
    }
}

} // verus!
