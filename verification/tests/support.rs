use d2r_multiplay::account::{Account, AccountStatus};
use d2r_multiplay::client_path::{
    get_bnet_path, registry_candidate, registry_query, Discovery, DiscoveryAction, DiscoveryEvent,
};
use d2r_multiplay::commands::{
    close_to_tray, create_windows_user, get_latest_changelog, get_windows_users, kill_mutexes,
    kill_processes, manual_backup_save, manual_delete_config, manual_launch_process,
    manual_restore_config, nuke_reset, scan_failure_message, setup_tray, stop_bnet_processes,
    update_tray_language,
};
use d2r_multiplay::config::AppConfig;
use d2r_multiplay::file_swap::FileSwapError;
use d2r_multiplay::health::{agent_dir, get_infra_health, is_dir_writable, probe_file};
use d2r_multiplay::inspector::{
    close_specific_handle, get_handle_name_detailed, list_process_handles, HandleInfo,
    EXPLORER_TIMEOUT_MS,
};
use d2r_multiplay::logger::{clear_logs, log, log_line, LogBuffer, LOG_CAPACITY};
use d2r_multiplay::mirror::{
    create_mirror_junction, mirror_created, mount_point_buffer, print_name, substitute_name,
    MirrorError,
};
use d2r_multiplay::mutex::{
    close_d2r_mutexes, HandleEntry, HandleProbe, NameQuery, ProcessImage, ScanFailure,
};
use d2r_multiplay::notices::{sweep_mark, sweep_notices, sweep_start_notices, Notice};
use d2r_multiplay::os::{LaunchFailure, ProcessLaunchResult};
use d2r_multiplay::permissions::{
    classify_error_line, classify_output_line, fix_game_permissions, permission_arguments,
    permission_target, show_progress, OutputLine,
};
use d2r_multiplay::process::{
    count_succeeded, get_accounts_process_status, get_process_list, is_process_running_for_user,
    kill_battle_net_processes, kill_target, Owner, ProcessInfo, RunningProcess, SessionProcess,
};
use d2r_multiplay::text::{
    char_ascii_lower, char_is_whitespace, decimal_text, hex_text, same_lowercase, str_contains,
    str_ends_with, str_eq, str_eq_ignore_ascii_case, str_replace, str_starts_with, to_chars,
};
use d2r_multiplay::users::{
    add_current_user, password_command, policy_command, profile_line_sid, tool_outcome,
    AccountTool, account_flags, account_sid, builtin_account, create_user, enumeration_step, get_name_from_sid_string,
    get_user_profile_path, get_whoami, group_add_failed, is_user_initialized, list_local_users,
    local_data_path, profile_key, registry_text, reset_password, set_password_never_expires,
    ProfileEntry,
};

fn text(s: &str) -> String {
    s.to_string()
}

fn account(id: &str, pass: Option<&str>) -> Account<String> {
    Account {
        id: text(id),
        win_user: text("user"),
        win_pass: pass.map(text),
        bnet_account: text("b"),
        note: Some(text("n")),
        avatar: None,
        password_never_expires: true,
    }
}

fn config(accounts: Vec<Account<String>>) -> AppConfig {
    AppConfig {
        accounts,
        game_path: text("C:\\Games"),
        last_active_account: Some(text("a")),
        theme_color: None,
        close_to_tray: Some(false),
        language: Some(text("ja")),
        enable_logging: None,
        has_shown_guide: Some(true),
        dashboard_view_mode: None,
    }
}

#[test]
fn text_helpers() {
    assert_eq!(to_chars("aé😀"), vec!['a', 'é', '😀']);
    assert!(str_contains("hello world", "lo w"));
    assert!(str_contains("hello", ""));
    assert!(!str_contains("hello", "hellos"));
    assert!(str_starts_with("S-1-5-21-7", "S-1-5-21"));
    assert!(!str_starts_with("S-1-5", "S-1-5-21"));
    assert!(str_ends_with("a/data/data", "data/data"));
    assert!(!str_ends_with("data", "data/data"));
    assert!(str_eq("abc", "abc"));
    assert!(!str_eq("abc", "abd"));
    assert!(!str_eq("abc", "ab"));
    assert!(str_eq_ignore_ascii_case("Battle.NET.exe", "battle.net.EXE"));
    assert!(!str_eq_ignore_ascii_case("É", "é"));
    assert_eq!(char_ascii_lower('Q'), 'q');
    assert_eq!(char_ascii_lower('q'), 'q');
    assert_eq!(char_ascii_lower('['), '[');
    assert_eq!(char_ascii_lower('@'), '@');
    assert!(same_lowercase("ÄB", "äb"));
    assert!(!same_lowercase("ab", "abc"));
    for c in ['\t', '\n', '\r', ' ', '\u{85}', '\u{A0}', '\u{1680}', '\u{2003}', '\u{3000}'] {
        assert!(char_is_whitespace(c));
        assert!(c.is_whitespace());
    }
    for c in ['a', '\u{200B}', '\u{8}', '\u{E}', '0'] {
        assert!(!char_is_whitespace(c));
        assert!(!c.is_whitespace());
    }
}

#[test]
fn whitespace_agrees_with_the_standard_library() {
    let mut code: u32 = 0;
    while code <= 0x3_0000 {
        if let Some(c) = char::from_u32(code) {
            assert_eq!(char_is_whitespace(c), c.is_whitespace());
        }
        code += 1;
    }
}

#[test]
fn numerals() {
    assert_eq!(decimal_text(0), "0");
    assert_eq!(decimal_text(7), "7");
    assert_eq!(decimal_text(10), "10");
    assert_eq!(decimal_text(1234567890), "1234567890");
    assert_eq!(decimal_text(u64::MAX), "18446744073709551615");
    assert_eq!(hex_text(0), "0");
    assert_eq!(hex_text(0x1A4), "1A4");
    assert_eq!(hex_text(0xC0000004), "C0000004");
    assert_eq!(hex_text(u64::MAX), "FFFFFFFFFFFFFFFF");
}

#[test]
fn replacement() {
    assert_eq!(str_replace("D2R.exe", ".exe", ""), "D2R");
    assert_eq!(str_replace("a.exe.exe", ".exe", ""), "a");
    assert_eq!(str_replace("aaa", "aa", "b"), "ba");
    assert_eq!(str_replace("abc", "", "x"), "abc");
    assert_eq!(str_replace("", "a", "x"), "");
    assert_eq!(str_replace("\\\\?\\C:\\Games", "\\\\?\\", "\\??\\"), "\\??\\C:\\Games");
}

#[test]
fn registry_output_with_quotes() {
    let output = "\r\nHKEY_LOCAL_MACHINE\\SOFTWARE\\WOW6432Node\\Blizzard Entertainment\\Battle.net\\Capabilities\r\n    ApplicationIcon    REG_SZ    \"D:\\Games\\Battle.net\\Battle.net.exe\",0\r\n\r\n";
    assert_eq!(registry_candidate(output), Some(text("D:\\Games\\Battle.net\\Battle.net.exe")));
}

#[test]
fn registry_output_without_quotes() {
    let output = "Key\n    ApplicationIcon    REG_SZ    D:\\Battle.net\\Battle.net.exe,0  \r\n";
    assert_eq!(registry_candidate(output), Some(text("D:\\Battle.net\\Battle.net.exe")));
    let no_comma = "ApplicationIcon REG_SZ \t D:\\B.exe";
    assert_eq!(registry_candidate(no_comma), Some(text("D:\\B.exe")));
    let twice = "ApplicationIcon REG_SZ first REG_SZ second";
    assert_eq!(registry_candidate(twice), Some(text("first")));
}

#[test]
fn registry_output_without_value() {
    assert_eq!(registry_candidate(""), None);
    assert_eq!(registry_candidate("ERROR: The system was unable to find the key"), None);
    assert_eq!(registry_candidate("ApplicationIcon but no type"), None);
    assert_eq!(registry_candidate("ApplicationIcon REG_SZ \"unclosed"), None);
    // Only the first line that names the value counts.
    assert_eq!(registry_candidate("ApplicationIcon\nApplicationIcon REG_SZ x"), None);
    assert_eq!(registry_candidate("other REG_SZ y\nApplicationIcon REG_SZ x"), Some(text("x")));
}

#[test]
fn discovery_prefers_the_standard_path() {
    let search = get_bnet_path();
    assert_eq!(
        search.action(),
        DiscoveryAction::Probe(text("C:\\Program Files (x86)\\Battle.net\\Battle.net.exe"))
    );
    let found = search.step(DiscoveryEvent::Probed(true));
    assert_eq!(found.action(), DiscoveryAction::Finished);
    assert_eq!(
        found.found(),
        Some(text("C:\\Program Files (x86)\\Battle.net\\Battle.net.exe"))
    );
}

#[test]
fn discovery_falls_back_to_the_registry() {
    let search = get_bnet_path().step(DiscoveryEvent::Probed(false));
    assert_eq!(search.action(), DiscoveryAction::QueryRegistry);
    assert_eq!(
        registry_query(),
        vec![
            text("query"),
            text("HKLM\\SOFTWARE\\WOW6432Node\\Blizzard Entertainment\\Battle.net\\Capabilities"),
            text("/v"),
            text("ApplicationIcon"),
        ]
    );
    let probing =
        search.step(DiscoveryEvent::Queried(Some(text("ApplicationIcon REG_SZ \"D:\\B.exe\",0"))));
    assert_eq!(probing.action(), DiscoveryAction::Probe(text("D:\\B.exe")));
    assert_eq!(probing.clone().step(DiscoveryEvent::Probed(true)).found(), Some(text("D:\\B.exe")));
    assert_eq!(probing.step(DiscoveryEvent::Probed(false)).found(), None);
    let failed = get_bnet_path()
        .step(DiscoveryEvent::Probed(false))
        .step(DiscoveryEvent::Queried(None));
    assert_eq!(failed, Discovery::Done(None));
    let empty = get_bnet_path()
        .step(DiscoveryEvent::Probed(false))
        .step(DiscoveryEvent::Queried(Some(text("nothing"))));
    assert_eq!(empty, Discovery::Done(None));
    // An answer that was not asked for changes nothing.
    assert_eq!(get_bnet_path().step(DiscoveryEvent::Queried(None)), Discovery::ProbingStandard);
}

#[test]
fn passwords_are_masked_for_the_user_interface() {
    let shown = config(vec![account("a", Some("secret")), account("b", None)]).redacted();
    assert_eq!(shown.accounts[0].win_pass, Some(text("********")));
    assert_eq!(shown.accounts[1].win_pass, None);
    assert_eq!(shown.accounts[0].id, "a");
    assert_eq!(shown.accounts[0].note, Some(text("n")));
    assert_eq!(shown.game_path, "C:\\Games");
    assert_eq!(shown.language, Some(text("ja")));
}

#[test]
fn masked_passwords_come_back_from_disk() {
    let stored = config(vec![account("a", Some("secret")), account("b", None), account("a", Some("other"))]);
    let incoming = config(vec![
        account("a", Some("********")),
        account("b", Some("********")),
        account("new", Some("********")),
        account("c", Some("typed")),
        account("d", None),
    ]);
    let merged = incoming.save_config(&stored);
    assert_eq!(merged.accounts[0].win_pass, Some(text("secret")));
    assert_eq!(merged.accounts[1].win_pass, None);
    assert_eq!(merged.accounts[2].win_pass, None);
    assert_eq!(merged.accounts[3].win_pass, Some(text("typed")));
    assert_eq!(merged.accounts[4].win_pass, None);
    assert_eq!(merged.accounts.len(), 5);
    assert_eq!(merged.last_active_account, Some(text("a")));
    assert_eq!(merged.close_to_tray, Some(false));
}

#[test]
fn mask_and_unmask_round_trip() {
    let stored = config(vec![account("a", Some("secret")), account("b", None)]);
    let back = config(vec![account("a", Some("secret")), account("b", None)])
        .redacted()
        .save_config(&stored);
    assert_eq!(back, stored);
}

#[test]
fn default_configuration_is_empty() {
    let c = AppConfig::default();
    assert!(c.accounts.is_empty());
    assert_eq!(c.game_path, "");
    assert_eq!(c.last_active_account, None);
    assert_eq!(c.language, None);
}

#[test]
fn the_log_keeps_the_newest_thousand() {
    let mut buffer = LogBuffer::new();
    assert_eq!(LOG_CAPACITY, 1000);
    for i in 0..1005 {
        let (entry, line) = log(&mut buffer, "12:00:00", "2024-01-01 12:00:00", "warn", &format!("m{}", i));
        assert_eq!(entry.message, format!("m{}", i));
        assert_eq!(entry.level, "warn");
        assert_eq!(entry.time, "12:00:00");
        assert_eq!(line, format!("[2024-01-01 12:00:00] [WARN] m{}\n", i));
    }
    assert_eq!(buffer.len(), 1000);
    assert_eq!(buffer.entries()[0].message, "m5");
    assert_eq!(buffer.entries()[999].message, "m1004");
    clear_logs(&mut buffer);
    assert_eq!(buffer.len(), 0);
}

#[test]
fn log_lines() {
    assert_eq!(log_line("d", "success", "done"), "[d] [SUCCESS] done\n");
    assert_eq!(log_line("", "", ""), "[] [] \n");
}

fn process(pid: u32, name: &str, owner: Owner<String>) -> RunningProcess {
    RunningProcess { pid, name: text(name), owner }
}

#[test]
fn launcher_processes_are_selected_for_termination() {
    let processes = vec![
        process(1, "battle.NET.exe", Owner::System),
        process(2, "D2R.exe", Owner::User(text("bob"))),
        process(3, "Agent.exe", Owner::Unknown),
        process(4, "crashpad_handler.exe", Owner::System),
        process(5, "Blizzard Error.exe", Owner::System),
        process(6, "Uninstaller.exe", Owner::System),
        process(7, "Agent", Owner::System),
    ];
    assert_eq!(kill_battle_net_processes(&processes), vec![1, 3, 4, 5, 6]);
    assert!(kill_target("AGENT.EXE"));
    assert!(!kill_target("D2R.exe"));
    assert_eq!(count_succeeded(&vec![true, false, true, true]), 3);
    assert_eq!(count_succeeded(&vec![]), 0);
}

#[test]
fn processes_are_listed_with_their_users() {
    let processes = vec![
        process(1, "a.exe", Owner::System),
        process(2, "b.exe", Owner::Unknown),
        process(3, "c.exe", Owner::User(text("bob"))),
    ];
    assert_eq!(
        get_process_list(&processes),
        vec![
            ProcessInfo { pid: 1, name: text("a.exe"), user: text("System") },
            ProcessInfo { pid: 2, name: text("b.exe"), user: text("Unknown") },
            ProcessInfo { pid: 3, name: text("c.exe"), user: text("bob") },
        ]
    );
}

#[test]
fn account_status_by_user() {
    let processes = vec![
        process(1, "Battle.net.exe", Owner::User(text("Bob"))),
        process(2, "d2r.EXE", Owner::User(text("carol"))),
        process(3, "D2R.exe", Owner::System),
        process(4, "notepad.exe", Owner::User(text("dave"))),
    ];
    let names = vec![text("PC\\bob"), text("CAROL"), text("dave"), text("bob")];
    assert_eq!(
        get_accounts_process_status(&processes, &names),
        vec![
            AccountStatus { bnet_active: true, d2r_active: false },
            AccountStatus { bnet_active: false, d2r_active: true },
            AccountStatus { bnet_active: false, d2r_active: false },
            AccountStatus { bnet_active: true, d2r_active: false },
        ]
    );
}

#[test]
fn watched_programs_of_a_user() {
    let names = vec![text("D2R.exe"), text("Battle.net.exe")];
    let theirs = |name: &str, owned: bool| SessionProcess { name: text(name), owned_by_user: owned };
    assert!(is_process_running_for_user(&vec![theirs("x", true), theirs("d2r.EXE", true)], &names));
    assert!(is_process_running_for_user(&vec![theirs("Battle.net", true)], &names));
    assert!(!is_process_running_for_user(&vec![theirs("D2R.exe", false)], &names));
    assert!(!is_process_running_for_user(&vec![theirs("notepad.exe", true)], &names));
    assert!(!is_process_running_for_user(&vec![], &names));
}

#[test]
fn local_users_are_listed() {
    let enumerated =
        vec![text("Administrator"), text("Guest"), text("bob"), text("WDAGUtilityAccount"), text("DefaultAccount")];
    let profiles = vec![
        ProfileEntry { sid: text("S-1-5-18"), user: Some(text("SYSTEM")) },
        ProfileEntry { sid: text("S-1-5-21-1-2-3-1001"), user: Some(text("BOB")) },
        ProfileEntry { sid: text("S-1-5-21-1-2-3-1002"), user: Some(text("PC\\carol")) },
        ProfileEntry { sid: text("S-1-5-21-1-2-3-1003"), user: None },
        ProfileEntry { sid: text("S-1-5-21-1-2-3-1004"), user: Some(text("pc\\Carol")) },
    ];
    assert_eq!(
        list_local_users(&enumerated, &profiles, false),
        vec![text("Administrator"), text("bob")]
    );
    assert_eq!(
        list_local_users(&enumerated, &profiles, true),
        vec![text("Administrator"), text("bob"), text("PC\\carol")]
    );
    assert!(builtin_account("GUEST"));
    assert!(!builtin_account("guests"));
    assert!(account_sid("S-1-5-21-1"));
    assert!(!account_sid("S-1-5-32-545"));
    assert_eq!(enumeration_step(0), (true, false));
    assert_eq!(enumeration_step(234), (true, true));
    assert_eq!(enumeration_step(5), (false, false));
}

#[test]
fn user_names_and_statuses() {
    assert_eq!(d2r_multiplay::users::fallback_users_group(), "Users");
    assert_eq!(d2r_multiplay::file_swap::archive_logs_dir(), "Logs");
    assert_eq!(get_whoami("alice", "PC"), "PC\\alice");
    assert_eq!(get_whoami("alice", ""), "alice");
    assert_eq!(get_whoami("", ""), "");
    assert_eq!(get_name_from_sid_string("bob", "DOM"), "DOM\\bob");
    assert_eq!(account_flags(true), 0x10001);
    assert_eq!(account_flags(false), 0x1);
    assert_eq!(create_user(0), Ok(()));
    assert_eq!(create_user(2224), Ok(()));
    assert_eq!(create_user(5), Err(text("NetUserAdd failed with status: 5 (Win32 Error)")));
    assert!(!group_add_failed(0));
    assert!(!group_add_failed(1320));
    assert!(group_add_failed(5));
    assert_eq!(set_password_never_expires(0), Ok(()));
    assert_eq!(
        set_password_never_expires(2221),
        Err(text("NetUserSetInfo (1008) failed: 2221"))
    );
    assert_eq!(reset_password(0), Ok(()));
    assert_eq!(reset_password(86), Err(text("NetUserSetInfo (1003) failed: 86")));
}

#[test]
fn profile_paths() {
    assert_eq!(
        profile_key("S-1-5-21-7"),
        "SOFTWARE\\Microsoft\\Windows NT\\CurrentVersion\\ProfileList\\S-1-5-21-7"
    );
    assert_eq!(registry_text(&vec![0x43, 0x00, 0x3A, 0x00, 0x5C]), vec![0x43, 0x3A]);
    assert_eq!(registry_text(&vec![]), Vec::<u16>::new());
    let mut expanded: Vec<u16> = "C:\\Users\\bob".encode_utf16().collect();
    let written = expanded.len() as u32 + 1;
    expanded.push(0);
    expanded.extend_from_slice(&[0x41; 8]);
    assert_eq!(get_user_profile_path(&expanded, written), Some(text("C:\\Users\\bob")));
    assert_eq!(get_user_profile_path(&expanded, 0), None);
    assert_eq!(get_user_profile_path(&expanded, 1), Some(text("")));
    assert_eq!(get_user_profile_path(&expanded, expanded.len() as u32 + 1), None);
    assert_eq!(local_data_path(), vec![text("AppData"), text("Local")]);
    assert!(is_user_initialized(true, true));
    assert!(!is_user_initialized(true, false));
    assert!(!is_user_initialized(false, true));
}

#[test]
fn health_report() {
    let profiles = vec![(text("bob"), true), (text("carol"), false)];
    let report = get_infra_health(
        Some("C:\\PROGRAM FILES (x86)\\Battle.net\\Battle.net.exe"),
        true,
        profiles.clone(),
    );
    assert!(report.is_bnet_all_users);
    assert!(report.agent_config_writable);
    assert!(report.bnet_path_valid);
    assert_eq!(report.sandbox_profiles_ready, profiles);
    let portable = get_infra_health(Some("D:\\Games\\Battle.net.exe"), false, vec![]);
    assert!(!portable.is_bnet_all_users);
    assert!(!portable.agent_config_writable);
    assert!(portable.bnet_path_valid);
    let none = get_infra_health(None, true, vec![]);
    assert!(!none.is_bnet_all_users);
    assert!(!none.bnet_path_valid);
    assert_eq!(agent_dir(), "C:\\ProgramData\\Battle.net");
    assert_eq!(probe_file(), ".health_check_probe");
    assert!(is_dir_writable(true, true));
    assert!(!is_dir_writable(false, true));
    assert!(!is_dir_writable(true, false));
}

#[test]
fn handle_explorer() {
    let entries = vec![
        HandleEntry { pid: 1, handle_value: 4, object_type_index: 1 },
        HandleEntry { pid: 2, handle_value: 8, object_type_index: 1 },
        HandleEntry { pid: 1, handle_value: 12, object_type_index: 2 },
    ];
    assert_eq!(list_process_handles(&entries, 1), vec![4, 12]);
    assert_eq!(list_process_handles(&entries, 3), Vec::<u64>::new());
    let wide = |s: &str| s.encode_utf16().collect::<Vec<u16>>();
    assert_eq!(
        get_handle_name_detailed(
            4,
            0,
            &wide("Mutant"),
            &NameQuery::Answered { status: 0, units: wide("\\BaseNamedObjects\\x") }
        ),
        HandleInfo { handle_value: 4, name: text("\\BaseNamedObjects\\x"), object_type: text("Mutant") }
    );
    assert_eq!(
        get_handle_name_detailed(4, -1, &wide("Mutant"), &NameQuery::TimedOut),
        HandleInfo { handle_value: 4, name: text(""), object_type: text("Unknown") }
    );
    assert_eq!(
        get_handle_name_detailed(4, 0, &vec![], &NameQuery::Answered { status: 1, units: wide("x") }),
        HandleInfo { handle_value: 4, name: text(""), object_type: text("Unknown") }
    );
    assert_eq!(close_specific_handle(42, 0x1A4, true), Ok(()));
    assert_eq!(
        close_specific_handle(42, 0x1A4, false),
        Err(text("Failed to close handle 0x1A4 for PID 42"))
    );
    assert_eq!(EXPLORER_TIMEOUT_MS, 200);
}

#[test]
fn command_replies() {
    assert_eq!(kill_mutexes(Ok(3)), Ok(text("Killed 3 mutexes")));
    assert_eq!(
        kill_mutexes(Err(ScanFailure::Enumeration { status: -1073741790 })),
        Err(text("NtQuerySystemInformation(64) Failed: 0xC0000022"))
    );
    assert_eq!(
        scan_failure_message(&ScanFailure::Enumeration { status: 5 }),
        "NtQuerySystemInformation(64) Failed: 0x5"
    );
    assert_eq!(kill_processes(2), "Killed 2 processes");
    assert_eq!(stop_bnet_processes(0), "Killed 0 Battle.net processes");
    assert_eq!(
        d2r_multiplay::commands::launch_game(&Ok(77)),
        Ok(text("Game launched (PID: 77)"))
    );
    assert_eq!(
        d2r_multiplay::commands::launch_game(&Err(d2r_multiplay::account::AccountError::InvalidPath)),
        Err(text("BNET_NOT_FOUND"))
    );
    assert_eq!(
        manual_launch_process(&Ok(ProcessLaunchResult { process_id: 5, thread_id: 6 })),
        Ok(text("Launched PID: 5"))
    );
    assert_eq!(
        manual_launch_process(&Err(LaunchFailure::Logon(text("bad")))),
        Err(text("LogonUserW failed: bad"))
    );
    assert_eq!(manual_backup_save(&Ok(())), Ok(text("Backup successful")));
    assert_eq!(manual_delete_config(&Ok(())), Ok(text("Config deleted")));
    assert_eq!(manual_restore_config(&Ok(())), Ok(text("Restore successful")));
    assert_eq!(
        manual_restore_config(&Err(FileSwapError::Conflict)),
        Err(text("Conflict: product.db still exists"))
    );
    assert_eq!(
        nuke_reset(4),
        "Nuke complete: 4 processes killed. All state and archives cleared."
    );
    assert_eq!(create_windows_user(Ok(())), Ok(text("User created successfully")));
    assert_eq!(create_windows_user(Err(text("no"))), Err(text("no")));
    assert!(!get_windows_users(None));
    assert!(get_windows_users(Some(true)));
    assert!(!get_windows_users(Some(false)));
    assert!(close_to_tray(None));
    assert!(close_to_tray(Some(true)));
    assert!(!close_to_tray(Some(false)));
}

#[test]
fn tray_texts() {
    assert_eq!(update_tray_language("zh-CN"), ("显示主界面", "退出"));
    assert_eq!(update_tray_language("zh-TW"), ("显示主界面", "退出"));
    assert_eq!(update_tray_language("ja"), ("表示", "終了"));
    assert_eq!(update_tray_language("ko"), ("보기", "종료"));
    assert_eq!(update_tray_language("en"), ("Show", "Quit"));
    assert_eq!(update_tray_language(""), ("Show", "Quit"));
    assert_eq!(setup_tray(None), ("显示主界面", "退出"));
    assert_eq!(setup_tray(Some("ko")), ("보기", "종료"));
}

#[test]
fn newest_changelog_section() {
    let log = "# Changelog\n\n## [0.4.5] - today\n- fixed\n\n## [0.4.4]\n- older\n";
    assert_eq!(get_latest_changelog(log), "## [0.4.5] - today\n- fixed\n");
    assert_eq!(get_latest_changelog("# Changelog\n## [1.0]\n- only"), "## [1.0]\n- only");
    assert_eq!(get_latest_changelog("## [1.0] at the very start"), "No changelog entries found.");
    assert_eq!(get_latest_changelog(""), "No changelog entries found.");
}

#[test]
fn permission_targets() {
    assert_eq!(permission_target("C:\\Games\\D2R\\", true, false, None), Ok(text("C:\\Games\\D2R")));
    assert_eq!(permission_target("C:\\Games\\D2R", true, false, None), Ok(text("C:\\Games\\D2R")));
    assert_eq!(permission_target("C:\\", true, false, None), Ok(text("C:\\")));
    assert_eq!(
        permission_target("C:\\Games\\D2R\\D2R.exe", true, true, Some("C:\\Games\\D2R")),
        Ok(text("C:\\Games\\D2R"))
    );
    assert_eq!(permission_target("D2R.exe", true, true, None), Err(text("Invalid path")));
    // A path that does not exist is refused before anything else.
    assert_eq!(
        permission_target("C:\\Games\\D2R", false, false, None),
        Err(text("Path does not exist"))
    );
    assert_eq!(
        permission_target("D2R.exe", false, true, None),
        Err(text("Path does not exist"))
    );
    assert_eq!(
        permission_arguments("C:\\Games"),
        vec![text("C:\\Games"), text("/grant"), text("*S-1-5-32-545:(OI)(CI)F"), text("/T"), text("/C")]
    );
}

#[test]
fn permission_output_lines() {
    assert_eq!(classify_output_line("   \r\n"), OutputLine::Blank);
    assert_eq!(
        classify_output_line("  C:\\x: Failed processing 1 files\r\n"),
        OutputLine::Failure(text("C:\\x: Failed processing 1 files"))
    );
    assert_eq!(classify_output_line("处理 失败\n"), OutputLine::Failure(text("处理 失败")));
    assert_eq!(
        classify_output_line("Successfully processed 10 files; Failed processing 0 files\n"),
        OutputLine::Failure(text("Successfully processed 10 files; Failed processing 0 files"))
    );
    assert_eq!(
        classify_output_line("Successfully processed 10 files\n"),
        OutputLine::Summary(text("Successfully processed 10 files"))
    );
    assert_eq!(classify_output_line("已成功处理 3 个文件"), OutputLine::Summary(text("已成功处理 3 个文件")));
    assert_eq!(
        classify_output_line("processed file: C:\\Games\\D2R\\a.txt\r\n"),
        OutputLine::Progress(text("C:\\Games\\D2R\\a.txt"))
    );
    assert_eq!(classify_output_line(":\\odd"), OutputLine::Progress(text(":\\odd")));
    assert_eq!(classify_output_line(" plain "), OutputLine::Progress(text("plain")));
    assert_eq!(classify_error_line("  \n"), None);
    assert_eq!(classify_error_line(" Access denied \r\n"), Some(text("ERR: Access denied")));
    assert!(!show_progress(100));
    assert!(show_progress(101));
}

#[test]
fn permission_outcome() {
    assert_eq!(
        fix_game_permissions(Ok(text("C:\\Games")), true, false),
        Ok(text("Successfully finished permission fix for: C:\\Games"))
    );
    assert_eq!(
        fix_game_permissions(Ok(text("C:\\Games")), true, true),
        Err(text("Permission fix failed for: C:\\Games. Check logs."))
    );
    assert!(fix_game_permissions(Ok(text("x")), false, false).is_err());
    // A refusal stays what it is, whatever else is told.
    assert_eq!(
        fix_game_permissions(Err(text("Path does not exist")), true, false),
        Err(text("Path does not exist"))
    );
}

#[test]
fn mirror_checks_and_names() {
    assert_eq!(create_mirror_junction(true, false, "D:\\m"), Ok(()));
    assert_eq!(create_mirror_junction(false, false, "D:\\m"), Err(MirrorError::SourceMissing));
    assert_eq!(create_mirror_junction(false, true, "D:\\m"), Err(MirrorError::SourceMissing));
    assert_eq!(
        create_mirror_junction(true, true, "D:\\m"),
        Err(MirrorError::TargetExists(text("D:\\m")))
    );
    assert_eq!(MirrorError::TargetExists(text("D:\\m")).message(), "目标路径已存在: D:\\m");
    assert_eq!(MirrorError::<String>::SourceMissing.message(), "源路径不存在或不是一个目录");
    assert_eq!(MirrorError::<String>::ReparseFailed.message(), "DeviceIoControl 设置重解析点失败");
    assert_eq!(substitute_name("\\\\?\\C:\\Games\\D2R"), "\\??\\C:\\Games\\D2R");
    assert_eq!(print_name("\\\\?\\C:\\Games\\D2R"), "C:\\Games\\D2R");
    assert_eq!(mirror_created("D:\\m"), "成功创建镜像: D:\\m");
}

#[test]
fn reparse_data_of_a_mount_point() {
    let substitute: Vec<u16> = "\\??\\C:\\a".encode_utf16().collect();
    let print: Vec<u16> = "C:\\a".encode_utf16().collect();
    let data = mount_point_buffer(&substitute, &print).unwrap();
    let s = 2 * substitute.len();
    let p = 2 * print.len();
    assert_eq!(data.len(), s + p + 20);
    assert_eq!(&data[0..4], &0xA000_0003u32.to_le_bytes());
    assert_eq!(&data[4..6], &((s + p + 12) as u16).to_le_bytes());
    assert_eq!(&data[6..8], &[0, 0]);
    assert_eq!(&data[8..10], &[0, 0]);
    assert_eq!(&data[10..12], &(s as u16).to_le_bytes());
    assert_eq!(&data[12..14], &((s + 2) as u16).to_le_bytes());
    assert_eq!(&data[14..16], &(p as u16).to_le_bytes());
    let expect_sub: Vec<u8> = substitute.iter().flat_map(|u| u.to_le_bytes()).collect();
    let expect_print: Vec<u8> = print.iter().flat_map(|u| u.to_le_bytes()).collect();
    assert_eq!(&data[16..16 + s], &expect_sub[..]);
    assert_eq!(&data[16 + s..18 + s], &[0, 0]);
    assert_eq!(&data[18 + s..18 + s + p], &expect_print[..]);
    assert_eq!(&data[18 + s + p..], &[0, 0]);
}

#[test]
fn names_too_long_for_the_reparse_data_are_refused() {
    let long = vec![0x41u16; 16382];
    assert!(mount_point_buffer(&long, &vec![]).is_some());
    assert!(mount_point_buffer(&long, &vec![0x41]).is_none());
    assert!(mount_point_buffer(&vec![0x41; 20000], &vec![]).is_none());
    assert!(mount_point_buffer(&vec![], &vec![0x41; 16383]).is_none());
    assert_eq!(mount_point_buffer(&vec![], &vec![]).map(|d| d.len()), Some(20));
}

#[test]
fn the_log_of_a_sweep() {
    let none = close_d2r_mutexes(&vec![]);
    assert_eq!(sweep_start_notices(&none), vec![Notice::NoTargetProcess]);
    let processes = vec![ProcessImage { pid: 20, exe_name: Some(text("D2R.exe")) }];
    let start = close_d2r_mutexes(&processes);
    assert_eq!(sweep_start_notices(&start), vec![]);
    let mut bytes = Vec::new();
    bytes.extend_from_slice(&2u64.to_le_bytes());
    bytes.extend_from_slice(&0u64.to_le_bytes());
    for (pid, handle) in [(20u64, 0x20u64), (99u64, 0x30u64)] {
        bytes.extend_from_slice(&0u64.to_le_bytes());
        bytes.extend_from_slice(&pid.to_le_bytes());
        bytes.extend_from_slice(&handle.to_le_bytes());
        bytes.extend_from_slice(&0u32.to_le_bytes());
        bytes.extend_from_slice(&0u16.to_le_bytes());
        bytes.extend_from_slice(&17u16.to_le_bytes());
        bytes.extend_from_slice(&0u64.to_le_bytes());
    }
    let mark = sweep_mark(&start);
    let reading = start.table_answered(0, 0, &bytes);
    assert_eq!(sweep_notices(mark, &reading, false), vec![Notice::ScanningHandles(2)]);
    let name = "\\BaseNamedObjects\\DiabloII Check For Other Instances";
    let probe = HandleProbe::Examined {
        type_status: 0,
        object_type: "Mutant".encode_utf16().collect(),
        name: NameQuery::Answered { status: 0, units: name.encode_utf16().collect() },
    };
    let mark = sweep_mark(&reading);
    let closing = reading.examined(&probe);
    assert_eq!(sweep_notices(mark, &closing, false), vec![Notice::LockFound(text(name))]);
    let mark = sweep_mark(&closing);
    let second = closing.closed(false);
    assert_eq!(sweep_notices(mark, &second, false), vec![Notice::SystemWideSweep]);
    let timed = HandleProbe::Examined { type_status: 0, object_type: "Mutant".encode_utf16().collect(), name: NameQuery::TimedOut };
    let mark = sweep_mark(&second);
    let over = second.examined(&timed);
    assert_eq!(
        sweep_notices(mark, &over, true),
        vec![
            Notice::ProbeTimedOut { pid: 99, handle_value: 0x30 },
            Notice::NothingMatched(1),
        ]
    );
    let mark = sweep_mark(&over);
    let still = over.closed(true);
    assert_eq!(sweep_notices(mark, &still, false), vec![]);
}

#[test]
fn profile_lines_of_the_registry_listing() {
    let line = "  HKEY_LOCAL_MACHINE\\SOFTWARE\\Microsoft\\Windows NT\\CurrentVersion\\ProfileList\\S-1-5-21-1-2-3-1001 \r";
    assert_eq!(profile_line_sid(line), Some(text("S-1-5-21-1-2-3-1001")));
    assert_eq!(profile_line_sid("S-1-5-21-9"), Some(text("S-1-5-21-9")));
    assert_eq!(profile_line_sid("x\\S-1-5-18"), None);
    assert_eq!(profile_line_sid("S-1-5-21-9\\"), None);
    assert_eq!(profile_line_sid(""), None);
}

#[test]
fn the_current_user_is_listed_once() {
    assert_eq!(
        add_current_user(vec![text("bob")], text("PC\\alice")),
        vec![text("bob"), text("PC\\alice")]
    );
    assert_eq!(
        add_current_user(vec![text("bob"), text("PC\\alice")], text("PC\\alice")),
        vec![text("bob"), text("PC\\alice")]
    );
    // The very name counts, not the name in another case.
    assert_eq!(
        add_current_user(vec![text("pc\\alice")], text("PC\\alice")),
        vec![text("pc\\alice"), text("PC\\alice")]
    );
}

#[test]
fn account_tools() {
    assert_eq!(
        policy_command("bob", true),
        vec![
            text("-NoProfile"),
            text("-Command"),
            text("Set-LocalUser -Name 'bob' -PasswordNeverExpires $true"),
        ]
    );
    assert_eq!(
        policy_command("bob", false)[2],
        "Set-LocalUser -Name 'bob' -PasswordNeverExpires $false"
    );
    assert_eq!(password_command("bob", "pw"), vec![text("user"), text("bob"), text("pw")]);
    assert_eq!(tool_outcome(AccountTool::PolicyShell, Ok((true, text("noise")))), Ok(()));
    assert_eq!(
        tool_outcome(AccountTool::PolicyShell, Ok((false, text("  not found \r\n")))),
        Err(text("PowerShell failed: not found"))
    );
    assert_eq!(
        tool_outcome(AccountTool::PasswordTool, Ok((false, text("denied")))),
        Err(text("net user password reset failed: denied"))
    );
    assert_eq!(
        tool_outcome(AccountTool::PolicyShell, Err(text("no such program"))),
        Err(text("Failed to execute PowerShell: no such program"))
    );
    assert_eq!(
        tool_outcome(AccountTool::PasswordTool, Err(text("no such program"))),
        Err(text("Failed to reset password: no such program"))
    );
}

#[test]
fn decisions_on_lower_case_forms() {
    assert!(d2r_multiplay::health::all_users_path_in("c:\\program files (x86)\\battle.net"));
    assert!(!d2r_multiplay::health::all_users_path_in("C:\\Program Files\\Battle.net"));
    assert!(d2r_multiplay::users::builtin_account_in("guest"));
    assert!(d2r_multiplay::users::builtin_account_in("wdagutilityaccount"));
    assert!(d2r_multiplay::users::builtin_account_in("defaultaccount"));
    assert!(!d2r_multiplay::users::builtin_account_in("Guest"));
    let names = vec![text("D2R.exe"), text("Battle.net.exe")];
    assert!(d2r_multiplay::process::watched_in("d2r.exe", &names));
    assert!(d2r_multiplay::process::watched_in("battle.net", &names));
    assert!(!d2r_multiplay::process::watched_in("notepad.exe", &names));
    assert_eq!(d2r_multiplay::logger::log_line_with("d", "WARN", "m"), "[d] [WARN] m\n");
    assert_eq!(d2r_multiplay::logger::log_line_with("d", "warn", "m"), "[d] [warn] m\n");
}
