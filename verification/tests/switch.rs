use d2r_multiplay::account::{
    current_user, domain_and_user, launch_game, plan_launch, Account, AccountError, AccountStatus,
    LaunchLogPayload, LaunchPlan, SwitchAction, SwitchEvent, SwitchPhase, SwitchStage,
};
use d2r_multiplay::file_swap::{FileSwapError, SnapshotStore};
use d2r_multiplay::notices::{
    launch_announcement, start_notices, switch_notices, Level, Notice,
};
use d2r_multiplay::os::{LaunchFailure, ProcessLaunchResult};
use d2r_multiplay::transaction::{Replies, World};

const EXE: &str = "C:\\Program Files (x86)\\Battle.net\\Battle.net.exe";
const DIR: &str = "C:\\Program Files (x86)\\Battle.net";

fn text(s: &str) -> String {
    s.to_string()
}

fn account(id: &str, win_user: &str, win_pass: Option<&str>, never_expires: bool) -> Account<String> {
    Account {
        id: text(id),
        win_user: text(win_user),
        win_pass: win_pass.map(text),
        bnet_account: text("player@example.com"),
        note: None,
        avatar: None,
        password_never_expires: never_expires,
    }
}

fn replies() -> Replies<String> {
    Replies {
        killed: 0,
        debug_privilege: true,
        locks: Ok(0),
        config_readable: true,
        config_writable: true,
        client: Some((text(EXE), Some(text(DIR)))),
        whoami: text("PC\\alice"),
        env_username: text("alice"),
        policy: Ok(()),
        password: Ok(()),
        spawn: Ok(4242),
        launch: Ok(ProcessLaunchResult { process_id: 5151, thread_id: 5152 }),
    }
}

fn world() -> World {
    World { store: SnapshotStore::new(), last_active: None, replies: replies() }
}

#[test]
fn first_switch_on_an_empty_machine() {
    let mut w = world();
    let outcome = w.switch_account(account("acct-1", "alice", None, false));
    assert_eq!(outcome, Ok(4242));
    assert_eq!(w.last_active, Some(text("acct-1")));
    assert!(w.store.active().is_none());
    assert_eq!(w.store.snapshot_count(), 0);
}

#[test]
fn switch_swaps_active_file_and_snapshots() {
    let b1 = vec![0xB1, 0x01, 0x02];
    let b2 = vec![0xB2, 0x03];
    let mut w = world();
    w.last_active = Some(text("acct-1"));
    w.store.set_active(Some(b1.clone()));
    w.store.set_snapshot("acct-2", b2.clone());
    let outcome = w.switch_account(account("acct-2", "alice", None, false));
    assert_eq!(outcome, Ok(4242));
    assert_eq!(w.store.active(), Some(&b2));
    assert_eq!(w.store.snapshot("acct-1"), Some(&b1));
    assert_eq!(w.store.snapshot("acct-2"), Some(&b2));
    assert_eq!(w.last_active, Some(text("acct-2")));
}

#[test]
fn failed_restore_rolls_back_to_the_previous_account() {
    let state_of_p = vec![0x50, 0x51];
    let mut w = world();
    w.last_active = Some(text("P"));
    w.store.set_active(Some(state_of_p.clone()));
    w.store.set_snapshot("T", vec![0x77]);
    // The backup (two commands) and the removal go through; the restore fails.
    w.store.expect_fault(None);
    w.store.expect_fault(None);
    w.store.expect_fault(None);
    w.store.expect_fault(Some(text("disk full")));
    let outcome = w.switch_account(account("T", "alice", None, false));
    assert_eq!(outcome, Err(AccountError::FileSwap(FileSwapError::Io(text("disk full")))));
    assert_eq!(w.store.active(), Some(&state_of_p));
    assert_eq!(w.store.snapshot("P"), Some(&state_of_p));
    assert_eq!(w.last_active, Some(text("P")));
}

#[test]
fn failed_restore_at_the_copy_rolls_back_too() {
    let state_of_p = vec![0x50];
    let mut w = world();
    w.last_active = Some(text("P"));
    w.store.set_active(Some(state_of_p.clone()));
    w.store.set_snapshot("T", vec![0x77]);
    for _ in 0..4 {
        w.store.expect_fault(None);
    }
    w.store.expect_fault(Some(text("denied")));
    let outcome = w.switch_account(account("T", "alice", None, false));
    assert_eq!(outcome, Err(AccountError::FileSwap(FileSwapError::Io(text("denied")))));
    assert_eq!(w.store.active(), Some(&state_of_p));
}

#[test]
fn failed_rollback_still_returns_the_first_error() {
    let mut w = world();
    w.last_active = Some(text("P"));
    w.store.set_active(Some(vec![1]));
    w.store.set_snapshot("T", vec![2]);
    for _ in 0..3 {
        w.store.expect_fault(None);
    }
    w.store.expect_fault(Some(text("first")));
    w.store.expect_fault(Some(text("second")));
    let outcome = w.switch_account(account("T", "alice", None, false));
    assert_eq!(outcome, Err(AccountError::FileSwap(FileSwapError::Io(text("first")))));
    assert!(w.store.active().is_none());
    assert_eq!(w.store.snapshot("P"), Some(&vec![1]));
}

#[test]
fn failed_backup_does_not_stop_the_switch_and_leaves_no_rollback() {
    let mut w = world();
    w.last_active = Some(text("P"));
    w.store.set_active(Some(vec![1]));
    w.store.set_snapshot("T", vec![2]);
    w.store.expect_fault(Some(text("backup failed")));
    let outcome = w.switch_account(account("T", "alice", None, false));
    assert_eq!(outcome, Ok(4242));
    assert_eq!(w.store.active(), Some(&vec![2]));
    assert!(w.store.snapshot("P").is_none());
    assert_eq!(w.last_active, Some(text("T")));
}

#[test]
fn failed_backup_then_failed_restore_has_nothing_to_roll_back() {
    let mut w = world();
    w.last_active = Some(text("P"));
    w.store.set_active(Some(vec![1]));
    w.store.set_snapshot("P", vec![9]);
    w.store.set_snapshot("T", vec![2]);
    w.store.expect_fault(Some(text("backup failed")));
    w.store.expect_fault(None);
    w.store.expect_fault(Some(text("restore failed")));
    let outcome = w.switch_account(account("T", "alice", None, false));
    assert_eq!(outcome, Err(AccountError::FileSwap(FileSwapError::Io(text("restore failed")))));
    assert!(w.store.active().is_none());
}

#[test]
fn failed_clearing_is_fatal() {
    let mut w = world();
    w.last_active = Some(text("T"));
    w.store.set_active(Some(vec![1]));
    w.store.expect_fault(Some(text("in use")));
    let outcome = w.switch_account(account("T", "alice", None, false));
    assert_eq!(
        outcome,
        Err(AccountError::FileSwap(FileSwapError::FileDeletionFailed(text("in use"))))
    );
    assert_eq!(w.store.active(), Some(&vec![1]));
    assert_eq!(w.last_active, Some(text("T")));
}

#[test]
fn switching_to_the_active_account_backs_nothing_up() {
    let mut w = world();
    w.last_active = Some(text("T"));
    w.store.set_active(Some(vec![1]));
    w.store.set_snapshot("T", vec![2]);
    let outcome = w.switch_account(account("T", "alice", None, false));
    assert_eq!(outcome, Ok(4242));
    assert_eq!(w.store.active(), Some(&vec![2]));
    assert_eq!(w.store.snapshot("T"), Some(&vec![2]));
}

#[test]
fn unreadable_configuration_ends_the_switch_before_any_file_is_touched() {
    let mut w = world();
    w.replies.config_readable = false;
    w.store.set_active(Some(vec![1]));
    let outcome = w.switch_account(account("T", "alice", None, false));
    assert_eq!(outcome, Err(AccountError::InvalidPath));
    assert_eq!(w.store.active(), Some(&vec![1]));
}

#[test]
fn missing_executable_fails_after_the_target_was_recorded() {
    let mut w = world();
    w.replies.client = None;
    let outcome = w.switch_account(account("T", "alice", None, false));
    assert_eq!(outcome, Err(AccountError::InvalidPath));
    assert_eq!(w.last_active, Some(text("T")));
}

#[test]
fn other_user_is_launched_by_impersonation() {
    let mut w = world();
    w.replies.policy = Err(text("policy"));
    w.replies.password = Err(text("password"));
    let outcome = w.switch_account(account("T", "PC\\bob", Some("pw"), true));
    assert_eq!(outcome, Ok(5151));
    w.replies.launch = Err(LaunchFailure::Logon(text("bad password")));
    let outcome = w.switch_account(account("T", "PC\\bob", Some("pw"), true));
    assert_eq!(
        outcome,
        Err(AccountError::LaunchError(LaunchFailure::Logon(text("bad password"))))
    );
}

#[test]
fn failed_direct_start_is_a_launch_error() {
    let mut w = world();
    w.replies.spawn = Err(text("access denied"));
    let outcome = w.switch_account(account("T", "ALICE", None, false));
    assert_eq!(
        outcome,
        Err(AccountError::LaunchError(LaunchFailure::Spawn(text("access denied"))))
    );
    assert_eq!(w.last_active, Some(text("T")));
}

#[test]
fn two_switches_give_back_the_first_state() {
    let state_of_b = vec![0xB0, 0xB1];
    let mut w = world();
    w.last_active = Some(text("B"));
    w.store.set_active(Some(state_of_b.clone()));
    assert_eq!(w.switch_account(account("A", "alice", None, false)), Ok(4242));
    assert!(w.store.active().is_none());
    w.store.set_active(Some(vec![0xA0]));
    assert_eq!(w.switch_account(account("B", "alice", None, false)), Ok(4242));
    assert_eq!(w.store.active(), Some(&state_of_b));
    assert_eq!(w.store.snapshot("A"), Some(&vec![0xA0]));
}

#[test]
fn the_machine_step_by_step() {
    let switch = launch_game(account("T", "PC\\bob", Some("pw"), true));
    assert_eq!(switch.phase(), SwitchPhase::Idle);
    assert_eq!(switch.action(), SwitchAction::Nothing);
    assert!(!switch.is_over());
    let switch = switch.begin();
    assert_eq!(switch.phase(), SwitchPhase::Cleaning);
    assert_eq!(switch.action(), SwitchAction::KillClientProcesses);
    let switch = switch.step(SwitchEvent::ProcessesKilled(3));
    assert_eq!(switch.action(), SwitchAction::CloseStaleLocks);
    let switch = switch.step(SwitchEvent::LocksSwept {
        debug_privilege: false,
        outcome: Err(text("enumeration failed")),
    });
    assert_eq!(switch.action(), SwitchAction::LoadConfig);
    let switch = switch.step(SwitchEvent::ConfigLoaded(Some(Some(text("P")))));
    assert_eq!(switch.phase(), SwitchPhase::BackingUp);
    assert_eq!(switch.action(), SwitchAction::RotateOut(text("P")));
    // The answer to another store operation is not what was asked for.
    let switch = switch.step(SwitchEvent::Stored(Ok(())));
    assert_eq!(switch.phase(), SwitchPhase::BackingUp);
    let switch = switch.step(SwitchEvent::BackedUp(Ok(true)));
    assert_eq!(switch.phase(), SwitchPhase::ClearingActive);
    assert_eq!(switch.action(), SwitchAction::DeleteActive);
    let switch = switch.step(SwitchEvent::Stored(Ok(())));
    assert_eq!(switch.phase(), SwitchPhase::Restoring);
    assert_eq!(switch.action(), SwitchAction::Restore(text("T")));
    let switch = switch.step(SwitchEvent::Stored(Ok(())));
    assert_eq!(switch.phase(), SwitchPhase::Launching);
    assert_eq!(switch.action(), SwitchAction::SaveLastActive(text("T")));
    let switch = switch.step(SwitchEvent::Saved(false));
    assert_eq!(switch.action(), SwitchAction::LocateClient);
    let switch = switch.step(SwitchEvent::Located(Some((text(EXE), Some(text(DIR))))));
    assert_eq!(switch.action(), SwitchAction::Identify);
    let switch = switch.step(SwitchEvent::Identified {
        whoami: text("PC\\alice"),
        env_username: text("alice"),
    });
    assert_eq!(
        switch.action(),
        SwitchAction::RefreshPasswordPolicy { user: text("bob"), never_expires: true }
    );
    let switch = switch.step(SwitchEvent::ProviderAnswered(Err(text("denied"))));
    assert_eq!(
        switch.action(),
        SwitchAction::ResetPassword { user: text("bob"), password: text("pw") }
    );
    let switch = switch.step(SwitchEvent::ProviderAnswered(Err(text("denied"))));
    assert_eq!(
        switch.action(),
        SwitchAction::LaunchAs {
            user: text("bob"),
            domain: Some(text("PC")),
            password: text("pw"),
            exe: text(EXE),
            command_line: None,
            working_dir: Some(text(DIR)),
        }
    );
    // The answer to a direct start is not what was asked for.
    let switch = switch.step(SwitchEvent::Spawned(Ok(1)));
    assert_eq!(switch.phase(), SwitchPhase::Launching);
    let switch = switch.step(SwitchEvent::Launched(Ok(ProcessLaunchResult {
        process_id: 77,
        thread_id: 78,
    })));
    assert_eq!(switch.phase(), SwitchPhase::Committed);
    assert_eq!(switch.action(), SwitchAction::Nothing);
    assert!(switch.is_over());
    assert_eq!(switch.outcome(), Some(Ok(77)));
}

#[test]
fn rollback_is_one_restore_of_the_previous_account() {
    let switch = launch_game(account("T", "alice", None, false)).begin();
    let switch = switch.step(SwitchEvent::ProcessesKilled(0));
    let switch = switch.step(SwitchEvent::LocksSwept { debug_privilege: true, outcome: Ok(0) });
    let switch = switch.step(SwitchEvent::ConfigLoaded(Some(Some(text("P")))));
    let switch = switch.step(SwitchEvent::BackedUp(Ok(true)));
    let switch = switch.step(SwitchEvent::Stored(Ok(())));
    let switch = switch.step(SwitchEvent::Stored(Err(FileSwapError::Io(text("x")))));
    assert_eq!(switch.phase(), SwitchPhase::RollingBack);
    assert_eq!(switch.action(), SwitchAction::Restore(text("P")));
    let switch = switch.step(SwitchEvent::Stored(Err(FileSwapError::Conflict)));
    assert_eq!(switch.phase(), SwitchPhase::Failed);
    assert_eq!(switch.outcome(), Some(Err(AccountError::FileSwap(FileSwapError::Io(text("x"))))));
}

#[test]
fn a_switch_that_is_over_stays_over() {
    let switch = launch_game(account("T", "alice", None, false)).begin();
    let switch = switch.step(SwitchEvent::ProcessesKilled(0));
    let switch = switch.step(SwitchEvent::LocksSwept { debug_privilege: true, outcome: Ok(0) });
    let switch = switch.step(SwitchEvent::ConfigLoaded(None));
    assert_eq!(switch.stage, SwitchStage::Failed { error: AccountError::InvalidPath });
    let switch = switch.step(SwitchEvent::Stored(Ok(())));
    let switch = switch.begin();
    assert_eq!(switch.outcome(), Some(Err(AccountError::InvalidPath)));
}

#[test]
fn launch_plans() {
    let me = account("T", "Alice", Some("pw"), true);
    assert_eq!(
        plan_launch(&me, "PC\\alice", "ALICE", text(EXE), None),
        LaunchPlan::Direct { exe: text(EXE), working_dir: None }
    );
    let qualified = account("T", "pc\\ALICE", Some("pw"), true);
    assert_eq!(
        plan_launch(&qualified, "PC\\alice", "alice", text(EXE), Some(text(DIR))),
        LaunchPlan::Direct { exe: text(EXE), working_dir: Some(text(DIR)) }
    );
    let other = account("T", "bob", Some(""), false);
    assert_eq!(
        plan_launch(&other, "PC\\alice", "alice", text(EXE), None),
        LaunchPlan::Impersonated {
            user: text("bob"),
            domain: None,
            password: text(""),
            exe: text(EXE),
            working_dir: None,
            refresh_policy: false,
            reset_password: false,
        }
    );
    let without = account("T", "DOM\\bob\\x", None, true);
    assert_eq!(
        plan_launch(&without, "PC\\alice", "alice", text(EXE), None),
        LaunchPlan::Impersonated {
            user: text("bob\\x"),
            domain: Some(text("DOM")),
            password: text(""),
            exe: text(EXE),
            working_dir: None,
            refresh_policy: true,
            reset_password: false,
        }
    );
}

#[test]
fn users_are_compared_in_lower_case() {
    assert!(current_user("Alice", "pc\\alice", "ALICE"));
    assert!(current_user("PC\\Alice", "pc\\alice", "someone"));
    // Domains do not count.
    assert!(current_user("PC\\Alice", "other\\alice", "someone"));
    assert!(current_user(".\\alice", "PC\\someone", "Alice"));
    assert!(current_user("alice", "PC\\ALICE", ""));
    assert!(!current_user("bob", "pc\\alice", "alice"));
    assert!(!current_user("alice\\bob", "pc\\alice", "alice"));
    assert_eq!(domain_and_user("PC\\bob"), (Some(text("PC")), text("bob")));
    assert_eq!(domain_and_user("bob"), (None, text("bob")));
    assert_eq!(domain_and_user("\\bob"), (Some(text("")), text("bob")));
    assert_eq!(domain_and_user("PC\\"), (Some(text("PC")), text("")));
}

#[test]
fn account_errors_have_their_texts() {
    assert_eq!(AccountError::<String>::InvalidPath.message(), "BNET_NOT_FOUND");
    assert_eq!(
        AccountError::LaunchError(LaunchFailure::Logon(text("bad"))).message(),
        "Launch failed: LogonUserW failed: bad"
    );
    assert_eq!(
        AccountError::FileSwap(FileSwapError::<String>::Conflict).message(),
        "File Swap Error: Conflict: product.db still exists"
    );
    assert_eq!(AccountStatus::default(), AccountStatus { bnet_active: false, d2r_active: false });
    let a = account("T", "bob", Some("pw"), true);
    assert_eq!(a.duplicate(), a);
}

#[test]
fn the_log_of_a_switch() {
    assert_eq!(start_notices(), vec![Notice::CleaningEnvironment]);
    let switch = launch_game(account("T", "PC\\bob", Some("pw"), true)).begin();
    let event = SwitchEvent::ProcessesKilled(2);
    assert_eq!(switch_notices(&switch, &event), vec![Notice::ProcessesTerminated(2)]);
    let quiet = SwitchEvent::ProcessesKilled(0);
    assert_eq!(switch_notices(&switch, &quiet), vec![]);
    let switch = switch.step(event);
    let event =
        SwitchEvent::LocksSwept { debug_privilege: false, outcome: Err(text("no table")) };
    assert_eq!(
        switch_notices(&switch, &event),
        vec![Notice::DebugPrivilegeUnavailable, Notice::LockCleanupFailed(text("no table"))]
    );
    let closed = SwitchEvent::LocksSwept { debug_privilege: true, outcome: Ok(2) };
    assert_eq!(switch_notices(&switch, &closed), vec![Notice::LocksClosed(2)]);
    let none = SwitchEvent::LocksSwept { debug_privilege: true, outcome: Ok(0) };
    assert_eq!(switch_notices(&switch, &none), vec![Notice::NoActiveLocks]);
    let switch = switch.step(event);
    let event = SwitchEvent::ConfigLoaded(Some(Some(text("P"))));
    assert_eq!(switch_notices(&switch, &event), vec![Notice::BackingUpPrevious(text("P"))]);
    let same = SwitchEvent::ConfigLoaded(Some(Some(text("T"))));
    assert_eq!(switch_notices(&switch, &same), vec![]);
    let switch = switch.step(event);
    let event = SwitchEvent::BackedUp(Err(FileSwapError::Io(text("locked"))));
    assert_eq!(
        switch_notices(&switch, &event),
        vec![Notice::BackupFailed(text("IO Error: locked"))]
    );
    assert_eq!(switch_notices(&switch, &SwitchEvent::BackedUp(Ok(false))), vec![]);
    let switch = switch.step(event);
    let event = SwitchEvent::Stored(Ok(()));
    assert_eq!(switch_notices(&switch, &event), vec![Notice::SwitchingConfig]);
    let switch = switch.step(event);
    let switch = switch.step(SwitchEvent::Stored(Ok(())));
    let switch = switch.step(SwitchEvent::Saved(true));
    let switch = switch.step(SwitchEvent::Located(Some((text(EXE), None))));
    let event = SwitchEvent::Identified { whoami: text("PC\\alice"), env_username: text("alice") };
    assert_eq!(switch_notices(&switch, &event), vec![Notice::RefreshingPasswordPolicy]);
    let switch = switch.step(event);
    let event = SwitchEvent::ProviderAnswered(Err(text("denied")));
    assert_eq!(
        switch_notices(&switch, &event),
        vec![Notice::PasswordPolicyRefreshFailed(text("denied")), Notice::ResettingPassword]
    );
    let switch = switch.step(event);
    let event = SwitchEvent::ProviderAnswered(Err(text("denied")));
    assert_eq!(switch_notices(&switch, &event), vec![Notice::PasswordResetFailed(text("denied"))]);
    assert_eq!(launch_announcement(&switch, &event), None);
    let switch = switch.step(event);
    // An impersonated launch that succeeded is announced by itself.
    let event = SwitchEvent::Launched(Ok(ProcessLaunchResult { process_id: 9, thread_id: 10 }));
    assert_eq!(switch_notices(&switch, &event), vec![]);
    assert_eq!(
        launch_announcement(&switch, &event),
        Some(LaunchLogPayload {
            account_id: text("T"),
            message: text("游戏已启动 (PID: 9)"),
            level: text("success"),
        })
    );
}

#[test]
fn a_direct_start_is_logged() {
    let switch = launch_game(account("T", "alice", None, false)).begin();
    let switch = switch.step(SwitchEvent::ProcessesKilled(0));
    let switch = switch.step(SwitchEvent::LocksSwept { debug_privilege: true, outcome: Ok(0) });
    let switch = switch.step(SwitchEvent::ConfigLoaded(Some(None)));
    let switch = switch.step(SwitchEvent::Stored(Ok(())));
    let switch = switch.step(SwitchEvent::Stored(Ok(())));
    let switch = switch.step(SwitchEvent::Saved(true));
    let switch = switch.step(SwitchEvent::Located(Some((text(EXE), None))));
    let event = SwitchEvent::Identified { whoami: text("PC\\alice"), env_username: text("alice") };
    assert_eq!(switch_notices(&switch, &event), vec![]);
    let switch = switch.step(event);
    let event = SwitchEvent::Spawned(Ok(12));
    assert_eq!(switch_notices(&switch, &event), vec![Notice::GameStarted(12)]);
    assert_eq!(launch_announcement(&switch, &event), None);
    let failed = SwitchEvent::Spawned(Err(text("denied")));
    assert_eq!(switch_notices(&switch, &failed), vec![]);
}

#[test]
fn notices_have_levels_and_texts() {
    assert_eq!(Notice::<String>::GameStarted(1234).message(), "游戏已启动 (PID: 1234)");
    assert_eq!(Notice::<String>::GameStarted(1234).level(), Level::Success);
    assert_eq!(Notice::<String>::ProcessesTerminated(3).message(), "已终止 3 个 Battle.net 进程");
    assert_eq!(Notice::<String>::LocksClosed(10).message(), "已关闭 10 个 D2R 互斥锁");
    assert_eq!(Notice::LockCleanupFailed(text("e")).message(), "互斥锁清理失败: e");
    assert_eq!(Notice::LockCleanupFailed(text("e")).level(), Level::Warn);
    assert_eq!(
        Notice::BackingUpPrevious(text("acct-1")).message(),
        "正在备份前一个账号配置 (ID: acct-1)..."
    );
    assert_eq!(
        Notice::<String>::ProbeTimedOut { pid: 42, handle_value: 0x1A4 }.message(),
        "⚠️ 句柄探测超时 (PID: 42, Handle: 0x1A4)"
    );
    assert_eq!(Notice::<String>::ProbeTimedOut { pid: 42, handle_value: 1 }.level(), Level::Debug);
    assert_eq!(
        Notice::<String>::NothingMatched(7).message(),
        "全量扫描完成，未命中任何 D2R 互斥锁 (Checked 7 handles)"
    );
    assert_eq!(Level::Info.name(), "info");
    assert_eq!(Level::Success.name(), "success");
    assert_eq!(Level::Warn.name(), "warn");
    assert_eq!(Level::Error.name(), "error");
    assert_eq!(Level::Debug.name(), "debug");
}

struct RecordingProvider {
    calls: std::sync::Mutex<Vec<String>>,
}

impl d2r_multiplay::os::OSProvider for RecordingProvider {
    fn get_whoami(&self) -> String {
        text("PC\\alice")
    }

    fn list_local_users(&self, _include_registry: bool) -> Result<Vec<String>, String> {
        Ok(vec![])
    }

    fn create_user(&self, _username: &str, _password: &str, _never_expires: bool) -> Result<(), String> {
        Ok(())
    }

    fn set_password_never_expires(&self, username: &str, never_expires: bool) -> Result<(), String> {
        self.calls.lock().unwrap().push(format!("policy {} {}", username, never_expires));
        Err(text("policy denied"))
    }

    fn reset_password(&self, username: &str, password: &str) -> Result<(), String> {
        self.calls.lock().unwrap().push(format!("reset {} {}", username, password));
        Ok(())
    }

    fn create_process_with_logon(
        &self,
        username: &str,
        domain: Option<&str>,
        password: &str,
        application_path: &str,
        command_line: Option<&str>,
        current_directory: Option<&str>,
    ) -> Result<ProcessLaunchResult, LaunchFailure<String>> {
        self.calls.lock().unwrap().push(format!(
            "launch {} {:?} {} {} {:?} {:?}",
            username, domain, password, application_path, command_line, current_directory
        ));
        Ok(ProcessLaunchResult { process_id: 31, thread_id: 32 })
    }
}

#[test]
fn the_provider_is_asked_what_the_action_says() {
    let os = RecordingProvider { calls: std::sync::Mutex::new(Vec::new()) };
    let provider: &dyn d2r_multiplay::os::OSProvider = &os;
    assert_eq!(
        d2r_multiplay::account::ask_provider(
            provider,
            &SwitchAction::RefreshPasswordPolicy { user: text("bob"), never_expires: true }
        ),
        Some(SwitchEvent::ProviderAnswered(Err(text("policy denied"))))
    );
    assert_eq!(
        d2r_multiplay::account::ask_provider(
            provider,
            &SwitchAction::RefreshPasswordPolicy { user: text("eve"), never_expires: false }
        ),
        Some(SwitchEvent::ProviderAnswered(Err(text("policy denied"))))
    );
    assert_eq!(
        d2r_multiplay::account::ask_provider(
            provider,
            &SwitchAction::ResetPassword { user: text("bob"), password: text("pw") }
        ),
        Some(SwitchEvent::ProviderAnswered(Ok(())))
    );
    assert_eq!(
        d2r_multiplay::account::ask_provider(
            provider,
            &SwitchAction::LaunchAs {
                user: text("bob"),
                domain: Some(text("PC")),
                password: text("pw"),
                exe: text(EXE),
                command_line: None,
                working_dir: None,
            }
        ),
        Some(SwitchEvent::Launched(Ok(ProcessLaunchResult { process_id: 31, thread_id: 32 })))
    );
    assert_eq!(
        d2r_multiplay::account::ask_provider(
            provider,
            &SwitchAction::LaunchAs {
                user: text("eve"),
                domain: None,
                password: text(""),
                exe: text("x.exe"),
                command_line: Some(text("x.exe -q")),
                working_dir: Some(text("C:\\")),
            }
        ),
        Some(SwitchEvent::Launched(Ok(ProcessLaunchResult { process_id: 31, thread_id: 32 })))
    );
    assert_eq!(d2r_multiplay::account::ask_provider(provider, &SwitchAction::DeleteActive), None);
    assert_eq!(d2r_multiplay::account::ask_provider(provider, &SwitchAction::Identify), None);
    assert_eq!(
        *os.calls.lock().unwrap(),
        vec![
            text("policy bob true"),
            text("policy eve false"),
            text("reset bob pw"),
            format!("launch bob Some(\"PC\") pw {} None None", EXE),
            text("launch eve None  x.exe Some(\"x.exe -q\") Some(\"C:\\\\\")"),
        ]
    );
}

#[test]
fn a_backup_that_copied_nothing_leaves_nothing_to_roll_back() {
    let mut w = world();
    w.last_active = Some(text("P"));
    // No active file; P has a snapshot from an earlier session.
    w.store.set_snapshot("P", vec![0x50]);
    w.store.set_snapshot("T", vec![0x77]);
    // Neither the backup nor the removal runs a command; the restore fails.
    w.store.expect_fault(Some(text("disk full")));
    let outcome = w.switch_account(account("T", "alice", None, false));
    assert_eq!(outcome, Err(AccountError::FileSwap(FileSwapError::Io(text("disk full")))));
    assert!(w.store.active().is_none());
    assert_eq!(w.store.snapshot("P"), Some(&vec![0x50]));
    assert_eq!(w.last_active, Some(text("P")));
}

#[test]
fn the_machine_rolls_back_only_after_a_copy() {
    let fail = || SwitchEvent::Stored(Err(FileSwapError::Io(text("x"))));
    let upto_backup = || {
        launch_game(account("T", "alice", None, false))
            .begin()
            .step(SwitchEvent::ProcessesKilled(0))
            .step(SwitchEvent::LocksSwept { debug_privilege: true, outcome: Ok(0) })
            .step(SwitchEvent::ConfigLoaded(Some(Some(text("P")))))
    };
    let copied = upto_backup()
        .step(SwitchEvent::BackedUp(Ok(true)))
        .step(SwitchEvent::Stored(Ok(())))
        .step(fail());
    assert_eq!(copied.action(), SwitchAction::Restore(text("P")));
    let skipped = upto_backup()
        .step(SwitchEvent::BackedUp(Ok(false)))
        .step(SwitchEvent::Stored(Ok(())))
        .step(fail());
    assert_eq!(skipped.action(), SwitchAction::Nothing);
    assert_eq!(skipped.outcome(), Some(Err(AccountError::FileSwap(FileSwapError::Io(text("x"))))));
    let failed = upto_backup()
        .step(SwitchEvent::BackedUp(Err(FileSwapError::Io(text("b")))))
        .step(SwitchEvent::Stored(Ok(())))
        .step(fail());
    assert_eq!(failed.action(), SwitchAction::Nothing);
}
