//! What a switch and a sweep report while they run: the lines of the launch
//! log, with their levels and texts.

use vstd::prelude::*;
use crate::account::{
    launch_plan, LaunchLogPayload, LaunchPlan, Switch, SwitchEvent, SwitchStage,
};
use crate::file_swap::error_text;
use crate::mutex::{
    count_targeted, targeted_count, Cursor, HandleEntry, LockSweep, ScanPass, SweepView,
};
use crate::text::{decimal, decimal_text, hex_text, hexadecimal, str_eq};

verus! {

/// How much a line of the log matters.
#[derive(Debug, Clone, Copy, PartialEq, Eq, Structural)]
pub enum Level {
    /// Progress.
    Info,
    /// Something was achieved.
    Success,
    /// Something went wrong and the work goes on.
    Warn,
    /// Something went wrong for good.
    Error,
    /// Detail for diagnosis.
    Debug,
}

/// The name of a level as the log writes it.
pub open spec fn level_text(level: Level) -> Seq<char> {
    match level {
        Level::Info => "info"@,
        Level::Success => "success"@,
        Level::Warn => "warn"@,
        Level::Error => "error"@,
        Level::Debug => "debug"@,
    }
}

impl Level {
    /// The name of the level as the log writes it.
    pub fn name(&self) -> (r: &'static str)
        ensures
            r@ == level_text(*self),
    {
        match self {
            Level::Info => "info",
            Level::Success => "success",
            Level::Warn => "warn",
            Level::Error => "error",
            Level::Debug => "debug",
        }
    }
}

/// One thing worth a line of the log.
#[derive(Debug, Clone, PartialEq, Eq)]
pub enum Notice<S> {
    /// The cleaning of the environment begins.
    CleaningEnvironment,
    /// This many client processes were terminated.
    ProcessesTerminated(usize),
    /// The debug privilege could not be gained.
    DebugPrivilegeUnavailable,
    /// This many stale locks were closed.
    LocksClosed(usize),
    /// No stale lock was found.
    NoActiveLocks,
    /// The sweep for stale locks failed, with this text.
    LockCleanupFailed(S),
    /// The configuration of this account, active before, is being backed up.
    BackingUpPrevious(S),
    /// The backup failed, with this text.
    BackupFailed(S),
    /// The configuration of the target account is being brought in.
    SwitchingConfig,
    /// The password policy is being renewed.
    RefreshingPasswordPolicy,
    /// The renewal of the password policy failed, with this text.
    PasswordPolicyRefreshFailed(S),
    /// The password is being set again.
    ResettingPassword,
    /// The setting of the password failed, with this text.
    PasswordResetFailed(S),
    /// The client runs as this process.
    GameStarted(u32),
    /// No target process runs; the sweep is skipped.
    NoTargetProcess,
    /// The handle table of this many entries is being scanned.
    ScanningHandles(usize),
    /// The system-wide sweep begins.
    SystemWideSweep,
    /// The name query of this handle of this process timed out.
    ProbeTimedOut { pid: u32, handle_value: u64 },
    /// A lock of this name was found and is being closed.
    LockFound(S),
    /// The sweep is over and closed nothing; this many handles of target
    /// processes were looked at.
    NothingMatched(usize),
}

impl View for Notice<String> {
    type V = Notice<Seq<char>>;

    open spec fn view(&self) -> Self::V {
        match self {
            Notice::CleaningEnvironment => Notice::CleaningEnvironment,
            Notice::ProcessesTerminated(n) => Notice::ProcessesTerminated(*n),
            Notice::DebugPrivilegeUnavailable => Notice::DebugPrivilegeUnavailable,
            Notice::LocksClosed(n) => Notice::LocksClosed(*n),
            Notice::NoActiveLocks => Notice::NoActiveLocks,
            Notice::LockCleanupFailed(m) => Notice::LockCleanupFailed(m@),
            Notice::BackingUpPrevious(id) => Notice::BackingUpPrevious(id@),
            Notice::BackupFailed(m) => Notice::BackupFailed(m@),
            Notice::SwitchingConfig => Notice::SwitchingConfig,
            Notice::RefreshingPasswordPolicy => Notice::RefreshingPasswordPolicy,
            Notice::PasswordPolicyRefreshFailed(m) => Notice::PasswordPolicyRefreshFailed(m@),
            Notice::ResettingPassword => Notice::ResettingPassword,
            Notice::PasswordResetFailed(m) => Notice::PasswordResetFailed(m@),
            Notice::GameStarted(pid) => Notice::GameStarted(*pid),
            Notice::NoTargetProcess => Notice::NoTargetProcess,
            Notice::ScanningHandles(n) => Notice::ScanningHandles(*n),
            Notice::SystemWideSweep => Notice::SystemWideSweep,
            Notice::ProbeTimedOut { pid, handle_value } => Notice::ProbeTimedOut {
                pid: *pid,
                handle_value: *handle_value,
            },
            Notice::LockFound(name) => Notice::LockFound(name@),
            Notice::NothingMatched(n) => Notice::NothingMatched(*n),
        }
    }
}

/// The level of a notice.
pub open spec fn notice_level(notice: Notice<Seq<char>>) -> Level {
    match notice {
        Notice::CleaningEnvironment => Level::Info,
        Notice::ProcessesTerminated(_) => Level::Success,
        Notice::DebugPrivilegeUnavailable => Level::Warn,
        Notice::LocksClosed(_) => Level::Success,
        Notice::NoActiveLocks => Level::Info,
        Notice::LockCleanupFailed(_) => Level::Warn,
        Notice::BackingUpPrevious(_) => Level::Info,
        Notice::BackupFailed(_) => Level::Warn,
        Notice::SwitchingConfig => Level::Info,
        Notice::RefreshingPasswordPolicy => Level::Info,
        Notice::PasswordPolicyRefreshFailed(_) => Level::Warn,
        Notice::ResettingPassword => Level::Info,
        Notice::PasswordResetFailed(_) => Level::Warn,
        Notice::GameStarted(_) => Level::Success,
        Notice::NoTargetProcess => Level::Info,
        Notice::ScanningHandles(_) => Level::Debug,
        Notice::SystemWideSweep => Level::Debug,
        Notice::ProbeTimedOut { .. } => Level::Debug,
        Notice::LockFound(_) => Level::Success,
        Notice::NothingMatched(_) => Level::Info,
    }
}

/// The text of a notice.
pub open spec fn notice_text(notice: Notice<Seq<char>>) -> Seq<char> {
    match notice {
        Notice::CleaningEnvironment => "清理运行环境 (Battle.net & Mutexes)..."@,
        Notice::ProcessesTerminated(n) => "已终止 "@ + decimal(n as nat) + " 个 Battle.net 进程"@,
        Notice::DebugPrivilegeUnavailable => "无法启用调试权限 (SeDebugPrivilege)，句柄清理可能失败"@,
        Notice::LocksClosed(n) => "已关闭 "@ + decimal(n as nat) + " 个 D2R 互斥锁"@,
        Notice::NoActiveLocks => "未检测到活动的 D2R 互斥锁"@,
        Notice::LockCleanupFailed(m) => "互斥锁清理失败: "@ + m,
        Notice::BackingUpPrevious(id) => "正在备份前一个账号配置 (ID: "@ + id + ")..."@,
        Notice::BackupFailed(m) => "Backup failed: "@ + m,
        Notice::SwitchingConfig => "正在切换目标账号配置..."@,
        Notice::RefreshingPasswordPolicy => "正在刷新密码策略 (防止过期拦截)..."@,
        Notice::PasswordPolicyRefreshFailed(m) => "密码策略刷新失败: "@ + m,
        Notice::ResettingPassword => "正在重置密码以清除过期标记..."@,
        Notice::PasswordResetFailed(m) => "密码重置失败: "@ + m,
        Notice::GameStarted(pid) => "游戏已启动 (PID: "@ + decimal(pid as nat) + ")"@,
        Notice::NoTargetProcess => "未发现 D2R 进程，跳过互斥锁清理"@,
        Notice::ScanningHandles(n) => "正在扫描系统 "@ + decimal(n as nat) + " 个句柄..."@,
        Notice::SystemWideSweep => "正在执行全系统逻辑锁扫描 (Cross-Session)..."@,
        Notice::ProbeTimedOut { pid, handle_value } => "⚠️ 句柄探测超时 (PID: "@ + decimal(pid as nat)
            + ", Handle: 0x"@ + hexadecimal(handle_value as nat) + ")"@,
        Notice::LockFound(name) => "🎯 发现并清理 D2R 互斥锁: "@ + name,
        Notice::NothingMatched(n) => "全量扫描完成，未命中任何 D2R 互斥锁 (Checked "@ + decimal(n as nat)
            + " handles)"@,
    }
}

impl Notice<String> {
    /// The level of the notice.
    pub fn level(&self) -> (level: Level)
        ensures
            level == notice_level(self@),
    {
        match self {
            Notice::CleaningEnvironment => Level::Info,
            Notice::ProcessesTerminated(_) => Level::Success,
            Notice::DebugPrivilegeUnavailable => Level::Warn,
            Notice::LocksClosed(_) => Level::Success,
            Notice::NoActiveLocks => Level::Info,
            Notice::LockCleanupFailed(_) => Level::Warn,
            Notice::BackingUpPrevious(_) => Level::Info,
            Notice::BackupFailed(_) => Level::Warn,
            Notice::SwitchingConfig => Level::Info,
            Notice::RefreshingPasswordPolicy => Level::Info,
            Notice::PasswordPolicyRefreshFailed(_) => Level::Warn,
            Notice::ResettingPassword => Level::Info,
            Notice::PasswordResetFailed(_) => Level::Warn,
            Notice::GameStarted(_) => Level::Success,
            Notice::NoTargetProcess => Level::Info,
            Notice::ScanningHandles(_) => Level::Debug,
            Notice::SystemWideSweep => Level::Debug,
            Notice::ProbeTimedOut { .. } => Level::Debug,
            Notice::LockFound(_) => Level::Success,
            Notice::NothingMatched(_) => Level::Info,
        }
    }

    /// The text of the notice.
    pub fn message(&self) -> (text: String)
        ensures
            text@ == notice_text(self@),
    {
        match self {
            Notice::CleaningEnvironment => String::from_str(
                "清理运行环境 (Battle.net & Mutexes)...",
            ),
            Notice::ProcessesTerminated(n) => {
                let count = decimal_text(*n as u64);
                String::from_str("已终止 ").concat(count.as_str()).concat(" 个 Battle.net 进程")
            },
            Notice::DebugPrivilegeUnavailable => String::from_str(
                "无法启用调试权限 (SeDebugPrivilege)，句柄清理可能失败",
            ),
            Notice::LocksClosed(n) => {
                let count = decimal_text(*n as u64);
                String::from_str("已关闭 ").concat(count.as_str()).concat(" 个 D2R 互斥锁")
            },
            Notice::NoActiveLocks => String::from_str("未检测到活动的 D2R 互斥锁"),
            Notice::LockCleanupFailed(m) => String::from_str("互斥锁清理失败: ").concat(m.as_str()),
            Notice::BackingUpPrevious(id) => String::from_str(
                "正在备份前一个账号配置 (ID: ",
            ).concat(id.as_str()).concat(")..."),
            Notice::BackupFailed(m) => String::from_str("Backup failed: ").concat(m.as_str()),
            Notice::SwitchingConfig => String::from_str("正在切换目标账号配置..."),
            Notice::RefreshingPasswordPolicy => String::from_str(
                "正在刷新密码策略 (防止过期拦截)...",
            ),
            Notice::PasswordPolicyRefreshFailed(m) => String::from_str(
                "密码策略刷新失败: ",
            ).concat(m.as_str()),
            Notice::ResettingPassword => String::from_str("正在重置密码以清除过期标记..."),
            Notice::PasswordResetFailed(m) => String::from_str("密码重置失败: ").concat(m.as_str()),
            Notice::GameStarted(pid) => {
                let id = decimal_text(*pid as u64);
                String::from_str("游戏已启动 (PID: ").concat(id.as_str()).concat(")")
            },
            Notice::NoTargetProcess => String::from_str("未发现 D2R 进程，跳过互斥锁清理"),
            Notice::ScanningHandles(n) => {
                let count = decimal_text(*n as u64);
                String::from_str("正在扫描系统 ").concat(count.as_str()).concat(" 个句柄...")
            },
            Notice::SystemWideSweep => String::from_str(
                "正在执行全系统逻辑锁扫描 (Cross-Session)...",
            ),
            Notice::ProbeTimedOut { pid, handle_value } => {
                let id = decimal_text(*pid as u64);
                let handle = hex_text(*handle_value);
                String::from_str("⚠️ 句柄探测超时 (PID: ").concat(id.as_str()).concat(
                    ", Handle: 0x",
                ).concat(handle.as_str()).concat(")")
            },
            Notice::LockFound(name) => String::from_str("🎯 发现并清理 D2R 互斥锁: ").concat(
                name.as_str(),
            ),
            Notice::NothingMatched(n) => {
                let count = decimal_text(*n as u64);
                String::from_str("全量扫描完成，未命中任何 D2R 互斥锁 (Checked ").concat(
                    count.as_str(),
                ).concat(" handles)")
            },
        }
    }
}

/// The views of a list of notices.
pub open spec fn notices_view(notices: Seq<Notice<String>>) -> Seq<Notice<Seq<char>>> {
    notices.map_values(|n: Notice<String>| n@)
}

/// What the log gets when a switch begins.
pub open spec fn notices_at_start() -> Seq<Notice<Seq<char>>> {
    seq![Notice::CleaningEnvironment]
}

/// What the log gets when a switch takes an answer: a line on how the
/// operation ended, where that is worth one, and a line on the preparation
/// that comes next. The failures of best-effort operations show here and
/// nowhere else.
pub open spec fn notices_of(switch: Switch<Seq<char>>, event: SwitchEvent<Seq<char>>) -> Seq<
    Notice<Seq<char>>,
> {
    match (switch.stage, event) {
        (SwitchStage::Killing, SwitchEvent::ProcessesKilled(n)) => if n > 0 {
            seq![Notice::ProcessesTerminated(n)]
        } else {
            seq![]
        },
        (SwitchStage::Sweeping, SwitchEvent::LocksSwept { debug_privilege, outcome }) => (
        if debug_privilege {
            Seq::<Notice<Seq<char>>>::empty()
        } else {
            seq![Notice::DebugPrivilegeUnavailable]
        }).push(
            match outcome {
                Ok(n) => if n > 0 {
                    Notice::LocksClosed(n)
                } else {
                    Notice::NoActiveLocks
                },
                Err(text) => Notice::LockCleanupFailed(text),
            },
        ),
        (SwitchStage::LoadingConfig, SwitchEvent::ConfigLoaded(Some(Some(previous)))) => if previous
            != switch.account.id {
            seq![Notice::BackingUpPrevious(previous)]
        } else {
            seq![]
        },
        (SwitchStage::BackingUp { .. }, SwitchEvent::BackedUp(Err(e))) => seq![
            Notice::BackupFailed(error_text(e)),
        ],
        (SwitchStage::ClearingActive { .. }, SwitchEvent::Stored(Ok(_))) => seq![
            Notice::SwitchingConfig,
        ],
        (
            SwitchStage::Identifying { exe, working_dir },
            SwitchEvent::Identified { whoami, env_username },
        ) => match launch_plan(switch.account, whoami, env_username, exe, working_dir) {
            LaunchPlan::Impersonated { refresh_policy, reset_password, .. } => if refresh_policy {
                seq![Notice::RefreshingPasswordPolicy]
            } else if reset_password {
                seq![Notice::ResettingPassword]
            } else {
                seq![]
            },
            LaunchPlan::Direct { .. } => seq![],
        },
        (SwitchStage::RefreshingPolicy { plan }, SwitchEvent::ProviderAnswered(r)) => (match r {
            Err(text) => seq![Notice::PasswordPolicyRefreshFailed(text)],
            Ok(_) => Seq::<Notice<Seq<char>>>::empty(),
        }) + (match plan {
            LaunchPlan::Impersonated { reset_password: true, .. } => seq![Notice::ResettingPassword],
            _ => Seq::<Notice<Seq<char>>>::empty(),
        }),
        (SwitchStage::ResettingPassword { .. }, SwitchEvent::ProviderAnswered(Err(text))) => seq![
            Notice::PasswordResetFailed(text),
        ],
        (SwitchStage::Starting { plan }, SwitchEvent::Spawned(Ok(pid))) => if plan is Direct {
            seq![Notice::GameStarted(pid)]
        } else {
            seq![]
        },
        _ => seq![],
    }
}

/// The process that an impersonated launch started, when `switch` takes the
/// answer `event` and that is the success of such a launch. It is announced
/// to the user interface by itself, not in the log.
pub open spec fn launched_as_other(switch: Switch<Seq<char>>, event: SwitchEvent<Seq<char>>) -> Option<
    u32,
> {
    match (switch.stage, event) {
        (SwitchStage::Starting { plan }, SwitchEvent::Launched(Ok(p))) => if plan is Impersonated {
            Some(p.process_id)
        } else {
            None
        },
        _ => None,
    }
}

/// The announcement of an impersonated launch that succeeded: for the
/// account of the switch, at level `success`, with the text of
/// `GameStarted`.
pub fn launch_announcement(switch: &Switch<String>, event: &SwitchEvent<String>) -> (r: Option<
    LaunchLogPayload,
>)
    ensures
        r is Some <==> launched_as_other(switch@, event@) is Some,
        r is Some ==> {
            &&& r->0.account_id@ == switch@.account.id
            &&& r->0.level@ == level_text(Level::Success)
            &&& r->0.message@ == notice_text(
                Notice::GameStarted(launched_as_other(switch@, event@)->0),
            )
        },
{
    match (&switch.stage, event) {
        (SwitchStage::Starting { plan }, SwitchEvent::Launched(Ok(p))) => match plan {
            LaunchPlan::Impersonated { .. } => {
                let started: Notice<String> = Notice::GameStarted(p.process_id);
                Some(
                    LaunchLogPayload {
                        account_id: switch.account.id.clone(),
                        message: started.message(),
                        level: String::from_str(Level::Success.name()),
                    },
                )
            },
            LaunchPlan::Direct { .. } => None,
        },
        _ => None,
    }
}

/// What the log gets when a switch begins.
pub fn start_notices() -> (notices: Vec<Notice<String>>)
    ensures
        notices_view(notices@) == notices_at_start(),
{
    let mut notices: Vec<Notice<String>> = Vec::new();
    notices.push(Notice::CleaningEnvironment);
    assert(notices_view(notices@) =~= notices_at_start());
    notices
}

/// What the log gets when `switch` takes the answer `event`.
pub fn switch_notices(switch: &Switch<String>, event: &SwitchEvent<String>) -> (notices: Vec<
    Notice<String>,
>)
    ensures
        notices_view(notices@) == notices_of(switch@, event@),
{
    let mut notices: Vec<Notice<String>> = Vec::new();
    match &switch.stage {
        SwitchStage::Killing => match event {
            SwitchEvent::ProcessesKilled(n) => {
                if *n > 0 {
                    notices.push(Notice::ProcessesTerminated(*n));
                }
            },
            _ => {},
        },
        SwitchStage::Sweeping => match event {
            SwitchEvent::LocksSwept { debug_privilege, outcome } => {
                if !*debug_privilege {
                    notices.push(Notice::DebugPrivilegeUnavailable);
                }
                match outcome {
                    Ok(n) => {
                        if *n > 0 {
                            notices.push(Notice::LocksClosed(*n));
                        } else {
                            notices.push(Notice::NoActiveLocks);
                        }
                    },
                    Err(text) => {
                        notices.push(Notice::LockCleanupFailed(text.clone()));
                    },
                }
            },
            _ => {},
        },
        SwitchStage::LoadingConfig => match event {
            SwitchEvent::ConfigLoaded(Some(Some(previous))) => {
                if !str_eq(previous.as_str(), switch.account.id.as_str()) {
                    notices.push(Notice::BackingUpPrevious(previous.clone()));
                }
            },
            _ => {},
        },
        SwitchStage::BackingUp { .. } => match event {
            SwitchEvent::BackedUp(Err(e)) => {
                notices.push(Notice::BackupFailed(e.message()));
            },
            _ => {},
        },
        SwitchStage::ClearingActive { .. } => match event {
            SwitchEvent::Stored(Ok(_)) => {
                notices.push(Notice::SwitchingConfig);
            },
            _ => {},
        },
        SwitchStage::Identifying { exe, working_dir } => match event {
            SwitchEvent::Identified { whoami, env_username } => {
                let plan = crate::account::plan_launch(
                    &switch.account,
                    whoami.as_str(),
                    env_username.as_str(),
                    exe.clone(),
                    crate::text::clone_text(working_dir),
                );
                match plan {
                    LaunchPlan::Impersonated { refresh_policy, reset_password, .. } => {
                        if refresh_policy {
                            notices.push(Notice::RefreshingPasswordPolicy);
                        } else if reset_password {
                            notices.push(Notice::ResettingPassword);
                        }
                    },
                    LaunchPlan::Direct { .. } => {},
                }
            },
            _ => {},
        },
        SwitchStage::RefreshingPolicy { plan } => match event {
            SwitchEvent::ProviderAnswered(r) => {
                match r {
                    Err(text) => {
                        notices.push(Notice::PasswordPolicyRefreshFailed(text.clone()));
                    },
                    Ok(_) => {},
                }
                match plan {
                    LaunchPlan::Impersonated { reset_password, .. } => {
                        if *reset_password {
                            notices.push(Notice::ResettingPassword);
                        }
                    },
                    LaunchPlan::Direct { .. } => {},
                }
            },
            _ => {},
        },
        SwitchStage::ResettingPassword { .. } => match event {
            SwitchEvent::ProviderAnswered(Err(text)) => {
                notices.push(Notice::PasswordResetFailed(text.clone()));
            },
            _ => {},
        },
        SwitchStage::Starting { plan } => match event {
            SwitchEvent::Spawned(Ok(pid)) => match plan {
                LaunchPlan::Direct { .. } => {
                    notices.push(Notice::GameStarted(*pid));
                },
                _ => {},
            },
            _ => {},
        },
        _ => {},
    }
    assert(notices_view(notices@) =~= notices_of(switch@, event@));
    notices
}

/// What the log needs to remember of a sweep before it takes an answer.
#[derive(Debug, Clone, Copy, PartialEq, Eq, Structural)]
pub struct SweepMark {
    /// The handle table was being queried.
    pub querying: bool,
    /// The entry that was being examined, if one was.
    pub examining: Option<HandleEntry>,
    /// The system-wide sweep had begun.
    pub system_wide: bool,
    /// The sweep had nothing more to ask for.
    pub over: bool,
}

/// The system-wide sweep of a scan has begun and is not over.
pub open spec fn in_system_wide(sweep: SweepView) -> bool {
    match sweep {
        SweepView::Scanning(scan) => match scan.cursor {
            Cursor::Examining { pass, .. } => pass == ScanPass::SystemWide,
            Cursor::Closing { pass, .. } => pass == ScanPass::SystemWide,
            Cursor::Finished => false,
        },
        _ => false,
    }
}

/// The sweep has nothing more to ask for.
pub open spec fn sweep_over(sweep: SweepView) -> bool {
    match sweep {
        SweepView::Scanning(scan) => scan.cursor is Finished,
        SweepView::Done(_) => true,
        SweepView::Querying { .. } => false,
    }
}

/// What the log remembers of a sweep.
pub open spec fn mark_of(sweep: SweepView) -> SweepMark {
    SweepMark {
        querying: sweep is Querying,
        examining: match sweep {
            SweepView::Scanning(scan) => match scan.cursor {
                Cursor::Examining { pass, index } => Some(scan.entries[index as int]),
                _ => None,
            },
            _ => None,
        },
        system_wide: in_system_wide(sweep),
        over: sweep_over(sweep),
    }
}

/// What the log gets when a sweep begins: a line if there is no target process.
pub open spec fn notices_at_sweep_start(sweep: SweepView) -> Seq<Notice<Seq<char>>> {
    if sweep is Done {
        seq![Notice::NoTargetProcess]
    } else {
        seq![]
    }
}

/// What the log gets when a sweep that stood as `before` says has taken an
/// answer and stands at `after`: the size of the table once it is read; a name
/// query that timed out; a lock that was found; the begin of the system-wide
/// sweep; and, at the end, that nothing was closed.
pub open spec fn sweep_notices_of(before: SweepMark, after: SweepView, timed_out: bool) -> Seq<
    Notice<Seq<char>>,
> {
    (if before.querying && after is Scanning {
        seq![Notice::ScanningHandles(after->Scanning_0.entries.len() as usize)]
    } else {
        Seq::<Notice<Seq<char>>>::empty()
    }) + (if timed_out && before.examining is Some {
        seq![
            Notice::ProbeTimedOut {
                pid: before.examining->0.pid,
                handle_value: before.examining->0.handle_value,
            },
        ]
    } else {
        Seq::<Notice<Seq<char>>>::empty()
    }) + (if before.examining is Some && after is Scanning && after->Scanning_0.cursor is Closing {
        seq![Notice::LockFound(after->Scanning_0.cursor->name)]
    } else {
        Seq::<Notice<Seq<char>>>::empty()
    }) + (if !before.system_wide && in_system_wide(after) {
        seq![Notice::SystemWideSweep]
    } else {
        Seq::<Notice<Seq<char>>>::empty()
    }) + (if !before.over && after is Scanning && after->Scanning_0.cursor is Finished
        && after->Scanning_0.closed == 0 {
        seq![
            Notice::NothingMatched(
                targeted_count(after->Scanning_0.entries, after->Scanning_0.targets) as usize,
            ),
        ]
    } else {
        Seq::<Notice<Seq<char>>>::empty()
    })
}

/// What the log gets when a sweep begins.
pub fn sweep_start_notices(sweep: &LockSweep) -> (notices: Vec<Notice<String>>)
    ensures
        notices_view(notices@) == notices_at_sweep_start(sweep@),
{
    let mut notices: Vec<Notice<String>> = Vec::new();
    match sweep {
        LockSweep::Done(_) => {
            notices.push(Notice::NoTargetProcess);
        },
        _ => {},
    }
    assert(notices_view(notices@) =~= notices_at_sweep_start(sweep@));
    notices
}

fn exec_system_wide(sweep: &LockSweep) -> (r: bool)
    ensures
        r == in_system_wide(sweep@),
{
    match sweep {
        LockSweep::Scanning(scan) => match scan.cursor() {
            Cursor::Examining { pass, .. } => match pass {
                ScanPass::SystemWide => true,
                ScanPass::Targeted => false,
            },
            Cursor::Closing { pass, .. } => match pass {
                ScanPass::SystemWide => true,
                ScanPass::Targeted => false,
            },
            Cursor::Finished => false,
        },
        _ => false,
    }
}

/// Remembers of a sweep, before it takes an answer, what the log needs.
pub fn sweep_mark(sweep: &LockSweep) -> (mark: SweepMark)
    ensures
        mark == mark_of(sweep@),
{
    let querying = match sweep {
        LockSweep::Querying { .. } => true,
        _ => false,
    };
    let examining = match sweep {
        LockSweep::Scanning(scan) => match (scan.cursor(), scan.current()) {
            (Cursor::Examining { .. }, Some(entry)) => Some(entry),
            _ => None,
        },
        _ => None,
    };
    let over = match sweep {
        LockSweep::Scanning(scan) => scan.is_finished(),
        LockSweep::Done(_) => true,
        LockSweep::Querying { .. } => false,
    };
    SweepMark { querying, examining, system_wide: exec_system_wide(sweep), over }
}

/// What the log gets when a sweep has taken an answer: `before` is the mark
/// taken before, `after` the sweep now, and `timed_out` says whether the
/// answer was a name query that timed out.
pub fn sweep_notices(before: SweepMark, after: &LockSweep, timed_out: bool) -> (notices: Vec<
    Notice<String>,
>)
    ensures
        notices_view(notices@) == sweep_notices_of(before, after@, timed_out),
{
    let mut notices: Vec<Notice<String>> = Vec::new();
    let ghost empty = Seq::<Notice<Seq<char>>>::empty();
    assert(notices_view(notices@) =~= empty);
    let ghost first = if before.querying && after@ is Scanning {
        seq![Notice::<Seq<char>>::ScanningHandles(after@->Scanning_0.entries.len() as usize)]
    } else {
        empty
    };
    if before.querying {
        match after {
            LockSweep::Scanning(scan) => {
                notices.push(Notice::ScanningHandles(scan.entries().len()));
            },
            _ => {},
        }
    }
    assert(notices_view(notices@) =~= first);
    let ghost second = if timed_out && before.examining is Some {
        seq![
            Notice::<Seq<char>>::ProbeTimedOut {
                pid: before.examining->0.pid,
                handle_value: before.examining->0.handle_value,
            },
        ]
    } else {
        empty
    };
    if timed_out {
        match before.examining {
            Some(entry) => {
                notices.push(
                    Notice::ProbeTimedOut { pid: entry.pid, handle_value: entry.handle_value },
                );
            },
            None => {},
        }
    }
    assert(notices_view(notices@) =~= first + second);
    let ghost third = if before.examining is Some && after@ is Scanning
        && after@->Scanning_0.cursor is Closing {
        seq![Notice::<Seq<char>>::LockFound(after@->Scanning_0.cursor->name)]
    } else {
        empty
    };
    if before.examining.is_some() {
        match after {
            LockSweep::Scanning(scan) => match scan.cursor() {
                Cursor::Closing { name, .. } => {
                    notices.push(Notice::LockFound(name.clone()));
                },
                _ => {},
            },
            _ => {},
        }
    }
    assert(notices_view(notices@) =~= first + second + third);
    let ghost fourth = if !before.system_wide && in_system_wide(after@) {
        seq![Notice::<Seq<char>>::SystemWideSweep]
    } else {
        empty
    };
    if !before.system_wide && exec_system_wide(after) {
        notices.push(Notice::SystemWideSweep);
    }
    assert(notices_view(notices@) =~= first + second + third + fourth);
    if !before.over {
        match after {
            LockSweep::Scanning(scan) => {
                if scan.is_finished() && scan.closed_count() == 0 {
                    notices.push(
                        Notice::NothingMatched(count_targeted(scan.entries(), scan.targets())),
                    );
                }
            },
            _ => {},
        }
    }
    assert(notices_view(notices@) =~= sweep_notices_of(before, after@, timed_out));
    notices
}

} // verus!
