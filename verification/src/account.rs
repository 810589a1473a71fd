//! Accounts, and the switch of the active account as one transaction: clean
//! up, back up the previous account, clear the active file, restore the
//! target, record it, launch. The transaction is a state machine that asks
//! for one outside operation at a time; the operations themselves belong to
//! the store, the scanner, the launcher and the application.

use vstd::prelude::*;
use crate::file_swap::{error_text, FileSwapError};
use crate::os::{failure_text, LaunchFailure, OSProvider, ProcessLaunchResult};
use crate::text::{
    chars_index_of, clone_text, index_of, lowercase, same_lowercase, str_eq, to_chars,
};

verus! {

/// One configured account: a game identity bound to a user of the machine.
/// `S` is the text type: `String` when executed, `Seq<char>` in specifications.
#[derive(Debug, Clone, PartialEq, Eq)]
pub struct Account<S> {
    /// The stable identity of the account.
    pub id: S,
    /// The user of the machine under whom the client runs for this account,
    /// with or without a domain in front.
    pub win_user: S,
    /// The password of that user, where the account is set up for unattended launch.
    pub win_pass: Option<S>,
    /// The name of the game account, for display.
    pub bnet_account: S,
    /// A remark.
    pub note: Option<S>,
    /// An image or the name of an icon.
    pub avatar: Option<S>,
    /// Whether the password of the user is kept from expiring.
    pub password_never_expires: bool,
}

impl View for Account<String> {
    type V = Account<Seq<char>>;

    open spec fn view(&self) -> Self::V {
        Account {
            id: self.id@,
            win_user: self.win_user@,
            win_pass: self.win_pass.deep_view(),
            bnet_account: self.bnet_account@,
            note: self.note.deep_view(),
            avatar: self.avatar.deep_view(),
            password_never_expires: self.password_never_expires,
        }
    }
}

impl Account<String> {
    /// A copy of the account.
    pub fn duplicate(&self) -> (copy: Account<String>)
        ensures
            copy@ == self@,
    {
        Account {
            id: self.id.clone(),
            win_user: self.win_user.clone(),
            win_pass: clone_text(&self.win_pass),
            bnet_account: self.bnet_account.clone(),
            note: clone_text(&self.note),
            avatar: clone_text(&self.avatar),
            password_never_expires: self.password_never_expires,
        }
    }
}

/// Which clients run under the user of an account.
#[derive(Debug, Clone, Copy, PartialEq, Eq, Structural)]
pub struct AccountStatus {
    /// The launcher of the client runs.
    pub bnet_active: bool,
    /// The game runs.
    pub d2r_active: bool,
}

impl Default for AccountStatus {
    fn default() -> (status: AccountStatus)
        ensures
            !status.bnet_active && !status.d2r_active,
    {
        AccountStatus { bnet_active: false, d2r_active: false }
    }
}

/// One line of the launch log as the user interface takes it.
#[derive(Debug, Clone, PartialEq, Eq)]
pub struct LaunchLogPayload {
    /// The identity of the account that the line is about.
    pub account_id: String,
    /// The text of the line.
    pub message: String,
    /// `info`, `success` or `error`.
    pub level: String,
}

/// Why the switch of an account failed.
#[derive(Debug, Clone, PartialEq, Eq)]
pub enum AccountError<S> {
    /// The client could not be started.
    LaunchError(LaunchFailure<S>),
    /// No usable executable of the client was found, or the configuration
    /// could not be read.
    InvalidPath,
    /// The snapshot store failed.
    FileSwap(FileSwapError<S>),
}

impl View for AccountError<String> {
    type V = AccountError<Seq<char>>;

    open spec fn view(&self) -> Self::V {
        match self {
            AccountError::LaunchError(f) => AccountError::LaunchError(f@),
            AccountError::InvalidPath => AccountError::InvalidPath,
            AccountError::FileSwap(e) => AccountError::FileSwap(e@),
        }
    }
}

/// The text shown for a failed switch.
pub open spec fn account_error_text(e: AccountError<Seq<char>>) -> Seq<char> {
    match e {
        AccountError::LaunchError(f) => "Launch failed: "@ + failure_text(f),
        AccountError::InvalidPath => "BNET_NOT_FOUND"@,
        AccountError::FileSwap(e) => "File Swap Error: "@ + error_text(e),
    }
}

impl AccountError<String> {
    /// The text shown for this error.
    pub fn message(&self) -> (r: String)
        ensures
            r@ == account_error_text(self@),
    {
        match self {
            AccountError::LaunchError(f) => {
                let detail = f.message();
                String::from_str("Launch failed: ").concat(detail.as_str())
            },
            AccountError::InvalidPath => String::from_str("BNET_NOT_FOUND"),
            AccountError::FileSwap(e) => {
                let detail = e.message();
                String::from_str("File Swap Error: ").concat(detail.as_str())
            },
        }
    }
}

/// The domain and the bare name of a user: what stands before and after the
/// first backslash; without a backslash there is no domain.
pub open spec fn split_domain(win_user: Seq<char>) -> (Option<Seq<char>>, Seq<char>) {
    match index_of(win_user, '\\', 0) {
        Some(at) => (Some(win_user.take(at)), win_user.skip(at + 1)),
        None => (None, win_user),
    }
}

/// The domain and the bare name of a user.
pub fn domain_and_user(win_user: &str) -> (r: (Option<String>, String))
    ensures
        (r.0.deep_view(), r.1@) == split_domain(win_user@),
{
    let chars = to_chars(win_user);
    match chars_index_of(&chars, '\\', 0) {
        Some(at) => {
            let domain = String::from_str(win_user.substring_char(0, at));
            let user = String::from_str(win_user.substring_char(at + 1, chars.len()));
            assert(win_user@.subrange(0, at as int) =~= win_user@.take(at as int));
            assert(win_user@.subrange(at + 1, chars.len() as int) =~= win_user@.skip(at + 1));
            (Some(domain), user)
        },
        None => (None, String::from_str(win_user)),
    }
}

/// Two names are the name of one user: their bare names, without domains,
/// are equal in lower case.
pub open spec fn same_user(a: Seq<char>, b: Seq<char>) -> bool {
    lowercase(split_domain(a).1) == lowercase(split_domain(b).1)
}

/// The target user is the user who runs this process: the name is the name
/// that the system tells of the current user, or the user name of the
/// environment; domains and the case of letters do not count.
pub open spec fn is_current_user(target: Seq<char>, whoami: Seq<char>, env_username: Seq<char>) -> bool {
    same_user(target, whoami) || same_user(target, env_username)
}

/// Whether the target user is the user who runs this process.
pub fn current_user(target: &str, whoami: &str, env_username: &str) -> (r: bool)
    ensures
        r == is_current_user(target@, whoami@, env_username@),
{
    let (_target_domain, bare) = domain_and_user(target);
    let (_domain, current) = domain_and_user(whoami);
    if same_lowercase(bare.as_str(), current.as_str()) {
        return true;
    }
    let (_env_domain, named) = domain_and_user(env_username);
    same_lowercase(bare.as_str(), named.as_str())
}

/// How the client is to be started for an account.
#[derive(Debug, Clone, PartialEq, Eq)]
pub enum LaunchPlan<S> {
    /// As the user who runs this process: directly, without credentials.
    Direct { exe: S, working_dir: Option<S> },
    /// As another user, by an impersonated logon.
    Impersonated {
        /// The bare name of the user.
        user: S,
        /// The domain of the user, where the name has one.
        domain: Option<S>,
        /// The password; empty where the account has none.
        password: S,
        /// The executable.
        exe: S,
        /// The directory to start in.
        working_dir: Option<S>,
        /// Whether to renew, before the launch, the flag that keeps the password from expiring.
        refresh_policy: bool,
        /// Whether to set, before the launch, the password to its present value.
        reset_password: bool,
    },
}

impl View for LaunchPlan<String> {
    type V = LaunchPlan<Seq<char>>;

    open spec fn view(&self) -> Self::V {
        match self {
            LaunchPlan::Direct { exe, working_dir } => LaunchPlan::Direct {
                exe: exe@,
                working_dir: working_dir.deep_view(),
            },
            LaunchPlan::Impersonated {
                user,
                domain,
                password,
                exe,
                working_dir,
                refresh_policy,
                reset_password,
            } => LaunchPlan::Impersonated {
                user: user@,
                domain: domain.deep_view(),
                password: password@,
                exe: exe@,
                working_dir: working_dir.deep_view(),
                refresh_policy: *refresh_policy,
                reset_password: *reset_password,
            },
        }
    }
}

/// How the client is to be started for `account`, given who runs this
/// process. For the current user: directly, and no credentials are involved.
/// For any other user: by impersonation, under the bare user name and the
/// domain of the account; the policy is renewed first where the account is set
/// up never to expire, and the password is set again first where the account
/// has one that is not empty.
pub open spec fn launch_plan(
    account: Account<Seq<char>>,
    whoami: Seq<char>,
    env_username: Seq<char>,
    exe: Seq<char>,
    working_dir: Option<Seq<char>>,
) -> LaunchPlan<Seq<char>> {
    if is_current_user(account.win_user, whoami, env_username) {
        LaunchPlan::Direct { exe, working_dir }
    } else {
        LaunchPlan::Impersonated {
            user: split_domain(account.win_user).1,
            domain: split_domain(account.win_user).0,
            password: match account.win_pass {
                Some(p) => p,
                None => Seq::<char>::empty(),
            },
            exe,
            working_dir,
            refresh_policy: account.password_never_expires,
            reset_password: account.win_pass is Some && account.win_pass->0.len() > 0,
        }
    }
}

/// Plans the launch of the client for `account`.
pub fn plan_launch(
    account: &Account<String>,
    whoami: &str,
    env_username: &str,
    exe: String,
    working_dir: Option<String>,
) -> (plan: LaunchPlan<String>)
    ensures
        plan@ == launch_plan(account@, whoami@, env_username@, exe@, working_dir.deep_view()),
{
    if current_user(account.win_user.as_str(), whoami, env_username) {
        LaunchPlan::Direct { exe, working_dir }
    } else {
        let (domain, user) = domain_and_user(account.win_user.as_str());
        let (password, reset_password) = match &account.win_pass {
            Some(p) => (p.clone(), p.as_str().unicode_len() > 0),
            None => (String::new(), false),
        };
        LaunchPlan::Impersonated {
            user,
            domain,
            password,
            exe,
            working_dir,
            refresh_policy: account.password_never_expires,
            reset_password,
        }
    }
}

/// The states of a switch, by name.
#[derive(Debug, Clone, Copy, PartialEq, Eq, Structural)]
pub enum SwitchPhase {
    /// Not begun.
    Idle,
    /// Terminating client processes and closing stale locks.
    Cleaning,
    /// Saving the active file as the snapshot of the previous account.
    BackingUp,
    /// Removing the active file.
    ClearingActive,
    /// Bringing back the snapshot of the target account.
    Restoring,
    /// Undoing the clearing after a failed restore.
    RollingBack,
    /// Recording the target account and starting the client.
    Launching,
    /// The client runs for the target account.
    Committed,
    /// The switch has failed.
    Failed,
}

/// Where a switch stands, with what it has to remember.
#[derive(Debug, Clone, PartialEq, Eq)]
#[allow(inconsistent_fields)]
pub enum SwitchStage<S> {
    /// Not begun.
    Idle,
    /// The client processes are being terminated.
    Killing,
    /// The stale locks are being closed.
    Sweeping,
    /// The configuration is being read for the account that was active last.
    LoadingConfig,
    /// The active file is being saved as the snapshot of `previous`.
    BackingUp { previous: S },
    /// The active file is being removed; `rotated` is the previous account
    /// if its backup made a copy of the active file.
    ClearingActive { rotated: Option<S> },
    /// The snapshot of the target account is being brought back.
    Restoring { rotated: Option<S> },
    /// The restore failed with `error`; the snapshot of `previous` is being
    /// brought back in its place.
    RollingBack { previous: S, error: FileSwapError<S> },
    /// The target account is being recorded as the active one.
    Persisting,
    /// The executable of the client is being looked for.
    Locating,
    /// The user who runs this process is being asked for.
    Identifying { exe: S, working_dir: Option<S> },
    /// The password policy of the target user is being renewed.
    RefreshingPolicy { plan: LaunchPlan<S> },
    /// The password of the target user is being set again.
    ResettingPassword { plan: LaunchPlan<S> },
    /// The client is being started.
    Starting { plan: LaunchPlan<S> },
    /// The client runs as process `pid`.
    Committed { pid: u32 },
    /// The switch failed with `error`.
    Failed { error: AccountError<S> },
}

impl View for SwitchStage<String> {
    type V = SwitchStage<Seq<char>>;

    open spec fn view(&self) -> Self::V {
        match self {
            SwitchStage::Idle => SwitchStage::Idle,
            SwitchStage::Killing => SwitchStage::Killing,
            SwitchStage::Sweeping => SwitchStage::Sweeping,
            SwitchStage::LoadingConfig => SwitchStage::LoadingConfig,
            SwitchStage::BackingUp { previous } => SwitchStage::BackingUp { previous: previous@ },
            SwitchStage::ClearingActive { rotated } => SwitchStage::ClearingActive {
                rotated: rotated.deep_view(),
            },
            SwitchStage::Restoring { rotated } => SwitchStage::Restoring {
                rotated: rotated.deep_view(),
            },
            SwitchStage::RollingBack { previous, error } => SwitchStage::RollingBack {
                previous: previous@,
                error: error@,
            },
            SwitchStage::Persisting => SwitchStage::Persisting,
            SwitchStage::Locating => SwitchStage::Locating,
            SwitchStage::Identifying { exe, working_dir } => SwitchStage::Identifying {
                exe: exe@,
                working_dir: working_dir.deep_view(),
            },
            SwitchStage::RefreshingPolicy { plan } => SwitchStage::RefreshingPolicy { plan: plan@ },
            SwitchStage::ResettingPassword { plan } => SwitchStage::ResettingPassword {
                plan: plan@,
            },
            SwitchStage::Starting { plan } => SwitchStage::Starting { plan: plan@ },
            SwitchStage::Committed { pid } => SwitchStage::Committed { pid: *pid },
            SwitchStage::Failed { error } => SwitchStage::Failed { error: error@ },
        }
    }
}

/// The one outside operation that a switch asks for next.
#[derive(Debug, Clone, PartialEq, Eq)]
pub enum SwitchAction<S> {
    /// Terminate the client and launcher processes by name.
    KillClientProcesses,
    /// Try to gain the debug privilege and sweep for stale locks.
    CloseStaleLocks,
    /// Read from the configuration which account was active last.
    LoadConfig,
    /// Save the active file as the snapshot of this account.
    RotateOut(S),
    /// Remove the active file.
    DeleteActive,
    /// Bring back the snapshot of this account as the active file.
    Restore(S),
    /// Record this account in the configuration as the active one.
    SaveLastActive(S),
    /// Look for the executable of the client.
    LocateClient,
    /// Tell who runs this process.
    Identify,
    /// Set the flag that keeps the password of this user from expiring to
    /// `never_expires`.
    RefreshPasswordPolicy { user: S, never_expires: bool },
    /// Set the password of this user to this value.
    ResetPassword { user: S, password: S },
    /// Start the executable directly.
    SpawnDirect { exe: S, working_dir: Option<S> },
    /// Start the executable as this user, with this command line if any.
    LaunchAs {
        user: S,
        domain: Option<S>,
        password: S,
        exe: S,
        command_line: Option<S>,
        working_dir: Option<S>,
    },
    /// Nothing: the switch has not begun, or is over.
    Nothing,
}

impl View for SwitchAction<String> {
    type V = SwitchAction<Seq<char>>;

    open spec fn view(&self) -> Self::V {
        match self {
            SwitchAction::KillClientProcesses => SwitchAction::KillClientProcesses,
            SwitchAction::CloseStaleLocks => SwitchAction::CloseStaleLocks,
            SwitchAction::LoadConfig => SwitchAction::LoadConfig,
            SwitchAction::RotateOut(id) => SwitchAction::RotateOut(id@),
            SwitchAction::DeleteActive => SwitchAction::DeleteActive,
            SwitchAction::Restore(id) => SwitchAction::Restore(id@),
            SwitchAction::SaveLastActive(id) => SwitchAction::SaveLastActive(id@),
            SwitchAction::LocateClient => SwitchAction::LocateClient,
            SwitchAction::Identify => SwitchAction::Identify,
            SwitchAction::RefreshPasswordPolicy { user, never_expires } => SwitchAction::RefreshPasswordPolicy {
                user: user@,
                never_expires: *never_expires,
            },
            SwitchAction::ResetPassword { user, password } => SwitchAction::ResetPassword {
                user: user@,
                password: password@,
            },
            SwitchAction::SpawnDirect { exe, working_dir } => SwitchAction::SpawnDirect {
                exe: exe@,
                working_dir: working_dir.deep_view(),
            },
            SwitchAction::LaunchAs { user, domain, password, exe, command_line, working_dir } => SwitchAction::LaunchAs {
                user: user@,
                domain: domain.deep_view(),
                password: password@,
                exe: exe@,
                command_line: command_line.deep_view(),
                working_dir: working_dir.deep_view(),
            },
            SwitchAction::Nothing => SwitchAction::Nothing,
        }
    }
}

/// How one outside operation of a switch ended.
#[derive(Debug, PartialEq, Eq)]
pub enum SwitchEvent<S> {
    /// This many client processes were terminated.
    ProcessesKilled(usize),
    /// The sweep for stale locks ended: whether the debug privilege was
    /// gained, and the number of locks closed or the text of the failure.
    LocksSwept { debug_privilege: bool, outcome: Result<usize, S> },
    /// The configuration was read: the account that was active last, if any.
    /// `None` says that the configuration could not be read.
    ConfigLoaded(Option<Option<S>>),
    /// The backup of the previous account ended: whether the active file was
    /// there and a copy of it was made, or why the backup failed.
    BackedUp(Result<bool, FileSwapError<S>>),
    /// The removal of the active file, or a restore, ended.
    Stored(Result<(), FileSwapError<S>>),
    /// The configuration was written, or could not be.
    Saved(bool),
    /// The executable of the client and its directory, or `None` where no
    /// usable executable was found.
    Located(Option<(S, Option<S>)>),
    /// The user who runs this process: as the system tells it, and the bare
    /// name of the environment.
    Identified { whoami: S, env_username: S },
    /// A call into the operating system's account services ended.
    ProviderAnswered(Result<(), S>),
    /// The direct start ended: the process identifier, or the text of the failure.
    Spawned(Result<u32, S>),
    /// The impersonated launch ended.
    Launched(Result<ProcessLaunchResult, LaunchFailure<S>>),
}

impl View for SwitchEvent<String> {
    type V = SwitchEvent<Seq<char>>;

    open spec fn view(&self) -> Self::V {
        match self {
            SwitchEvent::ProcessesKilled(n) => SwitchEvent::ProcessesKilled(*n),
            SwitchEvent::LocksSwept { debug_privilege, outcome } => SwitchEvent::LocksSwept {
                debug_privilege: *debug_privilege,
                outcome: match outcome {
                    Ok(n) => Ok(*n),
                    Err(m) => Err(m@),
                },
            },
            SwitchEvent::ConfigLoaded(last) => SwitchEvent::ConfigLoaded(
                match last {
                    Some(id) => Some(id.deep_view()),
                    None => None,
                },
            ),
            SwitchEvent::BackedUp(r) => SwitchEvent::BackedUp(
                match r {
                    Ok(copied) => Ok(*copied),
                    Err(e) => Err(e@),
                },
            ),
            SwitchEvent::Stored(r) => SwitchEvent::Stored(
                match r {
                    Ok(_) => Ok(()),
                    Err(e) => Err(e@),
                },
            ),
            SwitchEvent::Saved(ok) => SwitchEvent::Saved(*ok),
            SwitchEvent::Located(found) => SwitchEvent::Located(
                match found {
                    Some((exe, working_dir)) => Some((exe@, working_dir.deep_view())),
                    None => None,
                },
            ),
            SwitchEvent::Identified { whoami, env_username } => SwitchEvent::Identified {
                whoami: whoami@,
                env_username: env_username@,
            },
            SwitchEvent::ProviderAnswered(r) => SwitchEvent::ProviderAnswered(
                match r {
                    Ok(_) => Ok(()),
                    Err(m) => Err(m@),
                },
            ),
            SwitchEvent::Spawned(r) => SwitchEvent::Spawned(
                match r {
                    Ok(pid) => Ok(*pid),
                    Err(m) => Err(m@),
                },
            ),
            SwitchEvent::Launched(r) => SwitchEvent::Launched(
                match r {
                    Ok(p) => Ok(*p),
                    Err(f) => Err(f@),
                },
            ),
        }
    }
}

/// The switch of the active account to `account`.
#[derive(Debug, Clone, PartialEq, Eq)]
pub struct Switch<S> {
    /// The target account.
    pub account: Account<S>,
    /// Where the switch stands.
    pub stage: SwitchStage<S>,
}

impl View for Switch<String> {
    type V = Switch<Seq<char>>;

    open spec fn view(&self) -> Self::V {
        Switch { account: self.account@, stage: self.stage@ }
    }
}

/// The stage at which the launch begins, once the plan is made: the first
/// preparation that the plan asks for, or the start itself.
pub open spec fn stage_after_plan(plan: LaunchPlan<Seq<char>>) -> SwitchStage<Seq<char>> {
    match plan {
        LaunchPlan::Direct { .. } => SwitchStage::Starting { plan },
        LaunchPlan::Impersonated { refresh_policy, reset_password, .. } => if refresh_policy {
            SwitchStage::RefreshingPolicy { plan }
        } else if reset_password {
            SwitchStage::ResettingPassword { plan }
        } else {
            SwitchStage::Starting { plan }
        },
    }
}

/// The stage that follows the renewal of the password policy, however it ended.
pub open spec fn stage_after_policy(plan: LaunchPlan<Seq<char>>) -> SwitchStage<Seq<char>> {
    match plan {
        LaunchPlan::Impersonated { reset_password: true, .. } => SwitchStage::ResettingPassword {
            plan,
        },
        _ => SwitchStage::Starting { plan },
    }
}

impl Switch<Seq<char>> {
    /// The name of the state that the switch is in.
    pub open spec fn phase(self) -> SwitchPhase {
        match self.stage {
            SwitchStage::Idle => SwitchPhase::Idle,
            SwitchStage::Killing => SwitchPhase::Cleaning,
            SwitchStage::Sweeping => SwitchPhase::Cleaning,
            SwitchStage::LoadingConfig => SwitchPhase::Cleaning,
            SwitchStage::BackingUp { .. } => SwitchPhase::BackingUp,
            SwitchStage::ClearingActive { .. } => SwitchPhase::ClearingActive,
            SwitchStage::Restoring { .. } => SwitchPhase::Restoring,
            SwitchStage::RollingBack { .. } => SwitchPhase::RollingBack,
            SwitchStage::Persisting => SwitchPhase::Launching,
            SwitchStage::Locating => SwitchPhase::Launching,
            SwitchStage::Identifying { .. } => SwitchPhase::Launching,
            SwitchStage::RefreshingPolicy { .. } => SwitchPhase::Launching,
            SwitchStage::ResettingPassword { .. } => SwitchPhase::Launching,
            SwitchStage::Starting { .. } => SwitchPhase::Launching,
            SwitchStage::Committed { .. } => SwitchPhase::Committed,
            SwitchStage::Failed { .. } => SwitchPhase::Failed,
        }
    }

    /// The operation that the switch asks for.
    pub open spec fn action(self) -> SwitchAction<Seq<char>> {
        match self.stage {
            SwitchStage::Idle => SwitchAction::Nothing,
            SwitchStage::Killing => SwitchAction::KillClientProcesses,
            SwitchStage::Sweeping => SwitchAction::CloseStaleLocks,
            SwitchStage::LoadingConfig => SwitchAction::LoadConfig,
            SwitchStage::BackingUp { previous } => SwitchAction::RotateOut(previous),
            SwitchStage::ClearingActive { .. } => SwitchAction::DeleteActive,
            SwitchStage::Restoring { .. } => SwitchAction::Restore(self.account.id),
            SwitchStage::RollingBack { previous, .. } => SwitchAction::Restore(previous),
            SwitchStage::Persisting => SwitchAction::SaveLastActive(self.account.id),
            SwitchStage::Locating => SwitchAction::LocateClient,
            SwitchStage::Identifying { .. } => SwitchAction::Identify,
            SwitchStage::RefreshingPolicy { plan } => match plan {
                LaunchPlan::Impersonated { user, .. } => SwitchAction::RefreshPasswordPolicy {
                    user,
                    never_expires: true,
                },
                LaunchPlan::Direct { .. } => SwitchAction::Nothing,
            },
            SwitchStage::ResettingPassword { plan } => match plan {
                LaunchPlan::Impersonated { user, password, .. } => SwitchAction::ResetPassword {
                    user,
                    password,
                },
                LaunchPlan::Direct { .. } => SwitchAction::Nothing,
            },
            SwitchStage::Starting { plan } => match plan {
                LaunchPlan::Direct { exe, working_dir } => SwitchAction::SpawnDirect {
                    exe,
                    working_dir,
                },
                LaunchPlan::Impersonated { user, domain, password, exe, working_dir, .. } => SwitchAction::LaunchAs {
                    user,
                    domain,
                    password,
                    exe,
                    command_line: None,
                    working_dir,
                },
            },
            SwitchStage::Committed { .. } => SwitchAction::Nothing,
            SwitchStage::Failed { .. } => SwitchAction::Nothing,
        }
    }

    /// The switch once it is begun.
    pub open spec fn begin(self) -> Switch<Seq<char>> {
        match self.stage {
            SwitchStage::Idle => Switch { stage: SwitchStage::Killing, ..self },
            _ => self,
        }
    }

    /// The stage after the operation asked for ended as `event` tells.
    ///
    /// Cleaning is best effort: whatever the termination of processes and the
    /// sweep for locks report, the switch goes on. A configuration that cannot
    /// be read ends it. The backup runs only if another account was active
    /// last, and its failure does not stop the switch; that it made a copy of
    /// the active file is remembered. A failed clearing of the active file
    /// ends the switch with that error. A failed restore ends it with that
    /// error too, after the snapshot of the previous account was tried to be
    /// brought back, once, if its backup had made a copy; a backup that found
    /// no active file and copied nothing leaves nothing to bring back. How
    /// that attempt ends changes nothing.
    /// The target is recorded before the client is looked for and started,
    /// and stays recorded when that fails. An answer that was not asked for
    /// changes nothing.
    pub open spec fn step(self, event: SwitchEvent<Seq<char>>) -> Switch<Seq<char>> {
        let stage = match (self.stage, event) {
            (SwitchStage::Killing, SwitchEvent::ProcessesKilled(_)) => SwitchStage::Sweeping,
            (SwitchStage::Sweeping, SwitchEvent::LocksSwept { .. }) => SwitchStage::LoadingConfig,
            (SwitchStage::LoadingConfig, SwitchEvent::ConfigLoaded(None)) => SwitchStage::Failed {
                error: AccountError::InvalidPath,
            },
            (SwitchStage::LoadingConfig, SwitchEvent::ConfigLoaded(Some(last))) => if last is Some
                && last->0 != self.account.id {
                SwitchStage::BackingUp { previous: last->0 }
            } else {
                SwitchStage::ClearingActive { rotated: None }
            },
            (SwitchStage::BackingUp { previous }, SwitchEvent::BackedUp(r)) => SwitchStage::ClearingActive {
                rotated: if r is Ok && r->Ok_0 {
                    Some(previous)
                } else {
                    None
                },
            },
            (SwitchStage::ClearingActive { rotated }, SwitchEvent::Stored(Ok(_))) => SwitchStage::Restoring {
                rotated,
            },
            (SwitchStage::ClearingActive { rotated }, SwitchEvent::Stored(Err(e))) => SwitchStage::Failed {
                error: AccountError::FileSwap(e),
            },
            (SwitchStage::Restoring { rotated }, SwitchEvent::Stored(Ok(_))) => SwitchStage::Persisting,
            (SwitchStage::Restoring { rotated }, SwitchEvent::Stored(Err(e))) => match rotated {
                Some(previous) => SwitchStage::RollingBack { previous, error: e },
                None => SwitchStage::Failed { error: AccountError::FileSwap(e) },
            },
            (SwitchStage::RollingBack { previous, error }, SwitchEvent::Stored(_)) => SwitchStage::Failed {
                error: AccountError::FileSwap(error),
            },
            (SwitchStage::Persisting, SwitchEvent::Saved(_)) => SwitchStage::Locating,
            (SwitchStage::Locating, SwitchEvent::Located(None)) => SwitchStage::Failed {
                error: AccountError::InvalidPath,
            },
            (SwitchStage::Locating, SwitchEvent::Located(Some(found))) => SwitchStage::Identifying {
                exe: found.0,
                working_dir: found.1,
            },
            (
                SwitchStage::Identifying { exe, working_dir },
                SwitchEvent::Identified { whoami, env_username },
            ) => stage_after_plan(launch_plan(self.account, whoami, env_username, exe, working_dir)),
            (SwitchStage::RefreshingPolicy { plan }, SwitchEvent::ProviderAnswered(_)) => stage_after_policy(plan),
            (SwitchStage::ResettingPassword { plan }, SwitchEvent::ProviderAnswered(_)) => SwitchStage::Starting {
                plan,
            },
            (SwitchStage::Starting { plan }, SwitchEvent::Spawned(r)) => match plan {
                LaunchPlan::Direct { .. } => match r {
                    Ok(pid) => SwitchStage::Committed { pid },
                    Err(text) => SwitchStage::Failed {
                        error: AccountError::LaunchError(LaunchFailure::Spawn(text)),
                    },
                },
                LaunchPlan::Impersonated { .. } => self.stage,
            },
            (SwitchStage::Starting { plan }, SwitchEvent::Launched(r)) => match plan {
                LaunchPlan::Impersonated { .. } => match r {
                    Ok(p) => SwitchStage::Committed { pid: p.process_id },
                    Err(failure) => SwitchStage::Failed {
                        error: AccountError::LaunchError(failure),
                    },
                },
                LaunchPlan::Direct { .. } => self.stage,
            },
            _ => self.stage,
        };
        Switch { stage, ..self }
    }

    /// The outcome of the switch, once it is over.
    pub open spec fn outcome(self) -> Option<Result<u32, AccountError<Seq<char>>>> {
        match self.stage {
            SwitchStage::Committed { pid } => Some(Ok(pid)),
            SwitchStage::Failed { error } => Some(Err(error)),
            _ => None,
        }
    }
}

/// The view of the outcome of a switch.
pub open spec fn switch_outcome_view(r: Result<u32, AccountError<String>>) -> Result<
    u32,
    AccountError<Seq<char>>,
> {
    match r {
        Ok(pid) => Ok(pid),
        Err(e) => Err(e@),
    }
}

fn stage_for(plan: LaunchPlan<String>) -> (stage: SwitchStage<String>)
    ensures
        stage@ == stage_after_plan(plan@),
{
    let (refresh, reset) = match &plan {
        LaunchPlan::Direct { .. } => (false, false),
        LaunchPlan::Impersonated { refresh_policy, reset_password, .. } => (
            *refresh_policy,
            *reset_password,
        ),
    };
    if refresh {
        SwitchStage::RefreshingPolicy { plan }
    } else if reset {
        SwitchStage::ResettingPassword { plan }
    } else {
        SwitchStage::Starting { plan }
    }
}

fn stage_past_policy(plan: LaunchPlan<String>) -> (stage: SwitchStage<String>)
    ensures
        stage@ == stage_after_policy(plan@),
{
    let reset = match &plan {
        LaunchPlan::Direct { .. } => false,
        LaunchPlan::Impersonated { reset_password, .. } => *reset_password,
    };
    if reset {
        SwitchStage::ResettingPassword { plan }
    } else {
        SwitchStage::Starting { plan }
    }
}

/// Begins nothing yet: the switch of the active account to `account`, idle.
pub fn launch_game(account: Account<String>) -> (switch: Switch<String>)
    ensures
        switch@ == (Switch { account: account@, stage: SwitchStage::<Seq<char>>::Idle }),
{
    Switch { account, stage: SwitchStage::Idle }
}

impl Switch<String> {
    /// Begins the switch.
    pub fn begin(self) -> (next: Switch<String>)
        ensures
            next@ == self@.begin(),
    {
        let Switch { account, stage } = self;
        match stage {
            SwitchStage::Idle => Switch { account, stage: SwitchStage::Killing },
            other => Switch { account, stage: other },
        }
    }

    /// The name of the state that the switch is in.
    pub fn phase(&self) -> (phase: SwitchPhase)
        ensures
            phase == self@.phase(),
    {
        match &self.stage {
            SwitchStage::Idle => SwitchPhase::Idle,
            SwitchStage::Killing => SwitchPhase::Cleaning,
            SwitchStage::Sweeping => SwitchPhase::Cleaning,
            SwitchStage::LoadingConfig => SwitchPhase::Cleaning,
            SwitchStage::BackingUp { .. } => SwitchPhase::BackingUp,
            SwitchStage::ClearingActive { .. } => SwitchPhase::ClearingActive,
            SwitchStage::Restoring { .. } => SwitchPhase::Restoring,
            SwitchStage::RollingBack { .. } => SwitchPhase::RollingBack,
            SwitchStage::Persisting => SwitchPhase::Launching,
            SwitchStage::Locating => SwitchPhase::Launching,
            SwitchStage::Identifying { .. } => SwitchPhase::Launching,
            SwitchStage::RefreshingPolicy { .. } => SwitchPhase::Launching,
            SwitchStage::ResettingPassword { .. } => SwitchPhase::Launching,
            SwitchStage::Starting { .. } => SwitchPhase::Launching,
            SwitchStage::Committed { .. } => SwitchPhase::Committed,
            SwitchStage::Failed { .. } => SwitchPhase::Failed,
        }
    }

    /// The operation that the switch asks for.
    pub fn action(&self) -> (action: SwitchAction<String>)
        ensures
            action@ == self@.action(),
    {
        match &self.stage {
            SwitchStage::Idle => SwitchAction::Nothing,
            SwitchStage::Killing => SwitchAction::KillClientProcesses,
            SwitchStage::Sweeping => SwitchAction::CloseStaleLocks,
            SwitchStage::LoadingConfig => SwitchAction::LoadConfig,
            SwitchStage::BackingUp { previous } => SwitchAction::RotateOut(previous.clone()),
            SwitchStage::ClearingActive { .. } => SwitchAction::DeleteActive,
            SwitchStage::Restoring { .. } => SwitchAction::Restore(self.account.id.clone()),
            SwitchStage::RollingBack { previous, .. } => SwitchAction::Restore(previous.clone()),
            SwitchStage::Persisting => SwitchAction::SaveLastActive(self.account.id.clone()),
            SwitchStage::Locating => SwitchAction::LocateClient,
            SwitchStage::Identifying { .. } => SwitchAction::Identify,
            SwitchStage::RefreshingPolicy { plan } => match plan {
                LaunchPlan::Impersonated { user, .. } => SwitchAction::RefreshPasswordPolicy {
                    user: user.clone(),
                    never_expires: true,
                },
                LaunchPlan::Direct { .. } => SwitchAction::Nothing,
            },
            SwitchStage::ResettingPassword { plan } => match plan {
                LaunchPlan::Impersonated { user, password, .. } => SwitchAction::ResetPassword {
                    user: user.clone(),
                    password: password.clone(),
                },
                LaunchPlan::Direct { .. } => SwitchAction::Nothing,
            },
            SwitchStage::Starting { plan } => match plan {
                LaunchPlan::Direct { exe, working_dir } => SwitchAction::SpawnDirect {
                    exe: exe.clone(),
                    working_dir: clone_text(working_dir),
                },
                LaunchPlan::Impersonated { user, domain, password, exe, working_dir, .. } => SwitchAction::LaunchAs {
                    user: user.clone(),
                    domain: clone_text(domain),
                    password: password.clone(),
                    exe: exe.clone(),
                    command_line: None,
                    working_dir: clone_text(working_dir),
                },
            },
            SwitchStage::Committed { .. } => SwitchAction::Nothing,
            SwitchStage::Failed { .. } => SwitchAction::Nothing,
        }
    }

    /// Whether the switch is over.
    pub fn is_over(&self) -> (r: bool)
        ensures
            r == (self@.outcome() is Some),
    {
        match &self.stage {
            SwitchStage::Committed { .. } => true,
            SwitchStage::Failed { .. } => true,
            _ => false,
        }
    }

    /// The outcome of the switch, once it is over: the identifier of the
    /// process that runs the client, or the one error that ended the switch.
    pub fn outcome(self) -> (r: Option<Result<u32, AccountError<String>>>)
        ensures
            match r {
                Some(o) => self@.outcome() == Some(switch_outcome_view(o)),
                None => self@.outcome() is None,
            },
    {
        match self.stage {
            SwitchStage::Committed { pid } => Some(Ok(pid)),
            SwitchStage::Failed { error } => Some(Err(error)),
            _ => None,
        }
    }

    /// Takes the answer to the operation asked for.
    pub fn step(self, event: SwitchEvent<String>) -> (next: Switch<String>)
        ensures
            next@ == self@.step(event@),
    {
        let Switch { account, stage } = self;
        let stage = match stage {
            SwitchStage::Killing => match event {
                SwitchEvent::ProcessesKilled(_) => SwitchStage::Sweeping,
                _ => SwitchStage::Killing,
            },
            SwitchStage::Sweeping => match event {
                SwitchEvent::LocksSwept { .. } => SwitchStage::LoadingConfig,
                _ => SwitchStage::Sweeping,
            },
            SwitchStage::LoadingConfig => match event {
                SwitchEvent::ConfigLoaded(None) => SwitchStage::Failed {
                    error: AccountError::InvalidPath,
                },
                SwitchEvent::ConfigLoaded(Some(last)) => match last {
                    Some(previous) => {
                        if str_eq(previous.as_str(), account.id.as_str()) {
                            SwitchStage::ClearingActive { rotated: None }
                        } else {
                            SwitchStage::BackingUp { previous }
                        }
                    },
                    None => SwitchStage::ClearingActive { rotated: None },
                },
                _ => SwitchStage::LoadingConfig,
            },
            SwitchStage::BackingUp { previous } => match event {
                SwitchEvent::BackedUp(Ok(true)) => SwitchStage::ClearingActive {
                    rotated: Some(previous),
                },
                SwitchEvent::BackedUp(_) => SwitchStage::ClearingActive { rotated: None },
                _ => SwitchStage::BackingUp { previous },
            },
            SwitchStage::ClearingActive { rotated } => match event {
                SwitchEvent::Stored(Ok(_)) => SwitchStage::Restoring { rotated },
                SwitchEvent::Stored(Err(e)) => SwitchStage::Failed {
                    error: AccountError::FileSwap(e),
                },
                _ => SwitchStage::ClearingActive { rotated },
            },
            SwitchStage::Restoring { rotated } => match event {
                SwitchEvent::Stored(Ok(_)) => SwitchStage::Persisting,
                SwitchEvent::Stored(Err(e)) => match rotated {
                    Some(previous) => SwitchStage::RollingBack { previous, error: e },
                    None => SwitchStage::Failed { error: AccountError::FileSwap(e) },
                },
                _ => SwitchStage::Restoring { rotated },
            },
            SwitchStage::RollingBack { previous, error } => match event {
                SwitchEvent::Stored(_) => SwitchStage::Failed {
                    error: AccountError::FileSwap(error),
                },
                _ => SwitchStage::RollingBack { previous, error },
            },
            SwitchStage::Persisting => match event {
                SwitchEvent::Saved(_) => SwitchStage::Locating,
                _ => SwitchStage::Persisting,
            },
            SwitchStage::Locating => match event {
                SwitchEvent::Located(None) => SwitchStage::Failed {
                    error: AccountError::InvalidPath,
                },
                SwitchEvent::Located(Some(found)) => SwitchStage::Identifying {
                    exe: found.0,
                    working_dir: found.1,
                },
                _ => SwitchStage::Locating,
            },
            SwitchStage::Identifying { exe, working_dir } => match event {
                SwitchEvent::Identified { whoami, env_username } => stage_for(
                    plan_launch(&account, whoami.as_str(), env_username.as_str(), exe, working_dir),
                ),
                _ => SwitchStage::Identifying { exe, working_dir },
            },
            SwitchStage::RefreshingPolicy { plan } => match event {
                SwitchEvent::ProviderAnswered(_) => stage_past_policy(plan),
                _ => SwitchStage::RefreshingPolicy { plan },
            },
            SwitchStage::ResettingPassword { plan } => match event {
                SwitchEvent::ProviderAnswered(_) => SwitchStage::Starting { plan },
                _ => SwitchStage::ResettingPassword { plan },
            },
            SwitchStage::Starting { plan } => match plan {
                LaunchPlan::Direct { exe, working_dir } => match event {
                    SwitchEvent::Spawned(Ok(pid)) => SwitchStage::Committed { pid },
                    SwitchEvent::Spawned(Err(text)) => SwitchStage::Failed {
                        error: AccountError::LaunchError(LaunchFailure::Spawn(text)),
                    },
                    _ => SwitchStage::Starting { plan: LaunchPlan::Direct { exe, working_dir } },
                },
                other => match event {
                    SwitchEvent::Launched(Ok(p)) => SwitchStage::Committed { pid: p.process_id },
                    SwitchEvent::Launched(Err(failure)) => SwitchStage::Failed {
                        error: AccountError::LaunchError(failure),
                    },
                    _ => SwitchStage::Starting { plan: other },
                },
            },
            SwitchStage::Idle => SwitchStage::Idle,
            SwitchStage::Committed { pid } => SwitchStage::Committed { pid },
            SwitchStage::Failed { error } => SwitchStage::Failed { error },
        };
        Switch { account, stage }
    }
}

/// Carries out, by the operating system's services `os`, what `action` asks
/// for, where it is one of theirs: the setting of the password policy, the
/// setting of the password, the impersonated launch. What is handed to the
/// services are the fields of the action and nothing else; whatever the
/// services answer becomes the answer to the action. An action that is not
/// theirs is left alone.
pub fn ask_provider<P: OSProvider + ?Sized>(os: &P, action: &SwitchAction<String>) -> (event: Option<
    SwitchEvent<String>,
>)
    ensures
        event is Some <==> (action is RefreshPasswordPolicy || action is ResetPassword || action
            is LaunchAs),
        action is RefreshPasswordPolicy || action is ResetPassword ==> event->0
            is ProviderAnswered,
        action is LaunchAs ==> event->0 is Launched,
{
    match action {
        SwitchAction::RefreshPasswordPolicy { user, never_expires } => Some(
            SwitchEvent::ProviderAnswered(
                os.set_password_never_expires(user.as_str(), *never_expires),
            ),
        ),
        SwitchAction::ResetPassword { user, password } => Some(
            SwitchEvent::ProviderAnswered(os.reset_password(user.as_str(), password.as_str())),
        ),
        SwitchAction::LaunchAs { user, domain, password, exe, command_line, working_dir } => Some(
            SwitchEvent::Launched(
                os.create_process_with_logon(
                    user.as_str(),
                    borrowed(domain),
                    password.as_str(),
                    exe.as_str(),
                    borrowed(command_line),
                    borrowed(working_dir),
                ),
            ),
        ),
        _ => None,
    }
}

fn borrowed(text: &Option<String>) -> (r: Option<&str>)
    ensures
        r is Some <==> text is Some,
        r is Some ==> r->0@ == text->0@,
{
    match text {
        Some(t) => Some(t.as_str()),
        None => None,
    }
}

/// How many operations a switch at this stage asks for at most.
pub open spec fn switch_rank(stage: SwitchStage<Seq<char>>) -> nat {
    match stage {
        SwitchStage::Idle => 0,
        SwitchStage::Killing => 14,
        SwitchStage::Sweeping => 13,
        SwitchStage::LoadingConfig => 12,
        SwitchStage::BackingUp { .. } => 11,
        SwitchStage::ClearingActive { .. } => 10,
        SwitchStage::Restoring { .. } => 9,
        SwitchStage::RollingBack { .. } => 8,
        SwitchStage::Persisting => 7,
        SwitchStage::Locating => 6,
        SwitchStage::Identifying { .. } => 5,
        SwitchStage::RefreshingPolicy { .. } => 4,
        SwitchStage::ResettingPassword { .. } => 3,
        SwitchStage::Starting { .. } => 2,
        SwitchStage::Committed { .. } => 0,
        SwitchStage::Failed { .. } => 0,
    }
}

/// A stage that a switch can be at: the preparations of a launch belong to an
/// impersonated launch.
pub open spec fn stage_consistent(stage: SwitchStage<Seq<char>>) -> bool {
    match stage {
        SwitchStage::RefreshingPolicy { plan } => plan is Impersonated,
        SwitchStage::ResettingPassword { plan } => plan is Impersonated,
        _ => true,
    }
}

/// The states that may follow a state, by name.
pub open spec fn may_follow(from: SwitchPhase, to: SwitchPhase) -> bool {
    match from {
        SwitchPhase::Idle => to == SwitchPhase::Cleaning,
        SwitchPhase::Cleaning => to == SwitchPhase::BackingUp || to == SwitchPhase::ClearingActive
            || to == SwitchPhase::Failed,
        SwitchPhase::BackingUp => to == SwitchPhase::ClearingActive,
        SwitchPhase::ClearingActive => to == SwitchPhase::Restoring || to == SwitchPhase::Failed,
        SwitchPhase::Restoring => to == SwitchPhase::Launching || to == SwitchPhase::RollingBack
            || to == SwitchPhase::Failed,
        SwitchPhase::RollingBack => to == SwitchPhase::Failed,
        SwitchPhase::Launching => to == SwitchPhase::Committed || to == SwitchPhase::Failed,
        SwitchPhase::Committed => false,
        SwitchPhase::Failed => false,
    }
}

/// The order of the states. A switch passes through its states in the one
/// order `Idle`, `Cleaning`, `BackingUp`, `ClearingActive`, `Restoring`,
/// `Launching`, `Committed`, with `RollingBack` as the one branch; a state
/// may be left out, none comes twice. Every answer that changes the stage
/// brings the switch closer to its end, so a switch is over after at most 14
/// answers.
pub proof fn law_states_in_order(switch: Switch<Seq<char>>, event: SwitchEvent<Seq<char>>)
    requires
        stage_consistent(switch.stage),
    ensures
        stage_consistent(switch.begin().stage),
        stage_consistent(switch.step(event).stage),
        switch.step(event).account == switch.account,
        switch.step(event).phase() == switch.phase() || may_follow(
            switch.phase(),
            switch.step(event).phase(),
        ),
        switch.stage is Idle ==> may_follow(switch.phase(), switch.begin().phase()),
        switch.step(event).stage != switch.stage ==> switch_rank(switch.step(event).stage)
            < switch_rank(switch.stage),
        switch_rank(switch.stage) <= 14,
        switch.action() is Nothing <==> (switch.stage is Idle || switch.outcome() is Some),
{
}

/// What is best effort and what is fatal. The termination of processes, the
/// sweep for locks and the backup of the previous account never end the
/// switch, however they end. A clearing of the active file that fails ends
/// the switch at once with that error. The rollback is entered only by a
/// failed restore after a backup that made a copy of the active file; it asks
/// for one restore, of the previous account, and whatever the answer, the
/// switch ends with the error of the failed restore. The password policy is
/// always set to "never expires", and the impersonated launch has no command
/// line.
pub proof fn law_best_effort_and_fatal(switch: Switch<Seq<char>>, event: SwitchEvent<Seq<char>>)
    ensures
        (switch.stage is Killing || switch.stage is Sweeping || switch.stage is BackingUp)
            ==> !(switch.step(event).stage is Failed),
        switch.stage is ClearingActive && event is Stored && event->Stored_0 is Err
            ==> switch.step(event).outcome() == Some(
            Err::<u32, AccountError<Seq<char>>>(AccountError::FileSwap(event->Stored_0->Err_0)),
        ),
        switch.step(event).stage is RollingBack && !(switch.stage is RollingBack) ==> {
            &&& switch.stage is Restoring
            &&& switch.stage->Restoring_rotated is Some
            &&& event is Stored
            &&& event->Stored_0 is Err
            &&& switch.step(event).stage == (SwitchStage::RollingBack {
                previous: switch.stage->Restoring_rotated->0,
                error: event->Stored_0->Err_0,
            })
        },
        switch.stage is RollingBack ==> switch.action() == SwitchAction::Restore(
            switch.stage->RollingBack_previous,
        ),
        switch.stage is RollingBack && event is Stored ==> switch.step(event).outcome() == Some(
            Err::<u32, AccountError<Seq<char>>>(
                AccountError::FileSwap(switch.stage->RollingBack_error),
            ),
        ),
        switch.step(event).stage is ClearingActive && switch.stage is BackingUp ==> (
        switch.step(event).stage->ClearingActive_rotated is Some <==> event->BackedUp_0 == Ok::<
            bool,
            FileSwapError<Seq<char>>,
        >(true)),
        switch.stage is RefreshingPolicy && switch.action() is RefreshPasswordPolicy
            ==> switch.action()->never_expires,
        switch.action() is LaunchAs ==> switch.action()->command_line is None,
{
}

/// The target is recorded before the client is started. The record is asked
/// for right after the restore succeeded, and the search for the executable
/// and the start come only after it was answered; the switch asks for no
/// file operation once the record was asked for.
pub proof fn law_recorded_before_launch(switch: Switch<Seq<char>>, event: SwitchEvent<Seq<char>>)
    ensures
        switch.stage is Persisting ==> switch.action() == SwitchAction::SaveLastActive(
            switch.account.id,
        ),
        switch.step(event).stage is Persisting && !(switch.stage is Persisting) ==> switch.stage
            is Restoring && event is Stored && event->Stored_0 is Ok,
        switch.step(event).stage is Locating && !(switch.stage is Locating) ==> switch.stage
            is Persisting,
        (switch.action() is SpawnDirect || switch.action() is LaunchAs) ==> switch_rank(
            switch.stage,
        ) < switch_rank(SwitchStage::<Seq<char>>::Persisting),
        switch_rank(switch.stage) <= switch_rank(SwitchStage::<Seq<char>>::Persisting) ==> !(
        switch.action() is RotateOut || switch.action() is DeleteActive || switch.action()
            is Restore),
{
}

/// The preparations of an impersonated launch are best effort: however the
/// renewal of the password policy and the setting of the password end, the
/// switch goes on to start the client, with the plan unchanged.
pub proof fn law_preparations_do_not_stop_launch(
    switch: Switch<Seq<char>>,
    first: Result<(), Seq<char>>,
    second: Result<(), Seq<char>>,
)
    requires
        switch.stage is RefreshingPolicy || switch.stage is ResettingPassword,
    ensures
        ({
            let plan = match switch.stage {
                SwitchStage::RefreshingPolicy { plan } => plan,
                SwitchStage::ResettingPassword { plan } => plan,
                _ => arbitrary(),
            };
            let once = switch.step(SwitchEvent::ProviderAnswered(first));
            let twice = once.step(SwitchEvent::ProviderAnswered(second));
            once.stage == (SwitchStage::Starting { plan }) || twice.stage == (SwitchStage::Starting {
                plan,
            })
        }),
{
}

} // verus!
