//! The privileged launcher: the interface to the operating system's account and
//! process services, the arguments of an impersonated launch, and the launch
//! itself with its fallback, as a state machine that asks for one outside
//! operation at a time.

use vstd::prelude::*;
use crate::text::to_chars;

verus! {

/// The identifiers of a process that was started.
#[derive(Debug, Clone, Copy, PartialEq, Eq, Structural)]
pub struct ProcessLaunchResult {
    /// The identifier of the process.
    pub process_id: u32,
    /// The identifier of its first thread.
    pub thread_id: u32,
}

/// Why a launch failed, with the text that the system gave.
#[derive(Debug, Clone, PartialEq, Eq)]
pub enum LaunchFailure<S> {
    /// The executable could not be started directly.
    Spawn(S),
    /// The logon of the target user was refused.
    Logon(S),
    /// The logon succeeded and the creation of the process failed.
    ProcessCreation(S),
}

impl View for LaunchFailure<String> {
    type V = LaunchFailure<Seq<char>>;

    open spec fn view(&self) -> Self::V {
        match self {
            LaunchFailure::Spawn(m) => LaunchFailure::Spawn(m@),
            LaunchFailure::Logon(m) => LaunchFailure::Logon(m@),
            LaunchFailure::ProcessCreation(m) => LaunchFailure::ProcessCreation(m@),
        }
    }
}

/// The text shown for a failed launch.
pub open spec fn failure_text(failure: LaunchFailure<Seq<char>>) -> Seq<char> {
    match failure {
        LaunchFailure::Spawn(m) => "Failed to spawn process: "@ + m,
        LaunchFailure::Logon(m) => "LogonUserW failed: "@ + m,
        LaunchFailure::ProcessCreation(m) => "CreateProcessAsUserW failed: "@ + m,
    }
}

impl LaunchFailure<String> {
    /// The text shown for this failure.
    pub fn message(&self) -> (r: String)
        ensures
            r@ == failure_text(self@),
    {
        match self {
            LaunchFailure::Spawn(m) => String::from_str("Failed to spawn process: ").concat(
                m.as_str(),
            ),
            LaunchFailure::Logon(m) => String::from_str("LogonUserW failed: ").concat(m.as_str()),
            LaunchFailure::ProcessCreation(m) => String::from_str(
                "CreateProcessAsUserW failed: ",
            ).concat(m.as_str()),
        }
    }
}

/// The services of the operating system that the switch of an account needs.
/// A failure comes with the text that the system gave.
pub trait OSProvider: Send + Sync {
    /// The user who runs this process, with the domain in front where there is one.
    fn get_whoami(&self) -> String;

    /// The local user accounts, and with `include_registry` also the users of
    /// the profiles that the system keeps.
    fn list_local_users(&self, include_registry: bool) -> Result<Vec<String>, String>;

    /// Creates a local user.
    fn create_user(&self, username: &str, password: &str, never_expires: bool) -> Result<
        (),
        String,
    >;

    /// Sets or clears the flag that keeps the password of a user from expiring.
    fn set_password_never_expires(&self, username: &str, never_expires: bool) -> Result<
        (),
        String,
    >;

    /// Sets the password of a user.
    fn reset_password(&self, username: &str, password: &str) -> Result<(), String>;

    /// Starts an executable as another user.
    fn create_process_with_logon(
        &self,
        username: &str,
        domain: Option<&str>,
        password: &str,
        application_path: &str,
        command_line: Option<&str>,
        current_directory: Option<&str>,
    ) -> Result<ProcessLaunchResult, LaunchFailure<String>>;
}

/// The UTF-16 code units of one character: itself below `0x10000`, else a
/// leading and a trailing surrogate.
pub open spec fn utf16_of(c: char) -> Seq<u16> {
    let v = c as u32;
    if v < 0x1_0000 {
        seq![v as u16]
    } else {
        seq![
            (0xD800 + (v - 0x1_0000) / 0x400) as u16,
            (0xDC00 + (v - 0x1_0000) % 0x400) as u16,
        ]
    }
}

/// The UTF-16 code units of a text.
pub open spec fn utf16_units(s: Seq<char>) -> Seq<u16>
    decreases s.len(),
{
    if s.len() == 0 {
        seq![]
    } else {
        utf16_units(s.drop_last()) + utf16_of(s.last())
    }
}

/// The text as the system's wide-character calls take it: its UTF-16 code
/// units, then a terminating zero.
pub fn to_pcwstr(s: &str) -> (wide: Vec<u16>)
    ensures
        wide@ == utf16_units(s@).push(0),
{
    let chars = to_chars(s);
    let mut wide: Vec<u16> = Vec::new();
    let mut i: usize = 0;
    assert(chars@.take(0) =~= seq![]);
    while i < chars.len()
        invariant
            chars@ == s@,
            i <= chars.len(),
            wide@ == utf16_units(chars@.take(i as int)),
        decreases chars.len() - i,
    {
        let c = chars[i];
        let v: u32 = c as u32;
        proof {
            assert(chars@.take(i + 1).drop_last() =~= chars@.take(i as int));
            assert(chars@.take(i + 1).last() == c);
        }
        let ghost before = wide@;
        if v < 0x1_0000 {
            wide.push(v as u16);
            assert(wide@ =~= before + utf16_of(c));
        } else {
            let high: u32 = 0xD800 + (v - 0x1_0000) / 0x400;
            let low: u32 = 0xDC00 + (v - 0x1_0000) % 0x400;
            wide.push(high as u16);
            wide.push(low as u16);
            assert(wide@ =~= before + utf16_of(c));
        }
        i += 1;
    }
    assert(chars@.take(chars.len() as int) =~= chars@);
    wide.push(0);
    wide
}

/// A copy of a buffer of code units.
pub fn clone_units(units: &Vec<u16>) -> (copy: Vec<u16>)
    ensures
        copy@ == units@,
{
    let mut copy: Vec<u16> = Vec::new();
    let mut i: usize = 0;
    while i < units.len()
        invariant
            i <= units.len(),
            copy@ == units@.take(i as int),
        decreases units.len() - i,
    {
        copy.push(units[i]);
        i += 1;
        assert(copy@ =~= units@.take(i as int));
    }
    assert(units@.take(units.len() as int) =~= units@);
    copy
}

/// The flag of process creation that asks for a console of its own.
pub const CREATE_NEW_CONSOLE: u32 = 0x10;

/// The flag of process creation that says that the environment is in wide characters.
pub const CREATE_UNICODE_ENVIRONMENT: u32 = 0x400;

/// The flags with which both ways of starting the process run: a console of
/// its own, so that the caller's console is not inherited, and a
/// wide-character environment.
pub const LAUNCH_CREATION_FLAGS: u32 = 0x410;

/// The logon flag that loads the profile of the user.
pub const LOGON_WITH_PROFILE: u32 = 1;

/// The arguments of an impersonated launch as the system's calls take them.
#[derive(Debug, Clone, PartialEq, Eq)]
pub struct LogonArguments {
    /// The name of the user, terminated.
    pub username: Vec<u16>,
    /// The domain of the user, terminated, where one is given.
    pub domain: Option<Vec<u16>>,
    /// The password, terminated.
    pub password: Vec<u16>,
    /// The path of the executable, terminated.
    pub application_path: Vec<u16>,
    /// The command line, terminated; empty where none is given.
    pub command_line: Vec<u16>,
    /// The directory in which the process starts, terminated, where one is given.
    pub current_directory: Option<Vec<u16>>,
    /// The logon flags of the first way.
    pub logon_flags: u32,
    /// The creation flags of both ways.
    pub creation_flags: u32,
}

/// The terminated wide form of an optional text.
pub open spec fn wide_option(s: Option<&str>) -> Option<Seq<u16>> {
    match s {
        Some(t) => Some(utf16_units(t@).push(0)),
        None => None,
    }
}

/// The view of an optional buffer of code units.
pub open spec fn units_view(v: Option<Vec<u16>>) -> Option<Seq<u16>> {
    match v {
        Some(w) => Some(w@),
        None => None,
    }
}

fn to_pcwstr_option(s: Option<&str>) -> (wide: Option<Vec<u16>>)
    ensures
        units_view(wide) == wide_option(s),
{
    match s {
        Some(t) => Some(to_pcwstr(t)),
        None => None,
    }
}

/// Puts the arguments of an impersonated launch in the form that the system's
/// calls take.
pub fn logon_arguments(
    username: &str,
    domain: Option<&str>,
    password: &str,
    application_path: &str,
    command_line: Option<&str>,
    current_directory: Option<&str>,
) -> (arguments: LogonArguments)
    ensures
        arguments.username@ == utf16_units(username@).push(0),
        units_view(arguments.domain) == wide_option(domain),
        arguments.password@ == utf16_units(password@).push(0),
        arguments.application_path@ == utf16_units(application_path@).push(0),
        arguments.command_line@ == match command_line {
            Some(line) => utf16_units(line@).push(0),
            None => Seq::<u16>::empty(),
        },
        units_view(arguments.current_directory) == wide_option(current_directory),
        arguments.logon_flags == LOGON_WITH_PROFILE,
        arguments.creation_flags == LAUNCH_CREATION_FLAGS,
        arguments.creation_flags == CREATE_NEW_CONSOLE + CREATE_UNICODE_ENVIRONMENT,
{
    LogonArguments {
        username: to_pcwstr(username),
        domain: to_pcwstr_option(domain),
        password: to_pcwstr(password),
        application_path: to_pcwstr(application_path),
        command_line: match command_line {
            Some(line) => to_pcwstr(line),
            None => Vec::new(),
        },
        current_directory: to_pcwstr_option(current_directory),
        logon_flags: LOGON_WITH_PROFILE,
        creation_flags: LAUNCH_CREATION_FLAGS,
    }
}

/// Where an impersonated launch stands.
#[derive(Debug, PartialEq, Eq)]
pub enum LogonStage<S> {
    /// The first way is being tried: logon and creation in one call.
    WithLogon,
    /// The first way was refused; a logon token is being acquired.
    AcquiringToken,
    /// A token is held; the process is being created under it.
    WithToken,
    /// The creation under the token has ended as told; the token is being released.
    ReleasingToken(Result<ProcessLaunchResult, LaunchFailure<S>>),
    /// The launch is over.
    Done(Result<ProcessLaunchResult, LaunchFailure<S>>),
}

/// The view of the outcome of a launch.
pub open spec fn launch_view(r: Result<ProcessLaunchResult, LaunchFailure<String>>) -> Result<
    ProcessLaunchResult,
    LaunchFailure<Seq<char>>,
> {
    match r {
        Ok(p) => Ok(p),
        Err(e) => Err(e@),
    }
}

impl View for LogonStage<String> {
    type V = LogonStage<Seq<char>>;

    open spec fn view(&self) -> Self::V {
        match self {
            LogonStage::WithLogon => LogonStage::WithLogon,
            LogonStage::AcquiringToken => LogonStage::AcquiringToken,
            LogonStage::WithToken => LogonStage::WithToken,
            LogonStage::ReleasingToken(r) => LogonStage::ReleasingToken(launch_view(*r)),
            LogonStage::Done(r) => LogonStage::Done(launch_view(*r)),
        }
    }
}

/// The one outside operation that an impersonated launch asks for next.
#[derive(Debug, PartialEq, Eq, Structural, Clone, Copy)]
pub enum LogonAction {
    /// Log the user on and create the process in one call.
    CreateWithLogon,
    /// Log the user on interactively and keep the token.
    AcquireToken,
    /// Create the process under the token.
    CreateWithToken,
    /// Release the token.
    ReleaseToken,
    /// Nothing more.
    Finished,
}

/// How one outside operation of an impersonated launch ended.
#[derive(Debug, PartialEq, Eq)]
pub enum LogonEvent<S> {
    /// The creation of the process ended: its identifiers, or the text of the failure.
    Created(Result<ProcessLaunchResult, S>),
    /// The logon ended: the token is held, or the text of the failure.
    TokenAcquired(Result<(), S>),
    /// The token was released.
    TokenReleased,
}

impl View for LogonEvent<String> {
    type V = LogonEvent<Seq<char>>;

    open spec fn view(&self) -> Self::V {
        match self {
            LogonEvent::Created(r) => LogonEvent::Created(
                match r {
                    Ok(p) => Ok(*p),
                    Err(m) => Err(m@),
                },
            ),
            LogonEvent::TokenAcquired(r) => LogonEvent::TokenAcquired(
                match r {
                    Ok(_) => Ok(()),
                    Err(m) => Err(m@),
                },
            ),
            LogonEvent::TokenReleased => LogonEvent::TokenReleased,
        }
    }
}

/// The operation that a launch at this stage asks for.
pub open spec fn logon_action(stage: LogonStage<Seq<char>>) -> LogonAction {
    match stage {
        LogonStage::WithLogon => LogonAction::CreateWithLogon,
        LogonStage::AcquiringToken => LogonAction::AcquireToken,
        LogonStage::WithToken => LogonAction::CreateWithToken,
        LogonStage::ReleasingToken(_) => LogonAction::ReleaseToken,
        LogonStage::Done(_) => LogonAction::Finished,
    }
}

/// The stage after an operation ended. The first way either starts the
/// process, and the launch is over, or is refused, and the second way
/// begins. A refused logon ends the launch as "logon failed". With a token
/// held, the creation of the process ends as it may: the token is released
/// first, and only then is the launch over, with the process or as "process
/// creation failed". An answer that was not asked for changes nothing.
pub open spec fn logon_step(stage: LogonStage<Seq<char>>, event: LogonEvent<Seq<char>>) -> LogonStage<
    Seq<char>,
> {
    match (stage, event) {
        (LogonStage::WithLogon, LogonEvent::Created(Ok(p))) => LogonStage::Done(Ok(p)),
        (LogonStage::WithLogon, LogonEvent::Created(Err(_))) => LogonStage::AcquiringToken,
        (LogonStage::AcquiringToken, LogonEvent::TokenAcquired(Ok(_))) => LogonStage::WithToken,
        (LogonStage::AcquiringToken, LogonEvent::TokenAcquired(Err(m))) => LogonStage::Done(
            Err(LaunchFailure::Logon(m)),
        ),
        (LogonStage::WithToken, LogonEvent::Created(Ok(p))) => LogonStage::ReleasingToken(Ok(p)),
        (LogonStage::WithToken, LogonEvent::Created(Err(m))) => LogonStage::ReleasingToken(
            Err(LaunchFailure::ProcessCreation(m)),
        ),
        (LogonStage::ReleasingToken(r), LogonEvent::TokenReleased) => LogonStage::Done(r),
        _ => stage,
    }
}

/// Begins an impersonated launch: the arguments in the form that the system's
/// calls take, the same for both ways, and the first stage.
pub fn create_process_with_logon(
    username: &str,
    domain: Option<&str>,
    password: &str,
    application_path: &str,
    command_line: Option<&str>,
    current_directory: Option<&str>,
) -> (r: (LogonArguments, LogonStage<String>))
    ensures
        r.1@ == LogonStage::<Seq<char>>::WithLogon,
        r.0.username@ == utf16_units(username@).push(0),
        units_view(r.0.domain) == wide_option(domain),
        r.0.password@ == utf16_units(password@).push(0),
        r.0.application_path@ == utf16_units(application_path@).push(0),
        r.0.command_line@ == match command_line {
            Some(line) => utf16_units(line@).push(0),
            None => Seq::<u16>::empty(),
        },
        units_view(r.0.current_directory) == wide_option(current_directory),
        r.0.logon_flags == LOGON_WITH_PROFILE,
        r.0.creation_flags == LAUNCH_CREATION_FLAGS,
{
    let arguments = logon_arguments(
        username,
        domain,
        password,
        application_path,
        command_line,
        current_directory,
    );
    (arguments, LogonStage::WithLogon)
}

impl LogonStage<String> {
    /// The operation that the launch asks for.
    pub fn action(&self) -> (action: LogonAction)
        ensures
            action == logon_action(self@),
    {
        match self {
            LogonStage::WithLogon => LogonAction::CreateWithLogon,
            LogonStage::AcquiringToken => LogonAction::AcquireToken,
            LogonStage::WithToken => LogonAction::CreateWithToken,
            LogonStage::ReleasingToken(_) => LogonAction::ReleaseToken,
            LogonStage::Done(_) => LogonAction::Finished,
        }
    }

    /// Takes the answer to the operation asked for.
    pub fn step(self, event: LogonEvent<String>) -> (next: LogonStage<String>)
        ensures
            next@ == logon_step(self@, event@),
    {
        match self {
            LogonStage::WithLogon => match event {
                LogonEvent::Created(Ok(p)) => LogonStage::Done(Ok(p)),
                LogonEvent::Created(Err(_)) => LogonStage::AcquiringToken,
                _ => LogonStage::WithLogon,
            },
            LogonStage::AcquiringToken => match event {
                LogonEvent::TokenAcquired(Ok(_)) => LogonStage::WithToken,
                LogonEvent::TokenAcquired(Err(m)) => LogonStage::Done(Err(LaunchFailure::Logon(m))),
                _ => LogonStage::AcquiringToken,
            },
            LogonStage::WithToken => match event {
                LogonEvent::Created(Ok(p)) => LogonStage::ReleasingToken(Ok(p)),
                LogonEvent::Created(Err(m)) => LogonStage::ReleasingToken(
                    Err(LaunchFailure::ProcessCreation(m)),
                ),
                _ => LogonStage::WithToken,
            },
            LogonStage::ReleasingToken(r) => match event {
                LogonEvent::TokenReleased => LogonStage::Done(r),
                _ => LogonStage::ReleasingToken(r),
            },
            LogonStage::Done(r) => LogonStage::Done(r),
        }
    }

    /// The outcome of the launch, once it is over.
    pub fn outcome(self) -> (r: Option<Result<ProcessLaunchResult, LaunchFailure<String>>>)
        ensures
            match r {
                Some(o) => self@ == LogonStage::Done(launch_view(o)),
                None => !(self@ is Done),
            },
    {
        match self {
            LogonStage::Done(r) => Some(r),
            _ => None,
        }
    }
}

/// Whether a launch at this stage holds a logon token.
pub open spec fn holds_token(stage: LogonStage<Seq<char>>) -> bool {
    stage is WithToken || stage is ReleasingToken
}

/// How many answers a launch at this stage needs at most until it is over.
pub open spec fn logon_rank(stage: LogonStage<Seq<char>>) -> nat {
    match stage {
        LogonStage::WithLogon => 4,
        LogonStage::AcquiringToken => 3,
        LogonStage::WithToken => 2,
        LogonStage::ReleasingToken(_) => 1,
        LogonStage::Done(_) => 0,
    }
}

/// A logon token is always released. A launch comes to hold a token only
/// by a logon that succeeded; while it holds one it is not over; it lets go of
/// the token only by the answer to the release that it asked for; and a launch
/// whose creation under the token failed asks for that release all the same.
pub proof fn law_token_released(stage: LogonStage<Seq<char>>, event: LogonEvent<Seq<char>>)
    ensures
        holds_token(stage) ==> !(stage is Done),
        !holds_token(stage) && holds_token(logon_step(stage, event)) ==> stage is AcquiringToken
            && event is TokenAcquired && event->TokenAcquired_0 is Ok,
        holds_token(stage) && !holds_token(logon_step(stage, event)) ==> logon_action(stage)
            == LogonAction::ReleaseToken && event is TokenReleased,
        stage is WithToken && event is Created ==> logon_action(logon_step(stage, event))
            == LogonAction::ReleaseToken,
        stage is WithToken && event is Created && event->Created_0 is Err ==> logon_step(
            logon_step(stage, event),
            LogonEvent::TokenReleased,
        ) == LogonStage::Done(
            Err::<ProcessLaunchResult, LaunchFailure<Seq<char>>>(
                LaunchFailure::ProcessCreation(event->Created_0->Err_0),
            ),
        ),
{
}

/// A stage that a launch can be at: while the token is being released, the
/// creation under it has either started the process or failed as "process
/// creation failed".
pub open spec fn logon_consistent(stage: LogonStage<Seq<char>>) -> bool {
    stage matches LogonStage::ReleasingToken(r) ==> (r is Ok || r->Err_0 is ProcessCreation)
}

/// The fallback: the second way is tried exactly when the first was refused,
/// whatever the reason, and a refused logon is told apart from a failed
/// creation of the process.
pub proof fn law_fallback(stage: LogonStage<Seq<char>>, event: LogonEvent<Seq<char>>)
    requires
        logon_consistent(stage),
    ensures
        logon_consistent(LogonStage::<Seq<char>>::WithLogon),
        logon_consistent(logon_step(stage, event)),
        logon_step(stage, event) is AcquiringToken && !(stage is AcquiringToken) ==> stage
            is WithLogon && event is Created && event->Created_0 is Err,
        stage is WithLogon && event is Created && event->Created_0 is Ok ==> logon_step(
            stage,
            event,
        ) == LogonStage::<Seq<char>>::Done(Ok(event->Created_0->Ok_0)),
        logon_step(stage, event) matches LogonStage::Done(Err(LaunchFailure::Logon(_))) && !(stage
            is Done) ==> stage is AcquiringToken,
        logon_step(stage, event) matches LogonStage::Done(Err(LaunchFailure::ProcessCreation(_)))
            && !(stage is Done) ==> stage is ReleasingToken,
        logon_rank(logon_step(stage, event)) <= logon_rank(stage),
        logon_action(stage) != LogonAction::Finished && logon_step(stage, event) != stage
            ==> logon_rank(logon_step(stage, event)) < logon_rank(stage),
{
}

/// The code units of two texts, one after the other, are those of the texts
/// joined.
proof fn lemma_utf16_units_concat(a: Seq<char>, b: Seq<char>)
    ensures
        utf16_units(a + b) == utf16_units(a) + utf16_units(b),
    decreases b.len(),
{
    if b.len() == 0 {
        assert(a + b =~= a);
        assert(utf16_units(a) + utf16_units(b) =~= utf16_units(a));
    } else {
        lemma_utf16_units_concat(a, b.drop_last());
        assert((a + b).drop_last() =~= a + b.drop_last());
        assert((a + b).last() == b.last());
        assert(utf16_units(a) + (utf16_units(b.drop_last()) + utf16_of(b.last())) =~= (utf16_units(
            a,
        ) + utf16_units(b.drop_last())) + utf16_of(b.last()));
    }
}

/// Reading the code units of one character, followed by anything, gives the
/// character back, followed by what the rest reads as.
proof fn lemma_utf16_read_one(c: char, rest: Seq<u16>)
    ensures
        crate::mutex::utf16_lossy(utf16_of(c) + rest) == seq![c] + crate::mutex::utf16_lossy(rest),
{
    let units = utf16_of(c) + rest;
    let v = c as u32;
    if v < 0x1_0000 {
        assert(units[0] == v as u16);
        assert(units.skip(1) =~= rest);
        assert((units[0] as char) == c);
    } else {
        let high = (0xD800 + (v - 0x1_0000) / 0x400) as u16;
        let low = (0xDC00 + (v - 0x1_0000) % 0x400) as u16;
        assert(units[0] == high);
        assert(units[1] == low);
        assert(units.skip(2) =~= rest);
        assert(0x1_0000 + (high - 0xD800) * 0x400 + (low - 0xDC00) == v);
    }
}

/// Text survives the way to the system and back: reading the code units of
/// a text, as the names of kernel objects are read, gives the text.
pub proof fn law_utf16_round_trip(s: Seq<char>)
    ensures
        crate::mutex::utf16_lossy(utf16_units(s)) == s,
    decreases s.len(),
{
    if s.len() == 0 {
        assert(utf16_units(s) =~= Seq::<u16>::empty());
        assert(crate::mutex::utf16_lossy(utf16_units(s)) =~= s);
    } else {
        let head = seq![s[0]];
        let tail = s.skip(1);
        assert(s =~= head + tail);
        lemma_utf16_units_concat(head, tail);
        assert(head.drop_last() =~= Seq::<char>::empty());
        assert(utf16_units(head) =~= utf16_of(s[0])) by {
            reveal_with_fuel(utf16_units, 2);
        }
        lemma_utf16_read_one(s[0], utf16_units(tail));
        law_utf16_round_trip(tail);
    }
}

} // verus!
