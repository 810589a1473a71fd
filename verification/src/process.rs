//! What is decided over the list of live processes: which to terminate
//! before a switch, which accounts have a client running, and whether a user
//! runs one of a set of programs.

use vstd::prelude::*;
use crate::account::{domain_and_user, split_domain, AccountStatus};
use crate::text::{
    eq_ignore_ascii_case, lowercase, replaced, same_lowercase, str_eq_ignore_ascii_case,
    str_replace, to_lowercase,
};

verus! {

/// Who owns a process.
#[derive(Debug, Clone, PartialEq, Eq)]
pub enum Owner<S> {
    /// The process has no user: it belongs to the system.
    System,
    /// The process has a user whose name the system does not tell.
    Unknown,
    /// The process runs under the user of this name.
    User(S),
}

impl View for Owner<String> {
    type V = Owner<Seq<char>>;

    open spec fn view(&self) -> Self::V {
        match self {
            Owner::System => Owner::System,
            Owner::Unknown => Owner::Unknown,
            Owner::User(name) => Owner::User(name@),
        }
    }
}

/// A live process.
#[derive(Debug, Clone, PartialEq, Eq)]
pub struct RunningProcess {
    /// The process identifier.
    pub pid: u32,
    /// The name of the program.
    pub name: String,
    /// Who owns the process.
    pub owner: Owner<String>,
}

/// A live process as the user interface lists it.
#[derive(Debug, Clone, PartialEq, Eq)]
pub struct ProcessInfo {
    /// The process identifier.
    pub pid: u32,
    /// The name of the program.
    pub name: String,
    /// The name of its user; `System` for a process without user, `Unknown`
    /// where the system does not tell the name.
    pub user: String,
}

/// The name under which the owner of a process is listed.
pub open spec fn owner_text(owner: Owner<Seq<char>>) -> Seq<char> {
    match owner {
        Owner::System => "System"@,
        Owner::Unknown => "Unknown"@,
        Owner::User(name) => name,
    }
}

/// The processes as the user interface lists them, in the same order.
pub fn get_process_list(processes: &Vec<RunningProcess>) -> (list: Vec<ProcessInfo>)
    ensures
        list@.len() == processes@.len(),
        forall|i: int|
            0 <= i < list@.len() ==> {
                &&& (#[trigger] list@[i]).pid == processes@[i].pid
                &&& list@[i].name@ == processes@[i].name@
                &&& list@[i].user@ == owner_text(processes@[i].owner@)
            },
{
    let mut list: Vec<ProcessInfo> = Vec::new();
    let mut i: usize = 0;
    while i < processes.len()
        invariant
            i <= processes.len(),
            list@.len() == i,
            forall|k: int|
                0 <= k < i ==> {
                    &&& (#[trigger] list@[k]).pid == processes@[k].pid
                    &&& list@[k].name@ == processes@[k].name@
                    &&& list@[k].user@ == owner_text(processes@[k].owner@)
                },
        decreases processes.len() - i,
    {
        let p = &processes[i];
        let user = match &p.owner {
            Owner::System => String::from_str("System"),
            Owner::Unknown => String::from_str("Unknown"),
            Owner::User(name) => name.clone(),
        };
        list.push(ProcessInfo { pid: p.pid, name: p.name.clone(), user });
        i += 1;
    }
    list
}

/// The program is one of the client's launcher and helper programs, which
/// are terminated before a switch; the case of ASCII letters does not count.
pub open spec fn is_kill_target(name: Seq<char>) -> bool {
    ||| eq_ignore_ascii_case(name, "Battle.net.exe"@)
    ||| eq_ignore_ascii_case(name, "Agent.exe"@)
    ||| eq_ignore_ascii_case(name, "crashpad_handler.exe"@)
    ||| eq_ignore_ascii_case(name, "Blizzard Error.exe"@)
    ||| eq_ignore_ascii_case(name, "Uninstaller.exe"@)
}

/// Whether the program is terminated before a switch.
pub fn kill_target(name: &str) -> (r: bool)
    ensures
        r == is_kill_target(name@),
{
    str_eq_ignore_ascii_case(name, "Battle.net.exe") || str_eq_ignore_ascii_case(name, "Agent.exe")
        || str_eq_ignore_ascii_case(name, "crashpad_handler.exe") || str_eq_ignore_ascii_case(
        name,
        "Blizzard Error.exe",
    ) || str_eq_ignore_ascii_case(name, "Uninstaller.exe")
}

/// The identifiers of the processes to terminate, in the order of the list.
pub open spec fn kill_list(processes: Seq<RunningProcess>) -> Seq<u32>
    decreases processes.len(),
{
    if processes.len() == 0 {
        seq![]
    } else if is_kill_target(processes.last().name@) {
        kill_list(processes.drop_last()).push(processes.last().pid)
    } else {
        kill_list(processes.drop_last())
    }
}

/// Selects the processes to terminate before a switch: those of the
/// client's launcher and helper programs, in the order of the list.
pub fn kill_battle_net_processes(processes: &Vec<RunningProcess>) -> (pids: Vec<u32>)
    ensures
        pids@ == kill_list(processes@),
{
    let mut pids: Vec<u32> = Vec::new();
    let mut i: usize = 0;
    assert(processes@.take(0) =~= seq![]);
    while i < processes.len()
        invariant
            i <= processes.len(),
            pids@ == kill_list(processes@.take(i as int)),
        decreases processes.len() - i,
    {
        assert(processes@.take(i + 1).drop_last() =~= processes@.take(i as int));
        if kill_target(processes[i].name.as_str()) {
            pids.push(processes[i].pid);
        }
        i += 1;
    }
    assert(processes@.take(processes.len() as int) =~= processes@);
    pids
}

/// The number of `true` in a list.
pub open spec fn count_true(outcomes: Seq<bool>) -> nat
    decreases outcomes.len(),
{
    if outcomes.len() == 0 {
        0
    } else {
        count_true(outcomes.drop_last()) + if outcomes.last() {
            1nat
        } else {
            0nat
        }
    }
}

/// Counts the attempts that succeeded: the processes that were terminated,
/// the files that were removed.
pub fn count_succeeded(outcomes: &Vec<bool>) -> (n: usize)
    ensures
        n == count_true(outcomes@),
        n <= outcomes@.len(),
{
    let mut n: usize = 0;
    let mut i: usize = 0;
    assert(outcomes@.take(0) =~= seq![]);
    while i < outcomes.len()
        invariant
            i <= outcomes.len(),
            n == count_true(outcomes@.take(i as int)),
            n <= i,
        decreases outcomes.len() - i,
    {
        assert(outcomes@.take(i + 1).drop_last() =~= outcomes@.take(i as int));
        if outcomes[i] {
            n += 1;
        }
        i += 1;
    }
    assert(outcomes@.take(outcomes.len() as int) =~= outcomes@);
    n
}

/// The process runs the program `image`, in any case of ASCII letters, under
/// the user `user`, compared in lower case and without the domain of `user`.
pub open spec fn runs_for(p: RunningProcess, image: Seq<char>, user: Seq<char>) -> bool {
    &&& eq_ignore_ascii_case(p.name@, image)
    &&& p.owner is User
    &&& lowercase(p.owner->0@) == lowercase(split_domain(user).1)
}

/// Some process of the list runs `image` under `user`.
pub open spec fn some_runs_for(processes: Seq<RunningProcess>, image: Seq<char>, user: Seq<char>) -> bool {
    exists|k: int| 0 <= k < processes.len() && runs_for(#[trigger] processes[k], image, user)
}

fn any_runs_for(processes: &Vec<RunningProcess>, image: &str, bare_user: &str, user: Ghost<Seq<char>>) -> (r: bool)
    requires
        bare_user@ == split_domain(user@).1,
    ensures
        r == some_runs_for(processes@, image@, user@),
{
    let mut i: usize = 0;
    while i < processes.len()
        invariant
            i <= processes.len(),
            bare_user@ == split_domain(user@).1,
            forall|k: int| 0 <= k < i ==> !runs_for(#[trigger] processes@[k], image@, user@),
        decreases processes.len() - i,
    {
        let p = &processes[i];
        if str_eq_ignore_ascii_case(p.name.as_str(), image) {
            let hit = match &p.owner {
                Owner::User(name) => same_lowercase(name.as_str(), bare_user),
                _ => false,
            };
            if hit {
                assert(runs_for(processes@[i as int], image@, user@));
                return true;
            }
        }
        i += 1;
    }
    false
}

/// Tells, for each user name asked for, whether the launcher and whether the
/// game runs under that user. The answers come in the order of the names.
pub fn get_accounts_process_status(processes: &Vec<RunningProcess>, usernames: &Vec<String>) -> (status: Vec<
    AccountStatus,
>)
    ensures
        status@.len() == usernames@.len(),
        forall|i: int|
            0 <= i < status@.len() ==> {
                &&& (#[trigger] status@[i]).bnet_active == some_runs_for(
                    processes@,
                    "Battle.net.exe"@,
                    usernames@[i]@,
                )
                &&& status@[i].d2r_active == some_runs_for(processes@, "D2R.exe"@, usernames@[i]@)
            },
{
    let mut status: Vec<AccountStatus> = Vec::new();
    let mut i: usize = 0;
    while i < usernames.len()
        invariant
            i <= usernames.len(),
            status@.len() == i,
            forall|k: int|
                0 <= k < i ==> {
                    &&& (#[trigger] status@[k]).bnet_active == some_runs_for(
                        processes@,
                        "Battle.net.exe"@,
                        usernames@[k]@,
                    )
                    &&& status@[k].d2r_active == some_runs_for(
                        processes@,
                        "D2R.exe"@,
                        usernames@[k]@,
                    )
                },
        decreases usernames.len() - i,
    {
        let (_domain, bare) = domain_and_user(usernames[i].as_str());
        let bnet_active = any_runs_for(
            processes,
            "Battle.net.exe",
            bare.as_str(),
            Ghost(usernames@[i as int]@),
        );
        let d2r_active = any_runs_for(
            processes,
            "D2R.exe",
            bare.as_str(),
            Ghost(usernames@[i as int]@),
        );
        status.push(AccountStatus { bnet_active, d2r_active });
        i += 1;
    }
    status
}

/// A process of the session that is looked at for one user.
#[derive(Debug, Clone, PartialEq, Eq)]
pub struct SessionProcess {
    /// The name of the program.
    pub name: String,
    /// Whether the process belongs to the user in question.
    pub owned_by_user: bool,
}

/// A program name, given in its lower-case form, is one that is watched for:
/// it equals, up to the case of ASCII letters, the watched name or the
/// watched name without `.exe`.
pub open spec fn watched_of(lower: Seq<char>, watched: Seq<char>) -> bool {
    ||| eq_ignore_ascii_case(lower, watched)
    ||| eq_ignore_ascii_case(lower, replaced(watched, ".exe"@, seq![]))
}

/// The program name of a process is one that is watched for: in lower case
/// it equals, up to the case of ASCII letters, the watched name or the
/// watched name without `.exe`.
pub open spec fn is_watched(process_name: Seq<char>, watched: Seq<char>) -> bool {
    watched_of(lowercase(process_name), watched)
}

/// The process runs one of the watched programs for the user.
pub open spec fn is_watched_process(p: SessionProcess, names: Seq<String>) -> bool {
    p.owned_by_user && exists|k: int| 0 <= k < names.len() && is_watched(p.name@, #[trigger] names[k]@)
}

/// Whether a program name, given in its lower-case form, is one of the names
/// watched for.
pub fn watched_in(lower: &str, names: &Vec<String>) -> (r: bool)
    ensures
        r == exists|k: int| 0 <= k < names@.len() && watched_of(lower@, #[trigger] names@[k]@),
{
    let mut i: usize = 0;
    while i < names.len()
        invariant
            i <= names.len(),
            forall|k: int| 0 <= k < i ==> !watched_of(lower@, #[trigger] names@[k]@),
        decreases names.len() - i,
    {
        let n = &names[i];
        if str_eq_ignore_ascii_case(lower, n.as_str()) {
            return true;
        }
        let short = str_replace(n.as_str(), ".exe", "");
        proof {
            reveal_strlit("");
            assert(""@ =~= Seq::<char>::empty());
        }
        if str_eq_ignore_ascii_case(lower, short.as_str()) {
            return true;
        }
        i += 1;
    }
    false
}

fn watched_name(process_name: &str, names: &Vec<String>) -> (r: bool)
    ensures
        r == exists|k: int| 0 <= k < names@.len() && is_watched(process_name@, #[trigger] names@[k]@),
{
    let lower = to_lowercase(process_name);
    let r = watched_in(lower.as_str(), names);
    proof {
        if r {
            let k = choose|k: int|
                0 <= k < names@.len() && watched_of(lower@, #[trigger] names@[k]@);
            assert(is_watched(process_name@, names@[k]@));
        }
    }
    r
}

/// Whether the user runs one of the programs `process_names`.
pub fn is_process_running_for_user(processes: &Vec<SessionProcess>, process_names: &Vec<String>) -> (r: bool)
    ensures
        r == exists|i: int|
            0 <= i < processes@.len() && is_watched_process(
                #[trigger] processes@[i],
                process_names@,
            ),
{
    let mut i: usize = 0;
    while i < processes.len()
        invariant
            i <= processes.len(),
            forall|k: int|
                0 <= k < i ==> !is_watched_process(#[trigger] processes@[k], process_names@),
        decreases processes.len() - i,
    {
        let p = &processes[i];
        if p.owned_by_user && watched_name(p.name.as_str(), process_names) {
            return true;
        }
        i += 1;
    }
    false
}

} // verus!
