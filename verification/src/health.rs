//! The report on what the switching of accounts needs from the machine.

use vstd::prelude::*;
use crate::text::{contains, lowercase, str_contains, to_lowercase};

verus! {

/// What the switching of accounts needs from the machine, and whether it is there.
#[derive(Debug, Clone, PartialEq, Eq)]
pub struct InfraHealthReport {
    /// Whether the client is installed for all users.
    pub is_bnet_all_users: bool,
    /// Whether the directory of the client's shared configuration can be written.
    pub agent_config_writable: bool,
    /// Whether an executable of the client was found.
    pub bnet_path_valid: bool,
    /// For the user of each account, whether the profile of that user is set up.
    pub sandbox_profiles_ready: Vec<(String, bool)>,
}

/// A path, given in its lower-case form, lies in the directory of programs
/// that are installed for all users.
pub open spec fn all_users_path_of(lower: Seq<char>) -> bool {
    contains(lower, "program files"@)
}

/// The path lies in the directory of programs that are installed for all users.
pub open spec fn is_all_users_path(path: Seq<char>) -> bool {
    all_users_path_of(lowercase(path))
}

/// Whether a path, given in its lower-case form, lies in the directory of
/// programs that are installed for all users.
pub fn all_users_path_in(lower: &str) -> (r: bool)
    ensures
        r == all_users_path_of(lower@),
{
    str_contains(lower, "program files")
}

/// The directory of the client's shared configuration.
pub open spec fn agent_directory() -> Seq<char> {
    "C:\\ProgramData\\Battle.net"@
}

/// The name of the file that is created, and removed again, to find out whether a
/// directory can be written.
pub open spec fn probe_file_name() -> Seq<char> {
    ".health_check_probe"@
}

/// The directory of the client's shared configuration.
pub fn agent_dir() -> (path: String)
    ensures
        path@ == agent_directory(),
{
    String::from_str("C:\\ProgramData\\Battle.net")
}

/// The name of the file that probes whether a directory can be written.
pub fn probe_file() -> (name: String)
    ensures
        name@ == probe_file_name(),
{
    String::from_str(".health_check_probe")
}

/// Whether a directory can be written: it exists, and the probe file could be
/// created in it.
pub fn is_dir_writable(exists: bool, probe_created: bool) -> (r: bool)
    ensures
        r == (exists && probe_created),
{
    exists && probe_created
}

/// Puts the report together from what was found: the executable of the
/// client if any, whether the shared configuration directory can be written,
/// and for each account's user whether the profile is set up.
pub fn get_infra_health(
    bnet_path: Option<&str>,
    agent_config_writable: bool,
    sandbox_profiles_ready: Vec<(String, bool)>,
) -> (report: InfraHealthReport)
    ensures
        report.is_bnet_all_users == (bnet_path is Some && is_all_users_path(bnet_path->0@)),
        report.agent_config_writable == agent_config_writable,
        report.bnet_path_valid == (bnet_path is Some),
        report.sandbox_profiles_ready == sandbox_profiles_ready,
{
    let is_bnet_all_users = match bnet_path {
        Some(path) => {
            let lower = to_lowercase(path);
            all_users_path_in(lower.as_str())
        },
        None => false,
    };
    InfraHealthReport {
        is_bnet_all_users,
        agent_config_writable,
        bnet_path_valid: bnet_path.is_some(),
        sandbox_profiles_ready,
    }
}

} // verus!
