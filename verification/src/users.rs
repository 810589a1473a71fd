//! What is decided around the local user accounts: which accounts are listed,
//! how the answers of the account services are read, and how the profile of a
//! user is found.

use vstd::prelude::*;
use crate::mutex::{decode_utf16_lossy, le_u16, read_u16, utf16_lossy};
use crate::text::{
    chars_slice, chars_start_with, chars_trim, decimal, decimal_text, lowercase, same_lowercase,
    starts_with, str_eq, str_starts_with, to_chars, to_lowercase, trimmed,
};

verus! {

/// The status with which the account services report success.
pub const NERR_SUCCESS: u32 = 0;

/// The status that says that an enumeration has more to give.
pub const ERROR_MORE_DATA: u32 = 234;

/// The status that says that the user exists already.
pub const NERR_USER_EXISTS: u32 = 2224;

/// The status that says that the user is a member of the group already.
pub const ERROR_MEMBER_IN_ALIAS: u32 = 1320;

/// The account flags of a user that this application creates: the logon
/// script flag, which every account carries.
pub const UF_SCRIPT: u32 = 0x0001;

/// The account flag that keeps the password from expiring.
pub const UF_DONT_EXPIRE_PASSWD: u32 = 0x1_0000;

/// The name of the group of ordinary users where the system does not tell
/// its name in the language of the machine.
pub open spec fn default_users_group() -> Seq<char> {
    "Users"@
}

/// The name of the group of ordinary users where the system does not tell
/// its name in the language of the machine.
pub fn fallback_users_group() -> (name: String)
    ensures
        name@ == default_users_group(),
{
    String::from_str("Users")
}

/// A name, given in its lower-case form, is that of an account that the
/// system sets up for itself.
pub open spec fn builtin_account_of(lower: Seq<char>) -> bool {
    ||| lower == "guest"@
    ||| lower == "wdagutilityaccount"@
    ||| lower == "defaultaccount"@
}

/// The name is that of an account that the system sets up for itself, in
/// any case of letters.
pub open spec fn is_builtin_account(name: Seq<char>) -> bool {
    builtin_account_of(lowercase(name))
}

/// Whether a name, given in its lower-case form, is that of an account that
/// the system sets up for itself.
pub fn builtin_account_in(lower: &str) -> (r: bool)
    ensures
        r == builtin_account_of(lower@),
{
    str_eq(lower, "guest") || str_eq(lower, "wdagutilityaccount") || str_eq(
        lower,
        "defaultaccount",
    )
}

/// Whether the name is that of an account that the system sets up for itself.
pub fn builtin_account(name: &str) -> (r: bool)
    ensures
        r == is_builtin_account(name@),
{
    let lower = to_lowercase(name);
    builtin_account_in(lower.as_str())
}

/// Whether a page of an enumeration is to be read, and whether another page
/// is to be asked for, given the status of the call: a page is read on success
/// and on "more data"; only "more data" asks for another.
pub fn enumeration_step(status: u32) -> (r: (bool, bool))
    ensures
        r.0 == (status == NERR_SUCCESS || status == ERROR_MORE_DATA),
        r.1 == (status == ERROR_MORE_DATA),
{
    (status == NERR_SUCCESS || status == ERROR_MORE_DATA, status == ERROR_MORE_DATA)
}

/// The string form of a security identifier is that of an account of a
/// machine or a domain.
pub open spec fn is_account_sid(sid: Seq<char>) -> bool {
    starts_with(sid, "S-1-5-21"@)
}

/// Whether the security identifier is that of an account of a machine or a domain.
pub fn account_sid(sid: &str) -> (r: bool)
    ensures
        r == is_account_sid(sid@),
{
    str_starts_with(sid, "S-1-5-21")
}

/// A profile that the system keeps: the security identifier that names it,
/// and the name of its user where the system can tell it.
#[derive(Debug, Clone, PartialEq, Eq)]
pub struct ProfileEntry {
    /// The security identifier, in its string form.
    pub sid: String,
    /// The name of the user, with the domain in front where there is one.
    pub user: Option<String>,
}

/// The views of a list of names.
pub open spec fn names_view(names: Seq<String>) -> Seq<Seq<char>> {
    names.map_values(|n: String| n@)
}

/// The enumerated accounts that are listed: all but those that the system
/// sets up for itself, in the order of the enumeration.
pub open spec fn listed_accounts(enumerated: Seq<Seq<char>>) -> Seq<Seq<char>>
    decreases enumerated.len(),
{
    if enumerated.len() == 0 {
        seq![]
    } else if is_builtin_account(enumerated.last()) {
        listed_accounts(enumerated.drop_last())
    } else {
        listed_accounts(enumerated.drop_last()).push(enumerated.last())
    }
}

/// Some name of the list equals `name` in lower case.
pub open spec fn is_listed(users: Seq<Seq<char>>, name: Seq<char>) -> bool {
    exists|i: int| 0 <= i < users.len() && lowercase(#[trigger] users[i]) == lowercase(name)
}

/// The list after a profile is taken into account: the user of a profile of
/// an account, whose name the system tells and which is not listed yet in
/// any case of letters, is added at the end.
pub open spec fn with_profile(users: Seq<Seq<char>>, sid: Seq<char>, user: Option<Seq<char>>) -> Seq<
    Seq<char>,
> {
    if is_account_sid(sid) && user is Some && !is_listed(users, user->0) {
        users.push(user->0)
    } else {
        users
    }
}

/// The list after the profiles are taken into account, one after the other.
pub open spec fn with_profiles(users: Seq<Seq<char>>, profiles: Seq<ProfileEntry>) -> Seq<Seq<char>>
    decreases profiles.len(),
{
    if profiles.len() == 0 {
        users
    } else {
        with_profile(
            with_profiles(users, profiles.drop_last()),
            profiles.last().sid@,
            profiles.last().user.deep_view(),
        )
    }
}

fn listed(users: &Vec<String>, name: &str) -> (r: bool)
    ensures
        r == is_listed(names_view(users@), name@),
{
    let mut i: usize = 0;
    while i < users.len()
        invariant
            i <= users.len(),
            forall|k: int| 0 <= k < i ==> lowercase(#[trigger] names_view(users@)[k]) != lowercase(name@),
        decreases users.len() - i,
    {
        assert(names_view(users@)[i as int] == users@[i as int]@);
        if same_lowercase(users[i].as_str(), name) {
            return true;
        }
        i += 1;
    }
    false
}

/// Lists the local users: the enumerated accounts without those that the
/// system sets up for itself; and, with `include_registry`, the users of the
/// profiles of accounts that are not listed yet.
pub fn list_local_users(
    enumerated: &Vec<String>,
    profiles: &Vec<ProfileEntry>,
    include_registry: bool,
) -> (users: Vec<String>)
    ensures
        names_view(users@) == if include_registry {
            with_profiles(listed_accounts(names_view(enumerated@)), profiles@)
        } else {
            listed_accounts(names_view(enumerated@))
        },
{
    let mut users: Vec<String> = Vec::new();
    let mut i: usize = 0;
    assert(names_view(enumerated@).take(0) =~= seq![]);
    assert(names_view(users@) =~= seq![]);
    while i < enumerated.len()
        invariant
            i <= enumerated.len(),
            names_view(users@) == listed_accounts(names_view(enumerated@).take(i as int)),
        decreases enumerated.len() - i,
    {
        let ghost before = names_view(users@);
        assert(names_view(enumerated@).take(i + 1).drop_last() =~= names_view(enumerated@).take(
            i as int,
        ));
        assert(names_view(enumerated@).take(i + 1).last() == enumerated@[i as int]@);
        if !builtin_account(enumerated[i].as_str()) {
            users.push(enumerated[i].clone());
            assert(names_view(users@) =~= before.push(enumerated@[i as int]@));
        }
        i += 1;
    }
    assert(names_view(enumerated@).take(enumerated.len() as int) =~= names_view(enumerated@));
    if include_registry {
        let ghost base = names_view(users@);
        let mut k: usize = 0;
        assert(profiles@.take(0) =~= seq![]);
        while k < profiles.len()
            invariant
                k <= profiles.len(),
                names_view(users@) == with_profiles(base, profiles@.take(k as int)),
            decreases profiles.len() - k,
        {
            let ghost before = names_view(users@);
            assert(profiles@.take(k + 1).drop_last() =~= profiles@.take(k as int));
            assert(profiles@.take(k + 1).last() == profiles@[k as int]);
            let p = &profiles[k];
            if account_sid(p.sid.as_str()) {
                match &p.user {
                    Some(name) => {
                        if !listed(&users, name.as_str()) {
                            users.push(name.clone());
                            assert(names_view(users@) =~= before.push(name@));
                        }
                    },
                    None => {},
                }
            }
            k += 1;
        }
        assert(profiles@.take(profiles.len() as int) =~= profiles@);
    }
    users
}

/// The name of a user with its domain: the domain, a backslash and the name;
/// the bare name where the domain is empty.
pub open spec fn qualified_name(domain: Seq<char>, username: Seq<char>) -> Seq<char> {
    if domain.len() == 0 {
        username
    } else {
        domain + "\\"@ + username
    }
}

/// The user who runs this process, from the user name and the domain that
/// the environment gives; each is empty where the environment does not give it.
pub fn get_whoami(username: &str, domain: &str) -> (name: String)
    ensures
        name@ == qualified_name(domain@, username@),
{
    if domain.unicode_len() == 0 {
        String::from_str(username)
    } else {
        String::from_str(domain).concat("\\").concat(username)
    }
}

/// The name of the user of a security identifier, from the name and the
/// domain that the lookup gave.
pub fn get_name_from_sid_string(user_name: &str, domain_name: &str) -> (name: String)
    ensures
        name@ == qualified_name(domain_name@, user_name@),
{
    get_whoami(user_name, domain_name)
}

/// The account flags of a user that is created.
pub fn account_flags(never_expires: bool) -> (flags: u32)
    ensures
        flags == if never_expires {
            UF_SCRIPT + UF_DONT_EXPIRE_PASSWD
        } else {
            UF_SCRIPT as int
        },
{
    if never_expires {
        0x1_0001
    } else {
        0x0001
    }
}

/// The text of the failure to create a user.
pub open spec fn create_failure_text(status: u32) -> Seq<char> {
    "NetUserAdd failed with status: "@ + decimal(status as nat) + " (Win32 Error)"@
}

/// Reads the status of the creation of a user: success, and a user that
/// exists already, let the set-up go on with the group; any other status
/// fails with a text that gives the status.
pub fn create_user(add_status: u32) -> (r: Result<(), String>)
    ensures
        r is Ok <==> (add_status == NERR_SUCCESS || add_status == NERR_USER_EXISTS),
        r is Err ==> r->Err_0@ == create_failure_text(add_status),
{
    if add_status == NERR_SUCCESS || add_status == NERR_USER_EXISTS {
        Ok(())
    } else {
        let status = decimal_text(add_status as u64);
        Err(
            String::from_str("NetUserAdd failed with status: ").concat(status.as_str()).concat(
                " (Win32 Error)",
            ),
        )
    }
}

/// Whether adding the user to the group of ordinary users went wrong in a way
/// worth a warning: any status but success and "member already".
pub fn group_add_failed(status: u32) -> (r: bool)
    ensures
        r == (status != NERR_SUCCESS && status != ERROR_MEMBER_IN_ALIAS),
{
    status != NERR_SUCCESS && status != ERROR_MEMBER_IN_ALIAS
}

/// The text of the failure to set information of a user at `level`.
pub open spec fn set_info_failure_text(level: u32, status: u32) -> Seq<char> {
    "NetUserSetInfo ("@ + decimal(level as nat) + ") failed: "@ + decimal(status as nat)
}

fn set_info_outcome(level: u32, status: u32) -> (r: Result<(), String>)
    ensures
        r is Ok <==> status == NERR_SUCCESS,
        r is Err ==> r->Err_0@ == set_info_failure_text(level, status),
{
    if status == NERR_SUCCESS {
        Ok(())
    } else {
        let l = decimal_text(level as u64);
        let s = decimal_text(status as u64);
        Err(
            String::from_str("NetUserSetInfo (").concat(l.as_str()).concat(") failed: ").concat(
                s.as_str(),
            ),
        )
    }
}

/// The information level at which the account flags of a user are set.
pub const FLAGS_LEVEL: u32 = 1008;

/// The information level at which the password of a user is set.
pub const PASSWORD_LEVEL: u32 = 1003;

/// Reads the status of setting the account flags of a user.
pub fn set_password_never_expires(status: u32) -> (r: Result<(), String>)
    ensures
        r is Ok <==> status == NERR_SUCCESS,
        r is Err ==> r->Err_0@ == set_info_failure_text(FLAGS_LEVEL, status),
{
    set_info_outcome(FLAGS_LEVEL, status)
}

/// Reads the status of setting the password of a user.
pub fn reset_password(status: u32) -> (r: Result<(), String>)
    ensures
        r is Ok <==> status == NERR_SUCCESS,
        r is Err ==> r->Err_0@ == set_info_failure_text(PASSWORD_LEVEL, status),
{
    set_info_outcome(PASSWORD_LEVEL, status)
}

/// The registry key, below the machine's root, that lists the profiles.
pub open spec fn profile_list_key() -> Seq<char> {
    "SOFTWARE\\Microsoft\\Windows NT\\CurrentVersion\\ProfileList"@
}

/// The registry key of the profile of a security identifier.
pub fn profile_key(sid: &str) -> (key: String)
    ensures
        key@ == profile_list_key() + "\\"@ + sid@,
{
    String::from_str("SOFTWARE\\Microsoft\\Windows NT\\CurrentVersion\\ProfileList").concat(
        "\\",
    ).concat(sid)
}

/// The code units that the bytes of a registry text hold: each pair of bytes
/// is one unit, least significant byte first; a last byte without a partner
/// is left out.
pub open spec fn registry_units(data: Seq<u8>) -> Seq<u16> {
    Seq::new(data.len() / 2, |i: int| le_u16(data, 2 * i) as u16)
}

/// Reads the code units out of the bytes of a registry text.
pub fn registry_text(data: &Vec<u8>) -> (units: Vec<u16>)
    ensures
        units@ == registry_units(data@),
{
    let mut units: Vec<u16> = Vec::new();
    let pairs: usize = data.len() / 2;
    let mut i: usize = 0;
    while i < pairs
        invariant
            i <= pairs,
            pairs == data.len() / 2,
            units@.len() == i,
            forall|k: int| 0 <= k < i ==> units@[k] == le_u16(data@, 2 * k) as u16,
        decreases pairs - i,
    {
        units.push(read_u16(data, 2 * i));
        i += 1;
    }
    assert(units@ =~= registry_units(data@));
    units
}

/// The path that the expansion of a profile path gave: the text of the code
/// units before the terminator, where `length` counts the units with the
/// terminator.
pub open spec fn expanded_text(expanded: Seq<u16>, length: u32) -> Option<Seq<char>> {
    if length == 0 || length > expanded.len() {
        None
    } else {
        Some(utf16_lossy(expanded.take(length - 1)))
    }
}

/// Reads the expanded profile path out of the buffer that the expansion
/// filled. A length of zero says that the expansion failed; a length beyond
/// the buffer is refused.
pub fn get_user_profile_path(expanded: &Vec<u16>, length: u32) -> (path: Option<String>)
    ensures
        path.deep_view() == expanded_text(expanded@, length),
{
    if length == 0 || length as usize > expanded.len() {
        return None;
    }
    let mut units: Vec<u16> = Vec::new();
    let end: usize = (length - 1) as usize;
    let mut i: usize = 0;
    while i < end
        invariant
            i <= end <= expanded.len(),
            units@ == expanded@.take(i as int),
        decreases end - i,
    {
        units.push(expanded[i]);
        i += 1;
        assert(units@ =~= expanded@.take(i as int));
    }
    Some(decode_utf16_lossy(&units))
}

/// The segments, below the profile directory of a user, of the directory
/// whose presence shows that the profile is set up.
pub open spec fn local_data_segments() -> Seq<Seq<char>> {
    seq!["AppData"@, "Local"@]
}

/// The segments of the directory whose presence shows that a profile is set up.
pub fn local_data_path() -> (segments: Vec<String>)
    ensures
        segments@.map_values(|s: String| s@) == local_data_segments(),
{
    let mut segments: Vec<String> = Vec::new();
    segments.push(String::from_str("AppData"));
    segments.push(String::from_str("Local"));
    assert(segments@.map_values(|s: String| s@) =~= local_data_segments());
    segments
}

/// Whether the profile of a user is set up: its directory was found, and the
/// directory of local application data exists in it.
pub fn is_user_initialized(profile_found: bool, local_data_exists: bool) -> (r: bool)
    ensures
        r == (profile_found && local_data_exists),
{
    profile_found && local_data_exists
}

/// The position after the last backslash of a text, looking back from `to`;
/// zero where there is none.
pub open spec fn after_last_backslash(s: Seq<char>, to: int) -> int
    decreases to,
{
    if to <= 0 || to > s.len() {
        0
    } else if s[to - 1] == '\\' {
        to
    } else {
        after_last_backslash(s, to - 1)
    }
}

/// The security identifier that a line of the listing of the profile keys
/// names: the last segment of the line, read without the white space around
/// it, if that is the identifier of an account.
pub open spec fn line_sid(line: Seq<char>) -> Option<Seq<char>> {
    let text = trimmed(line);
    let segment = text.skip(after_last_backslash(text, text.len() as int));
    if is_account_sid(segment) {
        Some(segment)
    } else {
        None
    }
}

/// Reads the security identifier of an account out of a line of the listing
/// of the profile keys.
pub fn profile_line_sid(line: &str) -> (sid: Option<String>)
    ensures
        sid.deep_view() == line_sid(line@),
{
    let chars = to_chars(line);
    let (from, to) = chars_trim(&chars);
    let text = chars_slice(&chars, from, to);
    let mut cut: usize = text.len();
    while cut > 0 && text[cut - 1] != '\\'
        invariant
            cut <= text.len(),
            after_last_backslash(text@, text.len() as int) == after_last_backslash(
                text@,
                cut as int,
            ),
        decreases cut,
    {
        cut -= 1;
    }
    let segment = chars_slice(&text, cut, text.len());
    assert(segment@ =~= text@.skip(cut as int));
    let prefix = to_chars("S-1-5-21");
    if chars_start_with(&segment, &prefix) {
        let found = line.substring_char(from + cut, to);
        assert(found@ =~= segment@);
        Some(String::from_str(found))
    } else {
        None
    }
}

/// The list with the current user at its end, unless the very name is listed already.
pub open spec fn with_current(users: Seq<Seq<char>>, current: Seq<char>) -> Seq<Seq<char>> {
    if users.contains(current) {
        users
    } else {
        users.push(current)
    }
}

/// Adds the current user to the list of users, unless the very name is listed.
pub fn add_current_user(users: Vec<String>, current: String) -> (listed: Vec<String>)
    ensures
        names_view(listed@) == with_current(names_view(users@), current@),
{
    let mut i: usize = 0;
    while i < users.len()
        invariant
            i <= users.len(),
            forall|k: int| 0 <= k < i ==> names_view(users@)[k] != current@,
        decreases users.len() - i,
    {
        assert(names_view(users@)[i as int] == users@[i as int]@);
        if str_eq(users[i].as_str(), current.as_str()) {
            assert(names_view(users@).contains(current@));
            return users;
        }
        i += 1;
    }
    let mut listed = users;
    let ghost before = names_view(listed@);
    listed.push(current);
    assert(names_view(listed@) =~= before.push(current@));
    listed
}

/// The arguments with which the shell sets the password policy of a user.
pub open spec fn policy_command_text(username: Seq<char>, never_expires: bool) -> Seq<char> {
    "Set-LocalUser -Name '"@ + username + "' -PasswordNeverExpires "@ + if never_expires {
        "$true"@
    } else {
        "$false"@
    }
}

/// The arguments with which the shell sets the password policy of a user.
pub fn policy_command(username: &str, never_expires: bool) -> (arguments: Vec<String>)
    ensures
        arguments@.len() == 3,
        arguments@[0]@ == "-NoProfile"@,
        arguments@[1]@ == "-Command"@,
        arguments@[2]@ == policy_command_text(username@, never_expires),
{
    let flag = if never_expires {
        "$true"
    } else {
        "$false"
    };
    let mut arguments: Vec<String> = Vec::new();
    arguments.push(String::from_str("-NoProfile"));
    arguments.push(String::from_str("-Command"));
    arguments.push(
        String::from_str("Set-LocalUser -Name '").concat(username).concat(
            "' -PasswordNeverExpires ",
        ).concat(flag),
    );
    arguments
}

/// The arguments with which the account tool sets the password of a user.
pub fn password_command(username: &str, password: &str) -> (arguments: Vec<String>)
    ensures
        arguments@.len() == 3,
        arguments@[0]@ == "user"@,
        arguments@[1]@ == username@,
        arguments@[2]@ == password@,
{
    let mut arguments: Vec<String> = Vec::new();
    arguments.push(String::from_str("user"));
    arguments.push(String::from_str(username));
    arguments.push(String::from_str(password));
    arguments
}

/// Which tool was run.
#[derive(Debug, Clone, Copy, PartialEq, Eq, Structural)]
pub enum AccountTool {
    /// The shell, to set the password policy.
    PolicyShell,
    /// The account tool, to set the password.
    PasswordTool,
}

/// The text that introduces what a tool wrote when it failed.
pub open spec fn tool_failure_prefix(tool: AccountTool) -> Seq<char> {
    match tool {
        AccountTool::PolicyShell => "PowerShell failed: "@,
        AccountTool::PasswordTool => "net user password reset failed: "@,
    }
}

/// The text that introduces why a tool could not be run.
pub open spec fn tool_start_prefix(tool: AccountTool) -> Seq<char> {
    match tool {
        AccountTool::PolicyShell => "Failed to execute PowerShell: "@,
        AccountTool::PasswordTool => "Failed to reset password: "@,
    }
}

/// How a run of a tool ended. `run` tells why the tool could not be started,
/// or else whether it ended with success and what it wrote as errors.
pub fn tool_outcome(tool: AccountTool, run: Result<(bool, String), String>) -> (r: Result<
    (),
    String,
>)
    ensures
        r is Ok <==> (run is Ok && run->Ok_0.0),
        run is Err ==> r->Err_0@ == tool_start_prefix(tool) + run->Err_0@,
        run is Ok && !run->Ok_0.0 ==> r->Err_0@ == tool_failure_prefix(tool) + trimmed(
            run->Ok_0.1@,
        ),
{
    match run {
        Err(why) => {
            let prefix = match tool {
                AccountTool::PolicyShell => "Failed to execute PowerShell: ",
                AccountTool::PasswordTool => "Failed to reset password: ",
            };
            Err(String::from_str(prefix).concat(why.as_str()))
        },
        Ok((succeeded, errors)) => {
            if succeeded {
                Ok(())
            } else {
                let prefix = match tool {
                    AccountTool::PolicyShell => "PowerShell failed: ",
                    AccountTool::PasswordTool => "net user password reset failed: ",
                };
                let chars = to_chars(errors.as_str());
                let (from, to) = chars_trim(&chars);
                Err(String::from_str(prefix).concat(errors.as_str().substring_char(from, to)))
            }
        },
    }
}

} // verus!
