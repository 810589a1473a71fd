//! What the commands of the user interface answer: the texts of their
//! replies, and the few things they decide themselves.

use vstd::prelude::*;
use crate::account::{account_error_text, AccountError};
use crate::file_swap::{error_text, FileSwapError};
use crate::mutex::ScanFailure;
use crate::os::{failure_text, LaunchFailure, ProcessLaunchResult};
use crate::text::{
    chars_find, decimal, decimal_text, first_occurrence, hex_text, hexadecimal, no_occurrence,
    str_eq, to_chars,
};

verus! {

/// The unsigned number with the same 32 bits as a status.
pub open spec fn status_bits(status: i32) -> nat {
    if status < 0 {
        (status + 0x1_0000_0000) as nat
    } else {
        status as nat
    }
}

/// The text of a failed sweep.
pub open spec fn scan_failure_text(failure: ScanFailure) -> Seq<char> {
    match failure {
        ScanFailure::Enumeration { status } => "NtQuerySystemInformation(64) Failed: 0x"@
            + hexadecimal(status_bits(status)),
        ScanFailure::MalformedTable => "NtQuerySystemInformation(64) Failed: malformed handle table"@,
    }
}

/// The text of a failed sweep.
pub fn scan_failure_message(failure: &ScanFailure) -> (text: String)
    ensures
        text@ == scan_failure_text(*failure),
{
    match failure {
        ScanFailure::Enumeration { status } => {
            let bits: u64 = if *status < 0 {
                (*status as i64 + 0x1_0000_0000) as u64
            } else {
                *status as u64
            };
            let hex = hex_text(bits);
            String::from_str("NtQuerySystemInformation(64) Failed: 0x").concat(hex.as_str())
        },
        ScanFailure::MalformedTable => String::from_str(
            "NtQuerySystemInformation(64) Failed: malformed handle table",
        ),
    }
}

/// The reply to the sweep for stale locks on request.
pub fn kill_mutexes(outcome: Result<usize, ScanFailure>) -> (reply: Result<String, String>)
    ensures
        match outcome {
            Ok(count) => reply is Ok && reply->Ok_0@ == "Killed "@ + decimal(count as nat)
                + " mutexes"@,
            Err(failure) => reply is Err && reply->Err_0@ == scan_failure_text(failure),
        },
{
    match outcome {
        Ok(count) => {
            let n = decimal_text(count as u64);
            Ok(String::from_str("Killed ").concat(n.as_str()).concat(" mutexes"))
        },
        Err(failure) => Err(scan_failure_message(&failure)),
    }
}

/// The reply to the termination of the client's processes on request.
pub fn kill_processes(count: usize) -> (reply: String)
    ensures
        reply@ == "Killed "@ + decimal(count as nat) + " processes"@,
{
    let n = decimal_text(count as u64);
    String::from_str("Killed ").concat(n.as_str()).concat(" processes")
}

/// The reply to the termination of the launcher's processes on request.
pub fn stop_bnet_processes(count: usize) -> (reply: String)
    ensures
        reply@ == "Killed "@ + decimal(count as nat) + " Battle.net processes"@,
{
    let n = decimal_text(count as u64);
    String::from_str("Killed ").concat(n.as_str()).concat(" Battle.net processes")
}

/// The reply to a switch.
pub fn launch_game(outcome: &Result<u32, AccountError<String>>) -> (reply: Result<String, String>)
    ensures
        match *outcome {
            Ok(pid) => reply is Ok && reply->Ok_0@ == "Game launched (PID: "@ + decimal(pid as nat)
                + ")"@,
            Err(e) => reply is Err && reply->Err_0@ == account_error_text(e@),
        },
{
    match outcome {
        Ok(pid) => {
            let n = decimal_text(*pid as u64);
            Ok(String::from_str("Game launched (PID: ").concat(n.as_str()).concat(")"))
        },
        Err(e) => Err(e.message()),
    }
}

/// The reply to a launch on request.
pub fn manual_launch_process(outcome: &Result<ProcessLaunchResult, LaunchFailure<String>>) -> (reply: Result<
    String,
    String,
>)
    ensures
        match *outcome {
            Ok(p) => reply is Ok && reply->Ok_0@ == "Launched PID: "@ + decimal(
                p.process_id as nat,
            ),
            Err(f) => reply is Err && reply->Err_0@ == failure_text(f@),
        },
{
    match outcome {
        Ok(p) => {
            let n = decimal_text(p.process_id as u64);
            Ok(String::from_str("Launched PID: ").concat(n.as_str()))
        },
        Err(f) => Err(f.message()),
    }
}

/// The reply to a store operation on request: `done` on success, the text of
/// the error on failure.
fn store_reply(outcome: &Result<(), FileSwapError<String>>, done: &str) -> (reply: Result<
    String,
    String,
>)
    ensures
        match *outcome {
            Ok(_) => reply is Ok && reply->Ok_0@ == done@,
            Err(e) => reply is Err && reply->Err_0@ == error_text(e@),
        },
{
    match outcome {
        Ok(_) => Ok(String::from_str(done)),
        Err(e) => Err(e.message()),
    }
}

/// The reply to a backup on request.
pub fn manual_backup_save(outcome: &Result<(), FileSwapError<String>>) -> (reply: Result<
    String,
    String,
>)
    ensures
        match *outcome {
            Ok(_) => reply is Ok && reply->Ok_0@ == "Backup successful"@,
            Err(e) => reply is Err && reply->Err_0@ == error_text(e@),
        },
{
    store_reply(outcome, "Backup successful")
}

/// The reply to the removal of the active file on request.
pub fn manual_delete_config(outcome: &Result<(), FileSwapError<String>>) -> (reply: Result<
    String,
    String,
>)
    ensures
        match *outcome {
            Ok(_) => reply is Ok && reply->Ok_0@ == "Config deleted"@,
            Err(e) => reply is Err && reply->Err_0@ == error_text(e@),
        },
{
    store_reply(outcome, "Config deleted")
}

/// The reply to a restore on request.
pub fn manual_restore_config(outcome: &Result<(), FileSwapError<String>>) -> (reply: Result<
    String,
    String,
>)
    ensures
        match *outcome {
            Ok(_) => reply is Ok && reply->Ok_0@ == "Restore successful"@,
            Err(e) => reply is Err && reply->Err_0@ == error_text(e@),
        },
{
    store_reply(outcome, "Restore successful")
}

/// The reply to the full reset.
pub fn nuke_reset(killed: usize) -> (reply: String)
    ensures
        reply@ == "Nuke complete: "@ + decimal(killed as nat)
            + " processes killed. All state and archives cleared."@,
{
    let n = decimal_text(killed as u64);
    String::from_str("Nuke complete: ").concat(n.as_str()).concat(
        " processes killed. All state and archives cleared.",
    )
}

/// The reply to the creation of a user.
pub fn create_windows_user(outcome: Result<(), String>) -> (reply: Result<String, String>)
    ensures
        match outcome {
            Ok(_) => reply is Ok && reply->Ok_0@ == "User created successfully"@,
            Err(text) => reply is Err && reply->Err_0@ == text@,
        },
{
    match outcome {
        Ok(_) => Ok(String::from_str("User created successfully")),
        Err(text) => Err(text),
    }
}

/// Which deep scan of the users is asked for: none, unless it is asked for.
pub fn get_windows_users(deep_scan: Option<bool>) -> (include_registry: bool)
    ensures
        include_registry == (deep_scan == Some(true)),
{
    match deep_scan {
        Some(deep) => deep,
        None => false,
    }
}

/// The texts of the two entries of the tray menu, "show" and "quit", in a language.
pub open spec fn tray_texts(lang: Seq<char>) -> (Seq<char>, Seq<char>) {
    if lang == "zh-CN"@ || lang == "zh-TW"@ {
        ("显示主界面"@, "退出"@)
    } else if lang == "ja"@ {
        ("表示"@, "終了"@)
    } else if lang == "ko"@ {
        ("보기"@, "종료"@)
    } else {
        ("Show"@, "Quit"@)
    }
}

/// The language of the tray menu where the configuration names none.
pub open spec fn default_language() -> Seq<char> {
    "zh-CN"@
}

/// The texts of the two entries of the tray menu in language `lang`.
pub fn update_tray_language(lang: &str) -> (texts: (&'static str, &'static str))
    ensures
        (texts.0@, texts.1@) == tray_texts(lang@),
{
    if str_eq(lang, "zh-CN") || str_eq(lang, "zh-TW") {
        ("显示主界面", "退出")
    } else if str_eq(lang, "ja") {
        ("表示", "終了")
    } else if str_eq(lang, "ko") {
        ("보기", "종료")
    } else {
        ("Show", "Quit")
    }
}

/// The texts of the two entries of the tray menu for the language that the
/// configuration names, if any.
pub fn setup_tray(language: Option<&str>) -> (texts: (&'static str, &'static str))
    ensures
        (texts.0@, texts.1@) == tray_texts(
            match language {
                Some(lang) => lang@,
                None => default_language(),
            },
        ),
{
    match language {
        Some(lang) => update_tray_language(lang),
        None => update_tray_language("zh-CN"),
    }
}

/// Whether closing the window only hides it: yes, unless the configuration says no.
pub fn close_to_tray(setting: Option<bool>) -> (stay: bool)
    ensures
        stay == (setting != Some(false)),
{
    match setting {
        Some(stay) => stay,
        None => true,
    }
}

/// The mark that begins the section of a version in the changelog.
pub open spec fn section_mark() -> Seq<char> {
    "\n## ["@
}

/// The newest section of a changelog: from its heading up to the heading of
/// the section before; a note where the changelog has no section.
pub open spec fn newest_section(changelog: Seq<char>) -> Seq<char> {
    if exists|at: int| first_occurrence(changelog, section_mark(), 0, at) {
        let at = choose|at: int| first_occurrence(changelog, section_mark(), 0, at);
        let body = changelog.skip(at + section_mark().len());
        let section = if exists|next: int| first_occurrence(body, section_mark(), 0, next) {
            body.take(choose|next: int| first_occurrence(body, section_mark(), 0, next))
        } else {
            body
        };
        "## ["@ + section
    } else {
        "No changelog entries found."@
    }
}

/// The newest section of a changelog.
pub fn get_latest_changelog(changelog: &str) -> (section: String)
    ensures
        section@ == newest_section(changelog@),
{
    let chars = to_chars(changelog);
    let mark = to_chars("\n## [");
    let total: usize = chars.len();
    match chars_find(&chars, &mark, 0) {
        None => {
            assert(!exists|at: int| first_occurrence(changelog@, section_mark(), 0, at));
            String::from_str("No changelog entries found.")
        },
        Some(at) => {
            proof {
                let other = choose|k: int| first_occurrence(changelog@, section_mark(), 0, k);
                assert(other == at);
            }
            assert(crate::text::occurs_at(chars@, mark@, at as int));
            let begin: usize = at + mark.len();
            let body = crate::text::chars_slice(&chars, begin, total);
            assert(body@ =~= changelog@.skip(at + section_mark().len()));
            let end: usize = match chars_find(&body, &mark, 0) {
                Some(next) => {
                    proof {
                        let other = choose|k: int| first_occurrence(body@, section_mark(), 0, k);
                        assert(other == next);
                    }
                    next
                },
                None => {
                    assert(!exists|k: int| first_occurrence(body@, section_mark(), 0, k));
                    body.len()
                },
            };
            let section = changelog.substring_char(begin, begin + end);
            assert(section@ =~= if end < body.len() {
                body@.take(end as int)
            } else {
                body@
            });
            String::from_str("## [").concat(section)
        },
    }
}

} // verus!
