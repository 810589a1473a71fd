//! Granting the users of the machine access to the game directory: which
//! directory is meant, what the tool is asked, and how its output is read.

use vstd::prelude::*;
use crate::text::{
    chars_contain, chars_find, chars_slice, chars_trim, contains, first_occurrence, occurs_at,
    to_chars, trimmed,
};

verus! {

/// The directory to work on: that of the path, or its parent where the path
/// is a file; without a closing backslash, unless the path is as short as the
/// root of a drive (three characters).
pub open spec fn target_directory(dir: Seq<char>) -> Seq<char> {
    if dir.len() > 3 && dir.last() == '\\' {
        dir.drop_last()
    } else {
        dir
    }
}

/// The text with which a path that does not exist is refused.
pub open spec fn missing_path_text() -> Seq<char> {
    "Path does not exist"@
}

/// The text with which a file without a parent directory is refused.
pub open spec fn invalid_path_text() -> Seq<char> {
    "Invalid path"@
}

/// The directory to work on for a path, or the refusal of the path: a path
/// that does not exist is refused before anything else, and no tool is run
/// for it; a file stands for its parent and is refused where it has none.
pub open spec fn permission_target_of(
    path: Seq<char>,
    exists: bool,
    is_file: bool,
    parent: Option<Seq<char>>,
) -> Result<Seq<char>, Seq<char>> {
    if !exists {
        Err(missing_path_text())
    } else if is_file {
        match parent {
            Some(p) => Ok(target_directory(p)),
            None => Err(invalid_path_text()),
        }
    } else {
        Ok(target_directory(path))
    }
}

/// The view of a directory or a refusal.
pub open spec fn target_view(r: Result<String, String>) -> Result<Seq<char>, Seq<char>> {
    match r {
        Ok(d) => Ok(d@),
        Err(t) => Err(t@),
    }
}

/// Names the directory to work on for `path`, given whether the path exists,
/// whether it is a file, and its parent directory. A path that does not
/// exist is refused with "Path does not exist"; the tool is started only for
/// a directory that this function names.
pub fn permission_target(path: &str, exists: bool, is_file: bool, parent: Option<&str>) -> (r: Result<
    String,
    String,
>)
    ensures
        target_view(r) == permission_target_of(
            path@,
            exists,
            is_file,
            match parent {
                Some(p) => Some(p@),
                None => None,
            },
        ),
        !exists ==> r is Err && r->Err_0@ == missing_path_text(),
{
    if !exists {
        return Err(String::from_str("Path does not exist"));
    }
    let dir: &str = if is_file {
        match parent {
            Some(p) => p,
            None => {
                return Err(String::from_str("Invalid path"));
            },
        }
    } else {
        path
    };
    let count: usize = dir.unicode_len();
    if count > 3 && dir.get_char(count - 1) == '\\' {
        let cut = dir.substring_char(0, count - 1);
        assert(cut@ =~= dir@.drop_last());
        Ok(String::from_str(cut))
    } else {
        Ok(String::from_str(dir))
    }
}

/// The arguments of the tool: the directory, the grant of full access to the
/// group of users that is inherited by files and directories, and the flags
/// that make it go through the whole tree and on after failures.
pub fn permission_arguments(directory: &str) -> (arguments: Vec<String>)
    ensures
        arguments@.len() == 5,
        arguments@[0]@ == directory@,
        arguments@[1]@ == "/grant"@,
        arguments@[2]@ == "*S-1-5-32-545:(OI)(CI)F"@,
        arguments@[3]@ == "/T"@,
        arguments@[4]@ == "/C"@,
{
    let mut arguments: Vec<String> = Vec::new();
    arguments.push(String::from_str(directory));
    arguments.push(String::from_str("/grant"));
    arguments.push(String::from_str("*S-1-5-32-545:(OI)(CI)F"));
    arguments.push(String::from_str("/T"));
    arguments.push(String::from_str("/C"));
    arguments
}

/// What a line of the tool's output is.
#[derive(Debug, Clone, PartialEq, Eq)]
pub enum OutputLine<S> {
    /// Nothing but white space.
    Blank,
    /// The report of a failure: shown at once, and the run counts as failed.
    Failure(S),
    /// The summary at the end: shown at once.
    Summary(S),
    /// The report on one file: shown now and then, as a sign of life.
    Progress(S),
}

impl View for OutputLine<String> {
    type V = OutputLine<Seq<char>>;

    open spec fn view(&self) -> Self::V {
        match self {
            OutputLine::Blank => OutputLine::Blank,
            OutputLine::Failure(t) => OutputLine::Failure(t@),
            OutputLine::Summary(t) => OutputLine::Summary(t@),
            OutputLine::Progress(t) => OutputLine::Progress(t@),
        }
    }
}

/// What is shown for the report on one file: the line from the drive letter
/// on, where it holds a path with a drive; else the line.
pub open spec fn shown_progress(line: Seq<char>) -> Seq<char> {
    if exists|at: int| first_occurrence(line, ":\\"@, 0, at) {
        let at = choose|at: int| first_occurrence(line, ":\\"@, 0, at);
        if at > 0 {
            line.skip(at - 1)
        } else {
            line
        }
    } else {
        line
    }
}

/// What a line of the tool's standard output is, read without the white
/// space around it.
pub open spec fn output_line(line: Seq<char>) -> OutputLine<Seq<char>> {
    let text = trimmed(line);
    if text.len() == 0 {
        OutputLine::Blank
    } else if contains(text, "Failed processing"@) || contains(text, "失败"@) {
        OutputLine::Failure(text)
    } else if contains(text, "Successfully processed"@) || contains(text, "已成功处理"@) {
        OutputLine::Summary(text)
    } else {
        OutputLine::Progress(shown_progress(text))
    }
}

/// Reads a line of the tool's standard output.
pub fn classify_output_line(line: &str) -> (r: OutputLine<String>)
    ensures
        r@ == output_line(line@),
{
    let chars = to_chars(line);
    let (from, to) = chars_trim(&chars);
    if from == to {
        return OutputLine::Blank;
    }
    let text = chars_slice(&chars, from, to);
    let failed = to_chars("Failed processing");
    let failed_too = to_chars("失败");
    if chars_contain(&text, &failed) || chars_contain(&text, &failed_too) {
        return OutputLine::Failure(String::from_str(line.substring_char(from, to)));
    }
    let done = to_chars("Successfully processed");
    let done_too = to_chars("已成功处理");
    if chars_contain(&text, &done) || chars_contain(&text, &done_too) {
        return OutputLine::Summary(String::from_str(line.substring_char(from, to)));
    }
    let drive = to_chars(":\\");
    let start: usize = match chars_find(&text, &drive, 0) {
        Some(at) => {
            proof {
                let other = choose|k: int| first_occurrence(text@, ":\\"@, 0, k);
                assert(other == at);
            }
            if at > 0 {
                at - 1
            } else {
                0
            }
        },
        None => {
            assert(!exists|k: int| first_occurrence(text@, ":\\"@, 0, k));
            0
        },
    };
    let shown = line.substring_char(from + start, to);
    assert(shown@ =~= shown_progress(text@));
    OutputLine::Progress(String::from_str(shown))
}

/// What is shown for a line of the tool's error output: nothing for a line
/// of white space; else the line without the white space around it, marked
/// as an error. Every such line makes the run count as failed.
pub open spec fn error_line(line: Seq<char>) -> Option<Seq<char>> {
    if trimmed(line).len() == 0 {
        None
    } else {
        Some("ERR: "@ + trimmed(line))
    }
}

/// Reads a line of the tool's error output.
pub fn classify_error_line(line: &str) -> (r: Option<String>)
    ensures
        r.deep_view() == error_line(line@),
{
    let chars = to_chars(line);
    let (from, to) = chars_trim(&chars);
    if from == to {
        None
    } else {
        Some(String::from_str("ERR: ").concat(line.substring_char(from, to)))
    }
}

/// The shortest time between two reports on files that are shown, in milliseconds.
pub const PROGRESS_INTERVAL_MS: u64 = 100;

/// Whether a report on a file is shown, given the time since the last one shown.
pub fn show_progress(elapsed_ms: u64) -> (r: bool)
    ensures
        r == (elapsed_ms > PROGRESS_INTERVAL_MS),
{
    elapsed_ms > PROGRESS_INTERVAL_MS
}

/// The outcome of a run for a path. A path that was refused gives its
/// refusal, whatever else is told: for it no tool was started. For a
/// directory, the run is a success only if the tool ended with success and no
/// line counted as a failure.
pub fn fix_game_permissions(target: Result<String, String>, tool_succeeded: bool, saw_errors: bool) -> (r: Result<
    String,
    String,
>)
    ensures
        target is Err ==> r is Err && r->Err_0@ == target->Err_0@,
        target is Ok ==> {
            &&& r is Ok <==> (tool_succeeded && !saw_errors)
            &&& r is Ok ==> r->Ok_0@ == "Successfully finished permission fix for: "@
                + target->Ok_0@
            &&& r is Err ==> r->Err_0@ == "Permission fix failed for: "@ + target->Ok_0@
                + ". Check logs."@
        },
{
    match target {
        Err(refusal) => Err(refusal),
        Ok(directory) => {
            if tool_succeeded && !saw_errors {
                Ok(
                    String::from_str("Successfully finished permission fix for: ").concat(
                        directory.as_str(),
                    ),
                )
            } else {
                Err(
                    String::from_str("Permission fix failed for: ").concat(
                        directory.as_str(),
                    ).concat(". Check logs."),
                )
            }
        },
    }
}

} // verus!
