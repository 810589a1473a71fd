//! The log that the user interface reads: a bounded buffer of entries, and
//! the line that goes to the log file.

use vstd::prelude::*;

verus! {

/// One entry of the log.
#[derive(Debug, Clone, PartialEq, Eq)]
pub struct LogEntry {
    /// The time of day of the entry.
    pub time: String,
    /// The level: `info`, `success`, `warn`, `error` or `debug`.
    pub level: String,
    /// The text.
    pub message: String,
}

/// The number of entries that the buffer keeps.
pub const LOG_CAPACITY: usize = 1000;

/// The upper-case mapping of a text, as `str::to_uppercase` computes it.
pub uninterp spec fn uppercase(s: Seq<char>) -> Seq<char>;

/// Calls `str::to_uppercase`. The contract only gives the result its name,
/// [`uppercase`]: the Unicode tables behind it are not restated here.
#[verifier::external_body]
fn to_uppercase(s: &str) -> (r: String)
    ensures
        r@ == uppercase(s@),
{
    s.to_uppercase()
}

/// The line that the log file gets for an entry whose level is given in
/// upper case: the date and time and the level, each in brackets, then the
/// text, then a line feed.
pub open spec fn log_line_of(date_time: Seq<char>, upper_level: Seq<char>, message: Seq<char>) -> Seq<
    char,
> {
    "["@ + date_time + "] ["@ + upper_level + "] "@ + message + "\n"@
}

/// The line that the log file gets for an entry: the date and time and the
/// level in upper case, each in brackets, then the text, then a line feed.
pub open spec fn log_line_text(date_time: Seq<char>, level: Seq<char>, message: Seq<char>) -> Seq<
    char,
> {
    log_line_of(date_time, uppercase(level), message)
}

/// The line that the log file gets for an entry whose level is given in upper case.
pub fn log_line_with(date_time: &str, upper_level: &str, message: &str) -> (line: String)
    ensures
        line@ == log_line_of(date_time@, upper_level@, message@),
{
    String::from_str("[").concat(date_time).concat("] [").concat(upper_level).concat("] ").concat(
        message,
    ).concat("\n")
}

/// The line that the log file gets for an entry.
pub fn log_line(date_time: &str, level: &str, message: &str) -> (line: String)
    ensures
        line@ == log_line_text(date_time@, level@, message@),
{
    let upper = to_uppercase(level);
    log_line_with(date_time, upper.as_str(), message)
}

/// The entries that a buffer holds after one more: the new entry at the end,
/// and the oldest dropped if that makes more than the capacity.
pub open spec fn pushed(entries: Seq<LogEntry>, entry: LogEntry) -> Seq<LogEntry> {
    if entries.len() + 1 > LOG_CAPACITY {
        entries.push(entry).drop_first()
    } else {
        entries.push(entry)
    }
}

/// The newest entries of the log, oldest first, never more than the capacity.
pub struct LogBuffer {
    entries: Vec<LogEntry>,
}

impl View for LogBuffer {
    type V = Seq<LogEntry>;

    closed spec fn view(&self) -> Seq<LogEntry> {
        self.entries@
    }
}

impl LogBuffer {
    #[verifier::type_invariant]
    spec fn bounded(self) -> bool {
        self.entries@.len() <= LOG_CAPACITY
    }

    /// An empty buffer.
    pub fn new() -> (buffer: LogBuffer)
        ensures
            buffer@.len() == 0,
    {
        LogBuffer { entries: Vec::new() }
    }

    /// The number of entries.
    pub fn len(&self) -> (n: usize)
        ensures
            n == self@.len(),
            n <= LOG_CAPACITY,
    {
        proof {
            use_type_invariant(self);
        }
        self.entries.len()
    }

    /// The entries, oldest first.
    pub fn entries(&self) -> (entries: &Vec<LogEntry>)
        ensures
            entries@ == self@,
            entries@.len() <= LOG_CAPACITY,
    {
        proof {
            use_type_invariant(self);
        }
        &self.entries
    }

    /// Adds an entry at the end, and drops the oldest entry if the buffer is full.
    pub fn push(&mut self, entry: LogEntry)
        ensures
            final(self)@ == pushed(old(self)@, entry),
            final(self)@.len() <= LOG_CAPACITY,
            final(self)@.last() == entry,
    {
        proof {
            use_type_invariant(&*self);
        }
        let mut entries: Vec<LogEntry> = Vec::new();
        std::mem::swap(&mut entries, &mut self.entries);
        entries.push(entry);
        if entries.len() > LOG_CAPACITY {
            let _dropped = entries.remove(0);
            assert(entries@ =~= old(self)@.push(entry).drop_first());
        }
        self.entries = entries;
    }

    /// Drops every entry.
    pub fn clear(&mut self)
        ensures
            final(self)@.len() == 0,
    {
        self.entries = Vec::new();
    }
}

/// Records a message: makes the entry for the user interface, adds it to
/// the buffer, and gives the entry and the line for the log file.
pub fn log(buffer: &mut LogBuffer, time: &str, date_time: &str, level: &str, message: &str) -> (r: (
    LogEntry,
    String,
))
    ensures
        r.0.time@ == time@ && r.0.level@ == level@ && r.0.message@ == message@,
        r.1@ == log_line_text(date_time@, level@, message@),
        final(buffer)@.len() == if old(buffer)@.len() < LOG_CAPACITY {
            old(buffer)@.len() + 1
        } else {
            LOG_CAPACITY as nat
        },
        final(buffer)@.last().time@ == time@,
        final(buffer)@.last().level@ == level@,
        final(buffer)@.last().message@ == message@,
        forall|i: int|
            0 <= i < final(buffer)@.len() - 1 ==> final(buffer)@[i] == old(buffer)@[i + old(
                buffer,
            )@.len() + 1 - final(buffer)@.len()],
{
    let kept = LogEntry {
        time: String::from_str(time),
        level: String::from_str(level),
        message: String::from_str(message),
    };
    let shown = LogEntry {
        time: String::from_str(time),
        level: String::from_str(level),
        message: String::from_str(message),
    };
    let before: usize = buffer.len();
    buffer.push(kept);
    (shown, log_line(date_time, level, message))
}

/// Empties the log.
pub fn clear_logs(buffer: &mut LogBuffer)
    ensures
        final(buffer)@.len() == 0,
{
    buffer.clear();
}

} // verus!
