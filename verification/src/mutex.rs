//! The kernel object scanner: which processes are targets, which object names
//! are the client's single-instance locks, how the system handle table is
//! fetched and read, and the scan itself as a state machine that asks for one
//! outside operation at a time.

use vstd::prelude::*;
use std::collections::HashSet;
use crate::text::{
    contains, ends_with, lowercase, str_contains, str_ends_with, str_eq, to_lowercase,
};

verus! {

broadcast use vstd::std_specs::hash::group_hash_axioms;

/// A name, given with its lower-case form, is one of the engine's
/// single-instance locks: the name holds one of the two exact lock names, or
/// its lower-case form holds the store lock name.
pub open spec fn engine_lock_of(name: Seq<char>, lower: Seq<char>) -> bool {
    ||| contains(name, "DiabloII Check For Other Instances"@)
    ||| contains(name, "Diablo II Check For Other Instances"@)
    ||| contains(lower, "d2r store mutex"@)
}

/// A name, given in its lower-case form, is a data-directory lock inside the
/// named-object namespace: it holds `basenamedobjects` and ends with the data
/// directory, with either separator, with or without a trailing one.
pub open spec fn path_lock_of(lower: Seq<char>) -> bool {
    &&& contains(lower, "basenamedobjects"@)
    &&& {
        ||| ends_with(lower, "data/data"@)
        ||| ends_with(lower, "data\\data"@)
        ||| ends_with(lower, "data/data/"@)
        ||| ends_with(lower, "data\\data\\"@)
    }
}

/// The name is one of the engine's single-instance locks: it holds one of the
/// two exact lock names, or, in any case of letters, the store lock name.
pub open spec fn is_engine_lock(name: Seq<char>) -> bool {
    engine_lock_of(name, lowercase(name))
}

/// The name is a data-directory lock inside the named-object namespace: in
/// lower case it holds `basenamedobjects` and ends with the data directory,
/// with either separator, with or without a trailing one.
pub open spec fn is_scoped_path_lock(name: Seq<char>) -> bool {
    path_lock_of(lowercase(name))
}

/// The name is on the allow-list: only such an object may be closed.
pub open spec fn is_target_lock(name: Seq<char>) -> bool {
    is_engine_lock(name) || is_scoped_path_lock(name)
}

/// Whether a name, given with its lower-case form, is one of the engine's
/// single-instance locks.
pub fn engine_lock_in(name: &str, lower: &str) -> (r: bool)
    ensures
        r == engine_lock_of(name@, lower@),
{
    str_contains(name, "DiabloII Check For Other Instances") || str_contains(
        name,
        "Diablo II Check For Other Instances",
    ) || str_contains(lower, "d2r store mutex")
}

/// Whether a name, given in its lower-case form, is a data-directory lock
/// inside the named-object namespace.
pub fn path_lock_in(lower: &str) -> (r: bool)
    ensures
        r == path_lock_of(lower@),
{
    if !str_contains(lower, "basenamedobjects") {
        return false;
    }
    str_ends_with(lower, "data/data") || str_ends_with(lower, "data\\data") || str_ends_with(
        lower,
        "data/data/",
    ) || str_ends_with(lower, "data\\data\\")
}

/// Whether `name` is one of the engine's single-instance locks.
pub fn engine_lock(name: &str) -> (r: bool)
    ensures
        r == is_engine_lock(name@),
{
    let lower = to_lowercase(name);
    engine_lock_in(name, lower.as_str())
}

/// Whether `name` is a data-directory lock inside the named-object namespace.
pub fn scoped_path_lock(name: &str) -> (r: bool)
    ensures
        r == is_scoped_path_lock(name@),
{
    let lower = to_lowercase(name);
    path_lock_in(lower.as_str())
}

/// Whether an object of this name may be closed.
pub fn target_lock(name: &str) -> (r: bool)
    ensures
        r == is_target_lock(name@),
{
    let lower = to_lowercase(name);
    engine_lock_in(name, lower.as_str()) || path_lock_in(lower.as_str())
}

/// A file name, given in its lower-case form, is that of a target binary.
pub open spec fn target_image_of(lower: Seq<char>) -> bool {
    lower == "d2r.exe"@ || lower == "diabloii.exe"@
}

/// The file name of an executable is that of a target binary, in any case of letters.
pub open spec fn is_target_image(file_name: Seq<char>) -> bool {
    target_image_of(lowercase(file_name))
}

/// Whether a file name, given in its lower-case form, is that of a target binary.
pub fn target_image_in(lower: &str) -> (r: bool)
    ensures
        r == target_image_of(lower@),
{
    str_eq(lower, "d2r.exe") || str_eq(lower, "diabloii.exe")
}

/// Whether `file_name` is the file name of a target binary.
pub fn target_image(file_name: &str) -> (r: bool)
    ensures
        r == is_target_image(file_name@),
{
    let lower = to_lowercase(file_name);
    target_image_in(lower.as_str())
}

/// A live process as the scanner sees it.
pub struct ProcessImage {
    /// The process identifier.
    pub pid: u32,
    /// The file name of its executable, where the system tells it.
    pub exe_name: Option<String>,
}

/// The process runs a target binary.
pub open spec fn is_target_process(p: ProcessImage) -> bool {
    p.exe_name is Some && is_target_image(p.exe_name->0@)
}

/// `pid` belongs to a process of the list that runs a target binary.
pub open spec fn is_target_pid(processes: Seq<ProcessImage>, pid: u32) -> bool {
    exists|i: int| 0 <= i < processes.len() && processes[i].pid == pid && is_target_process(#[trigger] processes[i])
}

/// Whether `pid` is in the set.
pub fn pid_listed(pids: &HashSet<u32>, pid: u32) -> (r: bool)
    ensures
        r == pids@.contains(pid),
{
    pids.contains(&pid)
}

/// The identifiers of the processes that run a target binary.
pub fn target_pids(processes: &Vec<ProcessImage>) -> (pids: HashSet<u32>)
    ensures
        forall|pid: u32| pids@.contains(pid) <==> is_target_pid(processes@, pid),
{
    let mut pids: HashSet<u32> = HashSet::new();
    let mut i: usize = 0;
    while i < processes.len()
        invariant
            i <= processes.len(),
            forall|pid: u32| pids@.contains(pid) <==> is_target_pid(processes@.take(i as int), pid),
        decreases processes.len() - i,
    {
        let ghost before = pids@;
        let p = &processes[i];
        let hit = match &p.exe_name {
            Some(name) => target_image(name.as_str()),
            None => false,
        };
        if hit {
            pids.insert(p.pid);
        }
        proof {
            let prev = processes@.take(i as int);
            let next = processes@.take(i + 1);
            assert(next.drop_last() =~= prev);
            assert(next.last() == processes@[i as int]);
            assert forall|pid: u32| pids@.contains(pid) <==> is_target_pid(next, pid) by {
                if is_target_pid(prev, pid) {
                    let k = choose|k: int|
                        0 <= k < prev.len() && prev[k].pid == pid && is_target_process(
                            #[trigger] prev[k],
                        );
                    assert(next[k] == prev[k]);
                }
                if is_target_pid(next, pid) {
                    let k = choose|k: int|
                        0 <= k < next.len() && next[k].pid == pid && is_target_process(
                            #[trigger] next[k],
                        );
                    if k < i {
                        assert(prev[k] == next[k]);
                    }
                }
                if hit && pid == p.pid {
                    assert(is_target_process(next[i as int]));
                }
            }
        }
        i += 1;
    }
    assert(processes@.take(processes.len() as int) =~= processes@);
    pids
}

/// The status with which the system accepts a query.
pub const STATUS_SUCCESS: i32 = 0;

/// The status that says that the buffer was too small for the table.
pub const STATUS_INFO_LENGTH_MISMATCH: i32 = -1073741820;

/// The status that says that the buffer overflowed.
pub const STATUS_BUFFER_OVERFLOW: i32 = -2147483643;

/// The size in bytes of the first buffer offered for the handle table.
pub const INITIAL_TABLE_BUFFER: u32 = 0x100000;

/// What to do after one query for the system handle table.
#[derive(Debug, PartialEq, Eq, Structural, Clone, Copy)]
pub enum TableQuery {
    /// The buffer holds the table: read it.
    Read,
    /// The buffer was too small: ask again with a buffer of this size.
    Retry(u32),
    /// The enumeration failed with this status: the scan fails.
    Fail(i32),
}

/// The size of the next buffer after one of `size` bytes proved too small and
/// the system asked for `return_length`: the larger of the length asked for
/// and twice the size, capped at the largest length that can be passed.
pub open spec fn grown(size: u32, return_length: u32) -> int {
    let doubled = if 2 * size > u32::MAX {
        u32::MAX as int
    } else {
        2 * size
    };
    if return_length > doubled {
        return_length as int
    } else {
        doubled
    }
}

/// What follows a query that ended with `status` on a buffer of `size` bytes.
pub open spec fn table_query_step(status: i32, size: u32, return_length: u32) -> TableQuery {
    if status == STATUS_SUCCESS {
        TableQuery::Read
    } else if (status == STATUS_INFO_LENGTH_MISMATCH || status == STATUS_BUFFER_OVERFLOW) && grown(
        size,
        return_length,
    ) > size {
        TableQuery::Retry(grown(size, return_length) as u32)
    } else {
        TableQuery::Fail(status)
    }
}

/// Decides what follows one query for the system handle table. A buffer that
/// proved too small is followed by a strictly larger one, so the queries end;
/// a buffer that cannot grow any more, or any other status, fails the scan.
pub fn after_table_query(status: i32, size: u32, return_length: u32) -> (step: TableQuery)
    ensures
        step == table_query_step(status, size, return_length),
        step matches TableQuery::Retry(next) ==> next > size && next >= return_length,
{
    if status == STATUS_SUCCESS {
        return TableQuery::Read;
    }
    if status == STATUS_INFO_LENGTH_MISMATCH || status == STATUS_BUFFER_OVERFLOW {
        let doubled: u32 = match size.checked_mul(2) {
            Some(d) => d,
            None => u32::MAX,
        };
        let next: u32 = if return_length > doubled {
            return_length
        } else {
            doubled
        };
        if next > size {
            return TableQuery::Retry(next);
        }
    }
    TableQuery::Fail(status)
}

/// One entry of the system handle table, as far as the scan reads it.
#[derive(Debug, PartialEq, Eq, Structural, Clone, Copy)]
pub struct HandleEntry {
    /// The identifier of the owning process.
    pub pid: u32,
    /// The value of the handle in the owning process.
    pub handle_value: u64,
    /// The index of the type of the object.
    pub object_type_index: u16,
}

/// The length in bytes of the header of the handle table.
pub const TABLE_HEADER_LEN: usize = 16;

/// The length in bytes of one entry of the handle table.
pub const TABLE_ENTRY_LEN: usize = 40;

/// The unsigned number that two bytes at `at` hold, least significant first.
pub open spec fn le_u16(bytes: Seq<u8>, at: int) -> int {
    bytes[at] + bytes[at + 1] * 0x100
}

/// The unsigned number that four bytes at `at` hold, least significant first.
pub open spec fn le_u32(bytes: Seq<u8>, at: int) -> int {
    le_u16(bytes, at) + le_u16(bytes, at + 2) * 0x1_0000
}

/// The unsigned number that eight bytes at `at` hold, least significant first.
pub open spec fn le_u64(bytes: Seq<u8>, at: int) -> int {
    le_u32(bytes, at) + le_u32(bytes, at + 4) * 0x1_0000_0000
}

/// The number of entries that the header of the table announces.
pub open spec fn table_count(buffer: Seq<u8>) -> int {
    le_u64(buffer, 0)
}

/// The buffer is long enough for its header and for the entries that the
/// header announces.
pub open spec fn table_fits(buffer: Seq<u8>) -> bool {
    &&& buffer.len() >= TABLE_HEADER_LEN
    &&& TABLE_HEADER_LEN + TABLE_ENTRY_LEN * table_count(buffer) <= buffer.len()
}

/// The entry number `i` of the table: the owning process is the low half of
/// the eight bytes at offset 8 of the entry, the handle value the eight bytes
/// at offset 16, the type index the two bytes at offset 30.
pub open spec fn table_entry(buffer: Seq<u8>, i: int) -> HandleEntry {
    let base = TABLE_HEADER_LEN + TABLE_ENTRY_LEN * i;
    HandleEntry {
        pid: le_u32(buffer, base + 8) as u32,
        handle_value: le_u64(buffer, base + 16) as u64,
        object_type_index: le_u16(buffer, base + 30) as u16,
    }
}

/// Reads two bytes, least significant first.
pub fn read_u16(buffer: &Vec<u8>, at: usize) -> (v: u16)
    requires
        at + 2 <= buffer.len(),
    ensures
        v == le_u16(buffer@, at as int),
{
    let low: u16 = buffer[at] as u16;
    let high: u16 = buffer[at + 1] as u16;
    low + high * 0x100
}

/// Reads four bytes, least significant first.
pub fn read_u32(buffer: &Vec<u8>, at: usize) -> (v: u32)
    requires
        at + 4 <= buffer.len(),
    ensures
        v == le_u32(buffer@, at as int),
{
    let low: u32 = read_u16(buffer, at) as u32;
    let high: u32 = read_u16(buffer, at + 2) as u32;
    low + high * 0x1_0000
}

/// Reads eight bytes, least significant first.
pub fn read_u64(buffer: &Vec<u8>, at: usize) -> (v: u64)
    requires
        at + 8 <= buffer.len(),
    ensures
        v == le_u64(buffer@, at as int),
{
    let low: u64 = read_u32(buffer, at) as u64;
    let high: u64 = read_u32(buffer, at + 4) as u64;
    low + high * 0x1_0000_0000
}

/// Reads the system handle table out of the buffer that the system filled:
/// a header of 16 bytes that starts with the number of entries, then entries
/// of 40 bytes each. A buffer too short for what its header announces is
/// refused; no byte outside the buffer is read.
pub fn parse_handle_table(buffer: &Vec<u8>) -> (r: Option<Vec<HandleEntry>>)
    ensures
        r is Some <==> table_fits(buffer@),
        r matches Some(entries) ==> {
            &&& entries@.len() == table_count(buffer@)
            &&& forall|i: int| 0 <= i < entries@.len() ==> entries@[i] == table_entry(buffer@, i)
        },
{
    if buffer.len() < TABLE_HEADER_LEN {
        return None;
    }
    let announced: u64 = read_u64(buffer, 0);
    let room: usize = (buffer.len() - TABLE_HEADER_LEN) / TABLE_ENTRY_LEN;
    if announced > room as u64 {
        return None;
    }
    let count: usize = announced as usize;
    let mut entries: Vec<HandleEntry> = Vec::new();
    let mut i: usize = 0;
    while i < count
        invariant
            i <= count,
            count == table_count(buffer@),
            TABLE_HEADER_LEN + TABLE_ENTRY_LEN * count <= buffer.len(),
            entries@.len() == i,
            forall|k: int| 0 <= k < i ==> entries@[k] == table_entry(buffer@, k),
        decreases count - i,
    {
        let base: usize = TABLE_HEADER_LEN + TABLE_ENTRY_LEN * i;
        let owner: u32 = read_u32(buffer, base + 8);
        let value: u64 = read_u64(buffer, base + 16);
        let kind: u16 = read_u16(buffer, base + 30);
        entries.push(HandleEntry { pid: owner, handle_value: value, object_type_index: kind });
        i += 1;
    }
    Some(entries)
}

/// The text that a sequence of UTF-16 code units stands for, reading lossily:
/// a unit outside the surrogate range is its character, a leading surrogate
/// followed by a trailing one is the character that the pair encodes, and any
/// other surrogate is the replacement character.
pub open spec fn utf16_lossy(units: Seq<u16>) -> Seq<char>
    decreases units.len(),
{
    if units.len() == 0 {
        seq![]
    } else {
        let u = units[0];
        if u < 0xD800 || u > 0xDFFF {
            seq![u as char] + utf16_lossy(units.skip(1))
        } else if u <= 0xDBFF && units.len() > 1 && 0xDC00 <= units[1] <= 0xDFFF {
            seq![(0x1_0000 + (u - 0xD800) * 0x400 + (units[1] - 0xDC00)) as char] + utf16_lossy(
                units.skip(2),
            )
        } else {
            seq!['\u{FFFD}'] + utf16_lossy(units.skip(1))
        }
    }
}

/// Calls `String::from_utf16_lossy`, which decodes UTF-16 and puts the
/// replacement character in place of each unpaired surrogate. The contract
/// states that decoding in full, as [`utf16_lossy`].
#[verifier::external_body]
pub(crate) fn decode_utf16_lossy(units: &Vec<u16>) -> (r: String)
    ensures
        r@ == utf16_lossy(units@),
{
    String::from_utf16_lossy(units)
}

/// The longest that one name query may take, in milliseconds.
pub const NAME_QUERY_TIMEOUT_MS: u64 = 1500;

/// How the query for the name of an object ended.
#[derive(Debug, Clone, PartialEq, Eq)]
pub enum NameQuery {
    /// The name was not asked for.
    Skipped,
    /// The query did not answer within the timeout and was abandoned.
    TimedOut,
    /// The query answered with this status and these code units of the name.
    Answered { status: i32, units: Vec<u16> },
}

/// How far the examination of one handle got.
#[derive(Debug, Clone, PartialEq, Eq)]
pub enum HandleProbe {
    /// The owning process could not be opened, or the handle could not be
    /// duplicated into the scanning process.
    Inaccessible,
    /// The handle was duplicated; the type query ended with `type_status` and
    /// the code units `object_type` of the name of the type, the name query as
    /// `name` says.
    Examined { type_status: i32, object_type: Vec<u16>, name: NameQuery },
}

impl HandleProbe {
    /// A copy of the probe.
    pub fn clone_probe(&self) -> (copy: HandleProbe)
        ensures
            probe_name(copy) == probe_name(*self),
            copy matches HandleProbe::Examined { name: NameQuery::TimedOut, .. } <==> *self matches HandleProbe::Examined {
                name: NameQuery::TimedOut,
                ..
            },
    {
        match self {
            HandleProbe::Inaccessible => HandleProbe::Inaccessible,
            HandleProbe::Examined { type_status, object_type, name } => HandleProbe::Examined {
                type_status: *type_status,
                object_type: crate::os::clone_units(object_type),
                name: match name {
                    NameQuery::Skipped => NameQuery::Skipped,
                    NameQuery::TimedOut => NameQuery::TimedOut,
                    NameQuery::Answered { status, units } => NameQuery::Answered {
                        status: *status,
                        units: crate::os::clone_units(units),
                    },
                },
            },
        }
    }
}

/// The name of an object type is that of a lock or synchronization type: a
/// mutex (`Mutant`), an event, a semaphore, a waitable timer, or a section.
/// Files, keys, threads and every other type are none.
pub open spec fn is_lock_type(type_text: Seq<char>) -> bool {
    ||| type_text == "Mutant"@
    ||| type_text == "Event"@
    ||| type_text == "Semaphore"@
    ||| type_text == "Timer"@
    ||| type_text == "Section"@
}

/// Whether the name of an object type is that of a lock or synchronization type.
pub fn lock_type(type_text: &str) -> (r: bool)
    ensures
        r == is_lock_type(type_text@),
{
    str_eq(type_text, "Mutant") || str_eq(type_text, "Event") || str_eq(type_text, "Semaphore")
        || str_eq(type_text, "Timer") || str_eq(type_text, "Section")
}

/// The type query told that the object is of a lock or synchronization type:
/// it ended with success, and the name of the type is one of those.
pub open spec fn lock_type_told(type_status: i32, object_type: Seq<u16>) -> bool {
    &&& type_status == STATUS_SUCCESS
    &&& object_type.len() > 0
    &&& is_lock_type(utf16_lossy(object_type))
}

/// Whether the name of an object is to be asked for: only when the type
/// query told that the object is of a lock or synchronization type. For an
/// object of any other type, a file for one, no name query is made.
pub fn should_query_name(type_status: i32, object_type: &Vec<u16>) -> (r: bool)
    ensures
        r == lock_type_told(type_status, object_type@),
{
    if type_status != STATUS_SUCCESS || object_type.len() == 0 {
        return false;
    }
    let type_text = decode_utf16_lossy(object_type);
    lock_type(type_text.as_str())
}

/// The name that an examination resolved: there is one only if the handle was
/// duplicated, its type told as a lock or synchronization type, and the name
/// query answered in time, with success and a name that is not empty. Anything
/// else is "unknown"; an object of another type has no name here, whatever a
/// name query would say of it.
pub open spec fn probe_name(probe: HandleProbe) -> Option<Seq<char>> {
    match probe {
        HandleProbe::Examined {
            type_status,
            object_type,
            name: NameQuery::Answered { status, units },
        } => if lock_type_told(type_status, object_type@) && status == STATUS_SUCCESS
            && units@.len() > 0 {
            Some(utf16_lossy(units@))
        } else {
            None
        },
        _ => None,
    }
}

/// The name that an examination resolved, if any.
pub fn resolved_name(probe: &HandleProbe) -> (name: Option<String>)
    ensures
        name.deep_view() == probe_name(*probe),
{
    match probe {
        HandleProbe::Examined {
            type_status,
            object_type,
            name: NameQuery::Answered { status, units },
        } => {
            if *status == STATUS_SUCCESS && units.len() > 0 && should_query_name(
                *type_status,
                object_type,
            ) {
                Some(decode_utf16_lossy(units))
            } else {
                None
            }
        },
        _ => None,
    }
}

/// An object that is not of a lock or synchronization type is never closed
/// and fixes no type index: its examination resolves no name, so the scan
/// moves on from it as from a handle that could not be examined at all.
pub proof fn law_only_lock_types_are_named(probe: HandleProbe)
    ensures
        probe_name(probe) is Some ==> probe is Examined && lock_type_told(
            probe->type_status,
            probe->object_type@,
        ),
        probe is Examined && !is_lock_type(utf16_lossy(probe->object_type@)) ==> probe_name(probe)
            is None,
{
}

/// Whether the examination was abandoned on the timeout of the name query.
pub fn timed_out(probe: &HandleProbe) -> (r: bool)
    ensures
        r == (probe matches HandleProbe::Examined { name: NameQuery::TimedOut, .. }),
{
    match probe {
        HandleProbe::Examined { name: NameQuery::TimedOut, .. } => true,
        _ => false,
    }
}

/// The two sweeps over the handle table.
#[derive(Debug, PartialEq, Eq, Structural, Clone, Copy)]
pub enum ScanPass {
    /// The handles that the target processes own.
    Targeted,
    /// The handles of every other process whose object type has the index
    /// that the first sweep found.
    SystemWide,
}

/// Where a scan stands.
#[derive(Debug, Clone, PartialEq, Eq)]
pub enum Cursor<S> {
    /// The entry at `index` is being examined.
    Examining { pass: ScanPass, index: usize },
    /// The entry at `index` resolved to `name`, which is on the allow-list,
    /// and is being closed.
    Closing { pass: ScanPass, index: usize, name: S },
    /// Both sweeps are over.
    Finished,
}

impl View for Cursor<String> {
    type V = Cursor<Seq<char>>;

    open spec fn view(&self) -> Self::V {
        match self {
            Cursor::Examining { pass, index } => Cursor::Examining { pass: *pass, index: *index },
            Cursor::Closing { pass, index, name } => Cursor::Closing {
                pass: *pass,
                index: *index,
                name: name@,
            },
            Cursor::Finished => Cursor::Finished,
        }
    }
}

/// A handle whose name was on the allow-list, and what became of the attempt
/// to close it.
#[derive(Debug, Clone, PartialEq, Eq)]
pub struct LockMatch<S> {
    /// The identifier of the owning process.
    pub pid: u32,
    /// The value of the handle in the owning process.
    pub handle_value: u64,
    /// The name that the handle resolved to.
    pub name: S,
    /// Whether the handle was closed.
    pub closed: bool,
}

impl View for LockMatch<String> {
    type V = LockMatch<Seq<char>>;

    open spec fn view(&self) -> Self::V {
        LockMatch {
            pid: self.pid,
            handle_value: self.handle_value,
            name: self.name@,
            closed: self.closed,
        }
    }
}

/// The one outside operation that a scan asks for next.
#[derive(Debug, PartialEq, Eq, Structural, Clone, Copy)]
pub enum ScanAction {
    /// Examine this handle: duplicate it, query its type, and its name within
    /// the timeout.
    Examine { pid: u32, handle_value: u64 },
    /// Close this handle in its owning process.
    CloseRemote { pid: u32, handle_value: u64 },
    /// Nothing more: the scan closed this many handles.
    Finished { closed: usize },
}

/// The entry is one that the sweep examines: in the targeted sweep an entry of
/// a target process; in the system-wide sweep an entry of another process
/// whose object type has the index found.
pub open spec fn is_candidate(
    entry: HandleEntry,
    targets: Set<u32>,
    pass: ScanPass,
    type_index: Option<u16>,
) -> bool {
    match pass {
        ScanPass::Targeted => targets.contains(entry.pid),
        ScanPass::SystemWide => type_index == Some(entry.object_type_index) && !targets.contains(
            entry.pid,
        ),
    }
}

/// The index of the first entry at or after `from` that the sweep examines.
pub open spec fn first_candidate(
    entries: Seq<HandleEntry>,
    targets: Set<u32>,
    pass: ScanPass,
    type_index: Option<u16>,
    from: int,
) -> Option<int>
    decreases entries.len() - from,
{
    if from < 0 || from >= entries.len() {
        None
    } else if is_candidate(entries[from], targets, pass, type_index) {
        Some(from)
    } else {
        first_candidate(entries, targets, pass, type_index, from + 1)
    }
}

/// The number of entries that target processes own.
pub open spec fn targeted_count(entries: Seq<HandleEntry>, targets: Set<u32>) -> nat
    decreases entries.len(),
{
    if entries.len() == 0 {
        0
    } else {
        targeted_count(entries.drop_last(), targets) + if targets.contains(entries.last().pid) {
            1nat
        } else {
            0nat
        }
    }
}

/// The state of a scan, as the model sees it.
pub struct ScanView {
    /// The handle table.
    pub entries: Seq<HandleEntry>,
    /// The identifiers of the target processes.
    pub targets: Set<u32>,
    /// Where the scan stands.
    pub cursor: Cursor<Seq<char>>,
    /// The object type index found in the targeted sweep: that of the first
    /// handle whose name was resolved.
    pub type_index: Option<u16>,
    /// The handles whose names were on the allow-list and whose closing has
    /// been answered, in the order of the scan.
    pub matches: Seq<LockMatch<Seq<char>>>,
    /// How many of them were closed.
    pub closed: nat,
}

impl ScanView {
    /// The invariant of a scan: the table can be indexed; the cursor points
    /// into it at an entry that its sweep examines; a handle that is being
    /// closed has a name on the allow-list, and so has every match; no more
    /// handles were closed than matched.
    pub open spec fn well_formed(self) -> bool {
        &&& self.entries.len() <= usize::MAX
        &&& match self.cursor {
            Cursor::Examining { pass, index } => index < self.entries.len() && is_candidate(
                self.entries[index as int],
                self.targets,
                pass,
                self.type_index,
            ),
            Cursor::Closing { pass, index, name } => index < self.entries.len() && is_target_lock(
                name,
            ),
            Cursor::Finished => true,
        }
        &&& forall|i: int| 0 <= i < self.matches.len() ==> is_target_lock(#[trigger] self.matches[i].name)
        &&& self.closed <= self.matches.len()
    }

    /// Where the scan goes on from position `from` of sweep `pass`: at the
    /// next entry that the sweep examines; when the targeted sweep is through
    /// and it found a type index, at the first entry of the system-wide sweep;
    /// else it is finished.
    pub open spec fn seek(self, pass: ScanPass, from: int) -> Cursor<Seq<char>> {
        match first_candidate(self.entries, self.targets, pass, self.type_index, from) {
            Some(i) => Cursor::Examining { pass, index: i as usize },
            None => if pass == ScanPass::Targeted && self.type_index is Some {
                match first_candidate(
                    self.entries,
                    self.targets,
                    ScanPass::SystemWide,
                    self.type_index,
                    0,
                ) {
                    Some(i) => Cursor::Examining { pass: ScanPass::SystemWide, index: i as usize },
                    None => Cursor::Finished,
                }
            } else {
                Cursor::Finished
            },
        }
    }

    /// A scan of a table before it has looked at anything.
    pub open spec fn blank(entries: Seq<HandleEntry>, targets: Set<u32>) -> ScanView {
        ScanView {
            entries,
            targets,
            cursor: Cursor::Finished,
            type_index: None,
            matches: seq![],
            closed: 0,
        }
    }

    /// A scan at its start.
    pub open spec fn start(entries: Seq<HandleEntry>, targets: Set<u32>) -> ScanView {
        let blank = ScanView::blank(entries, targets);
        ScanView { cursor: blank.seek(ScanPass::Targeted, 0), ..blank }
    }

    /// The scan once the examination of the entry at `index` in sweep `pass`
    /// has resolved `name`: the first name resolved in the targeted sweep, which
    /// is that of a lock or synchronization object, fixes the type index.
    pub open spec fn typed(self, pass: ScanPass, index: usize, name: Option<Seq<char>>) -> ScanView {
        ScanView {
            type_index: if name is Some && pass == ScanPass::Targeted && self.type_index is None {
                Some(self.entries[index as int].object_type_index)
            } else {
                self.type_index
            },
            ..self
        }
    }

    /// The scan once the closing of the entry at `index`, which resolved to
    /// `name`, is answered: the match is recorded, and counted if the handle
    /// was closed.
    pub open spec fn noted(self, index: usize, name: Seq<char>, ok: bool) -> ScanView {
        ScanView {
            matches: self.matches.push(
                LockMatch {
                    pid: self.entries[index as int].pid,
                    handle_value: self.entries[index as int].handle_value,
                    name,
                    closed: ok,
                },
            ),
            closed: if ok {
                self.closed + 1
            } else {
                self.closed
            },
            ..self
        }
    }

    /// The operation that the scan asks for.
    pub open spec fn action(self) -> ScanAction {
        match self.cursor {
            Cursor::Examining { pass, index } => ScanAction::Examine {
                pid: self.entries[index as int].pid,
                handle_value: self.entries[index as int].handle_value,
            },
            Cursor::Closing { pass, index, name } => ScanAction::CloseRemote {
                pid: self.entries[index as int].pid,
                handle_value: self.entries[index as int].handle_value,
            },
            Cursor::Finished => ScanAction::Finished { closed: self.closed as usize },
        }
    }

    /// The scan after the examination that it asked for resolved `name`.
    /// The first name resolved in the targeted sweep fixes the type index; a
    /// name is resolved only of a lock or synchronization object. A name on
    /// the allow-list leads to the closing of the handle; without a name, or
    /// with any other name, the scan moves on and the handle is left alone. A
    /// scan that did not ask for an examination stays as it is.
    pub open spec fn examined(self, name: Option<Seq<char>>) -> ScanView {
        match self.cursor {
            Cursor::Examining { pass, index } => {
                let typed = self.typed(pass, index, name);
                if name is Some && is_target_lock(name->0) {
                    ScanView { cursor: Cursor::Closing { pass, index, name: name->0 }, ..typed }
                } else {
                    ScanView { cursor: typed.seek(pass, index + 1), ..typed }
                }
            },
            _ => self,
        }
    }

    /// The scan after the closing that it asked for succeeded or not: the
    /// match is recorded, counted if the handle was closed, and the scan moves
    /// on. A scan that did not ask for a closing stays as it is.
    pub open spec fn closed(self, ok: bool) -> ScanView {
        match self.cursor {
            Cursor::Closing { pass, index, name } => {
                let noted = self.noted(index, name, ok);
                ScanView { cursor: noted.seek(pass, index + 1), ..noted }
            },
            _ => self,
        }
    }
}

/// What the first candidate is, when there is one, and that there is none
/// before it.
pub proof fn lemma_first_candidate(
    entries: Seq<HandleEntry>,
    targets: Set<u32>,
    pass: ScanPass,
    type_index: Option<u16>,
    from: int,
)
    requires
        0 <= from,
    ensures
        match first_candidate(entries, targets, pass, type_index, from) {
            Some(i) => {
                &&& from <= i < entries.len()
                &&& is_candidate(entries[i], targets, pass, type_index)
                &&& forall|k: int|
                    from <= k < i ==> !is_candidate(#[trigger] entries[k], targets, pass, type_index)
            },
            None => forall|k: int|
                from <= k < entries.len() ==> !is_candidate(
                    #[trigger] entries[k],
                    targets,
                    pass,
                    type_index,
                ),
        },
    decreases entries.len() - from,
{
    if from < entries.len() && !is_candidate(entries[from], targets, pass, type_index) {
        lemma_first_candidate(entries, targets, pass, type_index, from + 1);
    }
}

/// A scan over a handle table: it asks for one outside operation at a time
/// and is told how each ended.
pub struct Scan {
    entries: Vec<HandleEntry>,
    targets: HashSet<u32>,
    cursor: Cursor<String>,
    type_index: Option<u16>,
    matches: Vec<LockMatch<String>>,
    closed: usize,
}

/// The view of a list of matches.
pub open spec fn matches_view(matches: Seq<LockMatch<String>>) -> Seq<LockMatch<Seq<char>>> {
    matches.map_values(|m: LockMatch<String>| m@)
}

impl View for Scan {
    type V = ScanView;

    closed spec fn view(&self) -> ScanView {
        ScanView {
            entries: self.entries@,
            targets: self.targets@,
            cursor: self.cursor@,
            type_index: self.type_index,
            matches: matches_view(self.matches@),
            closed: self.closed as nat,
        }
    }
}

impl Scan {
    #[verifier::type_invariant]
    spec fn type_inv(self) -> bool {
        self@.well_formed()
    }

    /// The index of the first entry at or after `from` that the sweep examines.
    fn find_candidate(
        entries: &Vec<HandleEntry>,
        targets: &HashSet<u32>,
        pass: ScanPass,
        type_index: Option<u16>,
        from: usize,
    ) -> (r: Option<usize>)
        ensures
            match r {
                Some(i) => first_candidate(entries@, targets@, pass, type_index, from as int)
                    == Some(i as int) && i < entries.len(),
                None => first_candidate(entries@, targets@, pass, type_index, from as int) is None,
            },
    {
        let mut i: usize = from;
        while i < entries.len()
            invariant
                from <= i,
                first_candidate(entries@, targets@, pass, type_index, from as int)
                    == first_candidate(entries@, targets@, pass, type_index, i as int),
            decreases entries.len() - i,
        {
            let e = entries[i];
            let listed = pid_listed(targets, e.pid);
            let hit = match pass {
                ScanPass::Targeted => listed,
                ScanPass::SystemWide => !listed && match type_index {
                    Some(t) => t == e.object_type_index,
                    None => false,
                },
            };
            if hit {
                return Some(i);
            }
            i += 1;
        }
        None
    }

    /// Where the scan goes on from position `from` of sweep `pass`.
    fn seek(
        entries: &Vec<HandleEntry>,
        targets: &HashSet<u32>,
        type_index: Option<u16>,
        pass: ScanPass,
        from: usize,
    ) -> (cursor: Cursor<String>)
        ensures
            forall|s: ScanView|
                s.entries == entries@ && s.targets == targets@ && s.type_index == type_index
                    ==> cursor@ == #[trigger] s.seek(pass, from as int),
            match cursor {
                Cursor::Examining { pass: p, index } => index < entries.len() && is_candidate(
                    entries@[index as int],
                    targets@,
                    p,
                    type_index,
                ),
                Cursor::Closing { .. } => false,
                Cursor::Finished => true,
            },
    {
        proof {
            lemma_first_candidate(entries@, targets@, pass, type_index, from as int);
            lemma_first_candidate(entries@, targets@, ScanPass::SystemWide, type_index, 0);
        }
        match Self::find_candidate(entries, targets, pass, type_index, from) {
            Some(i) => Cursor::Examining { pass, index: i },
            None => {
                let again = match pass {
                    ScanPass::Targeted => type_index.is_some(),
                    ScanPass::SystemWide => false,
                };
                if again {
                    match Self::find_candidate(
                        entries,
                        targets,
                        ScanPass::SystemWide,
                        type_index,
                        0,
                    ) {
                        Some(i) => Cursor::Examining { pass: ScanPass::SystemWide, index: i },
                        None => Cursor::Finished,
                    }
                } else {
                    Cursor::Finished
                }
            },
        }
    }

    /// A scan of the table `entries` for the target processes `targets`, at
    /// its start.
    pub fn new(targets: HashSet<u32>, entries: Vec<HandleEntry>) -> (scan: Scan)
        ensures
            scan@ == ScanView::start(entries@, targets@),
            scan@.well_formed(),
    {
        let cursor = Self::seek(&entries, &targets, None, ScanPass::Targeted, 0);
        let ghost blank = ScanView {
            entries: entries@,
            targets: targets@,
            cursor: Cursor::Finished,
            type_index: None,
            matches: seq![],
            closed: 0,
        };
        assert(cursor@ == blank.seek(ScanPass::Targeted, 0));
        let matches: Vec<LockMatch<String>> = Vec::new();
        assert(matches_view(matches@) =~= seq![]);
        let size: usize = entries.len();
        assert(entries@.len() <= usize::MAX);
        Scan { entries, targets, cursor, type_index: None, matches, closed: 0 }
    }

    /// The operation that the scan asks for.
    pub fn action(&self) -> (action: ScanAction)
        ensures
            action == self@.action(),
    {
        proof {
            use_type_invariant(self);
        }
        match &self.cursor {
            Cursor::Examining { pass, index } => ScanAction::Examine {
                pid: self.entries[*index].pid,
                handle_value: self.entries[*index].handle_value,
            },
            Cursor::Closing { pass, index, name } => ScanAction::CloseRemote {
                pid: self.entries[*index].pid,
                handle_value: self.entries[*index].handle_value,
            },
            Cursor::Finished => ScanAction::Finished { closed: self.closed },
        }
    }

    /// The entry that is being examined or closed, if the scan is not over.
    pub fn current(&self) -> (entry: Option<HandleEntry>)
        ensures
            self@.well_formed(),
            match self@.cursor {
                Cursor::Examining { pass, index } => entry == Some(self@.entries[index as int]),
                Cursor::Closing { pass, index, name } => entry == Some(
                    self@.entries[index as int],
                ),
                Cursor::Finished => entry is None,
            },
    {
        proof {
            use_type_invariant(self);
        }
        match &self.cursor {
            Cursor::Examining { pass, index } => Some(self.entries[*index]),
            Cursor::Closing { pass, index, name } => Some(self.entries[*index]),
            Cursor::Finished => None,
        }
    }

    /// Where the scan stands.
    pub fn cursor(&self) -> (cursor: &Cursor<String>)
        ensures
            cursor@ == self@.cursor,
    {
        &self.cursor
    }

    /// The handle table.
    pub fn entries(&self) -> (entries: &Vec<HandleEntry>)
        ensures
            entries@ == self@.entries,
    {
        &self.entries
    }

    /// The identifiers of the target processes.
    pub fn targets(&self) -> (targets: &HashSet<u32>)
        ensures
            targets@ == self@.targets,
    {
        &self.targets
    }

    /// Whether both sweeps are over.
    pub fn is_finished(&self) -> (r: bool)
        ensures
            r == (self@.cursor is Finished),
    {
        match &self.cursor {
            Cursor::Finished => true,
            _ => false,
        }
    }

    /// The number of handles closed so far.
    pub fn closed_count(&self) -> (n: usize)
        ensures
            n == self@.closed,
            n <= self@.matches.len(),
    {
        proof {
            use_type_invariant(self);
        }
        self.closed
    }

    /// The handles whose names were on the allow-list, in the order of the scan.
    pub fn matches(&self) -> (matches: &Vec<LockMatch<String>>)
        ensures
            matches_view(matches@) == self@.matches,
            forall|i: int| 0 <= i < matches@.len() ==> is_target_lock(#[trigger] matches@[i].name@),
    {
        proof {
            use_type_invariant(self);
            assert forall|i: int| 0 <= i < self.matches@.len() implies is_target_lock(
                #[trigger] self.matches@[i].name@,
            ) by {
                assert(self@.matches[i].name == self.matches@[i].name@);
            }
        }
        &self.matches
    }

    /// Takes the answer to an examination and tells the next operation.
    pub fn examined(self, probe: &HandleProbe) -> (next: Scan)
        ensures
            next@ == self@.examined(probe_name(*probe)),
            self@.well_formed(),
            next@.well_formed(),
    {
        proof {
            use_type_invariant(&self);
        }
        let Scan { entries, targets, cursor, type_index, matches, closed } = self;
        match cursor {
            Cursor::Examining { pass, index } => {
                assert(self@.cursor == Cursor::<Seq<char>>::Examining { pass, index });
                assert(index < entries.len());
                let name = resolved_name(probe);
                let fix = name.is_some() && type_index.is_none() && match pass {
                    ScanPass::Targeted => true,
                    ScanPass::SystemWide => false,
                };
                let type_index = if fix {
                    Some(entries[index].object_type_index)
                } else {
                    type_index
                };
                let ghost typed = ScanView {
                    type_index,
                    ..self@
                };
                match name {
                    Some(n) => {
                        if target_lock(n.as_str()) {
                            let cursor = Cursor::Closing { pass, index, name: n };
                            return Scan { entries, targets, cursor, type_index, matches, closed };
                        }
                    },
                    None => {},
                }
                let cursor = Self::seek(&entries, &targets, type_index, pass, index + 1);
                assert(cursor@ == typed.seek(pass, index + 1));
                Scan { entries, targets, cursor, type_index, matches, closed }
            },
            other => Scan { entries, targets, cursor: other, type_index, matches, closed },
        }
    }

    /// Takes the answer to a closing and tells the next operation.
    pub fn closed(self, ok: bool) -> (next: Scan)
        ensures
            next@ == self@.closed(ok),
            self@.well_formed(),
            next@.well_formed(),
    {
        proof {
            use_type_invariant(&self);
        }
        let Scan { entries, targets, cursor, type_index, matches, closed } = self;
        match cursor {
            Cursor::Closing { pass, index, name } => {
                assert(self@.cursor == Cursor::<Seq<char>>::Closing { pass, index, name: name@ });
                assert(index < entries.len());
                let mut matches = matches;
                let ghost before = matches@;
                let entry = entries[index];
                matches.push(
                    LockMatch { pid: entry.pid, handle_value: entry.handle_value, name, closed: ok },
                );
                assert(matches_view(matches@) =~= matches_view(before).push(
                    LockMatch {
                        pid: entry.pid,
                        handle_value: entry.handle_value,
                        name: name@,
                        closed: ok,
                    },
                ));
                let recorded = matches.len();
                let closed = if ok && closed < recorded {
                    closed + 1
                } else {
                    closed
                };
                let ghost noted = ScanView {
                    matches: matches_view(matches@),
                    closed: closed as nat,
                    ..self@
                };
                let cursor = Self::seek(&entries, &targets, type_index, pass, index + 1);
                assert(cursor@ == noted.seek(pass, index + 1));
                Scan { entries, targets, cursor, type_index, matches, closed }
            },
            other => Scan { entries, targets, cursor: other, type_index, matches, closed },
        }
    }
}

/// Why a sweep failed as a whole.
#[derive(Debug, PartialEq, Eq, Structural, Clone, Copy)]
pub enum ScanFailure {
    /// The query for the system handle table ended with this status.
    Enumeration { status: i32 },
    /// The buffer that the system filled is too short for the table that its
    /// header announces.
    MalformedTable,
}

/// The one outside operation that a sweep asks for next.
#[derive(Debug, PartialEq, Eq, Structural, Clone, Copy)]
pub enum SweepAction {
    /// Query the system-wide handle table into a buffer of this size.
    QueryTable { buffer_size: u32 },
    /// Examine this handle: duplicate it, query its type, and its name within
    /// the timeout.
    Examine { pid: u32, handle_value: u64 },
    /// Close this handle in its owning process.
    CloseRemote { pid: u32, handle_value: u64 },
    /// Nothing more: the sweep closed this many handles.
    Finished { closed: usize },
    /// Nothing more: the sweep failed.
    Failed(ScanFailure),
}

/// The action that ends a sweep with `outcome`.
pub open spec fn ending(outcome: Result<usize, ScanFailure>) -> SweepAction {
    match outcome {
        Ok(closed) => SweepAction::Finished { closed },
        Err(failure) => SweepAction::Failed(failure),
    }
}

/// The state of a sweep, as the model sees it.
pub enum SweepView {
    /// The handle table is being queried.
    Querying { targets: Set<u32>, buffer_size: u32 },
    /// The table is being scanned.
    Scanning(ScanView),
    /// The sweep is over.
    Done(Result<usize, ScanFailure>),
}

impl SweepView {
    /// The sweep at its start, for target processes `targets`: without any,
    /// it is over at once, with nothing closed; else it queries the table
    /// with the first buffer size.
    pub open spec fn start(targets: Set<u32>) -> SweepView {
        if targets.is_empty() {
            SweepView::Done(Ok(0))
        } else {
            SweepView::Querying { targets, buffer_size: INITIAL_TABLE_BUFFER }
        }
    }

    /// The operation that the sweep asks for.
    pub open spec fn action(self) -> SweepAction {
        match self {
            SweepView::Querying { targets, buffer_size } => SweepAction::QueryTable { buffer_size },
            SweepView::Scanning(scan) => match scan.action() {
                ScanAction::Examine { pid, handle_value } => SweepAction::Examine {
                    pid,
                    handle_value,
                },
                ScanAction::CloseRemote { pid, handle_value } => SweepAction::CloseRemote {
                    pid,
                    handle_value,
                },
                ScanAction::Finished { closed } => SweepAction::Finished { closed },
            },
            SweepView::Done(outcome) => ending(outcome),
        }
    }

    /// The sweep after the query that it asked for ended with `status` and
    /// `return_length` and left `buffer`: it reads the table and scans it,
    /// asks again with a larger buffer, or fails. A sweep that did not ask
    /// for a query stays as it is.
    pub open spec fn table_answered(self, status: i32, return_length: u32, buffer: Seq<u8>) -> SweepView {
        match self {
            SweepView::Querying { targets, buffer_size } => match table_query_step(
                status,
                buffer_size,
                return_length,
            ) {
                TableQuery::Read => if table_fits(buffer) {
                    SweepView::Scanning(
                        ScanView::start(
                            Seq::new(table_count(buffer) as nat, |i: int| table_entry(buffer, i)),
                            targets,
                        ),
                    )
                } else {
                    SweepView::Done(Err(ScanFailure::MalformedTable))
                },
                TableQuery::Retry(next) => SweepView::Querying { targets, buffer_size: next },
                TableQuery::Fail(status) => SweepView::Done(
                    Err(ScanFailure::Enumeration { status }),
                ),
            },
            _ => self,
        }
    }

    /// The sweep after the examination that it asked for resolved `name`.
    pub open spec fn examined(self, name: Option<Seq<char>>) -> SweepView {
        match self {
            SweepView::Scanning(scan) => SweepView::Scanning(scan.examined(name)),
            _ => self,
        }
    }

    /// The sweep after the closing that it asked for succeeded or not.
    pub open spec fn closed(self, ok: bool) -> SweepView {
        match self {
            SweepView::Scanning(scan) => SweepView::Scanning(scan.closed(ok)),
            _ => self,
        }
    }

    /// The invariant of a sweep: that of its scan, and a query is only ever
    /// made for some target process.
    pub open spec fn well_formed(self) -> bool {
        match self {
            SweepView::Querying { targets, buffer_size } => !targets.is_empty(),
            SweepView::Scanning(scan) => scan.well_formed(),
            SweepView::Done(_) => true,
        }
    }
}

/// One sweep for stale locks: from the list of live processes to the number
/// of handles closed. It asks for one outside operation at a time and is
/// told how each ended.
pub enum LockSweep {
    /// The handle table is being queried.
    Querying { targets: HashSet<u32>, buffer_size: u32 },
    /// The table is being scanned.
    Scanning(Scan),
    /// The sweep is over.
    Done(Result<usize, ScanFailure>),
}

impl View for LockSweep {
    type V = SweepView;

    open spec fn view(&self) -> SweepView {
        match self {
            LockSweep::Querying { targets, buffer_size } => SweepView::Querying {
                targets: targets@,
                buffer_size: *buffer_size,
            },
            LockSweep::Scanning(scan) => SweepView::Scanning(scan@),
            LockSweep::Done(outcome) => SweepView::Done(*outcome),
        }
    }
}

/// Begins a sweep for the stale locks of the target processes among
/// `processes`. Without a target process the sweep is over at once with
/// nothing closed, and never asks for the system-wide table.
pub fn close_d2r_mutexes(processes: &Vec<ProcessImage>) -> (sweep: LockSweep)
    ensures
        (forall|pid: u32| !is_target_pid(processes@, pid)) ==> sweep@ == SweepView::Done(Ok(0)),
        (exists|pid: u32| is_target_pid(processes@, pid)) ==> {
            &&& sweep@ is Querying
            &&& sweep@->buffer_size == INITIAL_TABLE_BUFFER
            &&& forall|pid: u32|
                sweep@->targets.contains(pid) <==> is_target_pid(processes@, pid)
        },
        exists|targets: Set<u32>| sweep@ == SweepView::start(targets),
        sweep@.well_formed(),
{
    let targets = target_pids(processes);
    if targets.is_empty() {
        proof {
            assert forall|pid: u32| !is_target_pid(processes@, pid) by {
                assert(!targets@.contains(pid));
            }
            assert(LockSweep::Done(Ok(0))@ == SweepView::start(targets@));
        }
        LockSweep::Done(Ok(0))
    } else {
        proof {
            if forall|pid: u32| !is_target_pid(processes@, pid) {
                assert(targets@ =~= Set::<u32>::empty());
            }
        }
        let sweep = LockSweep::Querying { targets, buffer_size: INITIAL_TABLE_BUFFER };
        assert(sweep@ == SweepView::start(targets@));
        sweep
    }
}

impl LockSweep {
    /// The operation that the sweep asks for.
    pub fn action(&self) -> (action: SweepAction)
        ensures
            action == self@.action(),
    {
        match self {
            LockSweep::Querying { targets, buffer_size } => SweepAction::QueryTable {
                buffer_size: *buffer_size,
            },
            LockSweep::Scanning(scan) => match scan.action() {
                ScanAction::Examine { pid, handle_value } => SweepAction::Examine {
                    pid,
                    handle_value,
                },
                ScanAction::CloseRemote { pid, handle_value } => SweepAction::CloseRemote {
                    pid,
                    handle_value,
                },
                ScanAction::Finished { closed } => SweepAction::Finished { closed },
            },
            LockSweep::Done(outcome) => match outcome {
                Ok(closed) => SweepAction::Finished { closed: *closed },
                Err(failure) => SweepAction::Failed(*failure),
            },
        }
    }

    /// Takes the answer to a query for the handle table: its status, the
    /// length that the system asked for, and the buffer as the system left it.
    pub fn table_answered(self, status: i32, return_length: u32, buffer: &Vec<u8>) -> (next: LockSweep)
        ensures
            next@ == self@.table_answered(status, return_length, buffer@),
            self@.well_formed() ==> next@.well_formed(),
    {
        match self {
            LockSweep::Querying { targets, buffer_size } => {
                match after_table_query(status, buffer_size, return_length) {
                    TableQuery::Read => match parse_handle_table(buffer) {
                        Some(entries) => {
                            assert(entries@ =~= Seq::new(
                                table_count(buffer@) as nat,
                                |i: int| table_entry(buffer@, i),
                            ));
                            LockSweep::Scanning(Scan::new(targets, entries))
                        },
                        None => LockSweep::Done(Err(ScanFailure::MalformedTable)),
                    },
                    TableQuery::Retry(next) => LockSweep::Querying { targets, buffer_size: next },
                    TableQuery::Fail(status) => LockSweep::Done(
                        Err(ScanFailure::Enumeration { status }),
                    ),
                }
            },
            other => other,
        }
    }

    /// Takes the answer to an examination.
    pub fn examined(self, probe: &HandleProbe) -> (next: LockSweep)
        ensures
            next@ == self@.examined(probe_name(*probe)),
            next@.well_formed() <== self@.well_formed(),
    {
        match self {
            LockSweep::Scanning(scan) => LockSweep::Scanning(scan.examined(probe)),
            other => other,
        }
    }

    /// Takes the answer to a closing.
    pub fn closed(self, ok: bool) -> (next: LockSweep)
        ensures
            next@ == self@.closed(ok),
            next@.well_formed() <== self@.well_formed(),
    {
        match self {
            LockSweep::Scanning(scan) => LockSweep::Scanning(scan.closed(ok)),
            other => other,
        }
    }

    /// The handles whose names were on the allow-list, once the table is
    /// being scanned.
    pub fn matches(&self) -> (found: Option<&Vec<LockMatch<String>>>)
        ensures
            found is Some <==> self@ is Scanning,
            found is Some ==> matches_view(found->0@) == self@->Scanning_0.matches,
            found is Some ==> forall|i: int|
                0 <= i < found->0@.len() ==> is_target_lock(#[trigger] found->0@[i].name@),
    {
        match self {
            LockSweep::Scanning(scan) => Some(scan.matches()),
            _ => None,
        }
    }
}

/// How many steps a scan has left at most.
pub open spec fn scan_rank(s: ScanView) -> nat {
    let n = s.entries.len();
    match s.cursor {
        Cursor::Finished => 0,
        Cursor::Examining { pass, index } => (2 * (n - index) + if pass == ScanPass::Targeted {
            2 * n + 1
        } else {
            0
        }) as nat,
        Cursor::Closing { pass, index, name } => (2 * (n - index) - 1 + if pass
            == ScanPass::Targeted {
            2 * n + 1
        } else {
            0
        }) as nat,
    }
}

/// The cursor that `seek` finds from position `from` of sweep `pass` points
/// at an entry that its sweep examines, and leaves no more steps than the
/// rest of the table allows.
pub open spec fn seek_fits(s: ScanView, pass: ScanPass, from: int) -> bool {
    &&& scan_rank(ScanView { cursor: s.seek(pass, from), ..s }) <= 2 * (s.entries.len() - from)
        + if pass == ScanPass::Targeted {
        2 * s.entries.len() + 1
    } else {
        0
    }
    &&& match s.seek(pass, from) {
        Cursor::Examining { pass: p, index } => index < s.entries.len() && is_candidate(
            s.entries[index as int],
            s.targets,
            p,
            s.type_index,
        ),
        Cursor::Closing { .. } => false,
        Cursor::Finished => true,
    }
}

/// Wherever a scan turns to, `seek` fits.
proof fn lemma_seek_rank(s: ScanView, pass: ScanPass, from: int)
    requires
        0 <= from <= s.entries.len() <= usize::MAX,
    ensures
        seek_fits(s, pass, from),
{
    lemma_first_candidate(s.entries, s.targets, pass, s.type_index, from);
    lemma_first_candidate(s.entries, s.targets, ScanPass::SystemWide, s.type_index, 0);
}

/// The three places at which a scan seeks: at its start, after an
/// examination, after a closing.
proof fn lemma_scan_seeks(s: ScanView, name: Option<Seq<char>>, ok: bool)
    requires
        s.well_formed(),
    ensures
        seek_fits(ScanView::blank(s.entries, s.targets), ScanPass::Targeted, 0),
        s.cursor is Examining ==> seek_fits(
            s.typed(s.cursor->Examining_pass, s.cursor->Examining_index, name),
            s.cursor->Examining_pass,
            s.cursor->Examining_index + 1,
        ),
        s.cursor is Closing ==> seek_fits(
            s.noted(s.cursor->Closing_index, s.cursor->name, ok),
            s.cursor->Closing_pass,
            s.cursor->Closing_index + 1,
        ),
{
    lemma_seek_rank(ScanView::blank(s.entries, s.targets), ScanPass::Targeted, 0);
    match s.cursor {
        Cursor::Examining { pass, index } => {
            lemma_seek_rank(s.typed(pass, index, name), pass, index + 1);
        },
        Cursor::Closing { pass, index, name: found } => {
            lemma_seek_rank(s.noted(index, found, ok), pass, index + 1);
        },
        Cursor::Finished => {},
    }
}

/// The invariant of a scan holds at its start and after every step.
pub proof fn law_scan_invariant(s: ScanView, name: Option<Seq<char>>, ok: bool)
    requires
        s.well_formed(),
    ensures
        ScanView::start(s.entries, s.targets).well_formed(),
        s.examined(name).well_formed(),
        s.closed(ok).well_formed(),
{
    lemma_scan_seeks(s, name, ok);
}

/// A scan never counts more closed handles than it found names on the
/// allow-list, and a handle is closed only under such a name: the scan asks
/// for a closing only of the handle that it had examined last, and only when
/// that examination resolved a name on the allow-list; every match that it
/// records has such a name.
pub proof fn law_close_only_allow_listed(s: ScanView, name: Option<Seq<char>>, ok: bool)
    requires
        s.well_formed(),
    ensures
        s.closed <= s.matches.len(),
        forall|i: int| 0 <= i < s.matches.len() ==> is_target_lock(#[trigger] s.matches[i].name),
        s.action() is CloseRemote ==> {
            &&& s.cursor is Closing
            &&& is_target_lock(s.cursor->name)
            &&& s.action() == (ScanAction::CloseRemote {
                pid: s.entries[s.cursor->Closing_index as int].pid,
                handle_value: s.entries[s.cursor->Closing_index as int].handle_value,
            })
        },
        s.examined(name).action() is CloseRemote ==> s.cursor is Closing || (s.cursor is Examining
            && name is Some && is_target_lock(name->0) && s.examined(name).action() == (
            ScanAction::CloseRemote {
                pid: s.entries[s.cursor->Examining_index as int].pid,
                handle_value: s.entries[s.cursor->Examining_index as int].handle_value,
            })),
        s.cursor is Closing ==> !(s.closed(ok).action() is CloseRemote),
        !(ScanView::start(s.entries, s.targets).action() is CloseRemote),
{
    lemma_scan_seeks(s, name, ok);
}

/// Every answer brings a scan closer to its end: a scan of a table of `n`
/// entries is over after at most `4 n + 1` answers.
pub proof fn law_scan_terminates(s: ScanView, name: Option<Seq<char>>, ok: bool)
    requires
        s.well_formed(),
    ensures
        scan_rank(ScanView::start(s.entries, s.targets)) <= 4 * s.entries.len() + 1,
        s.cursor is Examining ==> scan_rank(s.examined(name)) < scan_rank(s),
        s.cursor is Closing ==> scan_rank(s.closed(ok)) < scan_rank(s),
        scan_rank(s) == 0 <==> s.cursor is Finished,
{
    lemma_scan_seeks(s, name, ok);
}

/// The queries for the handle table come to an end: a sweep asks again only
/// with a strictly larger buffer, at least twice as large or as large as the
/// system asked for, and buffers have a largest size; only a query for the
/// table can fail a sweep.
pub proof fn law_table_queries_end(
    sweep: SweepView,
    status: i32,
    return_length: u32,
    buffer: Seq<u8>,
    name: Option<Seq<char>>,
    ok: bool,
)
    ensures
        sweep is Querying && sweep.table_answered(status, return_length, buffer) is Querying ==> {
            let size = sweep->buffer_size;
            let next = sweep.table_answered(status, return_length, buffer)->buffer_size;
            &&& size < next
            &&& return_length <= next
            &&& 2 * size <= next || next == u32::MAX
        },
        !(sweep is Querying) ==> sweep.table_answered(status, return_length, buffer) == sweep,
        sweep.examined(name).action() is Failed ==> sweep.action() is Failed,
        sweep.closed(ok).action() is Failed ==> sweep.action() is Failed,
{
}

/// Without a target process a sweep makes no system-wide enumeration: it is
/// over from the start, with nothing closed, and no answer makes it ask for
/// anything.
pub proof fn law_no_targets_no_enumeration(
    status: i32,
    return_length: u32,
    buffer: Seq<u8>,
    name: Option<Seq<char>>,
    ok: bool,
)
    ensures
        ({
            let sweep = SweepView::start(Set::<u32>::empty());
            &&& sweep.action() == (SweepAction::Finished { closed: 0 })
            &&& sweep.table_answered(status, return_length, buffer) == sweep
            &&& sweep.examined(name) == sweep
            &&& sweep.closed(ok) == sweep
        }),
{
}

/// A table that was read for no target process leads to no examination and
/// no closing either.
pub proof fn law_no_targets_nothing_examined(entries: Seq<HandleEntry>)
    ensures
        ScanView::start(entries, Set::<u32>::empty()).action() == (ScanAction::Finished {
            closed: 0,
        }),
{
    lemma_first_candidate(entries, Set::<u32>::empty(), ScanPass::Targeted, None, 0);
    assert(forall|k: int|
        0 <= k < entries.len() ==> !is_candidate(
            #[trigger] entries[k],
            Set::<u32>::empty(),
            ScanPass::Targeted,
            None,
        ));
}

/// Counts the entries that target processes own.
pub fn count_targeted(entries: &Vec<HandleEntry>, targets: &HashSet<u32>) -> (n: usize)
    ensures
        n == targeted_count(entries@, targets@),
{
    let mut n: usize = 0;
    let mut i: usize = 0;
    assert(entries@.take(0) =~= seq![]);
    while i < entries.len()
        invariant
            i <= entries.len(),
            n <= i,
            n == targeted_count(entries@.take(i as int), targets@),
        decreases entries.len() - i,
    {
        assert(entries@.take(i + 1).drop_last() =~= entries@.take(i as int));
        if pid_listed(targets, entries[i].pid) {
            n += 1;
        }
        i += 1;
    }
    assert(entries@.take(entries.len() as int) =~= entries@);
    n
}

} // verus!
