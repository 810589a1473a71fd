//! The handle explorer: the handles of one process, by type and name.

use vstd::prelude::*;
use crate::mutex::{
    decode_utf16_lossy, utf16_lossy, HandleEntry, NameQuery, STATUS_SUCCESS,
};
use crate::text::{decimal_text, hex_text};

verus! {

/// One handle of a process, as the explorer lists it.
#[derive(Debug, Clone, PartialEq, Eq)]
pub struct HandleInfo {
    /// The value of the handle in the process.
    pub handle_value: usize,
    /// The name of the object; empty where it has none or did not tell it in time.
    pub name: String,
    /// The name of the type of the object; `Unknown` where it could not be told.
    pub object_type: String,
}

/// The longest that one name query of the explorer may take, in milliseconds.
pub const EXPLORER_TIMEOUT_MS: u64 = 200;

/// The handle values of the entries that `pid` owns, in the order of the table.
pub open spec fn handles_of(entries: Seq<HandleEntry>, pid: u32) -> Seq<u64>
    decreases entries.len(),
{
    if entries.len() == 0 {
        seq![]
    } else if entries.last().pid == pid {
        handles_of(entries.drop_last(), pid).push(entries.last().handle_value)
    } else {
        handles_of(entries.drop_last(), pid)
    }
}

/// Selects from the handle table the handles of process `pid`, in the order
/// of the table.
pub fn list_process_handles(entries: &Vec<HandleEntry>, pid: u32) -> (handles: Vec<u64>)
    ensures
        handles@ == handles_of(entries@, pid),
{
    let mut handles: Vec<u64> = Vec::new();
    let mut i: usize = 0;
    assert(entries@.take(0) =~= seq![]);
    while i < entries.len()
        invariant
            i <= entries.len(),
            handles@ == handles_of(entries@.take(i as int), pid),
        decreases entries.len() - i,
    {
        assert(entries@.take(i + 1).drop_last() =~= entries@.take(i as int));
        if entries[i].pid == pid {
            handles.push(entries[i].handle_value);
        }
        i += 1;
    }
    assert(entries@.take(entries.len() as int) =~= entries@);
    handles
}

/// The name of the type of an object as listed: what the type query told,
/// if it ended with success and a name that is not empty; else `Unknown`.
pub open spec fn listed_type(type_status: i32, type_units: Seq<u16>) -> Seq<char> {
    if type_status == STATUS_SUCCESS && type_units.len() > 0 {
        utf16_lossy(type_units)
    } else {
        "Unknown"@
    }
}

/// The name of an object as listed: what the name query told, if it
/// answered in time, with success and a name that is not empty; else empty.
pub open spec fn listed_name(name: NameQuery) -> Seq<char> {
    match name {
        NameQuery::Answered { status, units } => if status == STATUS_SUCCESS && units@.len() > 0 {
            utf16_lossy(units@)
        } else {
            Seq::<char>::empty()
        },
        _ => Seq::<char>::empty(),
    }
}

/// Describes a handle that could be duplicated, from what its type query and
/// its name query told.
pub fn get_handle_name_detailed(
    handle_value: usize,
    type_status: i32,
    type_units: &Vec<u16>,
    name: &NameQuery,
) -> (info: HandleInfo)
    ensures
        info.handle_value == handle_value,
        info.object_type@ == listed_type(type_status, type_units@),
        info.name@ == listed_name(*name),
{
    let object_type = if type_status == STATUS_SUCCESS && type_units.len() > 0 {
        decode_utf16_lossy(type_units)
    } else {
        String::from_str("Unknown")
    };
    let name = match name {
        NameQuery::Answered { status, units } => {
            if *status == STATUS_SUCCESS && units.len() > 0 {
                decode_utf16_lossy(units)
            } else {
                String::new()
            }
        },
        _ => String::new(),
    };
    HandleInfo { handle_value, name, object_type }
}

/// The text of the failure to close a handle.
pub open spec fn close_failure_text(pid: u32, handle_value: u64) -> Seq<char> {
    "Failed to close handle 0x"@ + crate::text::hexadecimal(handle_value as nat) + " for PID "@
        + crate::text::decimal(pid as nat)
}

/// The outcome of closing one handle on request: success, or the text of
/// the failure, which names the handle and the process.
pub fn close_specific_handle(pid: u32, handle_value: u64, closed: bool) -> (r: Result<(), String>)
    ensures
        closed <==> r is Ok,
        !closed ==> r->Err_0@ == close_failure_text(pid, handle_value),
{
    if closed {
        Ok(())
    } else {
        let handle = hex_text(handle_value);
        let process = decimal_text(pid as u64);
        Err(
            String::from_str("Failed to close handle 0x").concat(handle.as_str()).concat(
                " for PID ",
            ).concat(process.as_str()),
        )
    }
}

} // verus!
