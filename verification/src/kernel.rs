//! A model of the kernel's handles, in memory, and a whole sweep driven
//! against it: what the scanner does to a system, stated in one piece.

use vstd::prelude::*;
use crate::mutex::{
    first_candidate, is_candidate, is_target_lock, is_target_pid, law_scan_invariant,
    law_scan_terminates, probe_name, scan_rank, target_pids, Cursor, HandleEntry, HandleProbe,
    ProcessImage, Scan, ScanAction, ScanPass, ScanView,
};
use crate::process::count_true;

verus! {

broadcast use vstd::std_specs::hash::group_hash_axioms;

/// A handle of the model: its entry in the system's table, what an
/// examination of it gives, and whether it lets itself be closed from outside.
#[derive(Debug, Clone, PartialEq, Eq)]
pub struct ModelHandle {
    /// The entry of the handle in the system's table.
    pub entry: HandleEntry,
    /// What an examination of the handle gives.
    pub probe: HandleProbe,
    /// Whether the handle can be closed from outside its process.
    pub closable: bool,
}

/// The entries of the handles, in order: the system's table.
pub open spec fn table_of(handles: Seq<ModelHandle>) -> Seq<HandleEntry> {
    handles.map_values(|h: ModelHandle| h.entry)
}

/// The position of the first handle with this owner and value, at or after `from`.
pub open spec fn position_of_handle(
    handles: Seq<ModelHandle>,
    pid: u32,
    handle_value: u64,
    from: int,
) -> Option<int>
    decreases handles.len() - from,
{
    if from < 0 || from >= handles.len() {
        None
    } else if handles[from].entry.pid == pid && handles[from].entry.handle_value == handle_value {
        Some(from)
    } else {
        position_of_handle(handles, pid, handle_value, from + 1)
    }
}

/// The handle has a name on the allow-list.
pub open spec fn is_stale_lock(handle: ModelHandle) -> bool {
    probe_name(handle.probe) is Some && is_target_lock(probe_name(handle.probe)->0)
}

fn find_handle(handles: &Vec<ModelHandle>, pid: u32, handle_value: u64) -> (r: Option<usize>)
    ensures
        match r {
            Some(at) => position_of_handle(handles@, pid, handle_value, 0) == Some(at as int) && at
                < handles.len() && handles@[at as int].entry.pid == pid
                && handles@[at as int].entry.handle_value == handle_value,
            None => position_of_handle(handles@, pid, handle_value, 0) is None,
        },
{
    let mut i: usize = 0;
    while i < handles.len()
        invariant
            position_of_handle(handles@, pid, handle_value, 0) == position_of_handle(
                handles@,
                pid,
                handle_value,
                i as int,
            ),
        decreases handles.len() - i,
    {
        if handles[i].entry.pid == pid && handles[i].entry.handle_value == handle_value {
            return Some(i);
        }
        i += 1;
    }
    None
}

/// Setting one more flag raises the number of flags set by one.
proof fn lemma_count_true_set(flags: Seq<bool>, at: int)
    requires
        0 <= at < flags.len(),
        !flags[at],
    ensures
        count_true(flags.update(at, true)) == count_true(flags) + 1,
    decreases flags.len(),
{
    let after = flags.update(at, true);
    if at == flags.len() - 1 {
        assert(after.drop_last() =~= flags.drop_last());
    } else {
        assert(after.drop_last() =~= flags.drop_last().update(at, true));
        lemma_count_true_set(flags.drop_last(), at);
    }
}

/// No flag set, none counted.
proof fn lemma_count_true_none(flags: Seq<bool>)
    requires
        forall|i: int| 0 <= i < flags.len() ==> !flags[i],
    ensures
        count_true(flags) == 0,
    decreases flags.len(),
{
    if flags.len() > 0 {
        lemma_count_true_none(flags.drop_last());
    }
}

/// The handle is one that a sweep for the target processes among
/// `processes` owes to close: a target process owns it, its name is on the
/// allow-list, it lets itself be closed, and it is the first handle of the
/// table with its owner and value.
pub open spec fn is_due(handles: Seq<ModelHandle>, processes: Seq<ProcessImage>, i: int) -> bool {
    &&& is_target_pid(processes, handles[i].entry.pid)
    &&& is_stale_lock(handles[i])
    &&& handles[i].closable
    &&& position_of_handle(handles, handles[i].entry.pid, handles[i].entry.handle_value, 0)
        == Some(i)
}

/// Sweeps the handles of the model for the stale locks of the target
/// processes among `processes`, and tells of each handle whether the sweep
/// closed it, and how many it closed.
///
/// Only a handle whose examination resolved a name on the allow-list is ever
/// closed, and only one that lets itself be closed. Every such handle that a
/// target process owns is closed. The number told is the number of handles
/// closed. Without a target process nothing is examined and nothing closed.
pub fn sweep_model(handles: &Vec<ModelHandle>, processes: &Vec<ProcessImage>) -> (r: (
    usize,
    Vec<bool>,
))
    ensures
        r.1@.len() == handles@.len(),
        forall|i: int|
            0 <= i < handles@.len() && r.1@[i] ==> is_stale_lock(#[trigger] handles@[i])
                && handles@[i].closable,
        forall|i: int|
            0 <= i < handles@.len() && #[trigger] is_due(handles@, processes@, i) ==> r.1@[i],
        r.0 == count_true(r.1@),
        (forall|pid: u32| !is_target_pid(processes@, pid)) ==> r.0 == 0,
{
    let targets = target_pids(processes);
    let mut flags: Vec<bool> = Vec::new();
    let mut k: usize = 0;
    while k < handles.len()
        invariant
            k <= handles.len(),
            flags@.len() == k,
            forall|i: int| 0 <= i < k ==> !flags@[i],
        decreases handles.len() - k,
    {
        flags.push(false);
        k += 1;
    }
    proof {
        lemma_count_true_none(flags@);
    }
    if targets.is_empty() {
        proof {
            assert forall|pid: u32| !is_target_pid(processes@, pid) by {
                assert(!targets@.contains(pid));
            }
        }
        return (0, flags);
    }
    let mut entries: Vec<HandleEntry> = Vec::new();
    let mut j: usize = 0;
    while j < handles.len()
        invariant
            j <= handles.len(),
            entries@.len() == j,
            forall|i: int| 0 <= i < j ==> entries@[i] == handles@[i].entry,
        decreases handles.len() - j,
    {
        entries.push(handles[j].entry);
        j += 1;
    }
    let ghost wanted = targets@;
    assert(entries@ =~= table_of(handles@));
    let mut scan = Scan::new(targets, entries);
    proof {
        if forall|pid: u32| !is_target_pid(processes@, pid) {
            assert(wanted =~= Set::<u32>::empty());
        }
        crate::mutex::lemma_first_candidate(
            table_of(handles@),
            wanted,
            ScanPass::Targeted,
            None,
            0,
        );
        assert forall|j: int|
            0 <= j < handles@.len() && j < done_before(scan@) && is_due(
                handles@,
                processes@,
                j,
            ) implies flags@[j] by {
            assert(table_of(handles@)[j] == handles@[j].entry);
            assert(!crate::mutex::is_candidate(
                table_of(handles@)[j],
                wanted,
                ScanPass::Targeted,
                None,
            ));
        }
    }
    loop
        invariant
            flags@.len() == handles@.len(),
            scan@.well_formed(),
            scan@.entries == table_of(handles@),
            scan@.targets == wanted,
            forall|pid: u32| wanted.contains(pid) <==> is_target_pid(processes@, pid),
            !(scan@.cursor is Closing),
            scan@.closed == count_true(flags@),
            forall|j: int|
                0 <= j < handles@.len() && j < done_before(scan@) && is_due(
                    handles@,
                    processes@,
                    j,
                ) ==> flags@[j],
            forall|i: int|
                0 <= i < handles@.len() && flags@[i] ==> is_stale_lock(#[trigger] handles@[i])
                    && handles@[i].closable,
            !(forall|pid: u32| !is_target_pid(processes@, pid)),
        ensures
            scan@.cursor is Finished,
        decreases scan_rank(scan@),
    {
        let ghost before = scan@;
        let ghost was = flags@;
        match scan.action() {
            ScanAction::Examine { pid, handle_value } => {
                let ghost at = before.cursor->Examining_index as int;
                assert(table_of(handles@)[at] == handles@[at].entry);
                let found = find_handle(handles, pid, handle_value);
                let probe = match found {
                    Some(at) => handles[at].probe.clone_probe(),
                    None => HandleProbe::Inaccessible,
                };
                proof {
                    law_scan_terminates(before, probe_name(probe), true);
                    law_scan_invariant(before, probe_name(probe), true);
                    lemma_seek_skips(before, probe_name(probe));
                }
                scan = scan.examined(&probe);
                let ghost named = scan@;
                match scan.action() {
                    ScanAction::CloseRemote { pid: owner, handle_value: value } => {
                        let ok = match find_handle(handles, owner, value) {
                            Some(at) => {
                                if handles[at].closable && !flags[at] {
                                    proof {
                                        lemma_count_true_set(flags@, at as int);
                                    }
                                    flags.set(at, true);
                                    true
                                } else {
                                    false
                                }
                            },
                            None => false,
                        };
                        proof {
                            law_scan_terminates(named, None, ok);
                            law_scan_invariant(named, None, ok);
                            crate::mutex::law_close_only_allow_listed(named, None, ok);
                            lemma_seek_skips_after_close(named, ok);
                        }
                        scan = scan.closed(ok);
                    },
                    _ => {},
                }
                proof {
                    assert forall|j: int|
                        0 <= j < handles@.len() && j < done_before(scan@) && is_due(
                            handles@,
                            processes@,
                            j,
                        ) implies flags@[j] by {
                        assert(table_of(handles@)[j] == handles@[j].entry);
                        if j < done_before(before) {
                            assert(was[j]);
                        } else if j == done_before(before) {
                            assert(j == at);
                            assert(found == Some(at as usize));
                        } else {
                            assert(!wanted.contains(before.entries[j].pid));
                        }
                    }
                }
            },
            _ => {
                break ;
            },
        }
    }
    (scan.closed_count(), flags)
}

/// The number of entries, from the front of the table, that the targeted
/// sweep is through with.
pub open spec fn done_before(scan: ScanView) -> int {
    match scan.cursor {
        Cursor::Examining { pass, index } => if pass == ScanPass::Targeted {
            index as int
        } else {
            scan.entries.len() as int
        },
        Cursor::Closing { pass, index, name } => if pass == ScanPass::Targeted {
            index as int
        } else {
            scan.entries.len() as int
        },
        Cursor::Finished => scan.entries.len() as int,
    }
}

/// Between the entry that was examined and the entry that a scan turns to
/// next, the targeted sweep leaves out no entry of a target process.
proof fn lemma_seek_skips(scan: ScanView, name: Option<Seq<char>>)
    requires
        scan.well_formed(),
        scan.cursor is Examining,
    ensures
        scan.examined(name).entries == scan.entries,
        scan.examined(name).targets == scan.targets,
        done_before(scan.examined(name)) >= done_before(scan),
        forall|j: int|
            done_before(scan) < j < done_before(scan.examined(name)) && j < scan.entries.len()
                ==> !scan.targets.contains(#[trigger] scan.entries[j].pid),
        scan.examined(name).cursor is Closing ==> done_before(scan.examined(name)) == done_before(
            scan,
        ),
        !(scan.examined(name).cursor is Closing) ==> done_before(scan.examined(name))
            > done_before(scan) || done_before(scan) == scan.entries.len(),
{
    let pass = scan.cursor->Examining_pass;
    let index = scan.cursor->Examining_index;
    lemma_seeks_in_order(scan.typed(pass, index, name), pass, index + 1);
}

/// The same, after a closing.
proof fn lemma_seek_skips_after_close(scan: ScanView, ok: bool)
    requires
        scan.well_formed(),
        scan.cursor is Closing,
    ensures
        scan.closed(ok).entries == scan.entries,
        scan.closed(ok).targets == scan.targets,
        !(scan.closed(ok).cursor is Closing),
        done_before(scan.closed(ok)) > done_before(scan) || done_before(scan)
            == scan.entries.len(),
        forall|j: int|
            done_before(scan) < j < done_before(scan.closed(ok)) && j < scan.entries.len()
                ==> !scan.targets.contains(#[trigger] scan.entries[j].pid),
{
    let pass = scan.cursor->Closing_pass;
    let index = scan.cursor->Closing_index;
    lemma_seeks_in_order(scan.noted(index, scan.cursor->name, ok), pass, index + 1);
}

/// What `seek` finds from a position: the first entry at or after it that
/// the sweep examines, or the first of the system-wide sweep.
proof fn lemma_seeks_in_order(scan: ScanView, pass: ScanPass, from: int)
    requires
        0 <= from,
    ensures
        match first_candidate(scan.entries, scan.targets, pass, scan.type_index, from) {
            Some(i) => from <= i < scan.entries.len() && forall|k: int|
                from <= k < i ==> !is_candidate(
                    #[trigger] scan.entries[k],
                    scan.targets,
                    pass,
                    scan.type_index,
                ),
            None => forall|k: int|
                from <= k < scan.entries.len() ==> !is_candidate(
                    #[trigger] scan.entries[k],
                    scan.targets,
                    pass,
                    scan.type_index,
                ),
        },
        match first_candidate(
            scan.entries,
            scan.targets,
            ScanPass::SystemWide,
            scan.type_index,
            0,
        ) {
            Some(i) => 0 <= i < scan.entries.len(),
            None => true,
        },
{
    crate::mutex::lemma_first_candidate(scan.entries, scan.targets, pass, scan.type_index, from);
    crate::mutex::lemma_first_candidate(
        scan.entries,
        scan.targets,
        ScanPass::SystemWide,
        scan.type_index,
        0,
    );
}

} // verus!
