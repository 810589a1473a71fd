use d2r_multiplay::kernel::{sweep_model, ModelHandle};
use std::collections::HashSet;
use d2r_multiplay::mutex::{
    after_table_query, close_d2r_mutexes, count_targeted, engine_lock, parse_handle_table,
    lock_type, pid_listed, read_u16, read_u32, read_u64, resolved_name, scoped_path_lock,
    should_query_name,
    target_image, target_lock, target_pids, timed_out, HandleEntry, HandleProbe, LockMatch,
    LockSweep, NameQuery, ProcessImage, Scan, ScanAction, ScanFailure, SweepAction, TableQuery,
    INITIAL_TABLE_BUFFER, NAME_QUERY_TIMEOUT_MS, STATUS_BUFFER_OVERFLOW,
    STATUS_INFO_LENGTH_MISMATCH, STATUS_SUCCESS,
};

fn wide(s: &str) -> Vec<u16> {
    s.encode_utf16().collect()
}

fn named(s: &str) -> HandleProbe {
    HandleProbe::Examined {
        type_status: 0,
        object_type: "Mutant".encode_utf16().collect(),
        name: NameQuery::Answered { status: 0, units: wide(s) },
    }
}

fn entry(pid: u32, handle_value: u64, object_type_index: u16) -> HandleEntry {
    HandleEntry { pid, handle_value, object_type_index }
}

fn table_bytes(announced: u64, entries: &[HandleEntry]) -> Vec<u8> {
    let mut bytes = Vec::new();
    bytes.extend_from_slice(&announced.to_le_bytes());
    bytes.extend_from_slice(&0u64.to_le_bytes());
    for e in entries {
        bytes.extend_from_slice(&0xFFFF_8000_1234_5678u64.to_le_bytes());
        bytes.extend_from_slice(&(e.pid as u64).to_le_bytes());
        bytes.extend_from_slice(&e.handle_value.to_le_bytes());
        bytes.extend_from_slice(&0x001F_0001u32.to_le_bytes());
        bytes.extend_from_slice(&0u16.to_le_bytes());
        bytes.extend_from_slice(&e.object_type_index.to_le_bytes());
        bytes.extend_from_slice(&0u32.to_le_bytes());
        bytes.extend_from_slice(&0u32.to_le_bytes());
    }
    bytes
}

const ENGINE: &str = "\\Sessions\\1\\BaseNamedObjects\\DiabloII Check For Other Instances";

#[test]
fn engine_lock_names_match() {
    assert!(engine_lock(ENGINE));
    assert!(engine_lock("Diablo II Check For Other Instances"));
    assert!(engine_lock("\\BaseNamedObjects\\D2R Store Mutex"));
    assert!(engine_lock("x d2r store mutex y"));
    // The two exact names are matched as written, not in any case.
    assert!(!engine_lock("diabloii check for other instances"));
    assert!(!engine_lock("\\BaseNamedObjects\\SomethingElse"));
    assert!(!engine_lock(""));
}

#[test]
fn path_locks_match_only_in_the_object_namespace() {
    assert!(scoped_path_lock("\\Sessions\\1\\BaseNamedObjects\\C:/Games/D2R/Data/Data"));
    assert!(scoped_path_lock("\\BaseNamedObjects\\c:\\games\\d2r\\data\\data"));
    assert!(scoped_path_lock("\\BaseNamedObjects\\x/data/data/"));
    assert!(scoped_path_lock("\\BASENAMEDOBJECTS\\x\\DATA\\DATA\\"));
    // A file of the same name outside the namespace is left alone.
    assert!(!scoped_path_lock("\\Device\\HarddiskVolume3\\Games\\D2R\\Data\\Data"));
    // Inside the namespace, the name has to end with the data directory.
    assert!(!scoped_path_lock("\\BaseNamedObjects\\x\\data\\data\\more"));
    assert!(!scoped_path_lock("\\BaseNamedObjects\\data"));
}

#[test]
fn the_allow_list_is_both_rules() {
    assert!(target_lock(ENGINE));
    assert!(target_lock("\\BaseNamedObjects\\x/data/data"));
    assert!(!target_lock("\\BaseNamedObjects\\Unrelated"));
}

#[test]
fn target_images_in_any_case() {
    assert!(target_image("D2R.exe"));
    assert!(target_image("d2r.EXE"));
    assert!(target_image("DiabloII.exe"));
    assert!(!target_image("Battle.net.exe"));
    assert!(!target_image("D2R"));
}

#[test]
fn target_pids_are_those_of_target_images() {
    let processes = vec![
        ProcessImage { pid: 10, exe_name: Some("explorer.exe".to_string()) },
        ProcessImage { pid: 20, exe_name: Some("D2R.exe".to_string()) },
        ProcessImage { pid: 30, exe_name: None },
        ProcessImage { pid: 40, exe_name: Some("diabloii.EXE".to_string()) },
        ProcessImage { pid: 20, exe_name: Some("D2R.exe".to_string()) },
    ];
    assert_eq!(target_pids(&processes), HashSet::from([20, 40]));
    assert!(pid_listed(&HashSet::from([20, 40]), 40));
    assert!(!pid_listed(&HashSet::from([20, 40]), 10));
    assert_eq!(target_pids(&vec![]), HashSet::new());
}

#[test]
fn no_target_process_means_no_enumeration() {
    let processes = vec![ProcessImage { pid: 10, exe_name: Some("explorer.exe".to_string()) }];
    let sweep = close_d2r_mutexes(&processes);
    assert_eq!(sweep.action(), SweepAction::Finished { closed: 0 });
    assert!(matches!(sweep, LockSweep::Done(Ok(0))));
    // No answer makes it ask for anything.
    let sweep = sweep.table_answered(STATUS_SUCCESS, 0, &table_bytes(0, &[]));
    assert_eq!(sweep.action(), SweepAction::Finished { closed: 0 });
    let sweep = sweep.examined(&named(ENGINE));
    assert_eq!(sweep.action(), SweepAction::Finished { closed: 0 });
    let sweep = sweep.closed(true);
    assert_eq!(sweep.action(), SweepAction::Finished { closed: 0 });
}

#[test]
fn a_sweep_asks_for_the_table_first() {
    let processes = vec![ProcessImage { pid: 20, exe_name: Some("D2R.exe".to_string()) }];
    let sweep = close_d2r_mutexes(&processes);
    assert_eq!(sweep.action(), SweepAction::QueryTable { buffer_size: INITIAL_TABLE_BUFFER });
    // Too small: ask again with the larger of the length asked for and twice the size.
    let sweep = sweep.table_answered(STATUS_INFO_LENGTH_MISMATCH, 0x300000, &vec![]);
    assert_eq!(sweep.action(), SweepAction::QueryTable { buffer_size: 0x300000 });
    let sweep = sweep.table_answered(STATUS_BUFFER_OVERFLOW, 0x10, &vec![]);
    assert_eq!(sweep.action(), SweepAction::QueryTable { buffer_size: 0x600000 });
    // Any other status fails the sweep.
    let failed = sweep.table_answered(-1073741790, 0, &vec![]);
    assert_eq!(
        failed.action(),
        SweepAction::Failed(ScanFailure::Enumeration { status: -1073741790 })
    );
}

#[test]
fn a_table_too_short_for_its_header_fails_the_sweep() {
    let processes = vec![ProcessImage { pid: 20, exe_name: Some("D2R.exe".to_string()) }];
    let sweep = close_d2r_mutexes(&processes);
    let bytes = table_bytes(3, &[entry(20, 4, 17)]);
    let sweep = sweep.table_answered(STATUS_SUCCESS, 0, &bytes);
    assert_eq!(sweep.action(), SweepAction::Failed(ScanFailure::MalformedTable));
}

#[test]
fn buffer_growth_is_strict_and_bounded() {
    assert_eq!(after_table_query(STATUS_SUCCESS, 16, 0), TableQuery::Read);
    assert_eq!(after_table_query(STATUS_INFO_LENGTH_MISMATCH, 16, 0), TableQuery::Retry(32));
    assert_eq!(after_table_query(STATUS_INFO_LENGTH_MISMATCH, 16, 100), TableQuery::Retry(100));
    assert_eq!(after_table_query(STATUS_BUFFER_OVERFLOW, 16, 20), TableQuery::Retry(32));
    assert_eq!(
        after_table_query(STATUS_INFO_LENGTH_MISMATCH, 0x9000_0000, 0),
        TableQuery::Retry(u32::MAX)
    );
    assert_eq!(
        after_table_query(STATUS_INFO_LENGTH_MISMATCH, u32::MAX, u32::MAX),
        TableQuery::Fail(STATUS_INFO_LENGTH_MISMATCH)
    );
    assert_eq!(after_table_query(STATUS_INFO_LENGTH_MISMATCH, 0, 0), TableQuery::Fail(STATUS_INFO_LENGTH_MISMATCH));
    assert_eq!(after_table_query(5, 16, 64), TableQuery::Fail(5));
    assert_eq!(STATUS_INFO_LENGTH_MISMATCH as u32, 0xC000_0004);
    assert_eq!(STATUS_BUFFER_OVERFLOW as u32, 0x8000_0005);
}

#[test]
fn little_endian_reads() {
    let bytes = vec![0x01, 0x02, 0x03, 0x04, 0x05, 0x06, 0x07, 0x08, 0x09];
    assert_eq!(read_u16(&bytes, 0), 0x0201);
    assert_eq!(read_u16(&bytes, 7), 0x0908);
    assert_eq!(read_u32(&bytes, 1), 0x0504_0302);
    assert_eq!(read_u64(&bytes, 0), 0x0807_0605_0403_0201);
    assert_eq!(read_u64(&vec![0xFF; 8], 0), u64::MAX);
}

#[test]
fn the_handle_table_is_read_with_bounds() {
    let entries = [entry(20, 0x1A4, 17), entry(0xFFFF_FFFF, u64::MAX, 0xFFFF), entry(7, 8, 9)];
    let bytes = table_bytes(3, &entries);
    assert_eq!(bytes.len(), 16 + 3 * 40);
    assert_eq!(parse_handle_table(&bytes), Some(entries.to_vec()));
    // Bytes beyond the announced entries are not read.
    let mut longer = bytes.clone();
    longer.extend_from_slice(&[0xAB; 13]);
    assert_eq!(parse_handle_table(&longer), Some(entries.to_vec()));
    // A header that announces more than the buffer holds is refused.
    assert_eq!(parse_handle_table(&bytes[..bytes.len() - 1].to_vec()), None);
    assert_eq!(parse_handle_table(&table_bytes(u64::MAX, &entries)), None);
    assert_eq!(parse_handle_table(&vec![0u8; 15]), None);
    assert_eq!(parse_handle_table(&table_bytes(0, &[])), Some(vec![]));
}

#[test]
fn the_owner_is_the_low_half_of_its_field() {
    let mut bytes = table_bytes(1, &[entry(0x1234, 5, 6)]);
    // Put something in the high half of the owner field.
    bytes[16 + 8 + 4] = 0x77;
    assert_eq!(parse_handle_table(&bytes), Some(vec![entry(0x1234, 5, 6)]));
}

#[test]
fn names_are_resolved_only_when_everything_answered() {
    assert_eq!(resolved_name(&named("abc")), Some("abc".to_string()));
    assert_eq!(resolved_name(&HandleProbe::Inaccessible), None);
    assert_eq!(
        resolved_name(&HandleProbe::Examined {
            type_status: 0,
            object_type: "Mutant".encode_utf16().collect(),
            name: NameQuery::TimedOut
        }),
        None
    );
    assert_eq!(
        resolved_name(&HandleProbe::Examined {
            type_status: 0,
            object_type: "Mutant".encode_utf16().collect(),
            name: NameQuery::Skipped
        }),
        None
    );
    assert_eq!(
        resolved_name(&HandleProbe::Examined {
            type_status: -1,
            object_type: "Mutant".encode_utf16().collect(),
            name: NameQuery::Answered { status: 0, units: wide("abc") }
        }),
        None
    );
    assert_eq!(
        resolved_name(&HandleProbe::Examined {
            type_status: 0,
            object_type: vec![],
            name: NameQuery::Answered { status: 0, units: wide("abc") }
        }),
        None
    );
    assert_eq!(
        resolved_name(&HandleProbe::Examined {
            type_status: 0,
            object_type: "Mutant".encode_utf16().collect(),
            name: NameQuery::Answered { status: 5, units: wide("abc") }
        }),
        None
    );
    assert_eq!(
        resolved_name(&HandleProbe::Examined {
            type_status: 0,
            object_type: "Mutant".encode_utf16().collect(),
            name: NameQuery::Answered { status: 0, units: vec![] }
        }),
        None
    );
    for kind in ["Mutant", "Event", "Semaphore", "Timer", "Section"] {
        assert!(should_query_name(0, &wide(kind)));
        assert!(lock_type(kind));
    }
    // The name of a file, or of any other object that is no lock, is not asked for.
    for kind in ["File", "Key", "Thread", "Process", "Directory", "mutant", "Mutants", ""] {
        assert!(!should_query_name(0, &wide(kind)));
        assert!(!lock_type(kind));
    }
    assert!(!should_query_name(1, &wide("Mutant")));
    assert_eq!(
        resolved_name(&HandleProbe::Examined {
            type_status: 0,
            object_type: wide("File"),
            name: NameQuery::Answered { status: 0, units: wide(ENGINE) }
        }),
        None
    );
    assert!(timed_out(&HandleProbe::Examined {
        type_status: 0,
        object_type: "Mutant".encode_utf16().collect(),
        name: NameQuery::TimedOut
    }));
    assert!(!timed_out(&named("x")));
    assert_eq!(NAME_QUERY_TIMEOUT_MS, 1500);
}

#[test]
fn names_are_decoded_lossily() {
    // A surrogate pair is one character; a lone surrogate is replaced.
    let units = vec![0x0041, 0xD83D, 0xDE00, 0xD800, 0x0042, 0xDC00];
    assert_eq!(
        resolved_name(&HandleProbe::Examined {
            type_status: 0,
            object_type: "Event".encode_utf16().collect(),
            name: NameQuery::Answered { status: 0, units }
        }),
        Some("A\u{1F600}\u{FFFD}B\u{FFFD}".to_string())
    );
}

#[test]
fn a_scan_closes_only_what_is_on_the_allow_list() {
    let entries = vec![
        entry(10, 0x10, 5),  // another process, another type
        entry(20, 0x20, 17), // target: a lock
        entry(20, 0x24, 17), // target: some other named object
        entry(20, 0x28, 30), // target: no name
        entry(99, 0x30, 17), // another process, the type found first
        entry(99, 0x34, 5),  // another process, another type
    ];
    let scan = Scan::new(HashSet::from([20]), entries.clone());
    assert_eq!(count_targeted(&entries, &HashSet::from([20])), 3);
    // Targeted sweep.
    assert_eq!(scan.action(), ScanAction::Examine { pid: 20, handle_value: 0x20 });
    let scan = scan.examined(&named(ENGINE));
    assert_eq!(scan.action(), ScanAction::CloseRemote { pid: 20, handle_value: 0x20 });
    let scan = scan.closed(true);
    assert_eq!(scan.action(), ScanAction::Examine { pid: 20, handle_value: 0x24 });
    let scan = scan.examined(&named("\\BaseNamedObjects\\Unrelated"));
    assert_eq!(scan.action(), ScanAction::Examine { pid: 20, handle_value: 0x28 });
    let scan = scan.examined(&HandleProbe::Inaccessible);
    // System-wide sweep: other processes, the type index of the first name resolved.
    assert_eq!(scan.action(), ScanAction::Examine { pid: 99, handle_value: 0x30 });
    let scan = scan.examined(&named("\\Sessions\\2\\BaseNamedObjects\\D2R Store Mutex"));
    assert_eq!(scan.action(), ScanAction::CloseRemote { pid: 99, handle_value: 0x30 });
    let scan = scan.closed(false);
    assert_eq!(scan.action(), ScanAction::Finished { closed: 1 });
    assert!(scan.is_finished());
    assert_eq!(scan.closed_count(), 1);
    assert_eq!(
        scan.matches(),
        &vec![
            LockMatch { pid: 20, handle_value: 0x20, name: ENGINE.to_string(), closed: true },
            LockMatch {
                pid: 99,
                handle_value: 0x30,
                name: "\\Sessions\\2\\BaseNamedObjects\\D2R Store Mutex".to_string(),
                closed: false
            },
        ]
    );
}

#[test]
fn a_scan_without_resolved_name_has_no_second_sweep() {
    let entries = vec![entry(20, 0x20, 17), entry(99, 0x30, 17)];
    let scan = Scan::new(HashSet::from([20]), entries);
    assert_eq!(scan.action(), ScanAction::Examine { pid: 20, handle_value: 0x20 });
    let scan = scan.examined(&HandleProbe::Examined {
        type_status: 0,
        object_type: "Mutant".encode_utf16().collect(),
        name: NameQuery::TimedOut,
    });
    assert_eq!(scan.action(), ScanAction::Finished { closed: 0 });
}

#[test]
fn a_scan_ignores_answers_it_did_not_ask_for() {
    let scan = Scan::new(HashSet::from([20]), vec![entry(20, 0x20, 17)]);
    let scan = scan.closed(true);
    assert_eq!(scan.action(), ScanAction::Examine { pid: 20, handle_value: 0x20 });
    assert_eq!(scan.closed_count(), 0);
    let scan = scan.examined(&named(ENGINE));
    let scan = scan.examined(&named(ENGINE));
    assert_eq!(scan.action(), ScanAction::CloseRemote { pid: 20, handle_value: 0x20 });
    let scan = scan.closed(true).closed(true);
    assert_eq!(scan.action(), ScanAction::Finished { closed: 1 });
}

#[test]
fn a_whole_sweep() {
    let processes = vec![
        ProcessImage { pid: 20, exe_name: Some("D2R.exe".to_string()) },
        ProcessImage { pid: 10, exe_name: Some("explorer.exe".to_string()) },
    ];
    let sweep = close_d2r_mutexes(&processes);
    let bytes = table_bytes(2, &[entry(10, 0x10, 5), entry(20, 0x20, 17)]);
    let sweep = sweep.table_answered(STATUS_SUCCESS, 0, &bytes);
    assert_eq!(sweep.action(), SweepAction::Examine { pid: 20, handle_value: 0x20 });
    let sweep = sweep.examined(&named("\\BaseNamedObjects\\C:\\D2R\\Data\\Data"));
    assert_eq!(sweep.action(), SweepAction::CloseRemote { pid: 20, handle_value: 0x20 });
    let sweep = sweep.closed(true);
    assert_eq!(sweep.action(), SweepAction::Finished { closed: 1 });
    assert_eq!(sweep.matches().map(|m| m.len()), Some(1));
}

#[test]
fn a_sweep_over_a_model_of_the_kernel() {
    let handle = |pid: u32, value: u64, kind: u16, name: Option<&str>, closable: bool| ModelHandle {
        entry: entry(pid, value, kind),
        probe: match name {
            Some(n) => named(n),
            None => HandleProbe::Inaccessible,
        },
        closable,
    };
    let handles = vec![
        handle(20, 0x20, 17, Some(ENGINE), true),
        handle(20, 0x24, 17, Some("\\BaseNamedObjects\\Unrelated"), true),
        handle(20, 0x28, 17, Some("\\BaseNamedObjects\\x\\data\\data"), false),
        handle(20, 0x2C, 30, None, true),
        handle(99, 0x30, 17, Some("D2R Store Mutex"), true),
        handle(99, 0x34, 5, Some(ENGINE), true),
    ];
    let processes = vec![ProcessImage { pid: 20, exe_name: Some("D2R.exe".to_string()) }];
    let (closed, flags) = sweep_model(&handles, &processes);
    // Closed: the engine lock of the target, and the store lock that another
    // process holds under the same object type. Left alone: the unrelated
    // object, the lock that cannot be closed, the handle without name, and the
    // handle of another type in another process, whatever its name.
    assert_eq!(flags, vec![true, false, false, false, true, false]);
    assert_eq!(closed, 2);
    let nobody = vec![ProcessImage { pid: 20, exe_name: Some("notepad.exe".to_string()) }];
    assert_eq!(sweep_model(&handles, &nobody), (0, vec![false; 6]));
}

fn decoded(units: &[u16]) -> String {
    let mut text = String::new();
    let mut i = 0;
    while i < units.len() {
        let u = units[i];
        if u < 0xD800 || u > 0xDFFF {
            text.push(char::from_u32(u as u32).unwrap());
            i += 1;
        } else if u <= 0xDBFF && i + 1 < units.len() && (0xDC00..=0xDFFF).contains(&units[i + 1]) {
            let code = 0x1_0000 + (u as u32 - 0xD800) * 0x400 + (units[i + 1] as u32 - 0xDC00);
            text.push(char::from_u32(code).unwrap());
            i += 2;
        } else {
            text.push('\u{FFFD}');
            i += 1;
        }
    }
    text
}

#[test]
fn lossy_decoding_case_by_case() {
    let alphabet: [u16; 7] = [0x0041, 0xD7FF, 0xD800, 0xDBFF, 0xDC00, 0xDFFF, 0xE000];
    let mut sequences: Vec<Vec<u16>> = vec![vec![]];
    for _ in 0..4 {
        let mut longer = Vec::new();
        for s in &sequences {
            for u in alphabet {
                let mut t = s.clone();
                t.push(u);
                longer.push(t);
            }
        }
        for units in &longer {
            let probe = HandleProbe::Examined {
                type_status: 0,
                object_type: "Event".encode_utf16().collect(),
                name: NameQuery::Answered { status: 0, units: units.clone() },
            };
            assert_eq!(resolved_name(&probe), Some(decoded(units)));
        }
        sequences = longer;
    }
}

#[test]
fn an_object_of_another_type_is_left_alone_and_fixes_no_type_index() {
    let file = HandleProbe::Examined {
        type_status: 0,
        object_type: wide("File"),
        name: NameQuery::Answered { status: 0, units: wide(ENGINE) },
    };
    let entries = vec![entry(20, 0x20, 40), entry(99, 0x30, 40), entry(20, 0x24, 17), entry(98, 0x34, 17)];
    let scan = Scan::new(HashSet::from([20]), entries);
    assert_eq!(scan.action(), ScanAction::Examine { pid: 20, handle_value: 0x20 });
    // A file of the very name of the lock: not closed, and its type is not the one looked for.
    let scan = scan.examined(&file);
    assert_eq!(scan.action(), ScanAction::Examine { pid: 20, handle_value: 0x24 });
    let scan = scan.examined(&named("\\BaseNamedObjects\\Unrelated"));
    // The system-wide sweep goes by the type of the first lock that was named.
    assert_eq!(scan.action(), ScanAction::Examine { pid: 98, handle_value: 0x34 });
    let scan = scan.examined(&file);
    assert_eq!(scan.action(), ScanAction::Finished { closed: 0 });
}

#[test]
fn the_rules_on_names_given_in_lower_case() {
    // The exact names are looked for in the name itself, the store lock in the lower-case form.
    assert!(d2r_multiplay::mutex::engine_lock_in("x DiabloII Check For Other Instances", ""));
    assert!(d2r_multiplay::mutex::engine_lock_in("", "a d2r store mutex b"));
    assert!(!d2r_multiplay::mutex::engine_lock_in("D2R Store Mutex", "other"));
    assert!(!d2r_multiplay::mutex::engine_lock_in("x", "diabloii check for other instances"));
    assert!(d2r_multiplay::mutex::path_lock_in("\\basenamedobjects\\c:\\d2r\\data\\data"));
    assert!(d2r_multiplay::mutex::path_lock_in("basenamedobjects/data/data/"));
    // What is handed in is taken as it is: it is not put in lower case again.
    assert!(!d2r_multiplay::mutex::path_lock_in("\\BaseNamedObjects\\data\\data"));
    assert!(!d2r_multiplay::mutex::path_lock_in("\\device\\data\\data"));
    assert!(d2r_multiplay::mutex::target_image_in("d2r.exe"));
    assert!(d2r_multiplay::mutex::target_image_in("diabloii.exe"));
    assert!(!d2r_multiplay::mutex::target_image_in("D2R.exe"));
}
