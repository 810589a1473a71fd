use d2r_multiplay::file_swap::{
    archive_targets, cleanup_bnet_archives, clear_all_snapshots, command_failure, delete_config,
    plan_copies_active,
    delete_snapshot, get_bnet_config_path, get_snapshot_dir, get_snapshot_path, restore_snapshot,
    rotate_save, FileSwapError, SnapshotStore, StoreCommand,
};

fn text(s: &str) -> String {
    s.to_string()
}

#[test]
fn rotate_out_without_active_file_is_a_successful_no_op() {
    let mut store = SnapshotStore::new();
    store.expect_fault(Some(text("disk full")));
    assert!(store.rotate_out("acct-1").is_ok());
    assert!(store.active().is_none());
    assert!(store.snapshot("acct-1").is_none());
    assert_eq!(store.snapshot_count(), 0);
    // The failure that was lined up was not used: the next command gets it.
    store.set_active(Some(vec![7]));
    assert_eq!(store.rotate_out("acct-1"), Err(FileSwapError::Io(text("disk full"))));
}

#[test]
fn restore_over_an_active_file_is_a_conflict() {
    let mut store = SnapshotStore::new();
    store.set_active(Some(vec![1, 2, 3]));
    store.set_snapshot("acct-1", vec![9]);
    assert_eq!(store.restore("acct-1"), Err(FileSwapError::Conflict));
    assert_eq!(store.restore("nobody"), Err(FileSwapError::Conflict));
    assert_eq!(store.active(), Some(&vec![1, 2, 3]));
    assert_eq!(store.snapshot("acct-1"), Some(&vec![9]));
}

#[test]
fn restore_without_snapshot_is_a_fresh_account() {
    let mut store = SnapshotStore::new();
    assert_eq!(store.restore("acct-1"), Ok(()));
    assert!(store.active().is_none());
}

#[test]
fn rotate_out_copies_and_keeps_the_active_file() {
    let mut store = SnapshotStore::new();
    store.set_active(Some(vec![0xDE, 0xAD]));
    assert_eq!(store.rotate_out("acct-1"), Ok(()));
    assert_eq!(store.snapshot("acct-1"), Some(&vec![0xDE, 0xAD]));
    assert_eq!(store.active(), Some(&vec![0xDE, 0xAD]));
    // A later rotation overwrites the snapshot.
    store.set_active(Some(vec![1]));
    assert_eq!(store.rotate_out("acct-1"), Ok(()));
    assert_eq!(store.snapshot("acct-1"), Some(&vec![1]));
    assert_eq!(store.snapshot_count(), 1);
}

#[test]
fn restore_copies_and_keeps_the_snapshot() {
    let mut store = SnapshotStore::new();
    store.set_snapshot("acct-2", vec![5, 6]);
    assert_eq!(store.restore("acct-2"), Ok(()));
    assert_eq!(store.active(), Some(&vec![5, 6]));
    assert_eq!(store.snapshot("acct-2"), Some(&vec![5, 6]));
}

#[test]
fn delete_active_is_a_no_op_without_file() {
    let mut store = SnapshotStore::new();
    assert_eq!(store.delete_active(), Ok(()));
    store.set_active(Some(vec![1]));
    assert_eq!(store.delete_active(), Ok(()));
    assert!(store.active().is_none());
}

#[test]
fn failed_removal_of_the_active_file_is_told_apart() {
    let mut store = SnapshotStore::new();
    store.set_active(Some(vec![1]));
    store.expect_fault(Some(text("in use")));
    assert_eq!(store.delete_active(), Err(FileSwapError::FileDeletionFailed(text("in use"))));
    assert_eq!(store.active(), Some(&vec![1]));
}

#[test]
fn failed_copy_is_an_io_error_and_changes_nothing() {
    let mut store = SnapshotStore::new();
    store.set_active(Some(vec![1]));
    store.expect_fault(None);
    store.expect_fault(Some(text("locked")));
    assert_eq!(store.rotate_out("acct-1"), Err(FileSwapError::Io(text("locked"))));
    assert!(store.snapshot("acct-1").is_none());
    assert_eq!(store.active(), Some(&vec![1]));
}

#[test]
fn round_trip_between_two_accounts() {
    let state_of_b = vec![0xB0, 0xB1, 0xB2];
    let mut store = SnapshotStore::new();
    store.set_active(Some(state_of_b.clone()));
    // Switch to A.
    assert_eq!(store.rotate_out("B"), Ok(()));
    assert_eq!(store.delete_active(), Ok(()));
    assert_eq!(store.restore("A"), Ok(()));
    // The client of A leaves its own state.
    store.set_active(Some(vec![0xA0]));
    // Switch back to B.
    assert_eq!(store.rotate_out("A"), Ok(()));
    assert_eq!(store.delete_active(), Ok(()));
    assert_eq!(store.restore("B"), Ok(()));
    assert_eq!(store.active(), Some(&state_of_b));
    assert_eq!(store.snapshot("A"), Some(&vec![0xA0]));
    assert_eq!(store.snapshot("B"), Some(&state_of_b));
}

#[test]
fn clear_all_removes_every_snapshot() {
    let mut store = SnapshotStore::new();
    store.set_snapshot("a", vec![1]);
    store.set_snapshot("b", vec![2]);
    store.set_active(Some(vec![3]));
    assert_eq!(store.clear_all(), Ok(()));
    assert_eq!(store.snapshot_count(), 0);
    assert_eq!(store.active(), Some(&vec![3]));
}

#[test]
fn clear_all_can_fail_half_way() {
    let mut store = SnapshotStore::new();
    store.set_snapshot("a", vec![1]);
    store.expect_fault(None);
    store.expect_fault(Some(text("denied")));
    assert_eq!(store.clear_all(), Err(FileSwapError::Io(text("denied"))));
    assert_eq!(store.snapshot_count(), 0);
}

#[test]
fn delete_snapshot_removes_only_that_snapshot() {
    let mut store = SnapshotStore::new();
    store.set_snapshot("a", vec![1]);
    store.set_snapshot("b", vec![2]);
    assert_eq!(store.delete_snapshot("a"), Ok(()));
    assert_eq!(store.delete_snapshot("missing"), Ok(()));
    assert!(store.snapshot("a").is_none());
    assert_eq!(store.snapshot("b"), Some(&vec![2]));
}

#[test]
fn a_command_without_its_source_fails() {
    let mut store = SnapshotStore::new();
    assert_eq!(
        store.perform(&StoreCommand::CopyActiveToSnapshot(text("a"))),
        Err(FileSwapError::Io(text("file not found")))
    );
    assert_eq!(
        store.perform(&StoreCommand::RemoveActive),
        Err(FileSwapError::FileDeletionFailed(text("file not found")))
    );
    assert_eq!(store.perform(&StoreCommand::CreateSnapshotDir), Ok(()));
}

#[test]
fn plans_follow_what_was_probed() {
    assert_eq!(rotate_save(false, "a"), vec![]);
    assert_eq!(
        rotate_save(true, "a"),
        vec![StoreCommand::CreateSnapshotDir, StoreCommand::CopyActiveToSnapshot(text("a"))]
    );
    assert_eq!(delete_config(false), vec![]);
    assert_eq!(delete_config(true), vec![StoreCommand::RemoveActive]);
    assert_eq!(restore_snapshot(true, true, "a"), Err(FileSwapError::Conflict));
    assert_eq!(restore_snapshot(true, false, "a"), Err(FileSwapError::Conflict));
    assert_eq!(restore_snapshot(false, false, "a"), Ok(vec![]));
    assert_eq!(
        restore_snapshot(false, true, "a"),
        Ok(vec![StoreCommand::CreateActiveDir, StoreCommand::CopySnapshotToActive(text("a"))])
    );
    assert_eq!(delete_snapshot(false, "a"), vec![]);
    assert_eq!(delete_snapshot(true, "a"), vec![StoreCommand::RemoveSnapshot(text("a"))]);
    // A root that is missing is created: a reset leaves it there in every case.
    assert_eq!(clear_all_snapshots(false), vec![StoreCommand::CreateSnapshotDir]);
    assert_eq!(
        clear_all_snapshots(true),
        vec![StoreCommand::RemoveSnapshotDir, StoreCommand::CreateSnapshotDir]
    );
}

#[test]
fn a_failed_command_maps_to_its_error() {
    assert_eq!(
        command_failure(&StoreCommand::RemoveActive, text("x")),
        FileSwapError::FileDeletionFailed(text("x"))
    );
    assert_eq!(
        command_failure(&StoreCommand::CopySnapshotToActive(text("a")), text("x")),
        FileSwapError::Io(text("x"))
    );
    assert_eq!(
        command_failure(&StoreCommand::RemoveSnapshotDir, text("x")),
        FileSwapError::Io(text("x"))
    );
}

#[test]
fn paths_are_lists_of_segments() {
    assert_eq!(get_bnet_config_path(None), Err(FileSwapError::EnvError));
    assert_eq!(
        get_bnet_config_path(Some("C:\\ProgramData")),
        Ok(vec![text("C:\\ProgramData"), text("Battle.net"), text("Agent"), text("product.db")])
    );
    assert_eq!(
        get_snapshot_dir(Ok("D:\\data")),
        Ok(vec![text("D:\\data"), text("snapshots")])
    );
    assert_eq!(get_snapshot_dir(Err(text("no dir"))), Err(FileSwapError::Io(text("no dir"))));
    assert_eq!(
        get_snapshot_path(Ok("D:\\data"), "acct-1"),
        Ok(vec![text("D:\\data"), text("snapshots"), text("product_acct-1.db")])
    );
    assert_eq!(
        get_snapshot_path(Err(text("no dir")), "acct-1"),
        Err(FileSwapError::Io(text("no dir")))
    );
}

#[test]
fn store_errors_have_their_texts() {
    assert_eq!(
        FileSwapError::FileDeletionFailed(text("x")).message(),
        "无法清理档案 (可能战网未关闭)"
    );
    assert_eq!(
        FileSwapError::<String>::EnvError.message(),
        "Environment error: ProgramData not found"
    );
    assert_eq!(FileSwapError::Io(text("denied")).message(), "IO Error: denied");
    assert_eq!(FileSwapError::<String>::Conflict.message(), "Conflict: product.db still exists");
}

#[test]
fn archive_cleanup_counts_what_was_removed() {
    assert_eq!(archive_targets(), vec![text("product.db"), text("Agent.db"), text("Agent.log")]);
    assert_eq!(cleanup_bnet_archives(false, &vec![true]), Err(FileSwapError::EnvError));
    assert_eq!(
        cleanup_bnet_archives(true, &vec![true, false, true]),
        Ok(text("Cleaned 2 archive files"))
    );
    assert_eq!(cleanup_bnet_archives(true, &vec![]), Ok(text("Cleaned 0 archive files")));
}

#[test]
fn only_a_backup_of_an_existing_file_copies() {
    assert!(plan_copies_active(&rotate_save(true, "a")));
    assert!(!plan_copies_active(&rotate_save(false, "a")));
    assert!(!plan_copies_active(&delete_config(true)));
    assert!(!plan_copies_active(&vec![StoreCommand::CopySnapshotToActive(text("a"))]));
}
