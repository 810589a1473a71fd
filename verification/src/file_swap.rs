//! The snapshot store: one stored copy of the shared client configuration file
//! per account identity, and the moves of bytes between the active file and
//! the snapshots.
//!
//! The store is described at three levels.
//!
//! * [`StoreCommand`] is the vocabulary of file operations. The planning
//!   functions ([`rotate_save`], [`delete_config`], [`restore_snapshot`], ...)
//!   turn what was probed on disk into the commands to run, in order; the first
//!   command that fails ends the operation with [`command_failure`].
//! * [`StoreView`] is the mathematical model: the bytes of the active file, a
//!   map from identity to snapshot bytes, and the failures that the file system
//!   is going to report.
//! * [`SnapshotStore`] runs the same plans in memory and is proved to behave
//!   as the model says.
//!
//! The types that carry text are generic in the text type `S`: `String` when
//! executed, `Seq<char>` in specifications; `@` maps the first to the second.

use vstd::prelude::*;
use vstd::hash_map::StringHashMap;
use crate::process::{count_succeeded, count_true};
use crate::text::{decimal, decimal_text};

verus! {

/// Why a store operation failed.
#[derive(Debug, Clone, PartialEq, Eq)]
pub enum FileSwapError<S> {
    /// The active file exists and could not be removed (typically: still in use).
    FileDeletionFailed(S),
    /// The environment does not name the shared-data directory.
    EnvError,
    /// Any other file-system failure, with the text the system gave.
    Io(S),
    /// The active file exists where a restore needs it to be absent.
    Conflict,
}

impl View for FileSwapError<String> {
    type V = FileSwapError<Seq<char>>;

    open spec fn view(&self) -> Self::V {
        match self {
            FileSwapError::FileDeletionFailed(m) => FileSwapError::FileDeletionFailed(m@),
            FileSwapError::EnvError => FileSwapError::EnvError,
            FileSwapError::Io(m) => FileSwapError::Io(m@),
            FileSwapError::Conflict => FileSwapError::Conflict,
        }
    }
}

/// The text shown for an error.
pub open spec fn error_text(e: FileSwapError<Seq<char>>) -> Seq<char> {
    match e {
        FileSwapError::FileDeletionFailed(_) => "无法清理档案 (可能战网未关闭)"@,
        FileSwapError::EnvError => "Environment error: ProgramData not found"@,
        FileSwapError::Io(m) => "IO Error: "@ + m,
        FileSwapError::Conflict => "Conflict: product.db still exists"@,
    }
}

impl FileSwapError<String> {
    /// The text shown for this error.
    pub fn message(&self) -> (r: String)
        ensures
            r@ == error_text(self@),
    {
        match self {
            FileSwapError::FileDeletionFailed(_) => String::from_str(
                "无法清理档案 (可能战网未关闭)",
            ),
            FileSwapError::EnvError => String::from_str("Environment error: ProgramData not found"),
            FileSwapError::Io(m) => String::from_str("IO Error: ").concat(m.as_str()),
            FileSwapError::Conflict => String::from_str("Conflict: product.db still exists"),
        }
    }
}

/// The view of the outcome of a store operation.
pub open spec fn outcome_view(r: Result<(), FileSwapError<String>>) -> Result<
    (),
    FileSwapError<Seq<char>>,
> {
    match r {
        Ok(_) => Ok(()),
        Err(e) => Err(e@),
    }
}

/// One file operation of the store.
#[derive(Debug, Clone, PartialEq, Eq)]
pub enum StoreCommand<S> {
    /// Create the snapshot directory, with its parents.
    CreateSnapshotDir,
    /// Copy the active file over the snapshot of this identity.
    CopyActiveToSnapshot(S),
    /// Create the directory of the active file, with its parents.
    CreateActiveDir,
    /// Copy the snapshot of this identity to the active file.
    CopySnapshotToActive(S),
    /// Remove the active file.
    RemoveActive,
    /// Remove the snapshot of this identity.
    RemoveSnapshot(S),
    /// Remove the snapshot directory with everything in it.
    RemoveSnapshotDir,
}

impl View for StoreCommand<String> {
    type V = StoreCommand<Seq<char>>;

    open spec fn view(&self) -> Self::V {
        match self {
            StoreCommand::CreateSnapshotDir => StoreCommand::CreateSnapshotDir,
            StoreCommand::CopyActiveToSnapshot(id) => StoreCommand::CopyActiveToSnapshot(id@),
            StoreCommand::CreateActiveDir => StoreCommand::CreateActiveDir,
            StoreCommand::CopySnapshotToActive(id) => StoreCommand::CopySnapshotToActive(id@),
            StoreCommand::RemoveActive => StoreCommand::RemoveActive,
            StoreCommand::RemoveSnapshot(id) => StoreCommand::RemoveSnapshot(id@),
            StoreCommand::RemoveSnapshotDir => StoreCommand::RemoveSnapshotDir,
        }
    }
}

/// The view of a plan: the views of its commands, in order.
pub open spec fn plan_view(plan: Seq<StoreCommand<String>>) -> Seq<StoreCommand<Seq<char>>> {
    plan.map_values(|c: StoreCommand<String>| c@)
}

/// The error that ends an operation when `command` fails with the text `message`:
/// a failed removal of the active file is told apart from every other failure.
pub open spec fn failure_of(command: StoreCommand<Seq<char>>, message: Seq<char>) -> FileSwapError<
    Seq<char>,
> {
    match command {
        StoreCommand::RemoveActive => FileSwapError::FileDeletionFailed(message),
        _ => FileSwapError::Io(message),
    }
}

/// The error that ends an operation when `command` fails with the text `message`.
pub fn command_failure(command: &StoreCommand<String>, message: String) -> (e: FileSwapError<
    String,
>)
    ensures
        e@ == failure_of(command@, message@),
{
    match command {
        StoreCommand::RemoveActive => FileSwapError::FileDeletionFailed(message),
        _ => FileSwapError::Io(message),
    }
}

/// The commands that save the active file as the snapshot of an identity.
pub open spec fn rotate_plan(active_exists: bool, id: Seq<char>) -> Seq<StoreCommand<Seq<char>>> {
    if active_exists {
        seq![StoreCommand::CreateSnapshotDir, StoreCommand::CopyActiveToSnapshot(id)]
    } else {
        seq![]
    }
}

/// The commands that remove the active file.
pub open spec fn delete_plan(active_exists: bool) -> Seq<StoreCommand<Seq<char>>> {
    if active_exists {
        seq![StoreCommand::RemoveActive]
    } else {
        seq![]
    }
}

/// The commands that bring the snapshot of an identity back as the active file,
/// or the refusal to do so over an existing active file.
pub open spec fn restore_plan(active_exists: bool, snapshot_exists: bool, id: Seq<char>) -> Result<
    Seq<StoreCommand<Seq<char>>>,
    FileSwapError<Seq<char>>,
> {
    if active_exists {
        Err(FileSwapError::Conflict)
    } else if snapshot_exists {
        Ok(seq![StoreCommand::CreateActiveDir, StoreCommand::CopySnapshotToActive(id)])
    } else {
        Ok(seq![])
    }
}

/// The commands that remove the snapshot of an identity.
pub open spec fn delete_snapshot_plan(snapshot_exists: bool, id: Seq<char>) -> Seq<
    StoreCommand<Seq<char>>,
> {
    if snapshot_exists {
        seq![StoreCommand::RemoveSnapshot(id)]
    } else {
        seq![]
    }
}

/// The commands that empty the snapshot directory: whatever is there is
/// removed, and the directory is created, so that after a success it exists
/// and is empty in every case.
pub open spec fn clear_plan(dir_exists: bool) -> Seq<StoreCommand<Seq<char>>> {
    if dir_exists {
        seq![StoreCommand::RemoveSnapshotDir, StoreCommand::CreateSnapshotDir]
    } else {
        seq![StoreCommand::CreateSnapshotDir]
    }
}

/// Plans the backup of the active file as the snapshot of `last_account_id`.
/// With no active file there is nothing to back up and nothing to do.
pub fn rotate_save(active_exists: bool, last_account_id: &str) -> (plan: Vec<StoreCommand<String>>)
    ensures
        plan_view(plan@) == rotate_plan(active_exists, last_account_id@),
        !active_exists ==> plan@.len() == 0,
{
    let mut plan: Vec<StoreCommand<String>> = Vec::new();
    if active_exists {
        plan.push(StoreCommand::CreateSnapshotDir);
        plan.push(StoreCommand::CopyActiveToSnapshot(String::from_str(last_account_id)));
    }
    assert(plan_view(plan@) =~= rotate_plan(active_exists, last_account_id@));
    plan
}

/// The plan makes a copy of the active file.
pub open spec fn copies_active(plan: Seq<StoreCommand<Seq<char>>>) -> bool {
    exists|i: int| 0 <= i < plan.len() && (#[trigger] plan[i]) is CopyActiveToSnapshot
}

/// Whether a plan makes a copy of the active file: a backup whose plan does
/// not has copied nothing, however it ends.
pub fn plan_copies_active(plan: &Vec<StoreCommand<String>>) -> (r: bool)
    ensures
        r == copies_active(plan_view(plan@)),
{
    let mut i: usize = 0;
    while i < plan.len()
        invariant
            i <= plan.len(),
            forall|k: int| 0 <= k < i ==> !((#[trigger] plan_view(plan@)[k]) is CopyActiveToSnapshot),
        decreases plan.len() - i,
    {
        assert(plan_view(plan@)[i as int] == plan@[i as int]@);
        match &plan[i] {
            StoreCommand::CopyActiveToSnapshot(_) => {
                return true;
            },
            _ => {},
        }
        i += 1;
    }
    false
}

/// The plan of a backup copies the active file exactly when there is one.
pub proof fn law_backup_copies_what_exists(active_exists: bool, id: Seq<char>)
    ensures
        copies_active(rotate_plan(active_exists, id)) == active_exists,
{
    if active_exists {
        assert(rotate_plan(active_exists, id)[1] is CopyActiveToSnapshot);
    }
}

/// Plans the removal of the active file: nothing to do when it is absent.
pub fn delete_config(active_exists: bool) -> (plan: Vec<StoreCommand<String>>)
    ensures
        plan_view(plan@) == delete_plan(active_exists),
{
    let mut plan: Vec<StoreCommand<String>> = Vec::new();
    if active_exists {
        plan.push(StoreCommand::RemoveActive);
    }
    assert(plan_view(plan@) =~= delete_plan(active_exists));
    plan
}

/// Plans the restore of the snapshot of `account_id`. An existing active file
/// is a conflict, whether or not the snapshot exists; a missing snapshot is a
/// fresh account and leaves nothing to do.
pub fn restore_snapshot(active_exists: bool, snapshot_exists: bool, account_id: &str) -> (r: Result<
    Vec<StoreCommand<String>>,
    FileSwapError<String>,
>)
    ensures
        active_exists <==> r is Err,
        match r {
            Ok(plan) => restore_plan(active_exists, snapshot_exists, account_id@) == Ok::<
                Seq<StoreCommand<Seq<char>>>,
                FileSwapError<Seq<char>>,
            >(plan_view(plan@)),
            Err(e) => e@ == FileSwapError::<Seq<char>>::Conflict,
        },
{
    if active_exists {
        return Err(FileSwapError::Conflict);
    }
    let mut plan: Vec<StoreCommand<String>> = Vec::new();
    if snapshot_exists {
        plan.push(StoreCommand::CreateActiveDir);
        plan.push(StoreCommand::CopySnapshotToActive(String::from_str(account_id)));
    }
    assert(plan_view(plan@) =~= restore_plan(active_exists, snapshot_exists, account_id@)->Ok_0);
    Ok(plan)
}

/// Plans the removal of the snapshot of `account_id`: nothing to do when it is absent.
pub fn delete_snapshot(snapshot_exists: bool, account_id: &str) -> (plan: Vec<StoreCommand<String>>)
    ensures
        plan_view(plan@) == delete_snapshot_plan(snapshot_exists, account_id@),
{
    let mut plan: Vec<StoreCommand<String>> = Vec::new();
    if snapshot_exists {
        plan.push(StoreCommand::RemoveSnapshot(String::from_str(account_id)));
    }
    assert(plan_view(plan@) =~= delete_snapshot_plan(snapshot_exists, account_id@));
    plan
}

/// Plans the full reset of the snapshot directory: remove it with its content
/// where it exists, and create it in every case, so that a reset that
/// succeeds leaves the directory there and empty.
pub fn clear_all_snapshots(dir_exists: bool) -> (plan: Vec<StoreCommand<String>>)
    ensures
        plan_view(plan@) == clear_plan(dir_exists),
        plan@.len() > 0,
        plan_view(plan@).last() == StoreCommand::<Seq<char>>::CreateSnapshotDir,
{
    let mut plan: Vec<StoreCommand<String>> = Vec::new();
    if dir_exists {
        plan.push(StoreCommand::RemoveSnapshotDir);
    }
    plan.push(StoreCommand::CreateSnapshotDir);
    assert(plan_view(plan@) =~= clear_plan(dir_exists));
    plan
}

/// The segments of the path of the active configuration file below the
/// shared-data directory, outermost first.
pub open spec fn config_segments() -> Seq<Seq<char>> {
    seq!["Battle.net"@, "Agent"@, "product.db"@]
}

/// The view of a list of path segments.
pub open spec fn segments_view(segments: Seq<String>) -> Seq<Seq<char>> {
    segments.map_values(|s: String| s@)
}

/// The path of the active configuration file as a list of segments to join:
/// the shared-data directory that the environment names, then
/// [`config_segments`]. Without that directory there is no path.
pub fn get_bnet_config_path(program_data: Option<&str>) -> (r: Result<
    Vec<String>,
    FileSwapError<String>,
>)
    ensures
        match r {
            Ok(path) => program_data is Some && segments_view(path@) == seq![program_data->0@]
                + config_segments(),
            Err(e) => program_data is None && e@ == FileSwapError::<Seq<char>>::EnvError,
        },
{
    match program_data {
        None => Err(FileSwapError::EnvError),
        Some(root) => {
            let mut path: Vec<String> = Vec::new();
            path.push(String::from_str(root));
            path.push(String::from_str("Battle.net"));
            path.push(String::from_str("Agent"));
            path.push(String::from_str("product.db"));
            assert(segments_view(path@) =~= seq![root@] + config_segments());
            Ok(path)
        },
    }
}

/// The name of the directory, below the application's data directory, that
/// holds the snapshots.
pub open spec fn snapshot_dir_name() -> Seq<char> {
    "snapshots"@
}

/// The file name of the snapshot of an identity.
pub open spec fn snapshot_file_name(id: Seq<char>) -> Seq<char> {
    "product_"@ + id + ".db"@
}

/// The snapshot directory as a list of segments to join. The application's
/// data directory comes with the text of the failure when it cannot be found.
pub fn get_snapshot_dir(app_data_dir: Result<&str, String>) -> (r: Result<
    Vec<String>,
    FileSwapError<String>,
>)
    ensures
        match r {
            Ok(path) => app_data_dir is Ok && segments_view(path@) == seq![
                app_data_dir->Ok_0@,
                snapshot_dir_name(),
            ],
            Err(e) => app_data_dir is Err && e@ == FileSwapError::Io(app_data_dir->Err_0@),
        },
{
    match app_data_dir {
        Err(message) => Err(FileSwapError::Io(message)),
        Ok(root) => {
            let mut path: Vec<String> = Vec::new();
            path.push(String::from_str(root));
            path.push(String::from_str("snapshots"));
            assert(segments_view(path@) =~= seq![root@, snapshot_dir_name()]);
            Ok(path)
        },
    }
}

/// The path of the snapshot of `account_id` as a list of segments to join.
pub fn get_snapshot_path(app_data_dir: Result<&str, String>, account_id: &str) -> (r: Result<
    Vec<String>,
    FileSwapError<String>,
>)
    ensures
        match r {
            Ok(path) => app_data_dir is Ok && segments_view(path@) == seq![
                app_data_dir->Ok_0@,
                snapshot_dir_name(),
                snapshot_file_name(account_id@),
            ],
            Err(e) => app_data_dir is Err && e@ == FileSwapError::Io(app_data_dir->Err_0@),
        },
{
    match get_snapshot_dir(app_data_dir) {
        Err(e) => Err(e),
        Ok(dir) => {
            let mut path = dir;
            let name = String::from_str("product_").concat(account_id).concat(".db");
            proof {
                let d = segments_view(path@);
                assert(d.len() == 2);
                assert(path@.len() == 2);
                assert(d[0] == path@[0]@ && d[1] == path@[1]@);
            }
            path.push(name);
            assert(segments_view(path@) =~= seq![
                app_data_dir->Ok_0@,
                snapshot_dir_name(),
                snapshot_file_name(account_id@),
            ]);
            Ok(path)
        },
    }
}

/// One snapshot file per identity: two identities have the same snapshot
/// file name only if they are equal.
pub proof fn law_snapshot_file_per_identity(a: Seq<char>, b: Seq<char>)
    requires
        snapshot_file_name(a) == snapshot_file_name(b),
    ensures
        a == b,
{
    let p = "product_"@;
    let s = ".db"@;
    let fa = snapshot_file_name(a);
    let fb = snapshot_file_name(b);
    assert(fa.len() == p.len() + a.len() + s.len());
    assert(fb.len() == p.len() + b.len() + s.len());
    assert(a =~= fa.subrange(p.len() as int, (p.len() + a.len()) as int));
    assert(b =~= fb.subrange(p.len() as int, (p.len() + b.len()) as int));
}

/// The state of the store as the model sees it.
pub struct StoreView {
    /// The bytes of the active configuration file, if it exists.
    pub active: Option<Seq<u8>>,
    /// The bytes of the snapshot of each identity that has one.
    pub snapshots: Map<Seq<char>, Seq<u8>>,
    /// What the file system answers to the commands to come, in order: `None`
    /// lets the command through, a text makes it fail with that text. Once the
    /// list is used up, no command fails for an outside reason.
    pub faults: Seq<Option<Seq<char>>>,
}

/// The failure text of a command whose source file is missing.
pub open spec fn missing_file_text() -> Seq<char> {
    "file not found"@
}

impl StoreView {
    /// A store with the given files, in which nothing fails.
    pub open spec fn healthy(active: Option<Seq<u8>>, snapshots: Map<Seq<char>, Seq<u8>>) -> StoreView {
        StoreView { active, snapshots, faults: seq![] }
    }

    /// What the file system answers to the next command.
    pub open spec fn next_fault(self) -> Option<Seq<char>> {
        if self.faults.len() > 0 {
            self.faults[0]
        } else {
            None
        }
    }

    /// The store once the answer to one command is used up.
    pub open spec fn advance(self) -> StoreView {
        StoreView {
            faults: if self.faults.len() > 0 {
                self.faults.drop_first()
            } else {
                self.faults
            },
            ..self
        }
    }

    /// Whether the file that the command reads or removes is there.
    pub open spec fn applicable(self, command: StoreCommand<Seq<char>>) -> bool {
        match command {
            StoreCommand::CopyActiveToSnapshot(_) => self.active is Some,
            StoreCommand::RemoveActive => self.active is Some,
            StoreCommand::CopySnapshotToActive(id) => self.snapshots.contains_key(id),
            StoreCommand::RemoveSnapshot(id) => self.snapshots.contains_key(id),
            _ => true,
        }
    }

    /// The files after a command that went through.
    pub open spec fn effect(self, command: StoreCommand<Seq<char>>) -> StoreView {
        match command {
            StoreCommand::CreateSnapshotDir => self,
            StoreCommand::CreateActiveDir => self,
            StoreCommand::CopyActiveToSnapshot(id) => StoreView {
                snapshots: self.snapshots.insert(id, self.active->0),
                ..self
            },
            StoreCommand::CopySnapshotToActive(id) => StoreView {
                active: Some(self.snapshots[id]),
                ..self
            },
            StoreCommand::RemoveActive => StoreView { active: None, ..self },
            StoreCommand::RemoveSnapshot(id) => StoreView {
                snapshots: self.snapshots.remove(id),
                ..self
            },
            StoreCommand::RemoveSnapshotDir => StoreView { snapshots: Map::empty(), ..self },
        }
    }

    /// One command: it fails with the text that the file system answers, or
    /// for want of its source file, and then changes no file; else it has its
    /// effect.
    pub open spec fn perform(self, command: StoreCommand<Seq<char>>) -> (
        StoreView,
        Result<(), FileSwapError<Seq<char>>>,
    ) {
        let rest = self.advance();
        match self.next_fault() {
            Some(text) => (rest, Err(failure_of(command, text))),
            None => if self.applicable(command) {
                (rest.effect(command), Ok(()))
            } else {
                (rest, Err(failure_of(command, missing_file_text())))
            },
        }
    }

    /// A plan: its commands in order, up to and including the first that fails.
    pub open spec fn run(self, plan: Seq<StoreCommand<Seq<char>>>) -> (
        StoreView,
        Result<(), FileSwapError<Seq<char>>>,
    )
        decreases plan.len(),
    {
        if plan.len() == 0 {
            (self, Ok(()))
        } else {
            let (next, outcome) = self.perform(plan[0]);
            match outcome {
                Err(e) => (next, Err(e)),
                Ok(_) => next.run(plan.drop_first()),
            }
        }
    }

    /// Saving the active file as the snapshot of `id`.
    pub open spec fn rotate_out(self, id: Seq<char>) -> (
        StoreView,
        Result<(), FileSwapError<Seq<char>>>,
    ) {
        self.run(rotate_plan(self.active is Some, id))
    }

    /// Removing the active file.
    pub open spec fn delete_active(self) -> (StoreView, Result<(), FileSwapError<Seq<char>>>) {
        self.run(delete_plan(self.active is Some))
    }

    /// Bringing the snapshot of `id` back as the active file.
    pub open spec fn restore(self, id: Seq<char>) -> (
        StoreView,
        Result<(), FileSwapError<Seq<char>>>,
    ) {
        match restore_plan(self.active is Some, self.snapshots.contains_key(id), id) {
            Err(e) => (self, Err(e)),
            Ok(plan) => self.run(plan),
        }
    }

    /// Removing the snapshot of `id`.
    pub open spec fn delete_snapshot(self, id: Seq<char>) -> (
        StoreView,
        Result<(), FileSwapError<Seq<char>>>,
    ) {
        self.run(delete_snapshot_plan(self.snapshots.contains_key(id), id))
    }

    /// Removing every snapshot.
    pub open spec fn clear_all(self) -> (StoreView, Result<(), FileSwapError<Seq<char>>>) {
        self.run(clear_plan(true))
    }

    /// The file system lets the next `n` commands through.
    pub open spec fn calm(self, n: nat) -> bool {
        forall|i: int| 0 <= i < n && i < self.faults.len() ==> self.faults[i] is None
    }

    /// The store once the answers to `n` commands are used up.
    pub open spec fn after(self, n: nat) -> StoreView {
        StoreView {
            faults: if n <= self.faults.len() {
                self.faults.skip(n as int)
            } else {
                seq![]
            },
            ..self
        }
    }
}

/// A copy of a byte buffer.
pub fn clone_bytes(bytes: &Vec<u8>) -> (copy: Vec<u8>)
    ensures
        copy@ == bytes@,
{
    let mut copy: Vec<u8> = Vec::new();
    let mut i: usize = 0;
    while i < bytes.len()
        invariant
            i <= bytes.len(),
            copy@ == bytes@.subrange(0, i as int),
        decreases bytes.len() - i,
    {
        copy.push(bytes[i]);
        i += 1;
        assert(copy@ =~= bytes@.subrange(0, i as int));
    }
    assert(copy@ =~= bytes@);
    copy
}

/// The view of an optional byte buffer.
pub open spec fn bytes_view(bytes: Option<Vec<u8>>) -> Option<Seq<u8>> {
    match bytes {
        Some(b) => Some(b@),
        None => None,
    }
}

/// The view of an optional reference to a byte buffer.
pub open spec fn bytes_ref_view(bytes: Option<&Vec<u8>>) -> Option<Seq<u8>> {
    match bytes {
        Some(b) => Some(b@),
        None => None,
    }
}

/// The snapshot store in memory. It runs the plans of this module on buffers
/// in place of files, and answers each command with the next entry of a list
/// of failures that the caller has lined up.
pub struct SnapshotStore {
    active: Option<Vec<u8>>,
    snapshots: StringHashMap<Vec<u8>>,
    faults: Vec<Option<String>>,
}

impl View for SnapshotStore {
    type V = StoreView;

    closed spec fn view(&self) -> StoreView {
        StoreView {
            active: bytes_view(self.active),
            snapshots: self.snapshots@.map_values(|b: Vec<u8>| b@),
            faults: self.faults.deep_view(),
        }
    }
}

impl SnapshotStore {
    /// A store without files, in which nothing fails.
    pub fn new() -> (store: SnapshotStore)
        ensures
            store@ == StoreView::healthy(None, Map::empty()),
    {
        let store = SnapshotStore {
            active: None,
            snapshots: StringHashMap::new(),
            faults: Vec::new(),
        };
        assert(store@.snapshots =~= Map::empty());
        assert(store@.faults =~= seq![]);
        store
    }

    /// Puts `bytes` in place of the active file, as the client does while it
    /// runs; `None` removes the file.
    pub fn set_active(&mut self, bytes: Option<Vec<u8>>)
        ensures
            final(self)@ == (StoreView { active: bytes_view(bytes), ..old(self)@ }),
    {
        self.active = bytes;
    }

    /// Puts `bytes` in place of the snapshot of `id`.
    pub fn set_snapshot(&mut self, id: &str, bytes: Vec<u8>)
        ensures
            final(self)@ == (StoreView {
                snapshots: old(self)@.snapshots.insert(id@, bytes@),
                ..old(self)@
            }),
    {
        self.snapshots.insert(String::from_str(id), bytes);
        assert(self@.snapshots =~= old(self)@.snapshots.insert(id@, bytes@));
    }

    /// Lines up the answer of the file system to one more command: `None`
    /// lets it through, a text makes it fail with that text.
    pub fn expect_fault(&mut self, fault: Option<String>)
        ensures
            final(self)@ == (StoreView {
                faults: old(self)@.faults.push(fault.deep_view()),
                ..old(self)@
            }),
    {
        self.faults.push(fault);
        assert(self@.faults =~= old(self)@.faults.push(fault.deep_view()));
    }

    /// The bytes of the active file, if it exists.
    pub fn active(&self) -> (bytes: Option<&Vec<u8>>)
        ensures
            bytes_ref_view(bytes) == self@.active,
    {
        self.active.as_ref()
    }

    /// The bytes of the snapshot of `id`, if there is one.
    pub fn snapshot(&self, id: &str) -> (bytes: Option<&Vec<u8>>)
        ensures
            match bytes {
                Some(b) => self@.snapshots.contains_key(id@) && self@.snapshots[id@] == b@,
                None => !self@.snapshots.contains_key(id@),
            },
    {
        self.snapshots.get(id)
    }

    /// The number of snapshots.
    pub fn snapshot_count(&self) -> (n: usize)
        ensures
            n == self@.snapshots.len(),
    {
        proof {
            lemma_map_values_len(self.snapshots@);
            vstd::hash_map::axiom_string_hash_map_spec_len(&self.snapshots);
        }
        self.snapshots.len()
    }

    /// Runs one command.
    pub fn perform(&mut self, command: &StoreCommand<String>) -> (r: Result<
        (),
        FileSwapError<String>,
    >)
        ensures
            (final(self)@, outcome_view(r)) == old(self)@.perform(command@),
    {
        let fault: Option<String> = if self.faults.len() > 0 {
            self.faults.remove(0)
        } else {
            None
        };
        assert(fault.deep_view() == old(self)@.next_fault());
        assert(self@.faults =~= old(self)@.advance().faults);
        match fault {
            Some(text) => {
                return Err(command_failure(command, text));
            },
            None => {},
        }
        match command {
            StoreCommand::CreateSnapshotDir => Ok(()),
            StoreCommand::CreateActiveDir => Ok(()),
            StoreCommand::CopyActiveToSnapshot(id) => {
                match &self.active {
                    Some(bytes) => {
                        let copy = clone_bytes(bytes);
                        self.snapshots.insert(id.clone(), copy);
                        assert(self@.snapshots =~= old(self)@.snapshots.insert(
                            id@,
                            old(self)@.active->0,
                        ));
                        Ok(())
                    },
                    None => Err(command_failure(command, String::from_str("file not found"))),
                }
            },
            StoreCommand::CopySnapshotToActive(id) => {
                match self.snapshots.get(id.as_str()) {
                    Some(bytes) => {
                        let copy = clone_bytes(bytes);
                        self.active = Some(copy);
                        Ok(())
                    },
                    None => Err(command_failure(command, String::from_str("file not found"))),
                }
            },
            StoreCommand::RemoveActive => {
                if self.active.is_some() {
                    self.active = None;
                    Ok(())
                } else {
                    Err(command_failure(command, String::from_str("file not found")))
                }
            },
            StoreCommand::RemoveSnapshot(id) => {
                if self.snapshots.contains_key(id.as_str()) {
                    self.snapshots.remove(id.as_str());
                    assert(self@.snapshots =~= old(self)@.snapshots.remove(id@));
                    Ok(())
                } else {
                    Err(command_failure(command, String::from_str("file not found")))
                }
            },
            StoreCommand::RemoveSnapshotDir => {
                self.snapshots.clear();
                assert(self@.snapshots =~= Map::empty());
                Ok(())
            },
        }
    }

    /// Runs a plan: its commands in order, up to and including the first that fails.
    pub fn run(&mut self, plan: &Vec<StoreCommand<String>>) -> (r: Result<(), FileSwapError<String>>)
        ensures
            (final(self)@, outcome_view(r)) == old(self)@.run(plan_view(plan@)),
    {
        let ghost whole = plan_view(plan@);
        let mut i: usize = 0;
        assert(whole.skip(0) =~= whole);
        while i < plan.len()
            invariant
                whole == plan_view(plan@),
                i <= plan.len(),
                self@.run(whole.skip(i as int)) == old(self)@.run(whole),
            decreases plan.len() - i,
        {
            assert(whole.skip(i as int).drop_first() =~= whole.skip(i + 1));
            assert(whole.skip(i as int)[0] == plan@[i as int]@);
            match self.perform(&plan[i]) {
                Err(e) => {
                    return Err(e);
                },
                Ok(_) => {},
            }
            i += 1;
        }
        Ok(())
    }

    /// Saves the active file as the snapshot of `id`. Without an active file
    /// there is nothing to back up: the store is left as it is, with success.
    pub fn rotate_out(&mut self, id: &str) -> (r: Result<(), FileSwapError<String>>)
        ensures
            (final(self)@, outcome_view(r)) == old(self)@.rotate_out(id@),
            old(self)@.active is None ==> r is Ok && final(self)@ == old(self)@,
    {
        let plan = rotate_save(self.active.is_some(), id);
        self.run(&plan)
    }

    /// Removes the active file; nothing to do when it is absent. A removal
    /// that fails is reported as `FileDeletionFailed`.
    pub fn delete_active(&mut self) -> (r: Result<(), FileSwapError<String>>)
        ensures
            (final(self)@, outcome_view(r)) == old(self)@.delete_active(),
            old(self)@.active is None ==> r is Ok && final(self)@ == old(self)@,
            r is Ok ==> final(self)@.active is None,
            r is Err ==> r->Err_0 is FileDeletionFailed && final(self)@.active == old(self)@.active,
    {
        let plan = delete_config(self.active.is_some());
        proof {
            lemma_delete_active(self@);
        }
        self.run(&plan)
    }

    /// Brings the snapshot of `id` back as the active file. An existing active
    /// file is a conflict and is left untouched; without a snapshot of `id`
    /// there is nothing to bring back, which is a success.
    pub fn restore(&mut self, id: &str) -> (r: Result<(), FileSwapError<String>>)
        ensures
            (final(self)@, outcome_view(r)) == old(self)@.restore(id@),
            old(self)@.active is Some ==> r is Err && r->Err_0 is Conflict && final(self)@ == old(
                self,
            )@,
            old(self)@.active is None && !old(self)@.snapshots.contains_key(id@) ==> r is Ok
                && final(self)@ == old(self)@,
    {
        match restore_snapshot(self.active.is_some(), self.snapshots.contains_key(id), id) {
            Err(e) => Err(e),
            Ok(plan) => self.run(&plan),
        }
    }

    /// Removes the snapshot of `id`; nothing to do when there is none.
    pub fn delete_snapshot(&mut self, id: &str) -> (r: Result<(), FileSwapError<String>>)
        ensures
            (final(self)@, outcome_view(r)) == old(self)@.delete_snapshot(id@),
    {
        let plan = delete_snapshot(self.snapshots.contains_key(id), id);
        self.run(&plan)
    }

    /// Removes every snapshot.
    pub fn clear_all(&mut self) -> (r: Result<(), FileSwapError<String>>)
        ensures
            (final(self)@, outcome_view(r)) == old(self)@.clear_all(),
    {
        let plan = clear_all_snapshots(true);
        self.run(&plan)
    }
}

/// Mapping the values of a finite map keeps the number of its keys.
proof fn lemma_map_values_len(m: Map<Seq<char>, Vec<u8>>)
    ensures
        m.map_values(|b: Vec<u8>| b@).dom() == m.dom(),
{
    assert(m.map_values(|b: Vec<u8>| b@).dom() =~= m.dom());
}

/// Removing the active file: without a file, nothing happens; with one, the
/// next answer of the file system decides, and a failure is told apart as
/// `FileDeletionFailed`.
pub proof fn lemma_delete_active(s: StoreView)
    ensures
        s.active is None ==> s.delete_active() == (s, Ok::<(), FileSwapError<Seq<char>>>(())),
        s.active is Some ==> s.delete_active() == match s.next_fault() {
            Some(text) => (s.advance(), Err(FileSwapError::FileDeletionFailed(text))),
            None => (
                StoreView { active: None, ..s.advance() },
                Ok::<(), FileSwapError<Seq<char>>>(()),
            ),
        },
{
    if s.active is Some {
        let plan = delete_plan(true);
        assert(plan.drop_first() =~= seq![]);
        reveal_with_fuel(StoreView::run, 3);
    }
}

/// Using up the answers to two commands, one after the other.
proof fn lemma_advance_twice(s: StoreView)
    ensures
        s.advance() == s.after(1),
        s.advance().advance() == s.after(2),
        s.calm(2) ==> s.next_fault() is None && s.advance().next_fault() is None,
{
    if s.faults.len() > 0 {
        assert(s.faults.drop_first() =~= s.faults.skip(1));
        if s.faults.len() > 1 {
            assert(s.faults.drop_first().drop_first() =~= s.faults.skip(2));
            assert(s.faults.drop_first()[0] == s.faults[1]);
        } else {
            assert(s.faults.drop_first() =~= seq![]);
        }
    } else {
        assert(s.faults =~= seq![]);
    }
}

/// Saving the active file as a snapshot, case by case. Without an active file
/// nothing happens, with success. With one, and a file system that lets two
/// commands through, the snapshot of `id` holds the bytes of the active file
/// afterwards and every other file is as before. A failure changes no file.
pub proof fn lemma_rotate_out(s: StoreView, id: Seq<char>)
    ensures
        s.active is None ==> s.rotate_out(id) == (s, Ok::<(), FileSwapError<Seq<char>>>(())),
        s.active is Some && s.calm(2) ==> s.rotate_out(id) == (
            StoreView { snapshots: s.snapshots.insert(id, s.active->0), ..s.after(2) },
            Ok::<(), FileSwapError<Seq<char>>>(()),
        ),
        s.rotate_out(id).1 is Err ==> {
            &&& s.rotate_out(id).1->Err_0 is Io
            &&& s.rotate_out(id).0.active == s.active
            &&& s.rotate_out(id).0.snapshots == s.snapshots
        },
        s.rotate_out(id).0.active == s.active,
        forall|other: Seq<char>|
            other != id ==> (s.rotate_out(id).0.snapshots.contains_key(other)
                <==> s.snapshots.contains_key(other)),
        forall|other: Seq<char>|
            other != id && s.snapshots.contains_key(other) ==> s.rotate_out(id).0.snapshots[other]
                == s.snapshots[other],
{
    lemma_advance_twice(s);
    if s.active is Some {
        let plan = rotate_plan(true, id);
        assert(plan.drop_first() =~= seq![StoreCommand::CopyActiveToSnapshot(id)]);
        assert(plan.drop_first().drop_first() =~= seq![]);
        reveal_with_fuel(StoreView::run, 4);
    }
}

/// Restoring a snapshot, case by case. An active file is a conflict, whether
/// or not `id` has a snapshot, and nothing changes. Without a snapshot of `id`
/// nothing happens, with success. Else, with a file system that lets two
/// commands through, the active file holds the bytes of the snapshot
/// afterwards. No case changes a snapshot.
pub proof fn lemma_restore(s: StoreView, id: Seq<char>)
    ensures
        s.active is Some ==> s.restore(id) == (
            s,
            Err::<(), FileSwapError<Seq<char>>>(FileSwapError::Conflict),
        ),
        s.active is None && !s.snapshots.contains_key(id) ==> s.restore(id) == (
            s,
            Ok::<(), FileSwapError<Seq<char>>>(()),
        ),
        s.active is None && s.snapshots.contains_key(id) && s.calm(2) ==> s.restore(id) == (
            StoreView { active: Some(s.snapshots[id]), ..s.after(2) },
            Ok::<(), FileSwapError<Seq<char>>>(()),
        ),
        s.restore(id).1 is Err ==> s.restore(id).0.active == s.active,
        s.restore(id).1 is Err && s.active is None ==> s.restore(id).1->Err_0 is Io,
        s.restore(id).0.snapshots == s.snapshots,
{
    lemma_advance_twice(s);
    if s.active is None && s.snapshots.contains_key(id) {
        let plan = restore_plan(false, true, id)->Ok_0;
        assert(plan.drop_first() =~= seq![StoreCommand::CopySnapshotToActive(id)]);
        assert(plan.drop_first().drop_first() =~= seq![]);
        reveal_with_fuel(StoreView::run, 4);
    }
}

/// The bytes that were snapshotted last for `id`, once the active file, if
/// there is one, has been saved for it: those of the active file, else those
/// of the snapshot that `id` has already, if any.
pub open spec fn last_snapshotted(s: StoreView, id: Seq<char>) -> Option<Seq<u8>> {
    if s.active is Some {
        s.active
    } else if s.snapshots.contains_key(id) {
        Some(s.snapshots[id])
    } else {
        None
    }
}

/// Round trip. Let the active file hold the state of account `b`, and switch
/// the store to another account `a`: save the file as the snapshot of `b`,
/// clear it, restore `a`. Whatever the client of `a` then leaves in the active
/// file, switching back (save as the snapshot of `a`, clear, restore `b`)
/// gives the active file exactly the bytes that were snapshotted last for
/// `b`. The file system is taken to work: no failure is lined up.
pub proof fn law_round_trip(s: StoreView, a: Seq<char>, b: Seq<char>, left_by_a: Option<Seq<u8>>)
    requires
        a != b,
        s.faults.len() == 0,
    ensures
        ({
            let to_a = s.rotate_out(b).0.delete_active().0.restore(a).0;
            let used = StoreView { active: left_by_a, ..to_a };
            let to_b = used.rotate_out(a).0.delete_active().0.restore(b).0;
            &&& to_b.active == last_snapshotted(s, b)
            &&& to_b.snapshots.contains_key(b) ==> to_b.active == Some(to_b.snapshots[b])
            &&& left_by_a is Some ==> to_b.snapshots[a] == left_by_a->0
        }),
{
    let s1 = s.rotate_out(b).0;
    lemma_rotate_out(s, b);
    assert(s1.faults =~= seq![]);
    let s2 = s1.delete_active().0;
    lemma_delete_active(s1);
    assert(s2.faults =~= seq![]);
    let s3 = s2.restore(a).0;
    lemma_restore(s2, a);
    assert(s3.faults =~= seq![]);
    let used = StoreView { active: left_by_a, ..s3 };
    let s4 = used.rotate_out(a).0;
    lemma_rotate_out(used, a);
    assert(s4.faults =~= seq![]);
    let s5 = s4.delete_active().0;
    lemma_delete_active(s4);
    assert(s5.faults =~= seq![]);
    lemma_restore(s5, b);
}

/// The names of the files of the client's agent that a cleanup removes.
pub open spec fn archive_files() -> Seq<Seq<char>> {
    seq!["product.db"@, "Agent.db"@, "Agent.log"@]
}

/// The name of the directory of the client's agent that a cleanup removes.
pub open spec fn archive_logs() -> Seq<char> {
    "Logs"@
}

/// The names of the files of the client's agent that a cleanup removes.
pub fn archive_targets() -> (names: Vec<String>)
    ensures
        segments_view(names@) == archive_files(),
{
    let mut names: Vec<String> = Vec::new();
    names.push(String::from_str("product.db"));
    names.push(String::from_str("Agent.db"));
    names.push(String::from_str("Agent.log"));
    assert(segments_view(names@) =~= archive_files());
    names
}

/// The name of the directory of the client's agent that a cleanup removes.
pub fn archive_logs_dir() -> (name: String)
    ensures
        name@ == archive_logs(),
{
    String::from_str("Logs")
}

/// The outcome of a cleanup of the client's archive files: without the
/// shared-data directory it fails; else it tells how many files were removed,
/// `removed` saying of each file that was there whether its removal succeeded.
pub fn cleanup_bnet_archives(program_data_found: bool, removed: &Vec<bool>) -> (r: Result<
    String,
    FileSwapError<String>,
>)
    ensures
        program_data_found <==> r is Ok,
        r is Ok ==> r->Ok_0@ == "Cleaned "@ + decimal(count_true(removed@)) + " archive files"@,
        r is Err ==> r->Err_0@ == FileSwapError::<Seq<char>>::EnvError,
{
    if !program_data_found {
        return Err(FileSwapError::EnvError);
    }
    let count = decimal_text(count_succeeded(removed) as u64);
    Ok(String::from_str("Cleaned ").concat(count.as_str()).concat(" archive files"))
}

} // verus!
