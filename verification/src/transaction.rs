//! The switch of an account against a model of its surroundings.
//!
//! [`World`] holds what a switch acts on, in memory: the snapshot store and
//! the record of the account that was active last; and what the other
//! collaborators are going to answer. [`World::switch_account`] drives a
//! [`Switch`](crate::account::Switch) to its end against it, and is proved to
//! do what [`transaction`] says in one piece. The laws at the end are stated
//! over [`transaction`].

use vstd::prelude::*;
use crate::account::{
    launch_game, launch_plan, switch_outcome_view, Account, AccountError, LaunchPlan, Switch,
    SwitchAction, SwitchEvent, SwitchStage,
};
use crate::file_swap::{
    lemma_delete_active, lemma_restore, lemma_rotate_out, FileSwapError, SnapshotStore, StoreView,
};
use crate::os::{LaunchFailure, ProcessLaunchResult};
use crate::text::clone_text;

verus! {

/// What the collaborators of a switch, other than the store, answer.
#[derive(Debug, PartialEq, Eq)]
pub struct Replies<S> {
    /// The number of client processes that the termination reports.
    pub killed: usize,
    /// Whether the debug privilege is gained.
    pub debug_privilege: bool,
    /// How the sweep for stale locks ends.
    pub locks: Result<usize, S>,
    /// Whether the configuration can be read.
    pub config_readable: bool,
    /// Whether the configuration can be written.
    pub config_writable: bool,
    /// The executable of the client and its directory, if one is found.
    pub client: Option<(S, Option<S>)>,
    /// The user who runs this process, as the system tells it.
    pub whoami: S,
    /// The bare user name of the environment.
    pub env_username: S,
    /// How the renewal of the password policy ends.
    pub policy: Result<(), S>,
    /// How the setting of the password ends.
    pub password: Result<(), S>,
    /// How the direct start ends.
    pub spawn: Result<u32, S>,
    /// How the impersonated launch ends.
    pub launch: Result<ProcessLaunchResult, LaunchFailure<S>>,
}

/// The view of a result whose error is a text.
pub open spec fn text_result_view<T>(r: Result<T, String>) -> Result<T, Seq<char>> {
    match r {
        Ok(v) => Ok(v),
        Err(m) => Err(m@),
    }
}

/// The view of the place where the client was found.
pub open spec fn client_view(client: Option<(String, Option<String>)>) -> Option<
    (Seq<char>, Option<Seq<char>>),
> {
    match client {
        Some((exe, working_dir)) => Some((exe@, working_dir.deep_view())),
        None => None,
    }
}

impl View for Replies<String> {
    type V = Replies<Seq<char>>;

    open spec fn view(&self) -> Self::V {
        Replies {
            killed: self.killed,
            debug_privilege: self.debug_privilege,
            locks: text_result_view(self.locks),
            config_readable: self.config_readable,
            config_writable: self.config_writable,
            client: client_view(self.client),
            whoami: self.whoami@,
            env_username: self.env_username@,
            policy: text_result_view(self.policy),
            password: text_result_view(self.password),
            spawn: text_result_view(self.spawn),
            launch: match self.launch {
                Ok(p) => Ok(p),
                Err(f) => Err(f@),
            },
        }
    }
}

/// The surroundings of a switch, as the model sees them.
pub struct WorldView {
    /// The snapshot store.
    pub store: StoreView,
    /// The account that the configuration records as active last.
    pub last_active: Option<Seq<char>>,
    /// What the other collaborators answer.
    pub replies: Replies<Seq<char>>,
}

impl WorldView {
    /// What the surroundings do when asked for `action`: how they change,
    /// and how the operation ends. Nothing is asked for by `Nothing`.
    pub open spec fn answer(self, action: SwitchAction<Seq<char>>) -> (
        WorldView,
        Option<SwitchEvent<Seq<char>>>,
    ) {
        match action {
            SwitchAction::KillClientProcesses => (
                self,
                Some(SwitchEvent::ProcessesKilled(self.replies.killed)),
            ),
            SwitchAction::CloseStaleLocks => (
                self,
                Some(
                    SwitchEvent::LocksSwept {
                        debug_privilege: self.replies.debug_privilege,
                        outcome: self.replies.locks,
                    },
                ),
            ),
            SwitchAction::LoadConfig => (
                self,
                Some(
                    SwitchEvent::ConfigLoaded(
                        if self.replies.config_readable {
                            Some(self.last_active)
                        } else {
                            None
                        },
                    ),
                ),
            ),
            SwitchAction::RotateOut(id) => (
                WorldView { store: self.store.rotate_out(id).0, ..self },
                Some(
                    SwitchEvent::BackedUp(
                        match self.store.rotate_out(id).1 {
                            Ok(_) => Ok(self.store.active is Some),
                            Err(e) => Err(e),
                        },
                    ),
                ),
            ),
            SwitchAction::DeleteActive => (
                WorldView { store: self.store.delete_active().0, ..self },
                Some(SwitchEvent::Stored(self.store.delete_active().1)),
            ),
            SwitchAction::Restore(id) => (
                WorldView { store: self.store.restore(id).0, ..self },
                Some(SwitchEvent::Stored(self.store.restore(id).1)),
            ),
            SwitchAction::SaveLastActive(id) => (
                WorldView {
                    last_active: if self.replies.config_writable {
                        Some(id)
                    } else {
                        self.last_active
                    },
                    ..self
                },
                Some(SwitchEvent::Saved(self.replies.config_writable)),
            ),
            SwitchAction::LocateClient => (self, Some(SwitchEvent::Located(self.replies.client))),
            SwitchAction::Identify => (
                self,
                Some(
                    SwitchEvent::Identified {
                        whoami: self.replies.whoami,
                        env_username: self.replies.env_username,
                    },
                ),
            ),
            SwitchAction::RefreshPasswordPolicy { .. } => (
                self,
                Some(SwitchEvent::ProviderAnswered(self.replies.policy)),
            ),
            SwitchAction::ResetPassword { .. } => (
                self,
                Some(SwitchEvent::ProviderAnswered(self.replies.password)),
            ),
            SwitchAction::SpawnDirect { .. } => (
                self,
                Some(SwitchEvent::Spawned(self.replies.spawn)),
            ),
            SwitchAction::LaunchAs { .. } => (
                self,
                Some(SwitchEvent::Launched(self.replies.launch)),
            ),
            SwitchAction::Nothing => (self, None),
        }
    }

    /// A switch driven against the surroundings: asked for an operation, the
    /// surroundings answer, the switch takes the answer, for at most `turns`
    /// operations or until the switch asks for nothing.
    pub open spec fn drive(self, switch: Switch<Seq<char>>, turns: nat) -> (
        WorldView,
        Switch<Seq<char>>,
    )
        decreases turns,
    {
        if turns == 0 {
            (self, switch)
        } else {
            match self.answer(switch.action()).1 {
                Some(event) => self.answer(switch.action()).0.drive(
                    switch.step(event),
                    (turns - 1) as nat,
                ),
                None => (self, switch),
            }
        }
    }
}

/// How the start of the client ends for `account`, given what the
/// collaborators answer: without an executable, as "not found"; for the
/// current user, as the direct start ends; for another user, as the
/// impersonated launch ends, whatever became of the preparations.
pub open spec fn launch_outcome(replies: Replies<Seq<char>>, account: Account<Seq<char>>) -> Result<
    u32,
    AccountError<Seq<char>>,
> {
    match replies.client {
        None => Err(AccountError::InvalidPath),
        Some((exe, working_dir)) => match launch_plan(
            account,
            replies.whoami,
            replies.env_username,
            exe,
            working_dir,
        ) {
            LaunchPlan::Direct { .. } => match replies.spawn {
                Ok(pid) => Ok(pid),
                Err(text) => Err(AccountError::LaunchError(LaunchFailure::Spawn(text))),
            },
            LaunchPlan::Impersonated { .. } => match replies.launch {
                Ok(p) => Ok(p.process_id),
                Err(failure) => Err(AccountError::LaunchError(failure)),
            },
        },
    }
}

/// The switch of the active account to `account` as one transaction: what
/// becomes of the surroundings, and how the switch ends.
///
/// If the configuration cannot be read, nothing happens. Else the active
/// file is saved as the snapshot of the account that was active last, if that
/// is another account; this may fail without consequence. The active file is
/// removed; if that fails, the switch fails. The snapshot of the target is
/// brought back; if that fails, the switch fails, after the snapshot of the
/// previous account was brought back in its place where its backup had made
/// a copy of the active file; where there was no active file to copy, nothing
/// is brought back. Then the target is recorded as active, and the client is
/// started.
pub open spec fn transaction(world: WorldView, account: Account<Seq<char>>) -> (
    WorldView,
    Result<u32, AccountError<Seq<char>>>,
) {
    if !world.replies.config_readable {
        (world, Err(AccountError::InvalidPath))
    } else {
        let backup = world.last_active is Some && world.last_active->0 != account.id;
        let saved = if backup {
            world.store.rotate_out(world.last_active->0).0
        } else {
            world.store
        };
        let rotated = backup && world.store.active is Some && world.store.rotate_out(
            world.last_active->0,
        ).1 is Ok;
        let (cleared, clearing) = saved.delete_active();
        match clearing {
            Err(e) => (WorldView { store: cleared, ..world }, Err(AccountError::FileSwap(e))),
            Ok(_) => {
                let (restored, restoring) = cleared.restore(account.id);
                match restoring {
                    Err(e) => (
                        WorldView {
                            store: if rotated {
                                restored.restore(world.last_active->0).0
                            } else {
                                restored
                            },
                            ..world
                        },
                        Err(AccountError::FileSwap(e)),
                    ),
                    Ok(_) => (
                        WorldView {
                            store: restored,
                            last_active: if world.replies.config_writable {
                                Some(account.id)
                            } else {
                                world.last_active
                            },
                            ..world
                        },
                        launch_outcome(world.replies, account),
                    ),
                }
            },
        }
    }
}

/// The number of operations after which every switch is over.
pub open spec fn full_turns() -> nat {
    16
}

/// Driven for `turns` operations, the switch ends with `outcome` and leaves
/// the surroundings as `after`.
pub open spec fn ends_as(
    world: WorldView,
    switch: Switch<Seq<char>>,
    turns: nat,
    after: WorldView,
    outcome: Result<u32, AccountError<Seq<char>>>,
) -> bool {
    &&& world.drive(switch, turns).0 == after
    &&& world.drive(switch, turns).1.outcome() == Some(outcome)
    &&& world.drive(switch, turns).1.account == switch.account
}

/// How the start of the client ends under a plan.
pub open spec fn start_outcome(replies: Replies<Seq<char>>, plan: LaunchPlan<Seq<char>>) -> Result<
    u32,
    AccountError<Seq<char>>,
> {
    match plan {
        LaunchPlan::Direct { .. } => match replies.spawn {
            Ok(pid) => Ok(pid),
            Err(text) => Err(AccountError::LaunchError(LaunchFailure::Spawn(text))),
        },
        LaunchPlan::Impersonated { .. } => match replies.launch {
            Ok(p) => Ok(p.process_id),
            Err(failure) => Err(AccountError::LaunchError(failure)),
        },
    }
}

proof fn lemma_from_starting(
    world: WorldView,
    account: Account<Seq<char>>,
    plan: LaunchPlan<Seq<char>>,
    turns: nat,
)
    requires
        turns >= 2,
    ensures
        ends_as(
            world,
            Switch { account, stage: SwitchStage::Starting { plan } },
            turns,
            world,
            start_outcome(world.replies, plan),
        ),
{
    let switch = Switch { account, stage: SwitchStage::Starting { plan } };
    let event = world.answer(switch.action()).1->0;
    let next = switch.step(event);
    assert(world.answer(switch.action()).0 == world);
    assert(next.outcome() == Some(start_outcome(world.replies, plan)));
    assert(world.drive(switch, turns) == world.drive(next, (turns - 1) as nat));
    assert(world.drive(next, (turns - 1) as nat) == (world, next));
}

proof fn lemma_from_resetting(
    world: WorldView,
    account: Account<Seq<char>>,
    plan: LaunchPlan<Seq<char>>,
    turns: nat,
)
    requires
        turns >= 3,
        plan is Impersonated,
    ensures
        ends_as(
            world,
            Switch { account, stage: SwitchStage::ResettingPassword { plan } },
            turns,
            world,
            start_outcome(world.replies, plan),
        ),
{
    let switch = Switch { account, stage: SwitchStage::ResettingPassword { plan } };
    let event = world.answer(switch.action()).1->0;
    let next = switch.step(event);
    assert(world.answer(switch.action()).0 == world);
    assert(world.drive(switch, turns) == world.drive(next, (turns - 1) as nat));
    lemma_from_starting(world, account, plan, (turns - 1) as nat);
}

proof fn lemma_from_planned(
    world: WorldView,
    account: Account<Seq<char>>,
    plan: LaunchPlan<Seq<char>>,
    turns: nat,
)
    requires
        turns >= 4,
    ensures
        ends_as(
            world,
            Switch { account, stage: crate::account::stage_after_plan(plan) },
            turns,
            world,
            start_outcome(world.replies, plan),
        ),
{
    let switch = Switch { account, stage: crate::account::stage_after_plan(plan) };
    match switch.stage {
        SwitchStage::RefreshingPolicy { .. } => {
            let event = world.answer(switch.action()).1->0;
            let next = switch.step(event);
            assert(world.answer(switch.action()).0 == world);
            assert(world.drive(switch, turns) == world.drive(next, (turns - 1) as nat));
            if next.stage is ResettingPassword {
                lemma_from_resetting(world, account, plan, (turns - 1) as nat);
            } else {
                lemma_from_starting(world, account, plan, (turns - 1) as nat);
            }
        },
        SwitchStage::ResettingPassword { .. } => {
            lemma_from_resetting(world, account, plan, turns);
        },
        _ => {
            lemma_from_starting(world, account, plan, turns);
        },
    }
}

proof fn lemma_from_locating(world: WorldView, account: Account<Seq<char>>, turns: nat)
    requires
        turns >= 6,
    ensures
        ends_as(
            world,
            Switch { account, stage: SwitchStage::Locating },
            turns,
            world,
            launch_outcome(world.replies, account),
        ),
{
    let switch = Switch { account, stage: SwitchStage::Locating };
    let event = world.answer(switch.action()).1->0;
    let next = switch.step(event);
    assert(world.answer(switch.action()).0 == world);
    assert(world.drive(switch, turns) == world.drive(next, (turns - 1) as nat));
    match world.replies.client {
        None => {
            assert(world.drive(next, (turns - 1) as nat) == (world, next));
        },
        Some((exe, working_dir)) => {
            let asked = world.answer(next.action()).1->0;
            let planned = next.step(asked);
            assert(world.answer(next.action()).0 == world);
            assert(world.drive(next, (turns - 1) as nat) == world.drive(
                planned,
                (turns - 2) as nat,
            ));
            let plan = launch_plan(
                account,
                world.replies.whoami,
                world.replies.env_username,
                exe,
                working_dir,
            );
            lemma_from_planned(world, account, plan, (turns - 2) as nat);
        },
    }
}

proof fn lemma_from_persisting(world: WorldView, account: Account<Seq<char>>, turns: nat)
    requires
        turns >= 7,
    ensures
        ends_as(
            world,
            Switch { account, stage: SwitchStage::Persisting },
            turns,
            WorldView {
                last_active: if world.replies.config_writable {
                    Some(account.id)
                } else {
                    world.last_active
                },
                ..world
            },
            launch_outcome(world.replies, account),
        ),
{
    let switch = Switch { account, stage: SwitchStage::Persisting };
    let event = world.answer(switch.action()).1->0;
    let next = switch.step(event);
    let recorded = world.answer(switch.action()).0;
    assert(world.drive(switch, turns) == recorded.drive(next, (turns - 1) as nat));
    lemma_from_locating(recorded, account, (turns - 1) as nat);
}

proof fn lemma_from_restoring(
    world: WorldView,
    account: Account<Seq<char>>,
    rotated: Option<Seq<char>>,
    turns: nat,
)
    requires
        turns >= 9,
    ensures
        ({
            let (restored, restoring) = world.store.restore(account.id);
            match restoring {
                Err(e) => ends_as(
                    world,
                    Switch { account, stage: SwitchStage::Restoring { rotated } },
                    turns,
                    WorldView {
                        store: if rotated is Some {
                            restored.restore(rotated->0).0
                        } else {
                            restored
                        },
                        ..world
                    },
                    Err(AccountError::FileSwap(e)),
                ),
                Ok(_) => ends_as(
                    world,
                    Switch { account, stage: SwitchStage::Restoring { rotated } },
                    turns,
                    WorldView {
                        store: restored,
                        last_active: if world.replies.config_writable {
                            Some(account.id)
                        } else {
                            world.last_active
                        },
                        ..world
                    },
                    launch_outcome(world.replies, account),
                ),
            }
        }),
{
    let switch = Switch { account, stage: SwitchStage::Restoring { rotated } };
    let event = world.answer(switch.action()).1->0;
    let next = switch.step(event);
    let after = world.answer(switch.action()).0;
    assert(world.drive(switch, turns) == after.drive(next, (turns - 1) as nat));
    match world.store.restore(account.id).1 {
        Ok(_) => {
            lemma_from_persisting(after, account, (turns - 1) as nat);
        },
        Err(e) => {
            match rotated {
                Some(previous) => {
                    let undone = after.answer(next.action()).0;
                    let failed = next.step(after.answer(next.action()).1->0);
                    assert(after.drive(next, (turns - 1) as nat) == undone.drive(
                        failed,
                        (turns - 2) as nat,
                    ));
                    assert(undone.drive(failed, (turns - 2) as nat) == (undone, failed));
                },
                None => {
                    assert(after.drive(next, (turns - 1) as nat) == (after, next));
                },
            }
        },
    }
}

proof fn lemma_from_clearing(
    world: WorldView,
    account: Account<Seq<char>>,
    rotated: Option<Seq<char>>,
    turns: nat,
)
    requires
        turns >= 10,
    ensures
        ({
            let (cleared, clearing) = world.store.delete_active();
            let (restored, restoring) = cleared.restore(account.id);
            match clearing {
                Err(e) => ends_as(
                    world,
                    Switch { account, stage: SwitchStage::ClearingActive { rotated } },
                    turns,
                    WorldView { store: cleared, ..world },
                    Err(AccountError::FileSwap(e)),
                ),
                Ok(_) => match restoring {
                    Err(e) => ends_as(
                        world,
                        Switch { account, stage: SwitchStage::ClearingActive { rotated } },
                        turns,
                        WorldView {
                            store: if rotated is Some {
                                restored.restore(rotated->0).0
                            } else {
                                restored
                            },
                            ..world
                        },
                        Err(AccountError::FileSwap(e)),
                    ),
                    Ok(_) => ends_as(
                        world,
                        Switch { account, stage: SwitchStage::ClearingActive { rotated } },
                        turns,
                        WorldView {
                            store: restored,
                            last_active: if world.replies.config_writable {
                                Some(account.id)
                            } else {
                                world.last_active
                            },
                            ..world
                        },
                        launch_outcome(world.replies, account),
                    ),
                },
            }
        }),
{
    let switch = Switch { account, stage: SwitchStage::ClearingActive { rotated } };
    let event = world.answer(switch.action()).1->0;
    let next = switch.step(event);
    let after = world.answer(switch.action()).0;
    assert(world.drive(switch, turns) == after.drive(next, (turns - 1) as nat));
    match world.store.delete_active().1 {
        Ok(_) => {
            lemma_from_restoring(after, account, rotated, (turns - 1) as nat);
        },
        Err(e) => {
            assert(after.drive(next, (turns - 1) as nat) == (after, next));
        },
    }
}

/// Driving a switch from its beginning to its end is the transaction.
pub proof fn lemma_drive_is_transaction(world: WorldView, account: Account<Seq<char>>)
    ensures
        ends_as(
            world,
            Switch { account, stage: SwitchStage::Killing },
            full_turns(),
            transaction(world, account).0,
            transaction(world, account).1,
        ),
{
    let killing = Switch { account, stage: SwitchStage::Killing };
    let sweeping = killing.step(world.answer(killing.action()).1->0);
    assert(world.answer(killing.action()).0 == world);
    assert(world.drive(killing, 16) == world.drive(sweeping, 15));
    let loading = sweeping.step(world.answer(sweeping.action()).1->0);
    assert(world.answer(sweeping.action()).0 == world);
    assert(world.drive(sweeping, 15) == world.drive(loading, 14));
    let loaded = loading.step(world.answer(loading.action()).1->0);
    assert(world.answer(loading.action()).0 == world);
    assert(world.drive(loading, 14) == world.drive(loaded, 13));
    if !world.replies.config_readable {
        assert(world.drive(loaded, 13) == (world, loaded));
    } else if world.last_active is Some && world.last_active->0 != account.id {
        let previous = world.last_active->0;
        let saved = world.answer(loaded.action()).0;
        let clearing = loaded.step(world.answer(loaded.action()).1->0);
        assert(world.drive(loaded, 13) == saved.drive(clearing, 12));
        let rotated = if world.store.active is Some && world.store.rotate_out(previous).1 is Ok {
            Some(previous)
        } else {
            None
        };
        lemma_from_clearing(saved, account, rotated, 12);
    } else {
        lemma_from_clearing(world, account, None, 13);
    }
}

/// A copy of a result whose error is a text.
pub fn clone_text_result<T: Copy>(r: &Result<T, String>) -> (copy: Result<T, String>)
    ensures
        text_result_view(copy) == text_result_view(*r),
{
    match r {
        Ok(v) => Ok(*v),
        Err(m) => Err(m.clone()),
    }
}

/// A copy of the outcome of a launch.
pub fn clone_launch(r: &Result<ProcessLaunchResult, LaunchFailure<String>>) -> (copy: Result<
    ProcessLaunchResult,
    LaunchFailure<String>,
>)
    ensures
        crate::os::launch_view(copy) == crate::os::launch_view(*r),
{
    match r {
        Ok(p) => Ok(*p),
        Err(LaunchFailure::Spawn(m)) => Err(LaunchFailure::Spawn(m.clone())),
        Err(LaunchFailure::Logon(m)) => Err(LaunchFailure::Logon(m.clone())),
        Err(LaunchFailure::ProcessCreation(m)) => Err(LaunchFailure::ProcessCreation(m.clone())),
    }
}

/// The view of an optional event.
pub open spec fn event_view(event: Option<SwitchEvent<String>>) -> Option<SwitchEvent<Seq<char>>> {
    match event {
        Some(e) => Some(e@),
        None => None,
    }
}

/// The surroundings of a switch, in memory.
pub struct World {
    /// The snapshot store.
    pub store: SnapshotStore,
    /// The account that the configuration records as active last.
    pub last_active: Option<String>,
    /// What the other collaborators answer.
    pub replies: Replies<String>,
}

impl View for World {
    type V = WorldView;

    open spec fn view(&self) -> WorldView {
        WorldView {
            store: self.store@,
            last_active: self.last_active.deep_view(),
            replies: self.replies@,
        }
    }
}

impl World {
    /// Does what `action` asks for, and tells how it ended.
    pub fn answer(&mut self, action: &SwitchAction<String>) -> (event: Option<SwitchEvent<String>>)
        ensures
            (final(self)@, event_view(event)) == old(self)@.answer(action@),
    {
        match action {
            SwitchAction::KillClientProcesses => Some(
                SwitchEvent::ProcessesKilled(self.replies.killed),
            ),
            SwitchAction::CloseStaleLocks => Some(
                SwitchEvent::LocksSwept {
                    debug_privilege: self.replies.debug_privilege,
                    outcome: clone_text_result(&self.replies.locks),
                },
            ),
            SwitchAction::LoadConfig => {
                if self.replies.config_readable {
                    Some(SwitchEvent::ConfigLoaded(Some(clone_text(&self.last_active))))
                } else {
                    Some(SwitchEvent::ConfigLoaded(None))
                }
            },
            SwitchAction::RotateOut(id) => {
                let copied = self.store.active().is_some();
                match self.store.rotate_out(id.as_str()) {
                    Ok(_) => Some(SwitchEvent::BackedUp(Ok(copied))),
                    Err(e) => Some(SwitchEvent::BackedUp(Err(e))),
                }
            },
            SwitchAction::DeleteActive => {
                let r = self.store.delete_active();
                Some(SwitchEvent::Stored(r))
            },
            SwitchAction::Restore(id) => {
                let r = self.store.restore(id.as_str());
                Some(SwitchEvent::Stored(r))
            },
            SwitchAction::SaveLastActive(id) => {
                if self.replies.config_writable {
                    self.last_active = Some(id.clone());
                }
                Some(SwitchEvent::Saved(self.replies.config_writable))
            },
            SwitchAction::LocateClient => {
                let found = match &self.replies.client {
                    Some((exe, working_dir)) => Some((exe.clone(), clone_text(working_dir))),
                    None => None,
                };
                Some(SwitchEvent::Located(found))
            },
            SwitchAction::Identify => Some(
                SwitchEvent::Identified {
                    whoami: self.replies.whoami.clone(),
                    env_username: self.replies.env_username.clone(),
                },
            ),
            SwitchAction::RefreshPasswordPolicy { .. } => Some(
                SwitchEvent::ProviderAnswered(clone_text_result(&self.replies.policy)),
            ),
            SwitchAction::ResetPassword { .. } => Some(
                SwitchEvent::ProviderAnswered(clone_text_result(&self.replies.password)),
            ),
            SwitchAction::SpawnDirect { .. } => Some(
                SwitchEvent::Spawned(clone_text_result(&self.replies.spawn)),
            ),
            SwitchAction::LaunchAs { .. } => Some(
                SwitchEvent::Launched(clone_launch(&self.replies.launch)),
            ),
            SwitchAction::Nothing => None,
        }
    }

    /// Switches the active account to `account`: drives a switch from its
    /// beginning to its end against these surroundings. What it leaves behind
    /// and how it ends is the transaction.
    pub fn switch_account(&mut self, account: Account<String>) -> (r: Result<
        u32,
        AccountError<String>,
    >)
        ensures
            (final(self)@, switch_outcome_view(r)) == transaction(old(self)@, account@),
    {
        let mut switch = launch_game(account).begin();
        let mut turns: u8 = 16;
        proof {
            lemma_drive_is_transaction(self@, account@);
        }
        let ghost start = switch@;
        loop
            invariant
                turns <= 16,
                self@.drive(switch@, turns as nat) == old(self)@.drive(start, full_turns()),
            ensures
                (self@, switch@) == old(self)@.drive(start, full_turns()),
            decreases turns,
        {
            if turns == 0 {
                break ;
            }
            let action = switch.action();
            match self.answer(&action) {
                Some(event) => {
                    switch = switch.step(event);
                },
                None => {
                    break ;
                },
            }
            turns = turns - 1;
        }
        match switch.outcome() {
            Some(outcome) => outcome,
            None => Err(AccountError::InvalidPath),
        }
    }
}

/// The first switch on a machine. With no account recorded as active, no
/// active file and no snapshot of the target, the store is left alone: there
/// is nothing to back up, nothing to remove and nothing to restore, and no
/// file operation is attempted. The target is recorded, and the switch ends
/// as the start of the client ends.
pub proof fn law_first_switch(world: WorldView, account: Account<Seq<char>>)
    requires
        world.replies.config_readable,
        world.last_active is None,
        world.store.active is None,
        !world.store.snapshots.contains_key(account.id),
    ensures
        transaction(world, account) == (
            WorldView {
                last_active: if world.replies.config_writable {
                    Some(account.id)
                } else {
                    None
                },
                ..world
            },
            launch_outcome(world.replies, account),
        ),
{
    lemma_delete_active(world.store);
    lemma_restore(world.store, account.id);
}

/// A switch from one account to another, with a file system that works. The
/// bytes of the active file become the snapshot of the account that was
/// active, the bytes of the snapshot of the target become the active file,
/// every other snapshot stays, the target is recorded, and the switch ends
/// as the start of the client ends.
pub proof fn law_switch_swaps(world: WorldView, account: Account<Seq<char>>)
    requires
        world.replies.config_readable,
        world.last_active is Some,
        world.last_active->0 != account.id,
        world.store.active is Some,
        world.store.snapshots.contains_key(account.id),
        world.store.faults.len() == 0,
    ensures
        ({
            let (after, outcome) = transaction(world, account);
            &&& after.store.active == Some(world.store.snapshots[account.id])
            &&& after.store.snapshots == world.store.snapshots.insert(
                world.last_active->0,
                world.store.active->0,
            )
            &&& after.store.snapshots[world.last_active->0] == world.store.active->0
            &&& after.last_active == if world.replies.config_writable {
                Some(account.id)
            } else {
                world.last_active
            }
            &&& after.replies == world.replies
            &&& outcome == launch_outcome(world.replies, account)
        }),
{
    let previous = world.last_active->0;
    lemma_rotate_out(world.store, previous);
    let saved = world.store.rotate_out(previous).0;
    assert(saved.faults =~= seq![]);
    lemma_delete_active(saved);
    let cleared = saved.delete_active().0;
    assert(cleared.faults =~= seq![]);
    lemma_restore(cleared, account.id);
}

/// The file system lets every command through but the one numbered `at`,
/// which fails with `text`.
pub open spec fn fails_once(faults: Seq<Option<Seq<char>>>, at: int, text: Seq<char>) -> bool {
    &&& faults.len() == at + 1
    &&& faults[at] == Some(text)
    &&& forall|i: int| 0 <= i < at ==> faults[i] is None
}

/// Rollback. Let the backup of the previous account succeed, the active
/// file be removed, and the restore of the target fail, at either of its two
/// file operations. Then the snapshot of the previous account is brought
/// back: the active file holds its bytes again, which are the bytes it held
/// before the switch. The switch ends with the error of the failed restore,
/// and the record of the active account is not changed.
pub proof fn law_rollback(
    world: WorldView,
    account: Account<Seq<char>>,
    at: int,
    text: Seq<char>,
)
    requires
        world.replies.config_readable,
        world.last_active is Some,
        world.last_active->0 != account.id,
        world.store.active is Some,
        world.store.snapshots.contains_key(account.id),
        at == 3 || at == 4,
        fails_once(world.store.faults, at, text),
    ensures
        ({
            let (after, outcome) = transaction(world, account);
            &&& outcome == Err::<u32, AccountError<Seq<char>>>(
                AccountError::FileSwap(FileSwapError::Io(text)),
            )
            &&& after.store.active == world.store.active
            &&& after.store.snapshots[world.last_active->0] == world.store.active->0
            &&& after.store.snapshots[account.id] == world.store.snapshots[account.id]
            &&& after.last_active == world.last_active
        }),
{
    let previous = world.last_active->0;
    let s0 = world.store;
    lemma_rotate_out(s0, previous);
    let s1 = s0.rotate_out(previous).0;
    assert(s1.faults =~= s0.faults.skip(2));
    lemma_delete_active(s1);
    let s2 = s1.delete_active().0;
    assert(s2.faults =~= s0.faults.skip(3));
    lemma_restore_fails(s2, account.id, at - 3, text);
    let s3 = s2.restore(account.id).0;
    assert(s3.faults =~= seq![]);
    lemma_restore(s3, previous);
}

/// A restore whose first or second file operation fails with `text`, and
/// nothing else does: it fails with that text and changes no file.
proof fn lemma_restore_fails(s: StoreView, id: Seq<char>, at: int, text: Seq<char>)
    requires
        s.active is None,
        s.snapshots.contains_key(id),
        at == 0 || at == 1,
        fails_once(s.faults, at, text),
    ensures
        s.restore(id).1 == Err::<(), FileSwapError<Seq<char>>>(FileSwapError::Io(text)),
        s.restore(id).0.active == s.active,
        s.restore(id).0.snapshots == s.snapshots,
        s.restore(id).0.faults.len() == 0,
{
    let plan = crate::file_swap::restore_plan(false, true, id)->Ok_0;
    assert(plan.drop_first() =~= seq![crate::file_swap::StoreCommand::CopySnapshotToActive(id)]);
    assert(plan.drop_first().drop_first() =~= seq![]);
    reveal_with_fuel(StoreView::run, 4);
    if at == 0 {
        assert(s.faults.drop_first() =~= seq![]);
    } else {
        assert(s.faults.drop_first().drop_first() =~= seq![]);
        assert(s.faults.drop_first()[0] == s.faults[1]);
    }
}

/// No rollback without a backup that copied. Let another account be
/// recorded as active and no active file be there, so that the backup has
/// nothing to copy. If the restore of the target then fails, the switch ends
/// with that error and nothing is brought back: there is no active file
/// afterwards, whatever snapshot the previous account has from before.
pub proof fn law_no_rollback_without_copy(world: WorldView, account: Account<Seq<char>>)
    requires
        world.replies.config_readable,
        world.last_active is Some,
        world.last_active->0 != account.id,
        world.store.active is None,
        world.store.restore(account.id).1 is Err,
    ensures
        ({
            let (after, outcome) = transaction(world, account);
            &&& outcome == Err::<u32, AccountError<Seq<char>>>(
                AccountError::FileSwap(world.store.restore(account.id).1->Err_0),
            )
            &&& after.store == world.store.restore(account.id).0
            &&& after.store.active is None
            &&& after.store.snapshots == world.store.snapshots
            &&& after.last_active == world.last_active
        }),
{
    lemma_rotate_out(world.store, world.last_active->0);
    lemma_delete_active(world.store);
    lemma_restore(world.store, account.id);
}

/// Whatever the file system does: a switch whose restore of the target fails
/// ends with exactly the error of that restore, and leaves the record of the
/// active account as it was; and a switch whose clearing of the active file
/// fails ends with exactly that error, without any restore.
pub proof fn law_restore_error_returned(world: WorldView, account: Account<Seq<char>>)
    requires
        world.replies.config_readable,
    ensures
        ({
            let backup = world.last_active is Some && world.last_active->0 != account.id;
            let saved = if backup {
                world.store.rotate_out(world.last_active->0).0
            } else {
                world.store
            };
            let (cleared, clearing) = saved.delete_active();
            let (restored, restoring) = cleared.restore(account.id);
            &&& clearing is Err ==> transaction(world, account) == (
                WorldView { store: cleared, ..world },
                Err::<u32, AccountError<Seq<char>>>(AccountError::FileSwap(clearing->Err_0)),
            )
            &&& clearing is Ok && restoring is Err ==> {
                &&& transaction(world, account).1 == Err::<u32, AccountError<Seq<char>>>(
                    AccountError::FileSwap(restoring->Err_0),
                )
                &&& transaction(world, account).0.last_active == world.last_active
            }
        }),
{
}

/// Round trip through two switches. Let account `b` be active, with its
/// state in the active file. Switch to another account `a`; let the client of
/// `a` leave anything in the active file; switch back to `b`. Then the
/// active file holds exactly the bytes that were snapshotted last for `b`:
/// those that it held for `b` before the first switch. The file system is
/// taken to work and the configuration to be readable; how the launches end
/// does not matter.
pub proof fn law_switch_round_trip(
    world: WorldView,
    a: Account<Seq<char>>,
    b: Account<Seq<char>>,
    left_by_a: Option<Seq<u8>>,
    later: Replies<Seq<char>>,
)
    requires
        a.id != b.id,
        world.last_active == Some(b.id),
        world.store.faults.len() == 0,
        world.replies.config_readable,
        later.config_readable,
    ensures
        ({
            let first = transaction(world, a).0;
            let used = WorldView {
                store: StoreView { active: left_by_a, ..first.store },
                replies: later,
                ..first
            };
            let second = transaction(used, b).0;
            &&& second.store.active == crate::file_swap::last_snapshotted(world.store, b.id)
            &&& world.store.active is Some ==> second.store.active == world.store.active
            &&& second.store.snapshots.contains_key(b.id) ==> second.store.active == Some(
                second.store.snapshots[b.id],
            )
        }),
{
    let s0 = world.store;
    lemma_rotate_out(s0, b.id);
    let s1 = s0.rotate_out(b.id).0;
    assert(s1.faults =~= seq![]);
    lemma_delete_active(s1);
    let s2 = s1.delete_active().0;
    assert(s2.faults =~= seq![]);
    lemma_restore(s2, a.id);
    let s3 = s2.restore(a.id).0;
    assert(s3.faults =~= seq![]);
    let first = transaction(world, a).0;
    assert(first.store == s3);
    let used_store = StoreView { active: left_by_a, ..s3 };
    if first.last_active == Some(a.id) {
        lemma_rotate_out(used_store, a.id);
        let s4 = used_store.rotate_out(a.id).0;
        assert(s4.faults =~= seq![]);
        lemma_delete_active(s4);
        let s5 = s4.delete_active().0;
        assert(s5.faults =~= seq![]);
        lemma_restore(s5, b.id);
    } else {
        lemma_delete_active(used_store);
        let s5 = used_store.delete_active().0;
        assert(s5.faults =~= seq![]);
        lemma_restore(s5, b.id);
    }
}

} // verus!
