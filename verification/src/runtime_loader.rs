//! The threads that are loaded, and the workspaces that are being restored.
use vstd::prelude::*;

use crate::data::Duplicate;
use crate::error::AppServerError;
use crate::ids::{ThreadId, TurnId};
use crate::paths;
use crate::protocol::{TurnState, TurnStatus};
use crate::text;
use crate::text_map::TextMap;

verus! {

/// A loaded thread: its workspace, and the turn that it runs, if any.
#[derive(Debug, Clone, PartialEq, Eq)]
pub struct LoadedThread {
    pub thread_id: ThreadId,
    pub workspace_root: String,
    pub active_turn_id: Option<TurnId>,
}

impl LoadedThread {
    /// Whether the thread works in this workspace.
    pub open spec fn is_in(self, workspace_root: Seq<char>) -> bool {
        paths::parts_of(self.workspace_root@) == paths::parts_of(workspace_root)
    }

    /// Whether the thread runs a turn in this workspace.
    pub open spec fn runs_in(self, workspace_root: Seq<char>) -> bool {
        self.is_in(workspace_root) && self.active_turn_id is Some
    }
}

/// Whether `error` says that a thread belongs to another workspace than the request is about.
pub open spec fn is_mismatch(
    error: AppServerError,
    thread_id: Seq<char>,
    requested: Seq<char>,
    live: Seq<char>,
) -> bool {
    error.is_invalid(
        "thread "@ + thread_id + " belongs to workspace `"@ + live
            + "`, but request targeted workspace `"@ + requested + "`"@,
    )
}

/// The error for a thread that belongs to another workspace than the request is about.
pub fn workspace_mismatch_error(
    thread_id: &ThreadId,
    requested_workspace_root: &str,
    active_workspace_root: &str,
) -> (res: AppServerError)
    ensures
        is_mismatch(res, thread_id@, requested_workspace_root@, active_workspace_root@),
{
    let start = text::concat5(
        "thread ",
        thread_id.as_str(),
        " belongs to workspace `",
        active_workspace_root,
        "`, but request targeted workspace `",
    );
    AppServerError::InvalidRequest(text::concat3(start.as_str(), requested_workspace_root, "`"))
}

/// Whether a request may go to a loaded thread: one that names a workspace must name that of the
/// thread.
pub open spec fn may_reach(requested: bool, workspace_root: Seq<char>, live: Seq<char>) -> bool {
    requested ==> paths::parts_of(live) == paths::parts_of(workspace_root)
}

/// Turns a request down that may not go to a loaded thread. `live_workspace_root` is the workspace
/// of the thread.
pub fn validate_loaded_runtime(
    thread_id: &ThreadId,
    live_workspace_root: &str,
    requested_workspace_root: bool,
    workspace_root: &str,
) -> (res: Result<(), AppServerError>)
    ensures
        match res {
            Ok(_) => may_reach(requested_workspace_root, workspace_root@, live_workspace_root@),
            Err(error) => {
                &&& !may_reach(requested_workspace_root, workspace_root@, live_workspace_root@)
                &&& is_mismatch(error, thread_id@, workspace_root@, live_workspace_root@)
            },
        },
{
    if requested_workspace_root && !paths::same_path(live_workspace_root, workspace_root) {
        Err(workspace_mismatch_error(thread_id, workspace_root, live_workspace_root))
    } else {
        Ok(())
    }
}

/// The workspace of a loaded thread that a request is about, where the thread is loaded.
pub fn resolve_loaded_runtime(
    thread_id: &ThreadId,
    requested_workspace_root: bool,
    workspace_root: &str,
    live_workspace_root: Option<String>,
) -> (res: Result<Option<String>, AppServerError>)
    ensures
        match res {
            Ok(found) => {
                &&& found == live_workspace_root
                &&& live_workspace_root matches Some(live) ==> may_reach(
                    requested_workspace_root,
                    workspace_root@,
                    live@,
                )
            },
            Err(error) => {
                &&& live_workspace_root matches Some(live)
                &&& !may_reach(requested_workspace_root, workspace_root@, live@)
                &&& is_mismatch(error, thread_id@, workspace_root@, live@)
            },
        },
{
    match live_workspace_root {
        None => Ok(None),
        Some(live) => match validate_loaded_runtime(
            thread_id,
            live.as_str(),
            requested_workspace_root,
            workspace_root,
        ) {
            Ok(_) => Ok(Some(live)),
            Err(error) => Err(error),
        },
    }
}

/// How a thread is made ready for a request.
#[derive(Debug, Clone, Copy, PartialEq, Eq, Structural)]
pub enum RuntimeLoadStep {
    /// It is loaded already.
    Reuse,
    /// It is loaded now, with the agent control that the request hands down.
    SpawnWithControl,
    /// It is loaded now, with an agent control read back from storage.
    SpawnCold,
}

/// Whether `res` tells how a thread is made ready for a request. A thread that is loaded now
/// always has an agent control: without one it would lose its tools for other agents.
pub open spec fn is_load_step(
    res: Result<RuntimeLoadStep, AppServerError>,
    thread_id: Seq<char>,
    requested_workspace_root: bool,
    workspace_root: Seq<char>,
    live_workspace_root: Option<String>,
    has_control: bool,
) -> bool {
    match live_workspace_root {
        Some(live) => if may_reach(requested_workspace_root, workspace_root, live@) {
            res == Ok::<RuntimeLoadStep, AppServerError>(RuntimeLoadStep::Reuse)
        } else {
            res matches Err(error) && is_mismatch(error, thread_id, workspace_root, live@)
        },
        None => res == Ok::<RuntimeLoadStep, AppServerError>(
            if has_control {
                RuntimeLoadStep::SpawnWithControl
            } else {
                RuntimeLoadStep::SpawnCold
            },
        ),
    }
}

/// How a thread is made ready for a request that hands no agent control down.
pub fn ensure_runtime_loaded(
    thread_id: &ThreadId,
    requested_workspace_root: bool,
    workspace_root: &str,
    live_workspace_root: Option<String>,
) -> (res: Result<RuntimeLoadStep, AppServerError>)
    ensures
        is_load_step(
            res,
            thread_id@,
            requested_workspace_root,
            workspace_root@,
            live_workspace_root,
            false,
        ),
{
    ensure_runtime_loaded_with_control(
        thread_id,
        requested_workspace_root,
        workspace_root,
        live_workspace_root,
        false,
    )
}

/// How a thread is made ready for a request.
pub fn ensure_runtime_loaded_with_control(
    thread_id: &ThreadId,
    requested_workspace_root: bool,
    workspace_root: &str,
    live_workspace_root: Option<String>,
    has_control: bool,
) -> (res: Result<RuntimeLoadStep, AppServerError>)
    ensures
        is_load_step(
            res,
            thread_id@,
            requested_workspace_root,
            workspace_root@,
            live_workspace_root,
            has_control,
        ),
{
    match resolve_loaded_runtime(
        thread_id,
        requested_workspace_root,
        workspace_root,
        live_workspace_root,
    ) {
        Ok(Some(_)) => Ok(RuntimeLoadStep::Reuse),
        Ok(None) => if has_control {
            Ok(RuntimeLoadStep::SpawnWithControl)
        } else {
            Ok(RuntimeLoadStep::SpawnCold)
        },
        Err(error) => Err(error),
    }
}

/// What happens while a thread is loaded.
pub enum LoadEvent<C, E> {
    /// The load begins, with the agent control that the request hands down, if any.
    Began { given: Option<C> },
    /// An agent control was read back from storage, or could not be.
    ControlRead(Result<C, E>),
}

/// What is to be done next to load a thread.
pub enum LoadAction<C> {
    /// Read an agent control back from storage.
    ReadControl,
    /// Spawn a runtime that works with this agent control.
    Spawn { control: C },
}

/// What is to be done next to load a thread. A runtime is only spawned with an agent control: the
/// one that is handed down, else the one that is read back.
pub open spec fn load_action_of<C, E>(event: LoadEvent<C, E>) -> Result<LoadAction<C>, E> {
    match event {
        LoadEvent::Began { given: Some(control) } => Ok(LoadAction::Spawn { control }),
        LoadEvent::Began { given: None } => Ok(LoadAction::ReadControl),
        LoadEvent::ControlRead(Ok(control)) => Ok(LoadAction::Spawn { control }),
        LoadEvent::ControlRead(Err(error)) => Err(error),
    }
}

/// Computes `load_action_of`.
pub fn next_load_action<C, E>(event: LoadEvent<C, E>) -> (res: Result<LoadAction<C>, E>)
    ensures
        res == load_action_of(event),
{
    match event {
        LoadEvent::Began { given } => match given {
            Some(control) => Ok(LoadAction::Spawn { control }),
            None => Ok(LoadAction::ReadControl),
        },
        LoadEvent::ControlRead(read) => match read {
            Ok(control) => Ok(LoadAction::Spawn { control }),
            Err(error) => Err(error),
        },
    }
}

/// A loaded runtime, and the agent control that it works with.
pub struct LoadedRuntime<R, C> {
    pub runtime: R,
    pub subagent_control: Option<C>,
}

/// The runtimes that are loaded, by thread.
pub struct RuntimeLoader<R, C> {
    pub loaded_threads: TextMap<LoadedRuntime<R, C>>,
}

impl<R, C> View for RuntimeLoader<R, C> {
    type V = Map<Seq<char>, LoadedRuntime<R, C>>;

    open spec fn view(&self) -> Map<Seq<char>, LoadedRuntime<R, C>> {
        self.loaded_threads@
    }
}

/// Whether each of these runtimes has an agent control.
pub open spec fn all_controlled<R, C>(loaded: Map<Seq<char>, LoadedRuntime<R, C>>) -> bool {
    forall|id: Seq<char>| #[trigger]
        loaded.contains_key(id) ==> loaded[id].subagent_control is Some
}

/// The loaded runtimes after one was spawned for a thread with this agent control, or could not
/// be.
pub open spec fn loaded_with<R, C, E>(
    loaded: Map<Seq<char>, LoadedRuntime<R, C>>,
    thread_id: Seq<char>,
    control: C,
    spawned: Result<R, E>,
) -> Map<Seq<char>, LoadedRuntime<R, C>> {
    match spawned {
        Ok(runtime) => loaded.insert(
            thread_id,
            LoadedRuntime { runtime, subagent_control: Some(control) },
        ),
        Err(_) => loaded,
    }
}

impl<R, C> RuntimeLoader<R, C> {
    /// A runtime without an agent control would lose its tools for other agents, so each has one.
    pub open spec fn well_formed(&self) -> bool {
        all_controlled(self@)
    }

    /// Nothing is loaded.
    pub fn new() -> (res: Self)
        ensures
            res@ == Map::<Seq<char>, LoadedRuntime<R, C>>::empty(),
            res.well_formed(),
    {
        RuntimeLoader { loaded_threads: TextMap::new() }
    }

    /// The runtime of a thread, where it is loaded.
    pub fn runtime_for(&self, thread_id: &ThreadId) -> (res: Option<&R>)
        ensures
            match res {
                Some(runtime) => self@.contains_key(thread_id@) && *runtime
                    == self@[thread_id@].runtime,
                None => !self@.contains_key(thread_id@),
            },
    {
        match self.loaded_threads.get(&thread_id.0) {
            Some(loaded) => Some(&loaded.runtime),
            None => None,
        }
    }

    /// Keeps the runtime that was spawned for a thread with this agent control. Where it could not
    /// be spawned, nothing is kept, and the error goes back.
    pub fn runtime_spawned<E>(
        &mut self,
        thread_id: &ThreadId,
        control: C,
        spawned: Result<R, E>,
    ) -> (res: Result<(), E>)
        requires
            old(self).well_formed(),
        ensures
            final(self)@ == loaded_with(old(self)@, thread_id@, control, spawned),
            final(self).well_formed(),
            match spawned {
                Ok(_) => res is Ok,
                Err(error) => res == Err::<(), E>(error),
            },
    {
        match spawned {
            Ok(runtime) => {
                self.loaded_threads.insert(
                    thread_id.0.clone(),
                    LoadedRuntime { runtime, subagent_control: Some(control) },
                );
                Ok(())
            },
            Err(error) => Err(error),
        }
    }

    /// Takes the runtime of a thread out, to be shut down.
    pub fn shutdown_and_remove(&mut self, thread_id: &ThreadId) -> (res: Option<R>)
        requires
            old(self).well_formed(),
        ensures
            final(self)@ == old(self)@.remove(thread_id@),
            final(self).well_formed(),
            match res {
                Some(runtime) => old(self)@.contains_key(thread_id@) && runtime
                    == old(self)@[thread_id@].runtime,
                None => !old(self)@.contains_key(thread_id@),
            },
    {
        match self.loaded_threads.remove(&thread_id.0) {
            Some(loaded) => Some(loaded.runtime),
            None => None,
        }
    }
}

/// What comes of loading a thread, and the runtimes that are loaded then. `cold` is what reading
/// an agent control back gives, and `spawn` what spawning a runtime with an agent control gives.
pub open spec fn load_of<R, C, E>(
    loaded: Map<Seq<char>, LoadedRuntime<R, C>>,
    thread_id: Seq<char>,
    given: Option<C>,
    cold: Result<C, E>,
    spawn: spec_fn(C) -> Result<R, E>,
) -> (Result<R, E>, Map<Seq<char>, LoadedRuntime<R, C>>) {
    let event = match load_action_of(LoadEvent::<C, E>::Began { given }) {
        Ok(LoadAction::ReadControl) => LoadEvent::ControlRead(cold),
        _ => LoadEvent::Began { given },
    };
    match load_action_of(event) {
        Ok(LoadAction::Spawn { control }) => (
            spawn(control),
            loaded_with(loaded, thread_id, control, spawn(control)),
        ),
        Ok(LoadAction::ReadControl) => (spawn(cold->Ok_0), loaded),
        Err(error) => (Err(error), loaded),
    }
}

/// No runtime is ever kept without an agent control. A thread is loaded with the one that is
/// handed down, else with the one that is read back. Where that cannot be read, the load fails for
/// that reason and nothing is kept; where it succeeds, the runtime is kept for the thread.
pub proof fn loads_carry_a_control<R, C, E>(
    loaded: Map<Seq<char>, LoadedRuntime<R, C>>,
    thread_id: Seq<char>,
    given: Option<C>,
    cold: Result<C, E>,
    spawn: spec_fn(C) -> Result<R, E>,
)
    requires
        all_controlled(loaded),
    ensures
        ({
            let (res, after) = load_of(loaded, thread_id, given, cold, spawn);
            let control = match given {
                Some(control) => Ok(control),
                None => cold,
            };
            &&& all_controlled(after)
            &&& control matches Err(error) ==> res == Err::<R, E>(error)
            &&& control matches Ok(control) ==> res == spawn(control)
            &&& res is Err ==> after == loaded
            &&& res matches Ok(runtime) ==> {
                &&& control is Ok
                &&& after.contains_key(thread_id)
                &&& after[thread_id] == (LoadedRuntime {
                    runtime,
                    subagent_control: Some(control->Ok_0),
                })
            }
            &&& forall|other: Seq<char>|
                other != thread_id ==> (#[trigger] after.contains_key(other)
                    <==> loaded.contains_key(other)) && (loaded.contains_key(other)
                    ==> after[other] == loaded[other])
        }),
{
}

/// The turn of the thread that is under way.
pub fn active_turn_state(active_turn_id: Option<TurnId>) -> (res: Option<TurnState>)
    ensures
        res == match active_turn_id {
            Some(turn_id) => Some(TurnState { turn_id, status: TurnStatus::InProgress }),
            None => None,
        },
{
    match active_turn_id {
        Some(turn_id) => Some(TurnState { turn_id, status: TurnStatus::InProgress }),
        None => None,
    }
}

/// A thread that runs a turn in this workspace, and the turn: the first of `loaded`.
pub fn active_turn_in_workspace(loaded: &Vec<LoadedThread>, workspace_root: &str) -> (res: Option<
    (ThreadId, TurnId),
>)
    ensures
        match res {
            Some((thread_id, turn_id)) => exists|i: int|
                {
                    &&& 0 <= i < loaded@.len()
                    &&& (#[trigger] loaded@[i]).runs_in(workspace_root@)
                    &&& loaded@[i].thread_id@ == thread_id@
                    &&& loaded@[i].active_turn_id->0@ == turn_id@
                    &&& forall|j: int|
                        0 <= j < i ==> !(#[trigger] loaded@[j]).runs_in(workspace_root@)
                },
            None => forall|i: int|
                0 <= i < loaded@.len() ==> !(#[trigger] loaded@[i]).runs_in(workspace_root@),
        },
{
    for i in 0..loaded.len()
        invariant
            forall|j: int| 0 <= j < i ==> !(#[trigger] loaded@[j]).runs_in(workspace_root@),
    {
        let thread = &loaded[i];
        if paths::same_path(thread.workspace_root.as_str(), workspace_root) {
            if let Some(turn_id) = &thread.active_turn_id {
                assert(loaded@[i as int].runs_in(workspace_root@));
                return Some((thread.thread_id.duplicate(), turn_id.duplicate()));
            }
        }
    }
    None
}

/// The test for a thread of this workspace, as a value.
pub open spec fn in_workspace(workspace_root: Seq<char>) -> spec_fn(LoadedThread) -> bool {
    |thread: LoadedThread| thread.is_in(workspace_root)
}

/// The name of a thread, as a function.
pub open spec fn thread_name() -> spec_fn(LoadedThread) -> Seq<char> {
    |thread: LoadedThread| thread.thread_id@
}

/// The loaded threads of this workspace.
pub fn loaded_thread_ids_in_workspace(loaded: &Vec<LoadedThread>, workspace_root: &str) -> (res:
    Vec<ThreadId>)
    ensures
        res.deep_view() == loaded@.filter(in_workspace(workspace_root@)).map_values(thread_name()),
{
    let ghost test = in_workspace(workspace_root@);
    let mut res: Vec<ThreadId> = Vec::new();
    proof {
        reveal(Seq::filter);
        assert(loaded@.take(0) =~= Seq::empty());
        assert(res.deep_view() =~= loaded@.take(0).filter(test).map_values(thread_name()));
    }
    for i in 0..loaded.len()
        invariant
            test == in_workspace(workspace_root@),
            res.deep_view() == loaded@.take(i as int).filter(test).map_values(thread_name()),
    {
        proof {
            reveal(Seq::filter);
            assert(loaded@.take(i + 1).drop_last() =~= loaded@.take(i as int));
        }
        if paths::same_path(loaded[i].workspace_root.as_str(), workspace_root) {
            crate::data::append(&mut res, loaded[i].thread_id.duplicate());
            proof {
                let before = loaded@.take(i as int).filter(test);
                assert(before.push(loaded@[i as int]).map_values(thread_name())
                    =~= before.map_values(thread_name()).push(loaded@[i as int].thread_id@));
            }
        }
    }
    proof {
        assert(loaded@.take(loaded@.len() as int) =~= loaded@);
    }
    res
}

/// The operations that have begun in a workspace and not ended.
#[derive(Debug, Clone, PartialEq, Eq)]
pub struct WorkspaceOps {
    pub workspace_root: String,
    pub count: usize,
}

/// The workspaces that are being restored, and those in which operations are under way.
#[derive(Debug, Clone, PartialEq, Eq)]
pub struct WorkspaceRestoreState {
    pub restoring: Vec<String>,
    pub runtime_ops: Vec<WorkspaceOps>,
}

/// What a `WorkspaceRestoreState` holds. A workspace is known by the parts of its path.
#[verifier::ext_equal]
pub struct WorkspaceRestoreModel {
    pub restoring: Set<Seq<Seq<char>>>,
    pub runtime_ops: Map<Seq<Seq<char>>, nat>,
}

impl WorkspaceRestoreModel {
    /// How many operations are under way in a workspace.
    pub open spec fn ops_in(self, workspace: Seq<Seq<char>>) -> nat {
        if self.runtime_ops.contains_key(workspace) {
            self.runtime_ops[workspace]
        } else {
            0
        }
    }

    /// Nothing is counted that is not under way, and nothing is under way in a workspace that is
    /// being restored.
    pub open spec fn well_formed(self) -> bool {
        &&& forall|workspace: Seq<Seq<char>>| #[trigger]
            self.runtime_ops.contains_key(workspace) ==> self.runtime_ops[workspace] > 0
        &&& forall|workspace: Seq<Seq<char>>| #[trigger]
            self.restoring.contains(workspace) ==> !self.runtime_ops.contains_key(workspace)
    }

    /// With a restore begun in this workspace.
    pub open spec fn restore_begun(self, workspace: Seq<Seq<char>>) -> Self {
        WorkspaceRestoreModel { restoring: self.restoring.insert(workspace), ..self }
    }

    /// With the restore ended in this workspace.
    pub open spec fn restore_ended(self, workspace: Seq<Seq<char>>) -> Self {
        WorkspaceRestoreModel { restoring: self.restoring.remove(workspace), ..self }
    }

    /// With one more operation under way in this workspace.
    pub open spec fn op_begun(self, workspace: Seq<Seq<char>>) -> Self {
        WorkspaceRestoreModel {
            runtime_ops: self.runtime_ops.insert(workspace, self.ops_in(workspace) + 1),
            ..self
        }
    }

    /// With one operation fewer under way in this workspace.
    pub open spec fn op_ended(self, workspace: Seq<Seq<char>>) -> Self {
        WorkspaceRestoreModel {
            runtime_ops: if self.ops_in(workspace) <= 1 {
                self.runtime_ops.remove(workspace)
            } else {
                self.runtime_ops.insert(workspace, (self.ops_in(workspace) - 1) as nat)
            },
            ..self
        }
    }
}

/// The workspaces that these paths lead to.
pub open spec fn roots_of(restoring: Seq<String>) -> Seq<Seq<Seq<char>>> {
    restoring.map_values(|root: String| paths::parts_of(root@))
}

/// The workspaces that these entries count operations in.
pub open spec fn op_roots_of(ops: Seq<WorkspaceOps>) -> Seq<Seq<Seq<char>>> {
    ops.map_values(|entry: WorkspaceOps| paths::parts_of(entry.workspace_root@))
}

/// What these entries count, by workspace.
pub open spec fn counts_of(ops: Seq<WorkspaceOps>) -> Map<Seq<Seq<char>>, nat> {
    Map::new(
        |root: Seq<Seq<char>>| op_roots_of(ops).contains(root),
        |root: Seq<Seq<char>>| ops[op_roots_of(ops).index_of(root)].count as nat,
    )
}

impl View for WorkspaceRestoreState {
    type V = WorkspaceRestoreModel;

    open spec fn view(&self) -> WorkspaceRestoreModel {
        WorkspaceRestoreModel {
            restoring: roots_of(self.restoring@).to_set(),
            runtime_ops: counts_of(self.runtime_ops@),
        }
    }
}

/// Where a workspace has an entry, its count is that of the entry.
proof fn count_at(ops: Seq<WorkspaceOps>, i: int)
    requires
        op_roots_of(ops).no_duplicates(),
        0 <= i < ops.len(),
    ensures
        counts_of(ops).contains_key(paths::parts_of(ops[i].workspace_root@)),
        counts_of(ops)[paths::parts_of(ops[i].workspace_root@)] == ops[i].count,
{
    let roots = op_roots_of(ops);
    let root = paths::parts_of(ops[i].workspace_root@);
    assert(roots[i] == root);
    assert(roots.contains(root));
    assert(roots[roots.index_of(root)] == root);
}

/// Entries with the same workspaces and counts count the same, whatever their order.
proof fn counts_are(ops: Seq<WorkspaceOps>, counts: Map<Seq<Seq<char>>, nat>)
    requires
        op_roots_of(ops).no_duplicates(),
        forall|i: int|
            0 <= i < ops.len() ==> {
                &&& counts.contains_key(paths::parts_of((#[trigger] ops[i]).workspace_root@))
                &&& counts[paths::parts_of(ops[i].workspace_root@)] == ops[i].count
            },
        forall|root: Seq<Seq<char>>| #[trigger]
            counts.contains_key(root) ==> op_roots_of(ops).contains(root),
    ensures
        counts_of(ops) == counts,
{
    let roots = op_roots_of(ops);
    assert forall|root: Seq<Seq<char>>| counts_of(ops).contains_key(root) implies {
        &&& counts.contains_key(root)
        &&& counts[root] == counts_of(ops)[root]
    } by {
        let i = roots.index_of(root);
        assert(roots[i] == root);
        assert(ops[i].count == counts_of(ops)[root]);
    }
    assert(counts_of(ops) =~= counts);
}

impl WorkspaceRestoreState {
    /// Each workspace has one entry, every entry counts something, and nothing is under way in a
    /// workspace that is being restored.
    pub open spec fn well_formed(&self) -> bool {
        &&& roots_of(self.restoring@).no_duplicates()
        &&& op_roots_of(self.runtime_ops@).no_duplicates()
        &&& self@.well_formed()
    }

    /// Nothing is under way.
    pub fn new() -> (res: Self)
        ensures
            res.well_formed(),
            res@ == (WorkspaceRestoreModel { restoring: Set::empty(), runtime_ops: Map::empty() }),
    {
        let res = WorkspaceRestoreState { restoring: Vec::new(), runtime_ops: Vec::new() };
        proof {
            assert(roots_of(res.restoring@) =~= Seq::empty());
            assert(res@.restoring =~= Set::empty());
            assert(res@.runtime_ops =~= Map::empty());
        }
        res
    }

    /// Where a workspace stands among those that are being restored.
    fn restoring_index(&self, workspace_root: &str) -> (res: Option<usize>)
        ensures
            match res {
                Some(i) => {
                    &&& i < self.restoring@.len()
                    &&& roots_of(self.restoring@)[i as int] == paths::parts_of(workspace_root@)
                    &&& self@.restoring.contains(paths::parts_of(workspace_root@))
                },
                None => !self@.restoring.contains(paths::parts_of(workspace_root@)),
            },
    {
        let ghost root = paths::parts_of(workspace_root@);
        for i in 0..self.restoring.len()
            invariant
                root == paths::parts_of(workspace_root@),
                forall|j: int| 0 <= j < i ==> #[trigger] roots_of(self.restoring@)[j] != root,
        {
            assert(roots_of(self.restoring@)[i as int] == paths::parts_of(
                self.restoring@[i as int]@,
            ));
            if paths::same_path(self.restoring[i].as_str(), workspace_root) {
                assert(roots_of(self.restoring@).contains(root));
                return Some(i);
            }
        }
        None
    }

    /// Where the entry of a workspace stands.
    fn ops_index(&self, workspace_root: &str) -> (res: Option<usize>)
        ensures
            match res {
                Some(i) => {
                    &&& i < self.runtime_ops@.len()
                    &&& op_roots_of(self.runtime_ops@)[i as int] == paths::parts_of(
                        workspace_root@,
                    )
                },
                None => !self@.runtime_ops.contains_key(paths::parts_of(workspace_root@)),
            },
    {
        let ghost root = paths::parts_of(workspace_root@);
        for i in 0..self.runtime_ops.len()
            invariant
                root == paths::parts_of(workspace_root@),
                forall|j: int| 0 <= j < i ==> #[trigger] op_roots_of(self.runtime_ops@)[j] != root,
        {
            assert(op_roots_of(self.runtime_ops@)[i as int] == paths::parts_of(
                self.runtime_ops@[i as int].workspace_root@,
            ));
            if paths::same_path(self.runtime_ops[i].workspace_root.as_str(), workspace_root) {
                return Some(i);
            }
        }
        None
    }

    /// Begins to restore a workspace. Neither another restore nor an operation may be under way
    /// in it.
    pub fn begin_workspace_restore(&mut self, workspace_root: &str) -> (res: Result<
        (),
        AppServerError,
    >)
        requires
            old(self).well_formed(),
        ensures
            final(self).well_formed(),
            ({
                let root = paths::parts_of(workspace_root@);
                match res {
                    Ok(_) => {
                        &&& !old(self)@.restoring.contains(root)
                        &&& old(self)@.ops_in(root) == 0
                        &&& final(self)@ == old(self)@.restore_begun(root)
                    },
                    Err(error) => {
                        &&& final(self)@ == old(self)@
                        &&& if old(self)@.restoring.contains(root) {
                            error.is_invalid(
                                "checkpoint restore is already in progress for workspace `"@
                                    + workspace_root@ + "`"@,
                            )
                        } else {
                            old(self)@.ops_in(root) > 0 && error.is_invalid(
                                "cannot restore checkpoint in workspace `"@ + workspace_root@
                                    + "` while a runtime operation is starting"@,
                            )
                        }
                    },
                }
            }),
    {
        let ghost root = paths::parts_of(workspace_root@);
        if self.restoring_index(workspace_root).is_some() {
            return Err(
                AppServerError::InvalidRequest(
                    text::concat3(
                        "checkpoint restore is already in progress for workspace `",
                        workspace_root,
                        "`",
                    ),
                ),
            );
        }
        if let Some(i) = self.ops_index(workspace_root) {
            proof {
                count_at(self.runtime_ops@, i as int);
            }
            return Err(
                AppServerError::InvalidRequest(
                    text::concat3(
                        "cannot restore checkpoint in workspace `",
                        workspace_root,
                        "` while a runtime operation is starting",
                    ),
                ),
            );
        }
        self.restoring.push(workspace_root.to_owned());
        proof {
            let before = roots_of(old(self).restoring@);
            let after = roots_of(self.restoring@);
            assert(after =~= before.push(root));
            assert forall|w: Seq<Seq<char>>| after.to_set().contains(w) == before.to_set().insert(
                root,
            ).contains(w) by {
                if before.contains(w) {
                    let i = before.index_of(w);
                    assert(after[i] == w);
                }
                if w == root {
                    assert(after[before.len() as int] == w);
                }
                if after.contains(w) && w != root {
                    let i = after.index_of(w);
                    assert(before[i] == w);
                }
            }
            assert(after.to_set() =~= before.to_set().insert(root));
            assert(self@ =~= old(self)@.restore_begun(root));
            assert forall|w: Seq<Seq<char>>| self@.restoring.contains(w) implies !(
            #[trigger] self@.runtime_ops.contains_key(w)) by {
                if w != root {
                    assert(old(self)@.restoring.contains(w));
                }
            }
        }
        Ok(())
    }

    /// Ends the restore of a workspace.
    pub fn end_workspace_restore(&mut self, workspace_root: &str)
        requires
            old(self).well_formed(),
        ensures
            final(self).well_formed(),
            final(self)@ == old(self)@.restore_ended(paths::parts_of(workspace_root@)),
    {
        let ghost root = paths::parts_of(workspace_root@);
        if let Some(i) = self.restoring_index(workspace_root) {
            self.restoring.remove(i);
            proof {
                let before = roots_of(old(self).restoring@);
                let after = roots_of(self.restoring@);
                assert(after =~= before.remove(i as int));
                assert forall|w: Seq<Seq<char>>| after.to_set().contains(w)
                    == before.to_set().remove(root).contains(w) by {
                    if before.contains(w) && w != root {
                        let j = before.index_of(w);
                        if j < i {
                            assert(after[j] == w);
                        } else {
                            assert(after[j - 1] == w);
                        }
                    }
                    if after.contains(w) {
                        let j = after.index_of(w);
                        if j < i {
                            assert(before[j] == w);
                        } else {
                            assert(before[j + 1] == w);
                        }
                    }
                }
                assert(after.to_set() =~= before.to_set().remove(root));
            }
        }
        proof {
            assert(self@ =~= old(self)@.restore_ended(root));
            assert forall|w: Seq<Seq<char>>| self@.restoring.contains(w) implies !(
            #[trigger] self@.runtime_ops.contains_key(w)) by {
                assert(old(self)@.restoring.contains(w));
            }
        }
    }

    /// Goes on with a restore that has begun, or gives it up where a thread runs a turn in the
    /// workspace.
    pub fn confirm_workspace_restore(
        &mut self,
        workspace_root: &str,
        loaded: &Vec<LoadedThread>,
    ) -> (res: Result<(), AppServerError>)
        requires
            old(self).well_formed(),
        ensures
            final(self).well_formed(),
            match res {
                Ok(_) => {
                    &&& forall|i: int|
                        0 <= i < loaded@.len() ==> !(#[trigger] loaded@[i]).runs_in(
                            workspace_root@,
                        )
                    &&& final(self)@ == old(self)@
                },
                Err(error) => {
                    &&& exists|i: int|
                        {
                            &&& 0 <= i < loaded@.len()
                            &&& (#[trigger] loaded@[i]).runs_in(workspace_root@)
                            &&& forall|j: int|
                                0 <= j < i ==> !(#[trigger] loaded@[j]).runs_in(workspace_root@)
                            &&& error.is_invalid(
                                "cannot restore checkpoint in workspace `"@ + workspace_root@
                                    + "` while turn is running in thread "@
                                    + loaded@[i].thread_id@ + " ("@
                                    + loaded@[i].active_turn_id->0@ + ")"@,
                            )
                        }
                    &&& final(self)@ == old(self)@.restore_ended(paths::parts_of(workspace_root@))
                },
            },
    {
        match active_turn_in_workspace(loaded, workspace_root) {
            None => Ok(()),
            Some((thread_id, turn_id)) => {
                self.end_workspace_restore(workspace_root);
                let start = text::concat5(
                    "cannot restore checkpoint in workspace `",
                    workspace_root,
                    "` while turn is running in thread ",
                    thread_id.as_str(),
                    " (",
                );
                Err(
                    AppServerError::InvalidRequest(
                        text::concat3(start.as_str(), turn_id.as_str(), ")"),
                    ),
                )
            },
        }
    }

    /// Begins an operation in a workspace, where it is not being restored.
    pub fn begin_workspace_runtime_op(&mut self, workspace_root: &str) -> (res: Result<
        (),
        AppServerError,
    >)
        requires
            old(self).well_formed(),
            old(self)@.ops_in(paths::parts_of(workspace_root@)) < usize::MAX,
        ensures
            final(self).well_formed(),
            ({
                let root = paths::parts_of(workspace_root@);
                match res {
                    Ok(_) => {
                        &&& !old(self)@.restoring.contains(root)
                        &&& final(self)@ == old(self)@.op_begun(root)
                    },
                    Err(error) => {
                        &&& old(self)@.restoring.contains(root)
                        &&& final(self)@ == old(self)@
                        &&& error.is_invalid(
                            "checkpoint restore is in progress for workspace `"@ + workspace_root@
                                + "`"@,
                        )
                    },
                }
            }),
    {
        let ghost root = paths::parts_of(workspace_root@);
        let ghost before = self.runtime_ops@;
        if self.restoring_index(workspace_root).is_some() {
            return Err(
                AppServerError::InvalidRequest(
                    text::concat3(
                        "checkpoint restore is in progress for workspace `",
                        workspace_root,
                        "`",
                    ),
                ),
            );
        }
        match self.ops_index(workspace_root) {
            Some(i) => {
                proof {
                    count_at(before, i as int);
                }
                let count: usize = self.runtime_ops[i].count;
                self.runtime_ops[i].count = count + 1;
                proof {
                    assert(op_roots_of(self.runtime_ops@) =~= op_roots_of(before));
                }
            },
            None => {
                self.runtime_ops.push(
                    WorkspaceOps { workspace_root: workspace_root.to_owned(), count: 1 },
                );
                proof {
                    let after = op_roots_of(self.runtime_ops@);
                    assert(after =~= op_roots_of(before).push(root));
                    assert(!op_roots_of(before).contains(root));
                    assert forall|j: int| 0 <= j < before.len() implies #[trigger] after[j]
                        != root by {
                        assert(op_roots_of(before)[j] == after[j]);
                    }
                }
            },
        }
        proof {
            let ops = self.runtime_ops@;
            let counts = old(self)@.op_begun(root).runtime_ops;
            assert forall|j: int| 0 <= j < ops.len() implies {
                &&& counts.contains_key(paths::parts_of((#[trigger] ops[j]).workspace_root@))
                &&& counts[paths::parts_of(ops[j].workspace_root@)] == ops[j].count
            } by {
                assert(op_roots_of(ops)[j] == paths::parts_of(ops[j].workspace_root@));
                if op_roots_of(ops)[j] != root {
                    assert(ops[j] == before[j]);
                    count_at(before, j);
                }
            }
            assert forall|w: Seq<Seq<char>>| #[trigger]
                counts.contains_key(w) implies op_roots_of(ops).contains(w) by {
                if w != root {
                    let j = op_roots_of(before).index_of(w);
                    assert(op_roots_of(before)[j] == w);
                    assert(op_roots_of(ops)[j] == w);
                } else {
                    if before.len() < ops.len() {
                        assert(op_roots_of(ops)[before.len() as int] == w);
                    } else {
                        let j = op_roots_of(before).index_of(w);
                        assert(op_roots_of(before)[j] == w);
                        assert(op_roots_of(ops)[j] == w);
                    }
                }
            }
            counts_are(ops, counts);
            assert(self@ =~= old(self)@.op_begun(root));
        }
        Ok(())
    }

    /// Ends an operation in a workspace.
    pub fn end_workspace_runtime_op(&mut self, workspace_root: &str)
        requires
            old(self).well_formed(),
        ensures
            final(self).well_formed(),
            final(self)@ == old(self)@.op_ended(paths::parts_of(workspace_root@)),
    {
        let ghost root = paths::parts_of(workspace_root@);
        let ghost before = self.runtime_ops@;
        let ghost roots = op_roots_of(before);
        let ghost counts = old(self)@.op_ended(root).runtime_ops;
        match self.ops_index(workspace_root) {
            Some(i) => {
                proof {
                    count_at(before, i as int);
                    assert(old(self)@.runtime_ops.contains_key(root));
                }
                let count: usize = self.runtime_ops[i].count;
                if count <= 1 {
                    self.runtime_ops.remove(i);
                    proof {
                        let ops = self.runtime_ops@;
                        assert(op_roots_of(ops) =~= roots.remove(i as int));
                        assert forall|j: int| 0 <= j < ops.len() implies {
                            &&& counts.contains_key(
                                paths::parts_of((#[trigger] ops[j]).workspace_root@),
                            )
                            &&& counts[paths::parts_of(ops[j].workspace_root@)] == ops[j].count
                        } by {
                            let k = if j < i {
                                j
                            } else {
                                j + 1
                            };
                            assert(ops[j] == before[k]);
                            assert(roots[k] == paths::parts_of(ops[j].workspace_root@));
                            count_at(before, k);
                        }
                        assert forall|w: Seq<Seq<char>>| #[trigger]
                            counts.contains_key(w) implies op_roots_of(ops).contains(w) by {
                            let k = roots.index_of(w);
                            assert(roots[k] == w);
                            let j = if k < i {
                                k
                            } else {
                                k - 1
                            };
                            assert(op_roots_of(ops)[j] == w);
                        }
                        counts_are(ops, counts);
                    }
                } else {
                    self.runtime_ops[i].count = count - 1;
                    proof {
                        let ops = self.runtime_ops@;
                        assert(op_roots_of(ops) =~= roots);
                        assert forall|j: int| 0 <= j < ops.len() implies {
                            &&& counts.contains_key(
                                paths::parts_of((#[trigger] ops[j]).workspace_root@),
                            )
                            &&& counts[paths::parts_of(ops[j].workspace_root@)] == ops[j].count
                        } by {
                            assert(roots[j] == paths::parts_of(ops[j].workspace_root@));
                            count_at(before, j);
                        }
                        counts_are(ops, counts);
                    }
                }
            },
            None => {
                proof {
                    assert(counts =~= old(self)@.runtime_ops);
                }
            },
        }
        proof {
            assert(self@ =~= old(self)@.op_ended(root));
        }
    }
}

impl WorkspaceRestoreModel {
    /// Ending a restore undoes beginning it.
    pub proof fn restore_is_undone(self, workspace: Seq<Seq<char>>)
        requires
            !self.restoring.contains(workspace),
        ensures
            self.restore_begun(workspace).restore_ended(workspace) == self,
    {
        assert(self.restore_begun(workspace).restore_ended(workspace) =~= self);
    }

    /// Ending an operation undoes beginning it.
    pub proof fn op_is_undone(self, workspace: Seq<Seq<char>>)
        requires
            self.well_formed(),
        ensures
            self.op_begun(workspace).op_ended(workspace) == self,
    {
        assert(self.op_begun(workspace).op_ended(workspace) =~= self);
    }

    /// No operation is ever under way in a workspace that is being restored.
    pub proof fn restore_excludes_operations(self, workspace: Seq<Seq<char>>)
        requires
            self.well_formed(),
            self.restoring.contains(workspace),
        ensures
            self.ops_in(workspace) == 0,
    {
    }
}

} // verus!
