//! How threads are reached, loaded, restored, forked and run, and what their agents are given.
use vstd::prelude::*;

use crate::config::{
    AgentConfig, AgentConfigModel, PermissionProfile, ResolvedModelConfig, ThinkingMode,
};
use crate::error::AppServerError;
use crate::events::RuntimeEvent;
use crate::ids::{ThreadId, TurnId};
use crate::override_policy;
use crate::override_policy::{OverridePolicy, RuntimeOverrides};
use crate::paths;
use crate::runtime_loader;
use crate::runtime_loader::{
    LoadAction, LoadEvent, LoadedRuntime, LoadedThread, RuntimeLoadStep, WorkspaceRestoreModel,
};
use crate::state;
use crate::state::{StoredThreadState, ThreadLineageModel, ThreadSnapshot, ThreadSource};
use crate::subagents;
use crate::text;
use crate::thread_runtime;
use crate::thread_runtime::ActiveTurnSlot;
use crate::threads;
use crate::threads::{ForkPlan, ForkStep, ForkWrite};

verus! {

/// Two paths to one place: each lies within the other.
pub open spec fn same_place(a: Seq<char>, b: Seq<char>) -> bool {
    paths::is_within(a, b) && paths::is_within(b, a)
}

/// Paths lie within each other exactly where they have the same parts.
pub proof fn same_place_by_parts(a: Seq<char>, b: Seq<char>)
    ensures
        same_place(a, b) <==> paths::parts_of(a) == paths::parts_of(b),
{
    let p = paths::parts_of(a);
    let q = paths::parts_of(b);
    if p.is_prefix_of(q) && q.is_prefix_of(p) {
        assert(p =~= q);
    }
    if p == q {
        assert(p.is_prefix_of(q));
    }
}

/// A loaded thread is reached by every request that names no workspace, and by those that name its
/// own, but by no other.
pub proof fn threads_are_reached_in_their_workspace(root: Seq<char>, live: Seq<char>)
    ensures
        runtime_loader::may_reach(false, root, live),
        runtime_loader::may_reach(true, root, live) <==> same_place(root, live),
        runtime_loader::may_reach(true, live, live),
{
    same_place_by_parts(root, live);
}

/// What a thread outside the asked workspace is answered begins with the thread and the workspace
/// that it belongs to, and ends with the one that was asked for.
pub proof fn mismatches_name_both_workspaces(
    error: AppServerError,
    thread_id: Seq<char>,
    requested: Seq<char>,
    live: Seq<char>,
)
    requires
        runtime_loader::is_mismatch(error, thread_id, requested, live),
    ensures
        error is InvalidRequest,
        ({
            let words = error->InvalidRequest_0@;
            let first = "thread "@ + thread_id + " belongs to workspace `"@ + live;
            let last = requested + "`"@;
            &&& words.len() >= first.len() + last.len()
            &&& words.take(first.len() as int) == first
            &&& words.skip(words.len() - last.len()) == last
        }),
{
    let words = error->InvalidRequest_0@;
    let first = "thread "@ + thread_id + " belongs to workspace `"@ + live;
    let last = requested + "`"@;
    assert(words =~= first + "`, but request targeted workspace `"@ + last);
    assert(words.take(first.len() as int) =~= first);
    assert(words.skip(words.len() - last.len()) =~= last);
}

/// A thread is loaded at most once: one that is loaded is used as it is or refused, and only one
/// that is not loaded is fetched from the store, where it must be.
pub proof fn threads_are_fetched_once(
    res: Result<bool, AppServerError>,
    thread_id: ThreadId,
    requested: bool,
    root: Seq<char>,
    live: Option<String>,
    stored: bool,
)
    requires
        threads::is_load(res, thread_id, requested, root, live, stored),
    ensures
        res is Ok && res->Ok_0 <==> live is None && stored,
        res is Ok && !res->Ok_0 <==> live is Some && (!requested || same_place(root, live->0@)),
        live is Some && res is Err ==> res->Err_0 is InvalidRequest,
        live is None && res is Err ==> res->Err_0 == AppServerError::ThreadNotFound(thread_id),
{
    if live is Some {
        same_place_by_parts(root, live->0@);
    }
}

/// A loaded thread is never started anew. One that is not loaded is started with the control that
/// it comes with, and only without one is its control read.
pub proof fn runtimes_are_spawned_once(
    res: Result<RuntimeLoadStep, AppServerError>,
    thread_id: Seq<char>,
    requested: bool,
    root: Seq<char>,
    live: Option<String>,
    has_control: bool,
)
    requires
        runtime_loader::is_load_step(res, thread_id, requested, root, live, has_control),
    ensures
        res is Ok && res->Ok_0 is Reuse <==> live is Some && (!requested || same_place(
            root,
            live->0@,
        )),
        res is Ok && res->Ok_0 is SpawnWithControl <==> live is None && has_control,
        res is Ok && res->Ok_0 is SpawnCold <==> live is None && !has_control,
        res is Err ==> res->Err_0 is InvalidRequest,
{
    if live is Some {
        same_place_by_parts(root, live->0@);
    }
}

/// The threads of a workspace are named in the order in which they are loaded. One that is loaded
/// last is named last where it stands in that workspace, and not at all elsewhere.
pub proof fn loaded_threads_are_named_in_order(
    loaded: Seq<LoadedThread>,
    next: LoadedThread,
    root: Seq<char>,
)
    ensures
        ({
            let named = |threads: Seq<LoadedThread>|
                threads.filter(runtime_loader::in_workspace(root)).map_values(
                    runtime_loader::thread_name(),
                );
            named(loaded.push(next)) == if same_place(next.workspace_root@, root) {
                named(loaded).push(next.thread_id@)
            } else {
                named(loaded)
            }
        }),
        Seq::<LoadedThread>::empty().filter(runtime_loader::in_workspace(root)).len() == 0,
{
    same_place_by_parts(next.workspace_root@, root);
    reveal(Seq::filter);
    let named = |threads: Seq<LoadedThread>|
        threads.filter(runtime_loader::in_workspace(root)).map_values(
            runtime_loader::thread_name(),
        );
    assert(loaded.push(next).drop_last() =~= loaded);
    if same_place(next.workspace_root@, root) {
        assert(named(loaded.push(next)) =~= named(loaded).push(next.thread_id@));
    }
}

/// Only a thread in that workspace with a turn that runs keeps it from being restored.
pub proof fn running_turns_count(thread: LoadedThread, root: Seq<char>)
    ensures
        thread.runs_in(root) <==> same_place(thread.workspace_root@, root) && thread.active_turn_id
            is Some,
{
    same_place_by_parts(thread.workspace_root@, root);
}

impl WorkspaceRestoreModel {
    /// An operation that begins is one more in its workspace, and one that ends is one fewer. No
    /// other workspace is touched, nor what is being restored.
    pub proof fn operations_are_counted(self, workspace: Seq<Seq<char>>, other: Seq<Seq<char>>)
        requires
            self.well_formed(),
        ensures
            self.op_begun(workspace).ops_in(workspace) == self.ops_in(workspace) + 1,
            self.ops_in(workspace) > 0 ==> self.op_ended(workspace).ops_in(workspace)
                == self.ops_in(workspace) - 1,
            self.ops_in(workspace) == 0 ==> self.op_ended(workspace).ops_in(workspace) == 0,
            other != workspace ==> self.op_begun(workspace).ops_in(other) == self.ops_in(other)
                && self.op_ended(workspace).ops_in(other) == self.ops_in(other),
            self.op_begun(workspace).restoring == self.restoring,
            self.op_ended(workspace).restoring == self.restoring,
    {
    }

    /// A workspace is being restored from the beginning of its restore to the end. No other
    /// workspace is touched, nor the operations that run.
    pub proof fn restores_begin_and_end(self, workspace: Seq<Seq<char>>, other: Seq<Seq<char>>)
        ensures
            self.restore_begun(workspace).restoring.contains(workspace),
            !self.restore_ended(workspace).restoring.contains(workspace),
            other != workspace ==> {
                &&& self.restore_begun(workspace).restoring.contains(other)
                    == self.restoring.contains(other)
                &&& self.restore_ended(workspace).restoring.contains(other)
                    == self.restoring.contains(other)
            },
            self.restore_begun(workspace).runtime_ops == self.runtime_ops,
            self.restore_ended(workspace).runtime_ops == self.runtime_ops,
    {
    }
}

/// A request that only names a workspace moves the agent there and changes nothing else: what was
/// named last holds, and all the rest is as configured.
pub proof fn workspaces_replace_each_other(
    base: AgentConfigModel,
    first: Seq<char>,
    second: Seq<char>,
)
    ensures
        ({
            let moved = override_policy::in_workspace(base, first);
            &&& moved.workspace_root == first
            &&& moved.cwd == first
            &&& override_policy::in_workspace(moved, second) == override_policy::in_workspace(
                base,
                second,
            )
            &&& base.workspace_root == base.cwd ==> override_policy::in_workspace(moved, base.cwd)
                == base
            &&& override_policy::overridden(base, first, None, None) == moved
        }),
{
}

/// What a request overrides holds, what it does not name is as configured, and the working
/// directory without a name of its own is the workspace.
pub proof fn overrides_hold(
    base: AgentConfigModel,
    root: Seq<char>,
    cwd: Option<Seq<char>>,
    profile: Option<PermissionProfile>,
)
    ensures
        ({
            let config = override_policy::overridden(base, root, cwd, profile);
            &&& config.workspace_root == root
            &&& cwd is Some ==> Some(config.cwd) == cwd
            &&& cwd is None ==> config.cwd == config.workspace_root
            &&& profile is Some ==> Some(config.permission_profile) == profile
            &&& profile is None ==> config.permission_profile == base.permission_profile
            &&& (AgentConfigModel {
                workspace_root: base.workspace_root,
                cwd: base.cwd,
                permission_profile: base.permission_profile,
                ..config
            }) == base
        }),
{
}

/// A request is refused for its directory where that lies outside the workspace, whatever else it
/// asks for, and otherwise only for the profile: that which it names, or the configured one.
pub proof fn overrides_are_refused_for_cause(
    res: Result<AgentConfig, AppServerError>,
    base: AgentConfigModel,
    overrides: RuntimeOverrides,
    root: Seq<char>,
    cwd: Option<Seq<char>>,
)
    requires
        OverridePolicy::is_applied(res, base, overrides, root, cwd),
    ensures
        ({
            let profile = match overrides.permission_profile {
                Some(profile) => profile,
                None => base.permission_profile,
            };
            let outside = cwd is Some && !paths::is_within(cwd->0, root);
            &&& res is Ok <==> !outside && profile is FullAccess
            &&& outside ==> (res matches Err(error) && error is InvalidRequest
                && error->InvalidRequest_0@ == "cwd must stay within workspace_root"@)
            &&& res is Err && !outside ==> (res matches Err(error) && error is InvalidRequest
                && error->InvalidRequest_0@ == "unsupported permission profile: "@
                + profile.name())
        }),
{
}

/// A new thread holds what it was made with and nothing else.
pub proof fn new_threads_are_empty(
    thread_id: Seq<char>,
    root: Seq<char>,
    cwd: Seq<char>,
    profile: PermissionProfile,
    source: ThreadSource,
    lineage: Option<ThreadLineageModel>,
)
    ensures
        ({
            let thread = state::new_thread(thread_id, root, cwd, profile, source, lineage);
            &&& thread.thread_id == thread_id
            &&& thread.workspace_root == root
            &&& thread.cwd == cwd
            &&& thread.permission_profile == profile
            &&& thread.thread_source == source
            &&& thread.lineage == lineage
            &&& thread.latest_compaction is None
            &&& thread.conversation.len() == 0
            &&& thread.token_info is None
            &&& thread.reference_turn_context is None
        }),
{
}

/// A fork answers only after its last write, goes on only after the first, and after any write that
/// fails takes the child back with that failure.
pub proof fn forks_go_step_by_step<E>(plan: ForkPlan, write: ForkWrite, outcome: Result<(), E>)
    ensures
        ({
            let step = threads::fork_step_of(plan, write, outcome);
            &&& step is Answer <==> outcome is Ok && write is Edge
            &&& step is StoreEdge <==> outcome is Ok && write is Items
            &&& step is RollBack <==> outcome is Err
            &&& step matches ForkStep::RollBack { child, error } ==> child == plan.snapshot
                && outcome == Err::<(), E>(error)
            &&& step matches ForkStep::Answer(response) ==> response == plan.response
            &&& step matches ForkStep::StoreEdge(same) ==> same == plan
        }),
{
}

impl ActiveTurnSlot {
    /// A reserved turn is the one that runs, and can be interrupted by its name and by no other, or
    /// without a name. One that is interrupted still holds its place, until it is released.
    pub proof fn reserved_turns_hold_their_place(self, turn_id: TurnId, name: Seq<char>)
        ensures
            self.reserved(turn_id).active_turn is Some,
            self.reserved(turn_id).active_turn->0.turn_id == turn_id,
            self.reserved(turn_id).may_interrupt(None),
            self.reserved(turn_id).may_interrupt(Some(name)) <==> name == turn_id@,
            self.interrupted().active_turn is Some <==> self.active_turn is Some,
            self.active_turn is Some ==> self.interrupted().active_turn->0.turn_id
                == self.active_turn->0.turn_id,
            self.released().active_turn is None,
            !self.released().may_interrupt(None),
            !self.released().may_interrupt(Some(name)),
            self.may_interrupt(Some(name)) ==> self.may_interrupt(None),
            self.reserved(turn_id).thread_id == self.thread_id,
            self.interrupted().thread_id == self.thread_id,
            self.released().thread_id == self.thread_id,
    {
    }
}

/// What is sent after a count is what stands behind it, in order; together with what stands before
/// it, it is everything. Nothing is sent past the end.
pub proof fn events_behind_a_count_are_sent(events: Seq<RuntimeEvent>, count: nat)
    ensures
        count <= events.len() ==> events.take(count as int) + thread_runtime::since(events, count)
            == events,
        count > events.len() ==> thread_runtime::since(events, count).len() == 0,
{
    if count <= events.len() {
        assert(events.take(count as int) + thread_runtime::since(events, count) =~= events);
    }
}

/// A stored thread goes on under the settings of its last turn, with the model that was resolved
/// for it. One without a turn goes on where its snapshot says, under the configured model. What
/// turns do not record is as configured.
pub proof fn stored_threads_go_on_as_they_were(
    base: AgentConfigModel,
    snapshot: ThreadSnapshot,
    model: ResolvedModelConfig,
)
    ensures
        ({
            let config = subagents::stored_config(base, snapshot, model);
            &&& snapshot.reference_turn_context matches Some(context) ==> {
                &&& config.workspace_root == context.workspace_root@
                &&& config.cwd == context.cwd@
                &&& config.permission_profile == context.permission_profile
                &&& config.model == model.deep_view()
                &&& config.thinking_mode == context.thinking_mode
                &&& config.command_timeout_secs == context.command_timeout_secs
                &&& config.max_output_bytes == context.max_output_bytes
                &&& config.policy_mode == context.policy_mode
            }
            &&& snapshot.reference_turn_context is None ==> {
                &&& config.workspace_root == snapshot.workspace_root@
                &&& config.cwd == snapshot.cwd@
                &&& config.permission_profile == snapshot.permission_profile
                &&& config.model == base.model
                &&& config.thinking_mode == base.thinking_mode
                &&& config.command_timeout_secs == base.command_timeout_secs
                &&& config.max_output_bytes == base.max_output_bytes
                &&& config.policy_mode == base.policy_mode
            }
            &&& (AgentConfigModel {
                workspace_root: base.workspace_root,
                cwd: base.cwd,
                permission_profile: base.permission_profile,
                model: base.model,
                thinking_mode: base.thinking_mode,
                command_timeout_secs: base.command_timeout_secs,
                max_output_bytes: base.max_output_bytes,
                policy_mode: base.policy_mode,
                ..config
            }) == base
        }),
{
}

/// A child is given the model and the thinking mode that are asked for, and has the rest from its
/// parent.
pub proof fn children_take_after_their_parent(
    config: AgentConfigModel,
    model: Option<ResolvedModelConfig>,
    thinking_mode: Option<ThinkingMode>,
)
    ensures
        ({
            let child = subagents::child_config_of(config, model, thinking_mode);
            &&& model matches Some(model) ==> child.model == model.deep_view()
            &&& model is None ==> child.model == config.model
            &&& thinking_mode is Some ==> child.thinking_mode == thinking_mode
            &&& thinking_mode is None ==> child.thinking_mode == config.thinking_mode
            &&& (AgentConfigModel {
                model: config.model,
                thinking_mode: config.thinking_mode,
                ..child
            }) == config
        }),
{
}

/// The root of a thread is that of its lineage, and a thread without one is its own root.
pub proof fn roots_come_from_lineage(snapshot: ThreadSnapshot, thread_id: Seq<char>)
    ensures
        snapshot.lineage is None ==> subagents::root_of(snapshot, thread_id) == thread_id,
        snapshot.lineage matches Some(lineage) ==> subagents::root_of(snapshot, thread_id)
            == lineage.root_thread_id@,
{
}

/// The tokens of a thread are the total that was counted, and none where nothing was.
pub proof fn tokens_are_the_total(snapshot: ThreadSnapshot)
    ensures
        snapshot.token_info is None ==> subagents::tokens_counted(snapshot.token_info) == 0,
        snapshot.token_info matches Some(info) ==> subagents::tokens_counted(snapshot.token_info)
            == info.total_token_usage.total_tokens,
{
}

/// Children are taken up in order, and those that are not stored are passed over.
pub proof fn stored_children_are_taken_up(
    earlier: Seq<Option<StoredThreadState>>,
    later: Seq<Option<StoredThreadState>>,
    child: StoredThreadState,
)
    ensures
        subagents::snapshots_of(earlier + later) == subagents::snapshots_of(earlier)
            + subagents::snapshots_of(later),
        subagents::snapshots_of(seq![None]).len() == 0,
        subagents::snapshots_of(seq![Some(child)]) == seq![child.snapshot],
    decreases later.len(),
{
    reveal_with_fuel(subagents::snapshots_of, 2);
    let none: Seq<Option<StoredThreadState>> = seq![None];
    let one: Seq<Option<StoredThreadState>> = seq![Some(child)];
    assert(none.drop_last() =~= Seq::empty());
    assert(one.drop_last() =~= Seq::empty());
    assert(subagents::snapshots_of(one) =~= seq![child.snapshot]);
    let both = earlier + later;
    if later.len() == 0 {
        assert(both =~= earlier);
    } else {
        assert(both.drop_last() =~= earlier + later.drop_last());
        assert(both.last() == later.last());
        stored_children_are_taken_up(earlier, later.drop_last(), child);
    }
    assert(subagents::snapshots_of(both) =~= subagents::snapshots_of(earlier)
        + subagents::snapshots_of(later));
}

/// The thread that is asked for stands before its children, and behind its root where that is
/// another thread and is stored. Nothing else is taken up.
pub proof fn threads_stand_between_root_and_children(
    thread_id: Seq<char>,
    requested: StoredThreadState,
    root: Option<StoredThreadState>,
    children: Seq<Option<StoredThreadState>>,
)
    ensures
        ({
            let known = subagents::registered(thread_id, requested, root, children);
            let own_root = requested.snapshot.lineage is None
                || requested.snapshot.lineage->0.root_thread_id@ == thread_id;
            let behind: nat = if own_root || root is None {
                0
            } else {
                1
            };
            &&& known.len() == behind + 1 + subagents::snapshots_of(children).len()
            &&& known[behind as int] == requested.snapshot
            &&& behind == 1 ==> known[0] == root->0.snapshot
            &&& known.skip(behind as int + 1) == subagents::snapshots_of(children)
        }),
{
    let known = subagents::registered(thread_id, requested, root, children);
    let own_root = requested.snapshot.lineage is None
        || requested.snapshot.lineage->0.root_thread_id@ == thread_id;
    let behind: int = if own_root || root is None {
        0
    } else {
        1
    };
    assert(known.skip(behind + 1) =~= subagents::snapshots_of(children));
}

/// A runtime that could be started is loaded with its control, in place of any other of that thread.
/// One that could not leaves everything as it was, and no other thread is touched in either case.
pub proof fn started_runtimes_are_loaded<R, C, E>(
    loaded: Map<Seq<char>, LoadedRuntime<R, C>>,
    thread_id: Seq<char>,
    control: C,
    spawned: Result<R, E>,
    other: Seq<char>,
)
    ensures
        ({
            let after = runtime_loader::loaded_with(loaded, thread_id, control, spawned);
            &&& spawned is Err ==> after == loaded
            &&& spawned matches Ok(runtime) ==> {
                &&& after.contains_key(thread_id)
                &&& after[thread_id].runtime == runtime
                &&& after[thread_id].subagent_control == Some(control)
            }
            &&& other != thread_id ==> {
                &&& after.contains_key(other) == loaded.contains_key(other)
                &&& loaded.contains_key(other) ==> after[other] == loaded[other]
            }
        }),
{
}

/// A thread is started with the control that is given. Only where none is, one is read, and what
/// could not be read is what fails.
pub proof fn given_controls_are_used<C, E>(given: Option<C>, read: Result<C, E>)
    ensures
        given matches Some(control) ==> runtime_loader::load_action_of(
            LoadEvent::<C, E>::Began { given },
        ) == Ok::<LoadAction<C>, E>(LoadAction::Spawn { control }),
        given is None ==> runtime_loader::load_action_of(LoadEvent::<C, E>::Began { given }) == Ok::<
            LoadAction<C>,
            E,
        >(LoadAction::ReadControl),
        read matches Ok(control) ==> runtime_loader::load_action_of(LoadEvent::ControlRead(read))
            == Ok::<LoadAction<C>, E>(LoadAction::Spawn { control }),
        read matches Err(error) ==> runtime_loader::load_action_of(LoadEvent::ControlRead(read))
            == Err::<LoadAction<C>, E>(error),
{
}

/// A thread that is busy says so in words that are understood, whichever thread it is. Words are so
/// understood only where these stand in them.
pub proof fn busy_threads_say_so(thread_id: ThreadId, message: Seq<char>)
    ensures
        subagents::says_busy(AppServerError::ThreadBusy(thread_id).words()),
        subagents::says_busy(message) <==> text::has_part(message, "thread is busy"@),
{
    reveal_strlit("thread is busy: ");
    reveal_strlit("thread is busy");
    let words = AppServerError::ThreadBusy(thread_id).words();
    assert(words.subrange(0, 14) =~= "thread is busy"@);
    assert(text::is_at(words, "thread is busy"@, 0));
}

} // verus!
