//! The tree of agents around a thread, and what each of them is at.
use vstd::prelude::*;

use crate::data::{append, Alike, Duplicate};
use crate::error::AppServerError;
use crate::events::{RuntimeEvent, RuntimeEventKind};
use crate::ids::ThreadId;
use crate::projection;
use crate::protocol::{AgentTreeAgentStatus, AgentTreeNode, AgentTreeResponse, TurnStatus};
use crate::seqs;
use crate::state::{
    SpawnEdgeStatus, StoredThreadState, ThreadLineage, ThreadSnapshot, ThreadSpawnEdge,
};
use crate::subagents;
use crate::text;
use crate::text_map::TextMap;
use crate::types::AgentType;

verus! {

/// The path of the agent at the root.
pub const ROOT_AGENT_PATH: &'static str = "root";

/// What the tree shows of one agent.
#[derive(Debug, Clone, PartialEq, Eq)]
pub struct AgentRecord {
    pub thread_id: ThreadId,
    pub parent_thread_id: Option<ThreadId>,
    pub root_thread_id: ThreadId,
    pub depth: u32,
    pub agent_path: String,
    pub status: AgentTreeAgentStatus,
    pub agent_type: Option<AgentType>,
    pub agent_role: Option<String>,
    pub agent_nickname: Option<String>,
    pub last_task_message: Option<String>,
    pub last_activity: Option<String>,
    pub current_tool: Option<String>,
    pub tokens_used: Option<i64>,
}

/// What a `AgentRecord` holds.
#[verifier::ext_equal]
pub struct AgentRecordModel {
    pub thread_id: Seq<char>,
    pub parent_thread_id: Option<Seq<char>>,
    pub root_thread_id: Seq<char>,
    pub depth: u32,
    pub agent_path: Seq<char>,
    pub status: AgentTreeAgentStatus,
    pub agent_type: Option<AgentType>,
    pub agent_role: Option<Seq<char>>,
    pub agent_nickname: Option<Seq<char>>,
    pub last_task_message: Option<Seq<char>>,
    pub last_activity: Option<Seq<char>>,
    pub current_tool: Option<Seq<char>>,
    pub tokens_used: Option<i64>,
}

impl DeepView for AgentRecord {
    type V = AgentRecordModel;

    open spec fn deep_view(&self) -> AgentRecordModel {
        AgentRecordModel {
            thread_id: self.thread_id.deep_view(),
            parent_thread_id: self.parent_thread_id.deep_view(),
            root_thread_id: self.root_thread_id.deep_view(),
            depth: self.depth.deep_view(),
            agent_path: self.agent_path.deep_view(),
            status: self.status.deep_view(),
            agent_type: self.agent_type.deep_view(),
            agent_role: self.agent_role.deep_view(),
            agent_nickname: self.agent_nickname.deep_view(),
            last_task_message: self.last_task_message.deep_view(),
            last_activity: self.last_activity.deep_view(),
            current_tool: self.current_tool.deep_view(),
            tokens_used: self.tokens_used.deep_view(),
        }
    }
}

/// A tool that is at work.
#[derive(Debug, Clone, PartialEq, Eq)]
pub struct ActiveToolInvocation {
    pub invocation_id: String,
    pub tool_name: String,
}

/// What a `ActiveToolInvocation` holds.
#[verifier::ext_equal]
pub struct ActiveToolInvocationModel {
    pub invocation_id: Seq<char>,
    pub tool_name: Seq<char>,
}

impl DeepView for ActiveToolInvocation {
    type V = ActiveToolInvocationModel;

    open spec fn deep_view(&self) -> ActiveToolInvocationModel {
        ActiveToolInvocationModel {
            invocation_id: self.invocation_id.deep_view(),
            tool_name: self.tool_name.deep_view(),
        }
    }
}

impl Duplicate for ActiveToolInvocation {
    fn duplicate(&self) -> (res: Self) {
        ActiveToolInvocation {
            invocation_id: self.invocation_id.duplicate(),
            tool_name: self.tool_name.duplicate(),
        }
    }
}

/// What a row of events tells of the agents: the tasks that they were given, what they last said
/// or heard, the tools that are at work, and the invocations that wait for approval.
#[verifier::ext_equal]
pub struct AgentActivity {
    pub tasks: Map<Seq<char>, Seq<char>>,
    pub said: Map<Seq<char>, Seq<char>>,
    pub active: Map<Seq<char>, Seq<ActiveToolInvocationModel>>,
    pub waiting: Map<Seq<char>, (Seq<char>, Seq<char>)>,
}

/// The tools without the one of this invocation.
pub open spec fn tools_without(
    tools: Seq<ActiveToolInvocationModel>,
    invocation_id: Seq<char>,
) -> Seq<ActiveToolInvocationModel> {
    tools.filter(|tool: ActiveToolInvocationModel| tool.invocation_id != invocation_id)
}

/// The active tools of all threads without the one of this invocation in this thread.
pub open spec fn active_without(
    active: Map<Seq<char>, Seq<ActiveToolInvocationModel>>,
    thread_id: Seq<char>,
    invocation_id: Seq<char>,
) -> Map<Seq<char>, Seq<ActiveToolInvocationModel>> {
    if active.contains_key(thread_id) {
        active.insert(thread_id, tools_without(active[thread_id], invocation_id))
    } else {
        active
    }
}

/// What is known of the agents after one more event.
pub open spec fn activity_after(known: AgentActivity, event: RuntimeEvent) -> AgentActivity {
    let thread_id = event.thread_id@;
    match event.kind {
        RuntimeEventKind::SubagentSpawned { child_thread_id, message_preview, .. } =>
            AgentActivity {
            tasks: known.tasks.insert(child_thread_id@, message_preview@),
            ..known
        },
        RuntimeEventKind::InterAgentMessageSent {
            author_thread_id,
            recipient_thread_id,
            content_preview,
            ..
        } => AgentActivity {
            said: known.said.insert(author_thread_id@, content_preview@).insert(
                recipient_thread_id@,
                content_preview@,
            ),
            ..known
        },
        RuntimeEventKind::ToolInvocationStarted { invocation_id, tool_name, .. } => {
            let tools = if known.active.contains_key(thread_id) {
                known.active[thread_id]
            } else {
                Seq::empty()
            };
            AgentActivity {
                active: known.active.insert(
                    thread_id,
                    tools_without(tools, invocation_id@).push(
                        ActiveToolInvocationModel {
                            invocation_id: invocation_id@,
                            tool_name: tool_name@,
                        },
                    ),
                ),
                ..known
            }
        },
        RuntimeEventKind::ToolInvocationWaitingApproval { invocation_id, approval_id, .. } =>
            AgentActivity {
            waiting: known.waiting.insert(approval_id@, (thread_id, invocation_id@)),
            ..known
        },
        RuntimeEventKind::ApprovalDecision { approval_id, .. } => if known.waiting.contains_key(
            approval_id@,
        ) {
            let (waiting_thread, invocation_id) = known.waiting[approval_id@];
            AgentActivity {
                active: active_without(known.active, waiting_thread, invocation_id),
                waiting: known.waiting.remove(approval_id@),
                ..known
            }
        } else {
            known
        },
        RuntimeEventKind::ToolInvocationCompleted { invocation_id, .. } => AgentActivity {
            active: active_without(known.active, thread_id, invocation_id@),
            ..known
        },
        RuntimeEventKind::ToolInvocationFailed { invocation_id, .. } => AgentActivity {
            active: active_without(known.active, thread_id, invocation_id@),
            ..known
        },
        RuntimeEventKind::ToolInvocationCancelled { invocation_id, .. } => AgentActivity {
            active: active_without(known.active, thread_id, invocation_id@),
            ..known
        },
        _ => known,
    }
}

/// What a row of events adds to the tasks and messages that are known. Tools and approvals are
/// followed within the row.
pub open spec fn activity_of(
    tasks: Map<Seq<char>, Seq<char>>,
    said: Map<Seq<char>, Seq<char>>,
    events: Seq<RuntimeEvent>,
) -> AgentActivity
    decreases events.len(),
{
    if events.len() == 0 {
        AgentActivity { tasks, said, active: Map::empty(), waiting: Map::empty() }
    } else {
        activity_after(activity_of(tasks, said, events.drop_last()), events.last())
    }
}

/// Whether a tool is at work in this thread.
pub open spec fn is_active(
    active: Map<Seq<char>, Seq<ActiveToolInvocationModel>>,
    thread_id: Seq<char>,
) -> bool {
    active.contains_key(thread_id) && active[thread_id].len() > 0
}

/// `known` with the tool that was last started in each thread where one is at work.
pub open spec fn with_current_tools(
    known: Map<Seq<char>, Seq<char>>,
    active: Map<Seq<char>, Seq<ActiveToolInvocationModel>>,
) -> Map<Seq<char>, Seq<char>> {
    Map::new(
        |thread_id: Seq<char>| known.contains_key(thread_id) || is_active(active, thread_id),
        |thread_id: Seq<char>|
            if is_active(active, thread_id) {
                active[thread_id].last().tool_name
            } else {
                known[thread_id]
            },
    )
}

fn retain_others(tools: Vec<ActiveToolInvocation>, invocation_id: &String) -> (res: Vec<
    ActiveToolInvocation,
>)
    ensures
        res.deep_view() == tools_without(tools.deep_view(), invocation_id@),
{
    let mut res: Vec<ActiveToolInvocation> = Vec::new();
    let ghost all = tools.deep_view();
    let ghost other = |tool: ActiveToolInvocationModel| tool.invocation_id != invocation_id@;
    proof {
        reveal(Seq::filter);
    }
    for i in 0..tools.len()
        invariant
            all == tools.deep_view(),
            other == (|tool: ActiveToolInvocationModel| tool.invocation_id != invocation_id@),
            res.deep_view() =~= all.take(i as int).filter(other),
    {
        proof {
            reveal(Seq::filter);
            assert(all.take(i + 1).drop_last() =~= all.take(i as int));
            assert(all.take(i + 1).last() == tools@[i as int].deep_view());
        }
        if tools[i].invocation_id != *invocation_id {
            append(&mut res, tools[i].duplicate());
        }
    }
    proof {
        assert(all.take(all.len() as int) =~= all);
    }
    res
}

/// Takes the tool of this invocation out of the active tools of this thread.
pub fn remove_active_tool(
    active_tools_by_thread: &mut TextMap<Vec<ActiveToolInvocation>>,
    thread_id: &ThreadId,
    invocation_id: &String,
)
    ensures
        final(active_tools_by_thread).deep_view() == active_without(
            old(active_tools_by_thread).deep_view(),
            thread_id@,
            invocation_id@,
        ),
{
    if let Some(tools) = active_tools_by_thread.remove(&thread_id.0) {
        let rest = retain_others(tools, invocation_id);
        active_tools_by_thread.insert(thread_id.0.clone(), rest);
        proof {
            assert(active_tools_by_thread.deep_view() =~= active_without(
                old(active_tools_by_thread).deep_view(),
                thread_id@,
                invocation_id@,
            ));
        }
    } else {
        proof {
            assert(active_tools_by_thread.deep_view() =~= old(active_tools_by_thread).deep_view());
        }
    }
}

fn start_tool(
    active_tools_by_thread: &mut TextMap<Vec<ActiveToolInvocation>>,
    thread_id: &ThreadId,
    invocation_id: &String,
    tool_name: &String,
)
    ensures
        final(active_tools_by_thread).deep_view() == ({
            let active = old(active_tools_by_thread).deep_view();
            let tools = if active.contains_key(thread_id@) {
                active[thread_id@]
            } else {
                Seq::empty()
            };
            active.insert(
                thread_id@,
                tools_without(tools, invocation_id@).push(
                    ActiveToolInvocationModel {
                        invocation_id: invocation_id@,
                        tool_name: tool_name@,
                    },
                ),
            )
        }),
{
    let tools = match active_tools_by_thread.remove(&thread_id.0) {
        Some(tools) => tools,
        None => {
            let tools: Vec<ActiveToolInvocation> = Vec::new();
            proof {
                assert(tools.deep_view() =~= Seq::empty());
            }
            tools
        },
    };
    let mut rest = retain_others(tools, invocation_id);
    append(
        &mut rest,
        ActiveToolInvocation {
            invocation_id: invocation_id.clone(),
            tool_name: tool_name.clone(),
        },
    );
    active_tools_by_thread.insert(thread_id.0.clone(), rest);
    proof {
        let active = old(active_tools_by_thread).deep_view();
        assert(active_tools_by_thread.deep_view() =~= active.insert(thread_id@, rest.deep_view()));
    }
}

fn put(map: &mut TextMap<String>, key: &ThreadId, value: &String)
    ensures
        final(map).deep_view() == old(map).deep_view().insert(key@, value@),
{
    map.insert(key.0.clone(), value.clone());
    proof {
        assert(map.deep_view() =~= old(map).deep_view().insert(key@, value@));
    }
}

/// Follows one event.
fn follow_event(
    event: &RuntimeEvent,
    task_by_thread: &mut TextMap<String>,
    activity_by_thread: &mut TextMap<String>,
    active_tools_by_thread: &mut TextMap<Vec<ActiveToolInvocation>>,
    invocation_by_approval: &mut TextMap<(String, String)>,
)
    ensures
        (AgentActivity {
            tasks: final(task_by_thread).deep_view(),
            said: final(activity_by_thread).deep_view(),
            active: final(active_tools_by_thread).deep_view(),
            waiting: final(invocation_by_approval).deep_view(),
        }) == activity_after(
            AgentActivity {
                tasks: old(task_by_thread).deep_view(),
                said: old(activity_by_thread).deep_view(),
                active: old(active_tools_by_thread).deep_view(),
                waiting: old(invocation_by_approval).deep_view(),
            },
            *event,
        ),
{
    match &event.kind {
        RuntimeEventKind::SubagentSpawned { child_thread_id, message_preview, .. } => put(
            task_by_thread,
            child_thread_id,
            message_preview,
        ),
        RuntimeEventKind::InterAgentMessageSent {
            author_thread_id,
            recipient_thread_id,
            content_preview,
            ..
        } => {
            put(activity_by_thread, author_thread_id, content_preview);
            put(activity_by_thread, recipient_thread_id, content_preview);
        },
        RuntimeEventKind::ToolInvocationStarted { invocation_id, tool_name, .. } => start_tool(
            active_tools_by_thread,
            &event.thread_id,
            invocation_id,
            tool_name,
        ),
        RuntimeEventKind::ToolInvocationWaitingApproval { invocation_id, approval_id, .. } => {
            invocation_by_approval.insert(
                approval_id.0.clone(),
                (event.thread_id.0.clone(), invocation_id.clone()),
            );
            proof {
                assert(invocation_by_approval.deep_view() =~= old(
                    invocation_by_approval,
                ).deep_view().insert(approval_id@, (event.thread_id@, invocation_id@)));
            }
        },
        RuntimeEventKind::ApprovalDecision { approval_id, .. } => {
            let removed = invocation_by_approval.remove(&approval_id.0);
            match removed {
                Some((thread_id, invocation_id)) => {
                    proof {
                        assert(invocation_by_approval.deep_view() =~= old(
                            invocation_by_approval,
                        ).deep_view().remove(approval_id@));
                    }
                    let thread_id = ThreadId(thread_id);
                    remove_active_tool(active_tools_by_thread, &thread_id, &invocation_id);
                },
                None => {
                    proof {
                        assert(invocation_by_approval.deep_view() =~= old(
                            invocation_by_approval,
                        ).deep_view());
                    }
                },
            }
        },
        RuntimeEventKind::ToolInvocationCompleted { invocation_id, .. } => remove_active_tool(
            active_tools_by_thread,
            &event.thread_id,
            invocation_id,
        ),
        RuntimeEventKind::ToolInvocationFailed { invocation_id, .. } => remove_active_tool(
            active_tools_by_thread,
            &event.thread_id,
            invocation_id,
        ),
        RuntimeEventKind::ToolInvocationCancelled { invocation_id, .. } => remove_active_tool(
            active_tools_by_thread,
            &event.thread_id,
            invocation_id,
        ),
        _ => {},
    }
}

/// Adds what a row of events tells of the agents to what is known.
pub fn collect_agent_event_details(
    events: &Vec<RuntimeEvent>,
    task_by_thread: &mut TextMap<String>,
    activity_by_thread: &mut TextMap<String>,
    current_tool_by_thread: &mut TextMap<String>,
)
    ensures
        ({
            let known = activity_of(
                old(task_by_thread).deep_view(),
                old(activity_by_thread).deep_view(),
                events@,
            );
            &&& final(task_by_thread).deep_view() == known.tasks
            &&& final(activity_by_thread).deep_view() == known.said
            &&& final(current_tool_by_thread).deep_view() == with_current_tools(
                old(current_tool_by_thread).deep_view(),
                known.active,
            )
        }),
{
    let mut active_tools_by_thread: TextMap<Vec<ActiveToolInvocation>> = TextMap::new();
    let mut invocation_by_approval: TextMap<(String, String)> = TextMap::new();
    proof {
        assert(active_tools_by_thread.deep_view() =~= Map::empty());
        assert(invocation_by_approval.deep_view() =~= Map::empty());
    }
    for i in 0..events.len()
        invariant
            (AgentActivity {
                tasks: task_by_thread.deep_view(),
                said: activity_by_thread.deep_view(),
                active: active_tools_by_thread.deep_view(),
                waiting: invocation_by_approval.deep_view(),
            }) == activity_of(
                old(task_by_thread).deep_view(),
                old(activity_by_thread).deep_view(),
                events@.take(i as int),
            ),
    {
        proof {
            assert(events@.take(i + 1).drop_last() =~= events@.take(i as int));
            assert(events@.take(i + 1).last() == events@[i as int]);
        }
        follow_event(
            &events[i],
            task_by_thread,
            activity_by_thread,
            &mut active_tools_by_thread,
            &mut invocation_by_approval,
        );
    }
    proof {
        assert(events@.take(events@.len() as int) =~= events@);
    }
    let threads = active_tools_by_thread.keys();
    let ghost active = active_tools_by_thread.deep_view();
    let ghost before = current_tool_by_thread.deep_view();
    for i in 0..threads.len()
        invariant
            active == active_tools_by_thread.deep_view(),
            forall|key: Seq<char>| #[trigger]
                threads.deep_view().contains(key) <==> active_tools_by_thread@.contains_key(key),
            current_tool_by_thread.deep_view() == with_current_tools(
                before,
                active.restrict(threads.deep_view().take(i as int).to_set()),
            ),
    {
        let thread = &threads[i];
        let ghost seen = threads.deep_view().take(i as int);
        let ghost more = threads.deep_view().take(i + 1);
        let ghost last = current_tool_by_thread.deep_view();
        proof {
            assert(threads.deep_view()[i as int] == thread@);
            assert(threads.deep_view().contains(thread@));
            assert(more =~= seen.push(thread@));
            assert forall|key: Seq<char>| #[trigger]
                more.to_set().contains(key) <==> seen.to_set().contains(key) || key == thread@ by {
                if seen.contains(key) {
                    let k = choose|k: int| 0 <= k < seen.len() && seen[k] == key;
                    assert(more[k] == key);
                }
                if key == thread@ {
                    assert(more[i as int] == key);
                }
            }
        }
        if let Some(tools) = active_tools_by_thread.get(thread) {
            if tools.len() > 0 {
                let name = tools[tools.len() - 1].tool_name.clone();
                current_tool_by_thread.insert(thread.clone(), name);
                proof {
                    assert(active[thread@].last() == tools@.last().deep_view());
                    assert(current_tool_by_thread.deep_view() =~= last.insert(thread@, name@));
                }
            } else {
                proof {
                    assert(active[thread@].len() == 0);
                }
            }
        }
        proof {
            assert(current_tool_by_thread.deep_view() =~= with_current_tools(
                before,
                active.restrict(more.to_set()),
            ));
        }
    }
    proof {
        let all = threads.deep_view();
        assert(all.take(all.len() as int) =~= all);
        assert(active.restrict(all.to_set()) =~= active);
    }
}

/// Things that stand at a path of the agent tree.
pub trait Placed: Sized {
    /// The path of the agent, and its thread.
    spec fn place(&self) -> (Seq<char>, Seq<char>);

    /// Whether this comes before `other` in the tree.
    fn goes_before(&self, other: &Self) -> (res: bool)
        ensures
            res == place_before(self.place(), other.place()),
    ;
}

/// The order of the tree: by path, and by thread where the paths are the same.
pub open spec fn place_before(a: (Seq<char>, Seq<char>), b: (Seq<char>, Seq<char>)) -> bool {
    text::is_before(a.0, b.0) || (a.0 == b.0 && text::is_before(a.1, b.1))
}

fn goes_before_at(path: &String, id: &ThreadId, other_path: &String, other_id: &ThreadId) -> (res:
    bool)
    ensures
        res == place_before((path@, id@), (other_path@, other_id@)),
{
    text::before(path.as_str(), other_path.as_str()) || (*path == *other_path && text::before(
        id.as_str(),
        other_id.as_str(),
    ))
}

impl Placed for ThreadSpawnEdge {
    open spec fn place(&self) -> (Seq<char>, Seq<char>) {
        (self.agent_path@, self.child_thread_id@)
    }

    fn goes_before(&self, other: &Self) -> (res: bool) {
        goes_before_at(
            &self.agent_path,
            &self.child_thread_id,
            &other.agent_path,
            &other.child_thread_id,
        )
    }
}

impl Placed for &AgentRecord {
    open spec fn place(&self) -> (Seq<char>, Seq<char>) {
        (self.agent_path@, self.thread_id@)
    }

    fn goes_before(&self, other: &Self) -> (res: bool) {
        goes_before_at(&self.agent_path, &self.thread_id, &other.agent_path, &other.thread_id)
    }
}

/// The order of the tree goes one way only.
pub proof fn place_before_is_strict(a: (Seq<char>, Seq<char>))
    ensures
        !place_before(a, a),
{
    text::before_is_strict(a.0);
    text::before_is_strict(a.1);
}

/// What comes before something comes before all that follows it.
pub proof fn place_before_chain(
    a: (Seq<char>, Seq<char>),
    b: (Seq<char>, Seq<char>),
    c: (Seq<char>, Seq<char>),
)
    requires
        place_before(a, b),
        place_before(b, c),
    ensures
        place_before(a, c),
{
    if text::is_before(a.0, b.0) && text::is_before(b.0, c.0) {
        text::before_chain(a.0, b.0, c.0);
    }
    if a.0 == b.0 && b.0 == c.0 && text::is_before(a.1, b.1) && text::is_before(b.1, c.1) {
        text::before_chain(a.1, b.1, c.1);
    }
}

/// Of two different places, one comes before the other.
pub proof fn place_before_is_total(a: (Seq<char>, Seq<char>), b: (Seq<char>, Seq<char>))
    ensures
        place_before(a, b) || place_before(b, a) || a == b,
{
    text::before_is_total(a.0, b.0);
    text::before_is_total(a.1, b.1);
}

/// Where `item` goes in a sorted list: behind everything that does not come after it.
pub open spec fn slot_of<T: Placed>(list: Seq<T>, item: T) -> int {
    seqs::first_index(list, |other: T| place_before(item.place(), other.place()))
}

/// The list in the order of the tree. What stands at the same place keeps its order.
pub open spec fn in_tree_order<T: Placed>(list: Seq<T>) -> Seq<T>
    decreases list.len(),
{
    if list.len() == 0 {
        Seq::empty()
    } else {
        let sorted = in_tree_order(list.drop_last());
        sorted.insert(slot_of(sorted, list.last()), list.last())
    }
}

/// Whether nothing in the list comes before anything ahead of it.
pub open spec fn is_in_tree_order<T: Placed>(list: Seq<T>) -> bool {
    forall|i: int, j: int|
        0 <= i < j < list.len() ==> !place_before(
            (#[trigger] list[j]).place(),
            (#[trigger] list[i]).place(),
        )
}

fn find_slot<T: Placed>(list: &Vec<T>, item: &T) -> (res: usize)
    ensures
        res == slot_of(list@, *item),
        res <= list@.len(),
{
    let ghost later = |other: T| place_before(item.place(), other.place());
    for i in 0..list.len()
        invariant
            later == (|other: T| place_before(item.place(), other.place())),
            forall|j: int| 0 <= j < i ==> !later(#[trigger] list@[j]),
    {
        if item.goes_before(&list[i]) {
            proof {
                seqs::first_index_is(list@, later, i as int);
            }
            return i;
        }
    }
    proof {
        seqs::first_index_is(list@, later, list@.len() as int);
    }
    list.len()
}

proof fn slot_keeps_order<T: Placed>(list: Seq<T>, item: T)
    requires
        is_in_tree_order(list),
    ensures
        is_in_tree_order(list.insert(slot_of(list, item), item)),
        0 <= slot_of(list, item) <= list.len(),
{
    let slot = slot_of(list, item);
    let later = |other: T| place_before(item.place(), other.place());
    seqs::first_index_found(list, later);
    let longer = list.insert(slot, item);
    assert forall|i: int, j: int| 0 <= i < j < longer.len() implies !place_before(
        (#[trigger] longer[j]).place(),
        (#[trigger] longer[i]).place(),
    ) by {
        let left = if i < slot {
            i
        } else {
            i - 1
        };
        let right = if j < slot {
            j
        } else {
            j - 1
        };
        if i == slot {
            assert(later(list[slot]));
            if place_before(list[right].place(), item.place()) {
                if right > slot {
                    assert(!place_before(list[right].place(), list[slot].place()));
                    place_before_chain(
                        list[right].place(),
                        item.place(),
                        list[slot].place(),
                    );
                } else {
                    place_before_chain(item.place(), list[slot].place(), item.place());
                    place_before_is_strict(item.place());
                }
            }
        } else if j == slot {
            assert(!later(list[left]));
        } else {
            assert(longer[i] == list[left]);
            assert(longer[j] == list[right]);
        }
    }
}

/// Sorting brings a list into the order of the tree and keeps what is in it.
pub proof fn tree_order_sorts<T: Placed>(list: Seq<T>)
    ensures
        is_in_tree_order(in_tree_order(list)),
        in_tree_order(list).to_multiset() == list.to_multiset(),
        in_tree_order(list).len() == list.len(),
    decreases list.len(),
{
    broadcast use vstd::seq_lib::group_to_multiset_ensures;

    if list.len() > 0 {
        let rest = list.drop_last();
        let sorted = in_tree_order(rest);
        tree_order_sorts(rest);
        slot_keeps_order(sorted, list.last());
        let slot = slot_of(sorted, list.last());
        assert(sorted.insert(slot, list.last()) =~= sorted.take(slot).push(list.last())
            + sorted.skip(slot));
        assert(sorted.take(slot) + sorted.skip(slot) =~= sorted);
        vstd::seq_lib::lemma_multiset_commutative(sorted.take(slot), sorted.skip(slot));
        vstd::seq_lib::lemma_multiset_commutative(
            sorted.take(slot).push(list.last()),
            sorted.skip(slot),
        );
        assert(rest.push(list.last()) =~= list);
        assert(in_tree_order(list).to_multiset() =~= list.to_multiset());
    } else {
        assert(in_tree_order(list) =~= list);
    }
}

/// The edges of the tree, in its order.
pub fn sort_edges(edges: Vec<ThreadSpawnEdge>) -> (res: Vec<ThreadSpawnEdge>)
    ensures
        res@ == in_tree_order(edges@),
{
    let ghost all = edges@;
    let mut res: Vec<ThreadSpawnEdge> = Vec::new();
    for edge in iter: edges
        invariant
            iter.seq() == all,
            res@ == in_tree_order(all.take(iter.index())),
    {
        proof {
            assert(all.take(iter.index() + 1).drop_last() =~= all.take(iter.index()));
            assert(all.take(iter.index() + 1).last() == edge);
        }
        let slot: usize = find_slot(&res, &edge);
        res.insert(slot, edge);
    }
    proof {
        assert(all.take(all.len() as int) =~= all);
    }
    res
}

/// How many parts between slashes a path has; empty ones do not count.
pub open spec fn part_count(path: Seq<char>) -> nat
    decreases path.len(),
{
    if path.len() == 0 {
        0
    } else {
        let starts = path.last() != '/' && (path.len() == 1 || path[path.len() - 2] == '/');
        part_count(path.drop_last()) + if starts {
            1nat
        } else {
            0nat
        }
    }
}

/// How deep an agent stands, by its path: one less than its parts.
pub fn depth_from_path(agent_path: &str) -> (res: u32)
    ensures
        res == (if part_count(agent_path@) == 0 {
            0u32
        } else {
            #[verifier::truncate]
            ((part_count(agent_path@) - 1) as u32)
        }),
{
    let path = text::chars_of(agent_path);
    let mut count: usize = 0;
    for i in 0..path.len()
        invariant
            count == part_count(path@.take(i as int)),
            count <= i,
    {
        let ghost seen = path@.take(i + 1);
        proof {
            assert(seen.drop_last() =~= path@.take(i as int));
            assert(seen.last() == path@[i as int]);
            if i > 0 {
                assert(seen[seen.len() - 2] == path@[i - 1]);
            }
        }
        if path[i] != '/' && (i == 0 || path[i - 1] == '/') {
            count = count + 1;
        }
    }
    proof {
        assert(path@.take(path@.len() as int) =~= agent_path@);
    }
    if count == 0 {
        0
    } else {
        (count - 1) as u32
    }
}

/// The tokens that a thread has used, where they were counted.
pub fn tokens_used_from_snapshot(snapshot: &ThreadSnapshot) -> (res: Option<i64>)
    ensures
        res == match snapshot.token_info {
            Some(info) => Some(info.total_token_usage.total_tokens),
            None => None,
        },
{
    match &snapshot.token_info {
        Some(info) => Some(info.total_token_usage.total_tokens),
        None => None,
    }
}

/// Where a loaded agent stands: it waits while something in it waits for the user, and runs while
/// it has an active turn.
pub open spec fn live_status_of(active_turn: Option<TurnStatus>, pending: nat) -> Option<
    AgentTreeAgentStatus,
> {
    if active_turn == Some(TurnStatus::WaitingApproval) || pending > 0 {
        Some(AgentTreeAgentStatus::WaitingApproval)
    } else if active_turn is Some {
        Some(AgentTreeAgentStatus::Running)
    } else {
        None
    }
}

/// Where a loaded agent stands, by the status of its active turn and the number of requests in it
/// that wait for the user.
pub fn live_agent_status(active_turn: Option<TurnStatus>, pending_count: usize) -> (res: Option<
    AgentTreeAgentStatus,
>)
    ensures
        res == live_status_of(active_turn, pending_count as nat),
{
    let waiting = match active_turn {
        Some(status) => status == TurnStatus::WaitingApproval,
        None => false,
    };
    if waiting || pending_count > 0 {
        return Some(AgentTreeAgentStatus::WaitingApproval);
    }
    match active_turn {
        Some(_) => Some(AgentTreeAgentStatus::Running),
        None => None,
    }
}

/// Where a spawned agent stands: done once it was closed, else where it stands while loaded, else
/// failed where its last turn failed, else idle.
pub open spec fn edge_status_of(
    edge: SpawnEdgeStatus,
    live: Option<AgentTreeAgentStatus>,
    events: Option<Seq<RuntimeEvent>>,
) -> AgentTreeAgentStatus {
    match (edge, live, events) {
        (SpawnEdgeStatus::Closed, _, _) => AgentTreeAgentStatus::Done,
        (SpawnEdgeStatus::Open, Some(status), _) => status,
        (SpawnEdgeStatus::Open, None, Some(events)) => match projection::latest_turn_state_of(
            events,
        ) {
            Some(state) => if state.status == TurnStatus::Failed {
                AgentTreeAgentStatus::Failed
            } else {
                AgentTreeAgentStatus::Idle
            },
            None => AgentTreeAgentStatus::Idle,
        },
        (SpawnEdgeStatus::Open, None, None) => AgentTreeAgentStatus::Idle,
    }
}

/// Where a spawned agent stands.
pub fn status_from_edge(
    edge_status: SpawnEdgeStatus,
    live: Option<AgentTreeAgentStatus>,
    events: Option<&Vec<RuntimeEvent>>,
) -> (res: AgentTreeAgentStatus)
    ensures
        res == edge_status_of(
            edge_status,
            live,
            match events {
                Some(events) => Some(events@),
                None => None,
            },
        ),
{
    match edge_status {
        SpawnEdgeStatus::Closed => AgentTreeAgentStatus::Done,
        SpawnEdgeStatus::Open => {
            if let Some(status) = live {
                return status;
            }
            if let Some(events) = events {
                if let Some(state) = projection::latest_turn_state(events) {
                    if state.status == TurnStatus::Failed {
                        return AgentTreeAgentStatus::Failed;
                    }
                }
            }
            AgentTreeAgentStatus::Idle
        },
    }
}

/// The root of the tree that a thread belongs to: itself, where it was not spawned.
pub fn root_thread_of(thread_id: &ThreadId, snapshot: &ThreadSnapshot) -> (res: ThreadId)
    ensures
        res@ == subagents::root_of(*snapshot, thread_id@),
{
    match &snapshot.lineage {
        Some(lineage) => lineage.root_thread_id.duplicate(),
        None => thread_id.duplicate(),
    }
}

/// A spawned agent: its edge, what is stored of its thread, and where it stands while loaded.
pub struct AgentChild {
    pub edge: ThreadSpawnEdge,
    pub state: Option<StoredThreadState>,
    pub live: Option<AgentTreeAgentStatus>,
}

impl Placed for AgentChild {
    open spec fn place(&self) -> (Seq<char>, Seq<char>) {
        self.edge.place()
    }

    fn goes_before(&self, other: &Self) -> (res: bool) {
        self.edge.goes_before(&other.edge)
    }
}

/// The spawned agents behind these references.
spec fn agents_at(list: Seq<&AgentChild>) -> Seq<AgentChild> {
    list.map_values(|child: &AgentChild| *child)
}

/// The spawned agents, in the order of the tree.
fn children_in_order<'a>(children: &'a Vec<AgentChild>) -> (res: Vec<&'a AgentChild>)
    ensures
        agents_at(res@) == in_tree_order(children@),
{
    let mut res: Vec<&'a AgentChild> = Vec::new();
    proof {
        assert(agents_at(res@) =~= in_tree_order(children@.take(0)));
    }
    for i in 0..children.len()
        invariant
            agents_at(res@) == in_tree_order(children@.take(i as int)),
    {
        let item = &children[i];
        let ghost sorted = agents_at(res@);
        let ghost later = |other: AgentChild| place_before(item.place(), other.place());
        let mut slot: usize = 0;
        while slot < res.len() && !item.goes_before(res[slot])
            invariant
                sorted == agents_at(res@),
                slot <= res@.len(),
                later == (|other: AgentChild| place_before(item.place(), other.place())),
                forall|j: int| 0 <= j < slot ==> !later(#[trigger] sorted[j]),
            decreases res@.len() - slot,
        {
            slot = slot + 1;
        }
        proof {
            seqs::first_index_is(sorted, later, slot as int);
            assert(children@.take(i + 1).drop_last() =~= children@.take(i as int));
            assert(children@.take(i + 1).last() == *item);
        }
        res.insert(slot, item);
        proof {
            assert(agents_at(res@) =~= sorted.insert(slot as int, *item));
        }
    }
    proof {
        assert(children@.take(children@.len() as int) =~= children@);
    }
    res
}

/// What the events of all agents tell of them.
#[verifier::ext_equal]
pub struct AgentDetails {
    pub tasks: Map<Seq<char>, Seq<char>>,
    pub said: Map<Seq<char>, Seq<char>>,
    pub tools: Map<Seq<char>, Seq<char>>,
}

/// What is known after the events of one more agent.
pub open spec fn details_after(known: AgentDetails, events: Seq<RuntimeEvent>) -> AgentDetails {
    let activity = activity_of(known.tasks, known.said, events);
    AgentDetails {
        tasks: activity.tasks,
        said: activity.said,
        tools: with_current_tools(known.tools, activity.active),
    }
}

/// What the events of the root and then of each spawned agent tell.
pub open spec fn details_of(
    root_events: Seq<RuntimeEvent>,
    children: Seq<AgentChild>,
) -> AgentDetails
    decreases children.len(),
{
    if children.len() == 0 {
        details_after(
            AgentDetails { tasks: Map::empty(), said: Map::empty(), tools: Map::empty() },
            root_events,
        )
    } else {
        let known = details_of(root_events, children.drop_last());
        match children.last().state {
            Some(state) => details_after(known, state.events@),
            None => known,
        }
    }
}

/// The value of a key, where it has one.
pub open spec fn value_of(map: Map<Seq<char>, Seq<char>>, key: Seq<char>) -> Option<Seq<char>> {
    if map.contains_key(key) {
        Some(map[key])
    } else {
        None
    }
}

fn look_up(map: &TextMap<String>, key: &ThreadId) -> (res: Option<String>)
    ensures
        res.deep_view() == value_of(map.deep_view(), key@),
{
    match map.get(&key.0) {
        Some(value) => Some(value.clone()),
        None => None,
    }
}

/// What the tree shows of the agent at its root.
pub open spec fn root_record_of(
    root_thread_id: Seq<char>,
    root: StoredThreadState,
    live: Option<AgentTreeAgentStatus>,
    known: AgentDetails,
) -> AgentRecordModel {
    let lineage = root.snapshot.lineage;
    AgentRecordModel {
        thread_id: root_thread_id,
        parent_thread_id: None,
        root_thread_id,
        depth: 0,
        agent_path: ROOT_AGENT_PATH@,
        status: match live {
            Some(status) => status,
            None => AgentTreeAgentStatus::Idle,
        },
        agent_type: match lineage {
            Some(lineage) => lineage.agent_type,
            None => None,
        },
        agent_role: match lineage {
            Some(lineage) => lineage.agent_role.deep_view(),
            None => None,
        },
        agent_nickname: match lineage {
            Some(lineage) => lineage.agent_nickname.deep_view(),
            None => None,
        },
        last_task_message: None,
        last_activity: value_of(known.said, root_thread_id),
        current_tool: value_of(known.tools, root_thread_id),
        tokens_used: match root.snapshot.token_info {
            Some(info) => Some(info.total_token_usage.total_tokens),
            None => None,
        },
    }
}

/// The lineage of a spawned agent, where it is stored.
pub open spec fn lineage_of(child: AgentChild) -> Option<ThreadLineage> {
    match child.state {
        Some(state) => state.snapshot.lineage,
        None => None,
    }
}

/// What the tree shows of a spawned agent.
pub open spec fn child_record_of(child: AgentChild, known: AgentDetails) -> AgentRecordModel {
    let id = child.edge.child_thread_id@;
    AgentRecordModel {
        thread_id: id,
        parent_thread_id: Some(child.edge.parent_thread_id@),
        root_thread_id: child.edge.root_thread_id@,
        depth: match lineage_of(child) {
            Some(lineage) => lineage.depth,
            None => if part_count(child.edge.agent_path@) == 0 {
                0u32
            } else {
                #[verifier::truncate]
                ((part_count(child.edge.agent_path@) - 1) as u32)
            },
        },
        agent_path: match lineage_of(child) {
            Some(lineage) => lineage.agent_path@,
            None => child.edge.agent_path@,
        },
        status: edge_status_of(
            child.edge.status,
            child.live,
            match child.state {
                Some(state) => Some(state.events@),
                None => None,
            },
        ),
        agent_type: match lineage_of(child) {
            Some(lineage) => lineage.agent_type,
            None => None,
        },
        agent_role: match lineage_of(child) {
            Some(lineage) => lineage.agent_role.deep_view(),
            None => None,
        },
        agent_nickname: match lineage_of(child) {
            Some(lineage) => lineage.agent_nickname.deep_view(),
            None => None,
        },
        last_task_message: value_of(known.tasks, id),
        last_activity: value_of(known.said, id),
        current_tool: value_of(known.tools, id),
        tokens_used: match child.state {
            Some(state) => match state.snapshot.token_info {
                Some(info) => Some(info.total_token_usage.total_tokens),
                None => None,
            },
            None => None,
        },
    }
}

/// What the tree shows of each agent, by its thread. The last edge of a thread counts.
pub open spec fn records_of(
    root: AgentRecordModel,
    children: Seq<AgentChild>,
    known: AgentDetails,
) -> Map<Seq<char>, AgentRecordModel>
    decreases children.len(),
{
    if children.len() == 0 {
        Map::empty().insert(root.thread_id, root)
    } else {
        records_of(root, children.drop_last(), known).insert(
            children.last().edge.child_thread_id@,
            child_record_of(children.last(), known),
        )
    }
}

/// What the tree shows of each agent. The spawned ones are followed in the order of the tree.
pub open spec fn agent_records_of(
    root_thread_id: Seq<char>,
    root: StoredThreadState,
    live: Option<AgentTreeAgentStatus>,
    children: Seq<AgentChild>,
) -> Map<Seq<char>, AgentRecordModel> {
    let ordered = in_tree_order(children);
    let known = details_of(root.events@, ordered);
    records_of(root_record_of(root_thread_id, root, live, known), ordered, known)
}

fn child_record(
    child: &AgentChild,
    tasks: &TextMap<String>,
    said: &TextMap<String>,
    tools: &TextMap<String>,
) -> (res: AgentRecord)
    ensures
        res.deep_view() == child_record_of(
            *child,
            AgentDetails {
                tasks: tasks.deep_view(),
                said: said.deep_view(),
                tools: tools.deep_view(),
            },
        ),
{
    let edge = &child.edge;
    let (depth, agent_path, agent_type, agent_role, agent_nickname) = match &child.state {
        Some(state) => match &state.snapshot.lineage {
            Some(lineage) => (
                lineage.depth,
                lineage.agent_path.clone(),
                lineage.agent_type,
                lineage.agent_role.duplicate(),
                lineage.agent_nickname.duplicate(),
            ),
            None => (
                depth_from_path(edge.agent_path.as_str()),
                edge.agent_path.clone(),
                None,
                None,
                None,
            ),
        },
        None => (
            depth_from_path(edge.agent_path.as_str()),
            edge.agent_path.clone(),
            None,
            None,
            None,
        ),
    };
    let status = match &child.state {
        Some(state) => status_from_edge(edge.status, child.live, Some(&state.events)),
        None => status_from_edge(edge.status, child.live, None),
    };
    let tokens_used = match &child.state {
        Some(state) => tokens_used_from_snapshot(&state.snapshot),
        None => None,
    };
    AgentRecord {
        thread_id: edge.child_thread_id.duplicate(),
        parent_thread_id: Some(edge.parent_thread_id.duplicate()),
        root_thread_id: edge.root_thread_id.duplicate(),
        depth,
        agent_path,
        status,
        agent_type,
        agent_role,
        agent_nickname,
        last_task_message: look_up(tasks, &edge.child_thread_id),
        last_activity: look_up(said, &edge.child_thread_id),
        current_tool: look_up(tools, &edge.child_thread_id),
        tokens_used,
    }
}

fn put_record(records: &mut TextMap<AgentRecord>, record: AgentRecord)
    ensures
        final(records).deep_view() == old(records).deep_view().insert(
            record.thread_id@,
            record.deep_view(),
        ),
{
    let key = record.thread_id.0.clone();
    records.insert(key, record);
    proof {
        assert(records.deep_view() =~= old(records).deep_view().insert(
            record.thread_id@,
            record.deep_view(),
        ));
    }
}

/// What the tree shows of each agent: the one at the root, and the spawned ones in the order of
/// the tree.
pub fn agent_records(
    root_thread_id: &ThreadId,
    root: &StoredThreadState,
    live: Option<AgentTreeAgentStatus>,
    children: &Vec<AgentChild>,
) -> (res: TextMap<AgentRecord>)
    ensures
        res.deep_view() == agent_records_of(root_thread_id@, *root, live, children@),
{
    let sorted = children_in_order(children);
    let ghost ordered = in_tree_order(children@);
    let mut tasks: TextMap<String> = TextMap::new();
    let mut said: TextMap<String> = TextMap::new();
    let mut tools: TextMap<String> = TextMap::new();
    proof {
        assert(tasks.deep_view() =~= Map::empty());
        assert(said.deep_view() =~= Map::empty());
        assert(tools.deep_view() =~= Map::empty());
    }
    collect_agent_event_details(&root.events, &mut tasks, &mut said, &mut tools);
    for i in 0..sorted.len()
        invariant
            ordered == agents_at(sorted@),
            (AgentDetails {
                tasks: tasks.deep_view(),
                said: said.deep_view(),
                tools: tools.deep_view(),
            }) == details_of(root.events@, ordered.take(i as int)),
    {
        proof {
            assert(ordered.take(i + 1).drop_last() =~= ordered.take(i as int));
            assert(ordered.take(i + 1).last() == *sorted@[i as int]);
        }
        if let Some(state) = &sorted[i].state {
            collect_agent_event_details(&state.events, &mut tasks, &mut said, &mut tools);
        }
    }
    proof {
        assert(ordered.take(sorted@.len() as int) =~= ordered);
    }
    let ghost known = details_of(root.events@, ordered);
    let (agent_type, agent_role, agent_nickname) = match &root.snapshot.lineage {
        Some(lineage) => (
            lineage.agent_type,
            lineage.agent_role.duplicate(),
            lineage.agent_nickname.duplicate(),
        ),
        None => (None, None, None),
    };
    let record = AgentRecord {
        thread_id: root_thread_id.duplicate(),
        parent_thread_id: None,
        root_thread_id: root_thread_id.duplicate(),
        depth: 0,
        agent_path: ROOT_AGENT_PATH.to_owned(),
        status: match live {
            Some(status) => status,
            None => AgentTreeAgentStatus::Idle,
        },
        agent_type,
        agent_role,
        agent_nickname,
        last_task_message: None,
        last_activity: look_up(&said, root_thread_id),
        current_tool: look_up(&tools, root_thread_id),
        tokens_used: tokens_used_from_snapshot(&root.snapshot),
    };
    let ghost first = record.deep_view();
    let mut records: TextMap<AgentRecord> = TextMap::new();
    proof {
        assert(records.deep_view() =~= Map::empty());
    }
    put_record(&mut records, record);
    for i in 0..sorted.len()
        invariant
            ordered == agents_at(sorted@),
            known == (AgentDetails {
                tasks: tasks.deep_view(),
                said: said.deep_view(),
                tools: tools.deep_view(),
            }),
            records.deep_view() == records_of(first, ordered.take(i as int), known),
    {
        proof {
            assert(ordered.take(i + 1).drop_last() =~= ordered.take(i as int));
            assert(ordered.take(i + 1).last() == *sorted@[i as int]);
        }
        put_record(&mut records, child_record(sorted[i], &tasks, &said, &tools));
    }
    proof {
        assert(ordered.take(sorted@.len() as int) =~= ordered);
    }
    records
}

/// Whether each record is that of its thread.
pub open spec fn is_keyed(records: Map<Seq<char>, AgentRecordModel>) -> bool {
    forall|id: Seq<char>| #[trigger]
        records.contains_key(id) ==> records[id].thread_id == id
}

/// The parent of an agent, where it has a record and a parent.
pub open spec fn parent_of(records: Map<Seq<char>, AgentRecordModel>, id: Seq<char>) -> Option<
    Seq<char>,
> {
    if records.contains_key(id) {
        records[id].parent_thread_id
    } else {
        None
    }
}

/// Whether each agent of the row was spawned by the one before it.
pub open spec fn is_chain(
    path: Seq<Seq<char>>,
    records: Map<Seq<char>, AgentRecordModel>,
) -> bool {
    &&& forall|i: int| 0 <= i < path.len() ==> records.contains_key(#[trigger] path[i])
    &&& forall|i: int|
        0 < i < path.len() ==> parent_of(records, #[trigger] path[i]) == Some(path[i - 1])
}

/// Whether an agent was spawned by an agent under it.
pub open spec fn is_own_descendant(
    records: Map<Seq<char>, AgentRecordModel>,
    id: Seq<char>,
) -> bool {
    exists|path: Seq<Seq<char>>|
        path.len() > 1 && path[0] == id && path.last() == id && #[trigger] is_chain(path, records)
}

/// Whether `list` holds the agents that this one spawned, in the order of the tree.
pub open spec fn is_child_list(
    list: Seq<Seq<char>>,
    records: Map<Seq<char>, AgentRecordModel>,
    id: Seq<char>,
) -> bool {
    &&& forall|child: Seq<char>| #[trigger]
        list.contains(child) <==> parent_of(records, child) == Some(id)
    &&& forall|i: int, j: int|
        0 <= i < j < list.len() ==> place_before(
            (records[#[trigger] list[i]].agent_path, list[i]),
            (records[#[trigger] list[j]].agent_path, list[j]),
        )
}

/// The threads of the children of a node.
pub open spec fn child_threads(node: AgentTreeNode) -> Seq<Seq<char>> {
    Seq::new(
        node.children@.len(),
        |i: int|
            match node.children@[i].thread_id {
                Some(thread_id) => thread_id@,
                None => Seq::empty(),
            },
    )
}

/// Whether a node shows what the record of its agent says.
pub open spec fn shows_record(node: AgentTreeNode, record: AgentRecordModel) -> bool {
    &&& node.thread_id.deep_view() == Some(record.thread_id)
    &&& node.parent_thread_id.deep_view() == record.parent_thread_id
    &&& node.root_thread_id@ == record.root_thread_id
    &&& node.depth == record.depth
    &&& node.agent_path@ == record.agent_path
    &&& node.status == record.status
    &&& node.agent_type == record.agent_type
    &&& node.agent_role.deep_view() == record.agent_role
    &&& node.agent_nickname.deep_view() == record.agent_nickname
    &&& node.last_task_message.deep_view() == record.last_task_message
    &&& node.last_activity.deep_view() == record.last_activity
    &&& node.current_tool.deep_view() == record.current_tool
    &&& node.tokens_used == record.tokens_used
}

/// Whether a node is the tree under this agent: it shows the agent, and its children are the
/// trees under the agents that it spawned, in the order of the tree.
pub open spec fn is_tree(
    node: AgentTreeNode,
    records: Map<Seq<char>, AgentRecordModel>,
    id: Seq<char>,
) -> bool
    decreases node,
{
    &&& records.contains_key(id)
    &&& shows_record(node, records[id])
    &&& is_child_list(child_threads(node), records, id)
    &&& forall|i: int|
        0 <= i < node.children@.len() ==> is_tree(
            #[trigger] node.children@[i],
            records,
            child_threads(node)[i],
        )
}

proof fn chain_repeats(
    path: Seq<Seq<char>>,
    records: Map<Seq<char>, AgentRecordModel>,
    i: int,
    j: int,
)
    requires
        is_chain(path, records),
        0 <= i < j < path.len(),
        path[i] == path[j],
    ensures
        path[0] == path[j - i],
    decreases i,
{
    if i > 0 {
        assert(parent_of(records, path[i]) == Some(path[i - 1]));
        assert(parent_of(records, path[j]) == Some(path[j - 1]));
        chain_repeats(path, records, i - 1, j - 1);
    }
}

proof fn chain_is_short(
    path: Seq<Seq<char>>,
    records: Map<Seq<char>, AgentRecordModel>,
    ids: Seq<Seq<char>>,
)
    requires
        is_chain(path, records),
        path.no_duplicates(),
        forall|id: Seq<char>| #[trigger] records.contains_key(id) ==> ids.contains(id),
    ensures
        path.len() <= ids.len(),
{
    path.unique_seq_to_set();
    ids.lemma_cardinality_of_set();
    vstd::seq_lib::seq_to_set_is_finite(ids);
    vstd::seq_lib::seq_to_set_is_finite(path);
    assert(path.to_set().subset_of(ids.to_set())) by {
        assert forall|id: Seq<char>| path.to_set().contains(id) implies ids.to_set().contains(
            id,
        ) by {
            let i = choose|i: int| 0 <= i < path.len() && path[i] == id;
            assert(records.contains_key(path[i]));
        }
    }
    vstd::set_lib::lemma_len_subset(path.to_set(), ids.to_set());
}

proof fn root_chain_is_distinct(
    path: Seq<Seq<char>>,
    records: Map<Seq<char>, AgentRecordModel>,
)
    requires
        is_chain(path, records),
        path.len() > 0,
        !is_own_descendant(records, path[0]),
    ensures
        path.no_duplicates(),
{
    assert forall|i: int, j: int| 0 <= i < path.len() && 0 <= j < path.len() && i < j implies path[i]
        != path[j] by {
        if path[i] == path[j] {
            chain_repeats(path, records, i, j);
            let back = path.take(j - i + 1);
            assert(is_chain(back, records)) by {
                assert forall|k: int| 0 < k < back.len() implies parent_of(
                    records,
                    #[trigger] back[k],
                ) == Some(back[k - 1]) by {
                    assert(parent_of(records, path[k]) == Some(path[k - 1]));
                }
                assert forall|k: int| 0 <= k < back.len() implies records.contains_key(
                    #[trigger] back[k],
                ) by {
                    assert(records.contains_key(path[k]));
                }
            }
            assert(back.last() == path[j - i]);
        }
    }
}

fn children_of<'a>(thread_id: &ThreadId, records: &'a TextMap<AgentRecord>) -> (res: Vec<
    &'a AgentRecord,
>)
    requires
        is_keyed(records.deep_view()),
    ensures
        is_child_list(
            Seq::new(res@.len(), |i: int| res@[i].thread_id@),
            records.deep_view(),
            thread_id@,
        ),
        forall|i: int|
            0 <= i < res@.len() ==> records.deep_view().contains_key(
                (#[trigger] res@[i]).thread_id@,
            ),
{
    let keys = records.keys();
    let mut res: Vec<&'a AgentRecord> = Vec::new();
    let ghost all = records.deep_view();
    let ghost names = keys.deep_view();
    for i in 0..keys.len()
        invariant
            all == records.deep_view(),
            is_keyed(all),
            names == keys.deep_view(),
            names.no_duplicates(),
            forall|key: Seq<char>| #[trigger] names.contains(key) <==> records@.contains_key(key),
            is_in_tree_order(res@),
            forall|j: int|
                0 <= j < res@.len() ==> {
                    let child = #[trigger] res@[j];
                    &&& all.contains_key(child.thread_id@)
                    &&& all[child.thread_id@] == child.deep_view()
                    &&& parent_of(all, child.thread_id@) == Some(thread_id@)
                    &&& names.take(i as int).contains(child.thread_id@)
                },
            forall|j: int, k: int|
                0 <= j < k < res@.len() ==> (#[trigger] res@[j]).thread_id@ != (
                #[trigger] res@[k]).thread_id@,
            forall|k: int|
                0 <= k < i && parent_of(all, #[trigger] names[k]) == Some(thread_id@) ==> exists|
                    j: int,
                |
                    0 <= j < res@.len() && (#[trigger] res@[j]).thread_id@ == names[k],
    {
        let key = &keys[i];
        let ghost old_names = names.take(i as int);
        let ghost new_names = names.take(i + 1);
        let ghost before = res@;
        proof {
            assert(names[i as int] == key@);
            assert(names.contains(key@));
            assert(new_names =~= old_names.push(key@));
            assert(!old_names.contains(key@));
            assert forall|name: Seq<char>| old_names.contains(name) implies #[trigger]
                new_names.contains(name) by {
                let m = choose|m: int| 0 <= m < old_names.len() && old_names[m] == name;
                assert(new_names[m] == name);
            }
            assert(new_names[i as int] == key@);
        }
        if let Some(record) = records.get(key) {
            assert(all[key@] == record.deep_view());
            let is_child = match &record.parent_thread_id {
                Some(parent) => parent.alike(thread_id),
                None => false,
            };
            if is_child {
                let slot: usize = find_slot(&res, &record);
                proof {
                    slot_keeps_order(before, record);
                }
                res.insert(slot, record);
                proof {
                    assert forall|j: int| 0 <= j < res@.len() implies {
                        let child = #[trigger] res@[j];
                        &&& all.contains_key(child.thread_id@)
                        &&& all[child.thread_id@] == child.deep_view()
                        &&& parent_of(all, child.thread_id@) == Some(thread_id@)
                        &&& new_names.contains(child.thread_id@)
                    } by {
                        if j < slot {
                            assert(res@[j] == before[j]);
                        } else if j > slot {
                            assert(res@[j] == before[j - 1]);
                        }
                    }
                    assert forall|j: int, k: int| 0 <= j < k < res@.len() implies (
                    #[trigger] res@[j]).thread_id@ != (#[trigger] res@[k]).thread_id@ by {
                        let left = if j < slot { j } else { j - 1 };
                        let right = if k < slot { k } else { k - 1 };
                        if j == slot {
                            assert(old_names.contains(before[right].thread_id@));
                        } else if k == slot {
                            assert(old_names.contains(before[left].thread_id@));
                        } else {
                            assert(before[left].thread_id@ != before[right].thread_id@);
                        }
                    }
                    assert forall|k: int|
                        0 <= k < i + 1 && parent_of(all, #[trigger] names[k]) == Some(
                            thread_id@,
                        ) implies exists|j: int|
                        0 <= j < res@.len() && (#[trigger] res@[j]).thread_id@ == names[k] by {
                        if k == i {
                            assert(res@[slot as int].thread_id@ == names[k]);
                        } else {
                            let j = choose|j: int|
                                0 <= j < before.len() && (#[trigger] before[j]).thread_id@
                                    == names[k];
                            if j < slot {
                                assert(res@[j] == before[j]);
                            } else {
                                assert(res@[j + 1] == before[j]);
                            }
                        }
                    }
                }
            }
        }
    }
    proof {
        let list = Seq::new(res@.len(), |i: int| res@[i].thread_id@);
        assert forall|child: Seq<char>| #[trigger] list.contains(child) <==> parent_of(all, child)
            == Some(thread_id@) by {
            if list.contains(child) {
                let j = choose|j: int| 0 <= j < list.len() && list[j] == child;
                assert(res@[j].thread_id@ == child);
            }
            if parent_of(all, child) == Some(thread_id@) {
                assert(names.contains(child));
                let k = choose|k: int| 0 <= k < names.len() && names[k] == child;
                assert(parent_of(all, names[k]) == Some(thread_id@));
                let j = choose|j: int|
                    0 <= j < res@.len() && (#[trigger] res@[j]).thread_id@ == names[k];
                assert(list[j] == child);
            }
        }
        assert forall|i: int, j: int| 0 <= i < j < list.len() implies place_before(
            (all[#[trigger] list[i]].agent_path, list[i]),
            (all[#[trigger] list[j]].agent_path, list[j]),
        ) by {
            assert(!place_before(res@[j].place(), res@[i].place()));
            place_before_is_total(res@[i].place(), res@[j].place());
            assert(res@[i].thread_id@ != res@[j].thread_id@);
        }
    }
    res
}

fn subtree(
    record: &AgentRecord,
    records: &TextMap<AgentRecord>,
    Ghost(path): Ghost<Seq<Seq<char>>>,
) -> (res: AgentTreeNode)
    requires
        is_keyed(records.deep_view()),
        path.len() > 0,
        is_chain(path, records.deep_view()),
        !is_own_descendant(records.deep_view(), path[0]),
        path.last() == record.thread_id@,
        records.deep_view()[record.thread_id@] == record.deep_view(),
        path.len() <= records.entries@.len(),
    ensures
        is_tree(res, records.deep_view(), record.thread_id@),
    decreases records.entries@.len() - path.len(),
{
    let ghost all = records.deep_view();
    let child_records = children_of(&record.thread_id, records);
    let ghost list = Seq::new(child_records@.len(), |i: int| child_records@[i].thread_id@);
    let mut children: Vec<AgentTreeNode> = Vec::new();
    for i in 0..child_records.len()
        invariant
            all == records.deep_view(),
            is_keyed(all),
            path.len() > 0,
            is_chain(path, all),
            !is_own_descendant(all, path[0]),
            path.last() == record.thread_id@,
            path.len() <= records.entries@.len(),
            list == Seq::new(child_records@.len(), |i: int| child_records@[i].thread_id@),
            is_child_list(list, all, record.thread_id@),
            forall|j: int|
                0 <= j < child_records@.len() ==> all.contains_key(
                    (#[trigger] child_records@[j]).thread_id@,
                ),
            children@.len() == i,
            forall|j: int|
                0 <= j < i ==> {
                    &&& (#[trigger] children@[j]).thread_id.deep_view() == Some(list[j])
                    &&& is_tree(children@[j], all, list[j])
                },
    {
        let child = child_records[i];
        let ghost longer = path.push(child.thread_id@);
        proof {
            assert(list[i as int] == child.thread_id@);
            assert(list.contains(child.thread_id@));
            assert(is_chain(longer, all)) by {
                assert forall|k: int| 0 < k < longer.len() implies parent_of(
                    all,
                    #[trigger] longer[k],
                ) == Some(longer[k - 1]) by {
                    if k < path.len() {
                        assert(parent_of(all, path[k]) == Some(path[k - 1]));
                    }
                }
                assert forall|k: int| 0 <= k < longer.len() implies all.contains_key(
                    #[trigger] longer[k],
                ) by {
                    if k < path.len() {
                        assert(all.contains_key(path[k]));
                    }
                }
            }
            root_chain_is_distinct(longer, all);
            let ids = records.entries@.map_values(
                |entry: crate::text_map::TextEntry<AgentRecord>| entry.key@,
            );
            assert forall|id: Seq<char>| #[trigger] all.contains_key(id) implies ids.contains(
                id,
            ) by {
                let k = crate::text_map::key_index(records.entries@, id);
                seqs::first_index_found(records.entries@, crate::text_map::has_key(id));
                assert(ids[k] == id);
            }
            chain_is_short(longer, all, ids);
        }
        let child = records.get(&child.thread_id.0).unwrap();
        assert(all[child.thread_id@] == child.deep_view());
        children.push(subtree(child, records, Ghost(longer)));
    }
    let res = AgentTreeNode {
        thread_id: Some(record.thread_id.duplicate()),
        parent_thread_id: record.parent_thread_id.duplicate(),
        root_thread_id: record.root_thread_id.duplicate(),
        depth: record.depth,
        agent_path: record.agent_path.clone(),
        status: record.status,
        agent_type: record.agent_type,
        agent_role: record.agent_role.duplicate(),
        agent_nickname: record.agent_nickname.duplicate(),
        last_task_message: record.last_task_message.duplicate(),
        last_activity: record.last_activity.duplicate(),
        current_tool: record.current_tool.duplicate(),
        tokens_used: record.tokens_used,
        children,
    };
    proof {
        assert(child_threads(res) =~= list);
        assert(all.contains_key(path[path.len() - 1]));
    }
    res
}

/// The tree under an agent. It has one where the agent was not spawned by an agent under it.
pub fn build_node(thread_id: &ThreadId, records: &TextMap<AgentRecord>) -> (res: AgentTreeNode)
    requires
        is_keyed(records.deep_view()),
        records.deep_view().contains_key(thread_id@),
        !is_own_descendant(records.deep_view(), thread_id@),
    ensures
        is_tree(res, records.deep_view(), thread_id@),
{
    let record = records.get(&thread_id.0).unwrap();
    let ghost path = seq![thread_id@];
    proof {
        let k = crate::text_map::key_index(records.entries@, thread_id@);
        seqs::first_index_found(records.entries@, crate::text_map::has_key(thread_id@));
        assert(records.entries@.len() >= 1);
        assert(records.deep_view()[thread_id@] == record.deep_view());
    }
    subtree(record, records, Ghost(path))
}

proof fn chains_agree(
    left: Seq<Seq<char>>,
    right: Seq<Seq<char>>,
    records: Map<Seq<char>, AgentRecordModel>,
    k: int,
)
    requires
        is_chain(left, records),
        is_chain(right, records),
        0 <= k < left.len(),
        k < right.len(),
        left.last() == right.last(),
    ensures
        left[left.len() - 1 - k] == right[right.len() - 1 - k],
    decreases k,
{
    if k > 0 {
        chains_agree(left, right, records, k - 1);
        assert(parent_of(records, left[left.len() - k]) == Some(left[left.len() - 1 - k]));
        assert(parent_of(records, right[right.len() - k]) == Some(right[right.len() - 1 - k]));
    }
}

/// A way up from an agent that has not come back to it is longer than every way that does not
/// lead further up than it.
proof fn way_back_is_longer(
    way: Seq<Seq<char>>,
    back: Seq<Seq<char>>,
    records: Map<Seq<char>, AgentRecordModel>,
)
    requires
        is_chain(way, records),
        way.len() > 0,
        forall|k: int| 0 <= k < way.len() - 1 ==> #[trigger] way[k] != way.last(),
        is_chain(back, records),
        back.len() > 1,
        back[0] == way.last(),
        back.last() == way.last(),
    ensures
        back.len() > way.len(),
        back[back.len() - way.len()] == way[0],
        parent_of(records, way[0]) == Some(back[back.len() - way.len() - 1]),
        records.contains_key(back[back.len() - way.len() - 1]),
{
    if back.len() <= way.len() {
        chains_agree(way, back, records, back.len() - 1);
        assert(way[way.len() - back.len()] == back[0]);
        assert(false);
    }
    chains_agree(way, back, records, way.len() - 1);
    assert(parent_of(records, back[back.len() - way.len()]) == Some(
        back[back.len() - way.len() - 1],
    ));
    assert(records.contains_key(back[back.len() - way.len() - 1]));
}

/// Whether a row leads from an agent back to itself.
spec fn is_way_back(
    back: Seq<Seq<char>>,
    records: Map<Seq<char>, AgentRecordModel>,
    id: Seq<char>,
) -> bool {
    is_chain(back, records) && back.len() > 1 && back[0] == id && back.last() == id
}

proof fn no_way_back(
    way: Seq<Seq<char>>,
    back: Seq<Seq<char>>,
    records: Map<Seq<char>, AgentRecordModel>,
    ids: Seq<Seq<char>>,
)
    requires
        is_chain(way, records),
        way.len() > ids.len(),
        forall|k: int| 0 <= k < way.len() - 1 ==> #[trigger] way[k] != way.last(),
        forall|id: Seq<char>| #[trigger] records.contains_key(id) ==> ids.contains(id),
    ensures
        !is_way_back(back, records, way.last()),
    decreases back.len(),
{
    if is_way_back(back, records, way.last()) {
        way_back_is_longer(way, back, records);
        let rest = back.skip(1);
        assert(is_chain(rest, records)) by {
            assert forall|k: int| 0 < k < rest.len() implies parent_of(records, #[trigger] rest[k])
                == Some(rest[k - 1]) by {
                assert(parent_of(records, back[k + 1]) == Some(back[k]));
            }
            assert forall|k: int| 0 <= k < rest.len() implies records.contains_key(
                #[trigger] rest[k],
            ) by {
                assert(records.contains_key(back[k + 1]));
            }
        }
        if rest.no_duplicates() {
            chain_is_short(rest, records, ids);
        } else {
            let (i, j) = choose|i: int, j: int|
                0 <= i < rest.len() && 0 <= j < rest.len() && i != j && rest[i] == rest[j];
            let (low, high) = if i < j {
                (i + 1, j + 1)
            } else {
                (j + 1, i + 1)
            };
            assert(back[low] == back[high]);
            chain_repeats(back, records, low, high);
            let shorter = back.take(high - low + 1);
            assert(is_chain(shorter, records)) by {
                assert forall|k: int| 0 < k < shorter.len() implies parent_of(
                    records,
                    #[trigger] shorter[k],
                ) == Some(shorter[k - 1]) by {
                    assert(parent_of(records, back[k]) == Some(back[k - 1]));
                }
                assert forall|k: int| 0 <= k < shorter.len() implies records.contains_key(
                    #[trigger] shorter[k],
                ) by {
                    assert(records.contains_key(back[k]));
                }
            }
            no_way_back(way, shorter, records, ids);
        }
    }
}

/// Whether an agent was spawned by an agent under it, so that there is no tree under it.
pub fn leads_back(thread_id: &ThreadId, records: &TextMap<AgentRecord>) -> (res: bool)
    ensures
        res == is_own_descendant(records.deep_view(), thread_id@),
{
    let ghost all = records.deep_view();
    let ghost ids = records.entries@.map_values(
        |entry: crate::text_map::TextEntry<AgentRecord>| entry.key@,
    );
    proof {
        assert forall|id: Seq<char>| #[trigger] all.contains_key(id) implies ids.contains(id) by {
            let k = crate::text_map::key_index(records.entries@, id);
            seqs::first_index_found(records.entries@, crate::text_map::has_key(id));
            assert(ids[k] == id);
        }
    }
    if records.get(&thread_id.0).is_none() {
        proof {
            if is_own_descendant(all, thread_id@) {
                let path = choose|path: Seq<Seq<char>>|
                    path.len() > 1 && path[0] == thread_id@ && path.last() == thread_id@
                        && #[trigger] is_chain(path, all);
                assert(all.contains_key(path[0]));
            }
        }
        return false;
    }
    let ghost mut way = seq![thread_id@];
    let mut current = thread_id.duplicate();
    let mut steps: usize = 0;
    while steps < records.entries.len()
        invariant
            all == records.deep_view(),
            way.len() == steps + 1,
            steps <= records.entries@.len(),
            way[0] == current@,
            way.last() == thread_id@,
            is_chain(way, all),
            forall|k: int| 0 <= k < way.len() - 1 ==> #[trigger] way[k] != thread_id@,
        decreases records.entries@.len() - steps,
    {
        assert(all.contains_key(way[0]));
        let record = records.get(&current.0).unwrap();
        assert(all[current@] == record.deep_view());
        let parent = match &record.parent_thread_id {
            Some(parent) => parent.duplicate(),
            None => {
                proof {
                    if is_own_descendant(all, thread_id@) {
                        let back = choose|path: Seq<Seq<char>>|
                            path.len() > 1 && path[0] == thread_id@ && path.last() == thread_id@
                                && #[trigger] is_chain(path, all);
                        way_back_is_longer(way, back, all);
                    }
                }
                return false;
            },
        };
        let ghost longer = seq![parent@] + way;
        proof {
            assert(parent_of(all, way[0]) == Some(parent@));
            assert forall|k: int| 0 < k < longer.len() implies parent_of(all, #[trigger] longer[k])
                == Some(longer[k - 1]) by {
                assert(longer[k] == way[k - 1]);
                if k > 1 {
                    assert(parent_of(all, way[k - 1]) == Some(way[k - 2]));
                }
            }
            assert forall|k: int| 0 < k < longer.len() implies all.contains_key(
                #[trigger] longer[k],
            ) by {
                assert(longer[k] == way[k - 1]);
                assert(all.contains_key(way[k - 1]));
            }
            assert(longer.last() == way.last());
        }
        if parent.alike(thread_id) {
            proof {
                assert(all.contains_key(way[way.len() - 1]));
                assert(is_chain(longer, all));
            }
            return true;
        }
        if records.get(&parent.0).is_none() {
            proof {
                if is_own_descendant(all, thread_id@) {
                    let back = choose|path: Seq<Seq<char>>|
                        path.len() > 1 && path[0] == thread_id@ && path.last() == thread_id@
                            && #[trigger] is_chain(path, all);
                    way_back_is_longer(way, back, all);
                }
            }
            return false;
        }
        proof {
            assert forall|k: int| 0 <= k < longer.len() - 1 implies #[trigger] longer[k]
                != thread_id@ by {
                if k > 0 {
                    assert(longer[k] == way[k - 1]);
                }
            }
            way = longer;
        }
        current = parent;
        steps = steps + 1;
    }
    proof {
        if is_own_descendant(all, thread_id@) {
            let back = choose|path: Seq<Seq<char>>|
                path.len() > 1 && path[0] == thread_id@ && path.last() == thread_id@
                    && #[trigger] is_chain(path, all);
            no_way_back(way, back, all, ids);
        }
    }
    false
}

proof fn records_are_keyed(
    root: AgentRecordModel,
    children: Seq<AgentChild>,
    known: AgentDetails,
)
    ensures
        is_keyed(records_of(root, children, known)),
        records_of(root, children, known).contains_key(root.thread_id),
    decreases children.len(),
{
    if children.len() > 0 {
        records_are_keyed(root, children.drop_last(), known);
    }
}

/// The tree of agents under a root, which no agent under it spawned.
fn tree_under(
    root_thread_id: &ThreadId,
    root: &StoredThreadState,
    live: Option<AgentTreeAgentStatus>,
    children: &Vec<AgentChild>,
) -> (res: AgentTreeResponse)
    requires
        !is_own_descendant(
            agent_records_of(root_thread_id@, *root, live, children@),
            root_thread_id@,
        ),
    ensures
        is_tree(
            res.root,
            agent_records_of(root_thread_id@, *root, live, children@),
            root_thread_id@,
        ),
{
    let records = agent_records(root_thread_id, root, live, children);
    proof {
        let ordered = in_tree_order(children@);
        let known = details_of(root.events@, ordered);
        records_are_keyed(root_record_of(root_thread_id@, *root, live, known), ordered, known);
    }
    AgentTreeResponse { root: build_node(root_thread_id, &records) }
}

/// What is known of the thread at the root of the tree that a thread belongs to. `root` is what is
/// known of it where it is another thread.
pub open spec fn root_state_of(
    thread_id: Seq<char>,
    requested: StoredThreadState,
    root: Option<StoredThreadState>,
) -> Option<StoredThreadState> {
    if subagents::root_of(requested.snapshot, thread_id) == thread_id {
        Some(requested)
    } else {
        root
    }
}

/// Whether `res` answers a request for the tree that a thread belongs to: with the whole tree
/// under its root, or with the thread of the two that nothing is known of.
pub open spec fn is_tree_answer(
    res: Result<AgentTreeResponse, AppServerError>,
    thread_id: Seq<char>,
    requested: Option<StoredThreadState>,
    root: Option<StoredThreadState>,
    live: Option<AgentTreeAgentStatus>,
    children: Seq<AgentChild>,
) -> bool {
    match requested {
        None => res matches Err(error) && error.is_not_found(thread_id),
        Some(requested) => {
            let root_id = subagents::root_of(requested.snapshot, thread_id);
            match root_state_of(thread_id, requested, root) {
                None => res matches Err(error) && error.is_not_found(root_id),
                Some(state) => res matches Ok(tree) && is_tree(
                    tree.root,
                    agent_records_of(root_id, state, live, children),
                    root_id,
                ),
            }
        },
    }
}

/// The tree of agents that a thread belongs to. `requested` is what is known of the thread, and
/// `root` what is known of the one at its root, where that is another. `live` tells where the
/// agent at the root stands while loaded, and `children` are the agents spawned under it, in any
/// order. No agent under the root spawned it.
pub fn agent_tree(
    thread_id: &ThreadId,
    requested: &Option<StoredThreadState>,
    root: &Option<StoredThreadState>,
    live: Option<AgentTreeAgentStatus>,
    children: &Vec<AgentChild>,
) -> (res: Result<AgentTreeResponse, AppServerError>)
    requires
        *requested matches Some(state) ==> (root_state_of(thread_id@, state, *root) matches Some(
            root_state,
        ) ==> !is_own_descendant(
            agent_records_of(
                subagents::root_of(state.snapshot, thread_id@),
                root_state,
                live,
                children@,
            ),
            subagents::root_of(state.snapshot, thread_id@),
        )),
    ensures
        is_tree_answer(res, thread_id@, *requested, *root, live, children@),
{
    let state = match requested {
        Some(state) => state,
        None => return Err(AppServerError::ThreadNotFound(thread_id.duplicate())),
    };
    let root_thread_id = root_thread_of(thread_id, &state.snapshot);
    if root_thread_id.alike(thread_id) {
        return Ok(tree_under(&root_thread_id, state, live, children));
    }
    match root {
        Some(root) => Ok(tree_under(&root_thread_id, root, live, children)),
        None => Err(AppServerError::ThreadNotFound(root_thread_id)),
    }
}

/// There is one way to bring things into the order of the tree, where no two of them stand at
/// the same place.
proof fn sorted_is_one<T: Placed>(x: Seq<T>, y: Seq<T>)
    requires
        is_in_tree_order(x),
        is_in_tree_order(y),
        x.to_multiset() == y.to_multiset(),
        forall|a: T, b: T|
            #![trigger a.place(), b.place()]
            x.contains(a) && x.contains(b) && a.place() == b.place() ==> a == b,
    ensures
        x == y,
    decreases x.len(),
{
    broadcast use vstd::seq_lib::group_to_multiset_ensures;

    assert(x.len() == x.to_multiset().len() && y.len() == y.to_multiset().len());
    if x.len() == 0 {
        assert(x =~= y);
    } else {
        let (last_x, last_y) = (x.last(), y.last());
        assert(x.contains(x[x.len() - 1]));
        assert(y.contains(y[y.len() - 1]));
        assert(x.to_multiset().count(last_y) > 0);
        assert(y.to_multiset().count(last_x) > 0);
        assert(x.contains(last_y));
        assert(y.contains(last_x));
        let i = x.index_of(last_y);
        let j = y.index_of(last_x);
        if i < x.len() - 1 && j < y.len() - 1 {
            assert(!place_before(x[x.len() - 1].place(), x[i].place()));
            assert(!place_before(y[y.len() - 1].place(), y[j].place()));
            place_before_is_total(last_x.place(), last_y.place());
        }
        assert(last_x == last_y);
        let (rest_x, rest_y) = (x.drop_last(), y.drop_last());
        assert(x =~= rest_x.push(last_x));
        assert(y =~= rest_y.push(last_y));
        assert(rest_x.to_multiset() =~= x.to_multiset().remove(last_x));
        assert(rest_y.to_multiset() =~= y.to_multiset().remove(last_y));
        assert forall|a: T, b: T|
            #![trigger a.place(), b.place()]
            rest_x.contains(a) && rest_x.contains(b) && a.place() == b.place() implies a == b by {
            assert(x.contains(a)) by {
                assert(x[rest_x.index_of(a)] == a);
            }
            assert(x.contains(b)) by {
                assert(x[rest_x.index_of(b)] == b);
            }
        }
        sorted_is_one(rest_x, rest_y);
    }
}

/// The order in which spawned agents are handed over makes no difference, where no two of them
/// have the same path and thread.
pub proof fn trees_do_not_depend_on_order(
    root_thread_id: Seq<char>,
    root: StoredThreadState,
    live: Option<AgentTreeAgentStatus>,
    a: Seq<AgentChild>,
    b: Seq<AgentChild>,
)
    requires
        a.to_multiset() == b.to_multiset(),
        forall|i: int, j: int|
            0 <= i < j < a.len() ==> (#[trigger] a[i]).place() != (#[trigger] a[j]).place(),
    ensures
        agent_records_of(root_thread_id, root, live, a) == agent_records_of(
            root_thread_id,
            root,
            live,
            b,
        ),
{
    broadcast use vstd::seq_lib::group_to_multiset_ensures;

    tree_order_sorts(a);
    tree_order_sorts(b);
    let (x, y) = (in_tree_order(a), in_tree_order(b));
    assert forall|p: AgentChild, q: AgentChild|
        #![trigger p.place(), q.place()]
        x.contains(p) && x.contains(q) && p.place() == q.place() implies p == q by {
        assert(x.to_multiset().count(p) > 0);
        assert(x.to_multiset().count(q) > 0);
        assert(a.contains(p));
        assert(a.contains(q));
        let i = a.index_of(p);
        let j = a.index_of(q);
        assert(a[i] == p && a[j] == q);
    }
    sorted_is_one(x, y);
}

/// Whether two nodes show the same agent, with the same agents under it.
pub open spec fn same_node(a: AgentTreeNode, b: AgentTreeNode) -> bool
    decreases a,
{
    &&& a.thread_id.deep_view() == b.thread_id.deep_view()
    &&& a.parent_thread_id.deep_view() == b.parent_thread_id.deep_view()
    &&& a.root_thread_id@ == b.root_thread_id@
    &&& a.depth == b.depth
    &&& a.agent_path@ == b.agent_path@
    &&& a.status == b.status
    &&& a.agent_type == b.agent_type
    &&& a.agent_role.deep_view() == b.agent_role.deep_view()
    &&& a.agent_nickname.deep_view() == b.agent_nickname.deep_view()
    &&& a.last_task_message.deep_view() == b.last_task_message.deep_view()
    &&& a.last_activity.deep_view() == b.last_activity.deep_view()
    &&& a.current_tool.deep_view() == b.current_tool.deep_view()
    &&& a.tokens_used == b.tokens_used
    &&& a.children@.len() == b.children@.len()
    &&& forall|i: int|
        0 <= i < a.children@.len() ==> same_node(#[trigger] a.children@[i], b.children@[i])
}

/// Whether each of these agents comes before those behind it.
spec fn is_strictly_ordered(
    list: Seq<Seq<char>>,
    records: Map<Seq<char>, AgentRecordModel>,
) -> bool {
    forall|i: int, j: int|
        0 <= i < j < list.len() ==> place_before(
            (records[#[trigger] list[i]].agent_path, list[i]),
            (records[#[trigger] list[j]].agent_path, list[j]),
        )
}

/// There is one way to list agents in the order of the tree.
proof fn ordered_list_is_one(
    x: Seq<Seq<char>>,
    y: Seq<Seq<char>>,
    records: Map<Seq<char>, AgentRecordModel>,
)
    requires
        is_strictly_ordered(x, records),
        is_strictly_ordered(y, records),
        forall|id: Seq<char>| #[trigger] x.contains(id) <==> y.contains(id),
    ensures
        x == y,
    decreases x.len(),
{
    if x.len() == 0 {
        if y.len() > 0 {
            assert(y.contains(y[0]));
            assert(x.contains(y[0]));
        }
        assert(x =~= y);
    } else {
        assert(x.contains(x[0]));
        assert(y.len() > 0);
        let (last_x, last_y) = (x.last(), y.last());
        assert(x.contains(x[x.len() - 1]));
        assert(y.contains(y[y.len() - 1]));
        assert(x.contains(last_y));
        if last_x != last_y {
            let i = x.index_of(last_y);
            let j = y.index_of(last_x);
            let (place_x, place_y) = (
                (records[last_x].agent_path, last_x),
                (records[last_y].agent_path, last_y),
            );
            assert(place_before(
                (records[x[i]].agent_path, x[i]),
                (records[x[x.len() - 1]].agent_path, x[x.len() - 1]),
            ));
            assert(place_before(
                (records[y[j]].agent_path, y[j]),
                (records[y[y.len() - 1]].agent_path, y[y.len() - 1]),
            ));
            place_before_chain(place_x, place_y, place_x);
            place_before_is_strict(place_x);
        }
        let (rest_x, rest_y) = (x.drop_last(), y.drop_last());
        last_is_only_last(x, records);
        last_is_only_last(y, records);
        assert forall|id: Seq<char>| #[trigger] rest_x.contains(id) <==> rest_y.contains(id) by {
            if rest_x.contains(id) {
                let i = rest_x.index_of(id);
                assert(x[i] == id);
                assert(x.contains(id));
                let j = y.index_of(id);
                assert(rest_y[j] == id);
            }
            if rest_y.contains(id) {
                let j = rest_y.index_of(id);
                assert(y[j] == id);
                assert(y.contains(id));
                assert(x.contains(id));
                let i = x.index_of(id);
                assert(rest_x[i] == id);
            }
        }
        ordered_list_is_one(rest_x, rest_y, records);
        assert(x =~= rest_x.push(last_x));
        assert(y =~= rest_y.push(last_y));
    }
}

/// In a list where each comes before those behind it, the last stands nowhere else.
proof fn last_is_only_last(list: Seq<Seq<char>>, records: Map<Seq<char>, AgentRecordModel>)
    requires
        is_strictly_ordered(list, records),
        list.len() > 0,
    ensures
        forall|i: int| 0 <= i < list.len() - 1 ==> #[trigger] list[i] != list.last(),
{
    assert forall|i: int| 0 <= i < list.len() - 1 implies #[trigger] list[i] != list.last() by {
        let last = list.len() - 1;
        assert(place_before(
            (records[list[i]].agent_path, list[i]),
            (records[list[last]].agent_path, list[last]),
        ));
        place_before_is_strict((records[list[i]].agent_path, list[i]));
    }
}

/// There is one tree under an agent.
pub proof fn tree_is_one(
    a: AgentTreeNode,
    b: AgentTreeNode,
    records: Map<Seq<char>, AgentRecordModel>,
    id: Seq<char>,
)
    requires
        is_tree(a, records, id),
        is_tree(b, records, id),
    ensures
        same_node(a, b),
    decreases a,
{
    let (x, y) = (child_threads(a), child_threads(b));
    assert(is_strictly_ordered(x, records));
    assert(is_strictly_ordered(y, records));
    assert forall|child: Seq<char>| #[trigger] x.contains(child) <==> y.contains(child) by {}
    ordered_list_is_one(x, y, records);
    assert forall|i: int| 0 <= i < a.children@.len() implies same_node(
        #[trigger] a.children@[i],
        b.children@[i],
    ) by {
        assert(x[i] == y[i]);
        assert(is_tree(b.children@[i], records, y[i]));
        tree_is_one(a.children@[i], b.children@[i], records, x[i]);
    }
}

/// A request for the tree of a spawned agent gives what a request for that of its root gives: the
/// whole tree of the root.
pub proof fn descendants_share_the_tree(
    root_id: Seq<char>,
    root: StoredThreadState,
    child_id: Seq<char>,
    child: StoredThreadState,
    live: Option<AgentTreeAgentStatus>,
    children: Seq<AgentChild>,
    of_root: Result<AgentTreeResponse, AppServerError>,
    of_child: Result<AgentTreeResponse, AppServerError>,
)
    requires
        child_id != root_id,
        root.snapshot.lineage is None,
        child.snapshot.lineage matches Some(lineage) && lineage.root_thread_id@ == root_id,
        is_tree_answer(of_root, root_id, Some(root), None, live, children),
        is_tree_answer(of_child, child_id, Some(child), Some(root), live, children),
    ensures
        of_root is Ok,
        of_child is Ok,
        same_node(of_root->Ok_0.root, of_child->Ok_0.root),
{
    tree_is_one(
        of_root->Ok_0.root,
        of_child->Ok_0.root,
        agent_records_of(root_id, root, live, children),
        root_id,
    );
}

proof fn root_record_stays(root: AgentRecordModel, children: Seq<AgentChild>, known: AgentDetails)
    requires
        forall|i: int|
            0 <= i < children.len() ==> (#[trigger] children[i]).edge.child_thread_id@
                != root.thread_id,
    ensures
        records_of(root, children, known)[root.thread_id] == root,
    decreases children.len(),
{
    if children.len() > 0 {
        let rest = children.drop_last();
        assert forall|i: int| 0 <= i < rest.len() implies (
        #[trigger] rest[i]).edge.child_thread_id@ != root.thread_id by {
            assert(rest[i] == children[i]);
        }
        root_record_stays(root, rest, known);
        assert(children[children.len() - 1].edge.child_thread_id@ != root.thread_id);
    }
}

/// The agent at the root of a tree, which no edge leads to, is shown as such: at the top, with no
/// parent and no task, at the path of the root.
pub proof fn roots_stand_at_the_top(
    thread_id: Seq<char>,
    requested: StoredThreadState,
    root: Option<StoredThreadState>,
    live: Option<AgentTreeAgentStatus>,
    children: Seq<AgentChild>,
    res: Result<AgentTreeResponse, AppServerError>,
)
    requires
        root_state_of(thread_id, requested, root) is Some,
        forall|i: int|
            0 <= i < children.len() ==> (#[trigger] children[i]).edge.child_thread_id@
                != subagents::root_of(requested.snapshot, thread_id),
        is_tree_answer(res, thread_id, Some(requested), root, live, children),
    ensures
        res is Ok,
        ({
            let node = res->Ok_0.root;
            let root_id = subagents::root_of(requested.snapshot, thread_id);
            &&& node.thread_id.deep_view() == Some(root_id)
            &&& node.parent_thread_id is None
            &&& node.root_thread_id@ == root_id
            &&& node.depth == 0
            &&& node.agent_path@ == ROOT_AGENT_PATH@
            &&& node.last_task_message is None
        }),
{
    broadcast use vstd::seq_lib::group_to_multiset_ensures;

    let root_id = subagents::root_of(requested.snapshot, thread_id);
    let state = root_state_of(thread_id, requested, root)->0;
    let ordered = in_tree_order(children);
    tree_order_sorts(children);
    assert forall|i: int| 0 <= i < ordered.len() implies (
    #[trigger] ordered[i]).edge.child_thread_id@ != root_id by {
        assert(ordered.contains(ordered[i]));
        assert(ordered.to_multiset().count(ordered[i]) > 0);
        assert(children.to_multiset().count(ordered[i]) > 0);
        assert(children.contains(ordered[i]));
        let j = children.index_of(ordered[i]);
        assert(children[j] == ordered[i]);
    }
    let known = details_of(state.events@, ordered);
    root_record_stays(root_record_of(root_id, state, live, known), ordered, known);
}

} // verus!
