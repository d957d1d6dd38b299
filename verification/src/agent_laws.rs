//! What the tree of agents shows of each agent.
use vstd::prelude::*;

use crate::agent_tree;
use crate::agent_tree::{
    ActiveToolInvocationModel, AgentChild, AgentDetails, AgentRecordModel,
};
use crate::error::AppServerError;
use crate::events::{RuntimeEvent, RuntimeEventKind};
use crate::projection;
use crate::protocol::{AgentTreeAgentStatus, AgentTreeNode, AgentTreeResponse, TurnStatus};
use crate::state::{SpawnEdgeStatus, StoredThreadState};
use crate::text;

verus! {

/// Whether an event starts this invocation in this thread.
pub open spec fn begins(event: RuntimeEvent, thread: Seq<char>, invocation: Seq<char>) -> bool {
    &&& event.thread_id@ == thread
    &&& event.kind matches RuntimeEventKind::ToolInvocationStarted { invocation_id, .. }
        && invocation_id@ == invocation
}

/// Whether an event tells that this invocation in this thread has come to an end.
pub open spec fn finishes(event: RuntimeEvent, thread: Seq<char>, invocation: Seq<char>) -> bool {
    event.thread_id@ == thread && match event.kind {
        RuntimeEventKind::ToolInvocationCompleted { invocation_id, .. } => invocation_id@
            == invocation,
        RuntimeEventKind::ToolInvocationFailed { invocation_id, .. } => invocation_id@
            == invocation,
        RuntimeEventKind::ToolInvocationCancelled { invocation_id, .. } => invocation_id@
            == invocation,
        _ => false,
    }
}

/// Whether an event lets an invocation wait for this approval.
pub open spec fn awaits(event: RuntimeEvent, approval: Seq<char>) -> bool {
    event.kind matches RuntimeEventKind::ToolInvocationWaitingApproval { approval_id, .. }
        && approval_id@ == approval
}

/// Whether an event decides on this approval.
pub open spec fn decides(event: RuntimeEvent, approval: Seq<char>) -> bool {
    event.kind matches RuntimeEventKind::ApprovalDecision { approval_id, .. } && approval_id@
        == approval
}

/// Whether what the event at `k` lets wait for this approval still waits for it.
pub open spec fn waits_since(events: Seq<RuntimeEvent>, approval: Seq<char>, k: int) -> bool {
    &&& 0 <= k < events.len()
    &&& awaits(events[k], approval)
    &&& forall|j: int|
        k < j < events.len() ==> !awaits(#[trigger] events[j], approval) && !decides(
            events[j],
            approval,
        )
}

/// Whether the event at `j` decides on what this invocation in this thread waits for.
pub open spec fn is_decided_at(
    events: Seq<RuntimeEvent>,
    j: int,
    thread: Seq<char>,
    invocation: Seq<char>,
) -> bool {
    exists|approval: Seq<char>, k: int|
        {
            &&& decides(events[j], approval)
            &&& #[trigger] waits_since(events.take(j), approval, k)
            &&& events[k].thread_id@ == thread
            &&& events[k].kind->ToolInvocationWaitingApproval_invocation_id@ == invocation
        }
}

/// Whether the event at `i` starts an invocation in this thread that no later event starts anew,
/// ends or decides on.
pub open spec fn is_open(events: Seq<RuntimeEvent>, thread: Seq<char>, i: int) -> bool {
    &&& 0 <= i < events.len()
    &&& events[i].thread_id@ == thread
    &&& events[i].kind is ToolInvocationStarted
    &&& forall|j: int|
        i < j < events.len() ==> {
            let invocation = events[i].kind->ToolInvocationStarted_invocation_id@;
            &&& !begins(#[trigger] events[j], thread, invocation)
            &&& !finishes(events[j], thread, invocation)
            &&& !is_decided_at(events, j, thread, invocation)
        }
}

spec fn started_tool(event: RuntimeEvent) -> ActiveToolInvocationModel {
    ActiveToolInvocationModel {
        invocation_id: event.kind->ToolInvocationStarted_invocation_id@,
        tool_name: event.kind->ToolInvocationStarted_tool_name@,
    }
}

spec fn counting(n: nat) -> Seq<int> {
    Seq::new(n, |i: int| i)
}

/// The starts of the invocations that are still at work, in order.
spec fn open_starts(events: Seq<RuntimeEvent>, thread: Seq<char>) -> Seq<int> {
    counting(events.len()).filter(|i: int| is_open(events, thread, i))
}

/// The tools at work in a thread.
pub open spec fn tools_in(
    active: Map<Seq<char>, Seq<ActiveToolInvocationModel>>,
    thread: Seq<char>,
) -> Seq<ActiveToolInvocationModel> {
    if active.contains_key(thread) {
        active[thread]
    } else {
        Seq::empty()
    }
}

proof fn waiting_is_known(
    tasks: Map<Seq<char>, Seq<char>>,
    said: Map<Seq<char>, Seq<char>>,
    events: Seq<RuntimeEvent>,
    approval: Seq<char>,
)
    ensures
        ({
            let waiting = agent_tree::activity_of(tasks, said, events).waiting;
            &&& waiting.contains_key(approval) <==> exists|k: int| #[trigger]
                waits_since(events, approval, k)
            &&& forall|k: int| #[trigger]
                waits_since(events, approval, k) ==> waiting[approval] == (
                    events[k].thread_id@,
                    events[k].kind->ToolInvocationWaitingApproval_invocation_id@,
                )
        }),
    decreases events.len(),
{
    let waiting = agent_tree::activity_of(tasks, said, events).waiting;
    if events.len() == 0 {
        assert(forall|k: int| !#[trigger] waits_since(events, approval, k));
    } else {
        let rest = events.drop_last();
        let event = events.last();
        let n = rest.len() as int;
        assert(events[n] == event);
        waiting_is_known(tasks, said, rest, approval);
        assert forall|k: int| #[trigger] waits_since(events, approval, k) && k < n implies {
            &&& waits_since(rest, approval, k)
            &&& !awaits(event, approval)
            &&& !decides(event, approval)
        } by {
            assert forall|j: int| k < j < rest.len() implies !awaits(#[trigger] rest[j], approval)
                && !decides(rest[j], approval) by {
                assert(rest[j] == events[j]);
            }
            assert(!awaits(events[n], approval) && !decides(events[n], approval));
        }
        if awaits(event, approval) {
            assert(waits_since(events, approval, n));
            assert forall|k: int| #[trigger] waits_since(events, approval, k) implies k == n by {}
        } else if decides(event, approval) {
            assert forall|k: int| !#[trigger] waits_since(events, approval, k) by {
                if waits_since(events, approval, k) {
                    assert(k != n);
                }
            }
        } else {
            assert forall|k: int| #[trigger] waits_since(rest, approval, k) implies waits_since(
                events,
                approval,
                k,
            ) by {
                assert forall|j: int| k < j < events.len() implies !awaits(
                    #[trigger] events[j],
                    approval,
                ) && !decides(events[j], approval) by {
                    if j < n {
                        assert(events[j] == rest[j]);
                    }
                }
            }
            if exists|k: int| #[trigger] waits_since(rest, approval, k) {
                let k = choose|k: int| #[trigger] waits_since(rest, approval, k);
                assert(waits_since(events, approval, k));
            }
            assert forall|k: int| #[trigger] waits_since(events, approval, k) implies k < n by {}
            if exists|k: int| #[trigger] waits_since(events, approval, k) {
                let k = choose|k: int| #[trigger] waits_since(events, approval, k);
                assert(waits_since(rest, approval, k));
            }
            assert(waiting.contains_key(approval) == agent_tree::activity_of(
                tasks,
                said,
                rest,
            ).waiting.contains_key(approval));
        }
    }
}

proof fn filter_filter_map(
    s: Seq<int>,
    p: spec_fn(int) -> bool,
    f: spec_fn(int) -> ActiveToolInvocationModel,
    q: spec_fn(ActiveToolInvocationModel) -> bool,
    r: spec_fn(int) -> bool,
)
    requires
        forall|i: int| #![trigger r(i)] s.contains(i) ==> r(i) == (p(i) && q(f(i))),
    ensures
        s.filter(p).map_values(f).filter(q) == s.filter(r).map_values(f),
    decreases s.len(),
{
    reveal(Seq::filter);
    if s.len() > 0 {
        let rest = s.drop_last();
        let last = s.last();
        assert forall|i: int| #![trigger r(i)] rest.contains(i) implies r(i) == (p(i) && q(f(i))) by {
            let k = rest.index_of(i);
            assert(s[k] == i);
            assert(s.contains(i));
        }
        filter_filter_map(rest, p, f, q, r);
        assert(s[s.len() - 1] == last);
        assert(s.contains(last));
        let kept = rest.filter(p);
        if p(last) {
            assert(kept.push(last).map_values(f) =~= kept.map_values(f).push(f(last)));
            assert(kept.map_values(f).push(f(last)).drop_last() =~= kept.map_values(f));
        }
        if r(last) {
            assert(rest.filter(r).push(last).map_values(f) =~= rest.filter(r).map_values(f).push(
                f(last),
            ));
        }
    } else {
        assert(s.filter(p).map_values(f).filter(q) =~= s.filter(r).map_values(f));
    }
}

proof fn maps_agree(s: Seq<int>, before: Seq<RuntimeEvent>, after: Seq<RuntimeEvent>)
    requires
        forall|i: int| #[trigger] s.contains(i) ==> 0 <= i < before.len() && before[i] == after[i],
    ensures
        s.map_values(|i: int| started_tool(before[i])) == s.map_values(
            |i: int| started_tool(after[i]),
        ),
{
    let f = |i: int| started_tool(before[i]);
    let g = |i: int| started_tool(after[i]);
    assert forall|k: int| 0 <= k < s.len() implies f(#[trigger] s[k]) == g(s[k]) by {
        assert(s.contains(s[k]));
    }
    assert(s.map_values(f) =~= s.map_values(g));
}

/// Whether the last event of a row leaves an invocation at work that was at work before.
spec fn leaves(events: Seq<RuntimeEvent>, thread: Seq<char>, invocation: Seq<char>) -> bool {
    let n = events.len() - 1;
    &&& !begins(events[n], thread, invocation)
    &&& !finishes(events[n], thread, invocation)
    &&& !is_decided_at(events, n, thread, invocation)
}

proof fn open_after(events: Seq<RuntimeEvent>, thread: Seq<char>, i: int)
    requires
        events.len() > 0,
        0 <= i < events.len() - 1,
    ensures
        is_open(events, thread, i) <==> is_open(events.drop_last(), thread, i) && leaves(
            events,
            thread,
            events[i].kind->ToolInvocationStarted_invocation_id@,
        ),
{
    let rest = events.drop_last();
    let n = rest.len() as int;
    let invocation = events[i].kind->ToolInvocationStarted_invocation_id@;
    assert(rest[i] == events[i]);
    assert forall|j: int| 0 <= j < n implies (is_decided_at(events, j, thread, invocation)
        <==> #[trigger] is_decided_at(rest, j, thread, invocation)) && events[j] == rest[j] by {
        assert(events.take(j) =~= rest.take(j));
        if is_decided_at(events, j, thread, invocation) {
            let (approval, k) = choose|approval: Seq<char>, k: int|
                {
                    &&& decides(events[j], approval)
                    &&& #[trigger] waits_since(events.take(j), approval, k)
                    &&& events[k].thread_id@ == thread
                    &&& events[k].kind->ToolInvocationWaitingApproval_invocation_id@ == invocation
                };
            assert(events[k] == rest[k]);
            assert(waits_since(rest.take(j), approval, k));
        }
        if is_decided_at(rest, j, thread, invocation) {
            let (approval, k) = choose|approval: Seq<char>, k: int|
                {
                    &&& decides(rest[j], approval)
                    &&& #[trigger] waits_since(rest.take(j), approval, k)
                    &&& rest[k].thread_id@ == thread
                    &&& rest[k].kind->ToolInvocationWaitingApproval_invocation_id@ == invocation
                };
            assert(events[k] == rest[k]);
            assert(waits_since(events.take(j), approval, k));
        }
    }
    if is_open(events, thread, i) {
        assert forall|j: int| i < j < rest.len() implies {
            &&& !begins(#[trigger] rest[j], thread, invocation)
            &&& !finishes(rest[j], thread, invocation)
            &&& !is_decided_at(rest, j, thread, invocation)
        } by {
            assert(events[j] == rest[j]);
            assert(is_decided_at(rest, j, thread, invocation) == is_decided_at(
                events,
                j,
                thread,
                invocation,
            ));
        }
        assert(!begins(events[n], thread, invocation));
    }
    if is_open(rest, thread, i) && leaves(events, thread, invocation) {
        assert forall|j: int| i < j < events.len() implies {
            &&& !begins(#[trigger] events[j], thread, invocation)
            &&& !finishes(events[j], thread, invocation)
            &&& !is_decided_at(events, j, thread, invocation)
        } by {
            if j < n {
                assert(events[j] == rest[j]);
                assert(is_decided_at(rest, j, thread, invocation) == is_decided_at(
                    events,
                    j,
                    thread,
                    invocation,
                ));
            }
        }
    }
}

proof fn tools_are_open_starts(
    tasks: Map<Seq<char>, Seq<char>>,
    said: Map<Seq<char>, Seq<char>>,
    events: Seq<RuntimeEvent>,
    thread: Seq<char>,
)
    ensures
        tools_in(agent_tree::activity_of(tasks, said, events).active, thread) == open_starts(
            events,
            thread,
        ).map_values(|i: int| started_tool(events[i])),
    decreases events.len(),
{
    reveal(Seq::filter);
    let known = agent_tree::activity_of(tasks, said, events);
    if events.len() == 0 {
        assert(counting(0) =~= Seq::empty());
        assert(tools_in(known.active, thread) =~= open_starts(events, thread).map_values(
            |i: int| started_tool(events[i]),
        ));
    } else {
        let rest = events.drop_last();
        let event = events.last();
        let n = rest.len();
        let before = agent_tree::activity_of(tasks, said, rest);
        tools_are_open_starts(tasks, said, rest, thread);
        let range = counting(n);
        let all = counting(events.len());
        assert(all.drop_last() =~= range);
        assert(all.last() == n);
        assert(events[n as int] == event);
        let was_open = |i: int| is_open(rest, thread, i);
        let now_open = |i: int| is_open(events, thread, i);
        let f = |i: int| started_tool(rest[i]);
        let g = |i: int| started_tool(events[i]);
        let stays = |tool: ActiveToolInvocationModel| leaves(events, thread, tool.invocation_id);
        assert forall|i: int| #![trigger now_open(i)] range.contains(i) implies now_open(i) == (
        was_open(i) && stays(f(i))) by {
            open_after(events, thread, i);
            assert(rest[i] == events[i]);
        }
        filter_filter_map(range, was_open, f, stays, now_open);
        let kept = range.filter(now_open);
        assert forall|i: int| #[trigger] kept.contains(i) implies 0 <= i < rest.len() && rest[i]
            == events[i] by {
            range.lemma_filter_contains_rev(now_open, i);
        }
        maps_agree(kept, rest, events);
        let tools = tools_in(before.active, thread);
        assert(tools == range.filter(was_open).map_values(f));
        assert(kept.map_values(g) == tools.filter(stays));
        assert(kept.push(n as int).map_values(g) =~= kept.map_values(g).push(g(n as int)));
        assert(now_open(n as int) <==> event.thread_id@ == thread
            && event.kind is ToolInvocationStarted);
        let after = tools_in(known.active, thread);
        assert(events.take(n as int) =~= rest);
        match event.kind {
            RuntimeEventKind::ToolInvocationStarted { invocation_id, .. } => {
                no_decision(events, thread);
                if event.thread_id@ == thread {
                    tools_agree(tools, stays, invocation_id@);
                } else {
                    all_stay(tools, stays);
                }
            },
            RuntimeEventKind::ToolInvocationCompleted { invocation_id, .. } => {
                no_decision(events, thread);
                if event.thread_id@ == thread {
                    tools_agree(tools, stays, invocation_id@);
                } else {
                    all_stay(tools, stays);
                }
            },
            RuntimeEventKind::ToolInvocationFailed { invocation_id, .. } => {
                no_decision(events, thread);
                if event.thread_id@ == thread {
                    tools_agree(tools, stays, invocation_id@);
                } else {
                    all_stay(tools, stays);
                }
            },
            RuntimeEventKind::ToolInvocationCancelled { invocation_id, .. } => {
                no_decision(events, thread);
                if event.thread_id@ == thread {
                    tools_agree(tools, stays, invocation_id@);
                } else {
                    all_stay(tools, stays);
                }
            },
            RuntimeEventKind::ApprovalDecision { approval_id, .. } => {
                waiting_is_known(tasks, said, rest, approval_id@);
                if before.waiting.contains_key(approval_id@) {
                    let (waiting_thread, invocation) = before.waiting[approval_id@];
                    let k = choose|k: int| #[trigger] waits_since(rest, approval_id@, k);
                    assert(before.waiting[approval_id@] == (
                        rest[k].thread_id@,
                        rest[k].kind->ToolInvocationWaitingApproval_invocation_id@,
                    ));
                    if waiting_thread == thread {
                        assert forall|other: Seq<char>| #[trigger]
                            leaves(events, thread, other) <==> other != invocation by {
                            decided_means(events, thread, approval_id@, k, other);
                        }
                        tools_agree(tools, stays, invocation);
                    } else {
                        assert forall|other: Seq<char>| #[trigger]
                            leaves(events, thread, other) by {
                            decided_means(events, thread, approval_id@, k, other);
                        }
                        all_stay(tools, stays);
                    }
                } else {
                    assert forall|other: Seq<char>| #[trigger] leaves(events, thread, other) by {
                        if is_decided_at(events, n as int, thread, other) {
                            let (approval, k) = choose|approval: Seq<char>, k: int|
                                {
                                    &&& decides(events[n as int], approval)
                                    &&& #[trigger] waits_since(
                                        events.take(n as int),
                                        approval,
                                        k,
                                    )
                                    &&& events[k].thread_id@ == thread
                                    &&& events[k].kind->ToolInvocationWaitingApproval_invocation_id@
                                        == other
                                };
                            assert(waits_since(rest, approval_id@, k));
                        }
                    }
                    all_stay(tools, stays);
                }
            },
            _ => {
                no_decision(events, thread);
                all_stay(tools, stays);
            },
        }
        assert(after =~= open_starts(events, thread).map_values(g));
    }
}

proof fn no_decision(events: Seq<RuntimeEvent>, thread: Seq<char>)
    requires
        events.len() > 0,
        !(events.last().kind is ApprovalDecision),
    ensures
        forall|invocation: Seq<char>|
            !#[trigger] is_decided_at(events, events.len() - 1, thread, invocation),
{
    assert(events[events.len() - 1] == events.last());
}

proof fn decided_means(
    events: Seq<RuntimeEvent>,
    thread: Seq<char>,
    approval: Seq<char>,
    k: int,
    invocation: Seq<char>,
)
    requires
        events.len() > 0,
        decides(events.last(), approval),
        waits_since(events.drop_last(), approval, k),
    ensures
        leaves(events, thread, invocation) <==> !(events[k].thread_id@ == thread
            && events[k].kind->ToolInvocationWaitingApproval_invocation_id@ == invocation),
{
    let n = events.len() - 1;
    assert(events.take(n) =~= events.drop_last());
    assert(events[n] == events.last());
    if is_decided_at(events, n, thread, invocation) {
        let (other, m) = choose|other: Seq<char>, m: int|
            {
                &&& decides(events[n], other)
                &&& #[trigger] waits_since(events.take(n), other, m)
                &&& events[m].thread_id@ == thread
                &&& events[m].kind->ToolInvocationWaitingApproval_invocation_id@ == invocation
            };
        assert(other == approval);
        if m < k {
            assert(!awaits(events.drop_last()[k], approval));
        } else if k < m {
            assert(!awaits(events.drop_last()[m], approval));
        }
    } else if events[k].thread_id@ == thread
        && events[k].kind->ToolInvocationWaitingApproval_invocation_id@ == invocation {
        assert(waits_since(events.take(n), approval, k));
    }
}

proof fn tools_agree(
    tools: Seq<ActiveToolInvocationModel>,
    stays: spec_fn(ActiveToolInvocationModel) -> bool,
    invocation: Seq<char>,
)
    requires
        forall|tool: ActiveToolInvocationModel| #[trigger]
            stays(tool) <==> tool.invocation_id != invocation,
    ensures
        tools.filter(stays) == agent_tree::tools_without(tools, invocation),
    decreases tools.len(),
{
    reveal(Seq::filter);
    if tools.len() > 0 {
        tools_agree(tools.drop_last(), stays, invocation);
    }
}

proof fn all_stay(
    tools: Seq<ActiveToolInvocationModel>,
    stays: spec_fn(ActiveToolInvocationModel) -> bool,
)
    requires
        forall|tool: ActiveToolInvocationModel| #[trigger] stays(tool),
    ensures
        tools.filter(stays) == tools,
    decreases tools.len(),
{
    reveal(Seq::filter);
    if tools.len() > 0 {
        all_stay(tools.drop_last(), stays);
        assert(tools.drop_last().push(tools.last()) =~= tools);
    } else {
        assert(tools.filter(stays) =~= tools);
    }
}

/// An invocation that has ended, and was not started again, is no longer at work: whether it was
/// completed, failed or was cancelled.
pub proof fn ended_tools_are_not_at_work(
    tasks: Map<Seq<char>, Seq<char>>,
    said: Map<Seq<char>, Seq<char>>,
    events: Seq<RuntimeEvent>,
    thread: Seq<char>,
    invocation: Seq<char>,
    i: int,
)
    requires
        0 <= i < events.len(),
        finishes(events[i], thread, invocation) || is_decided_at(events, i, thread, invocation),
        forall|j: int| i < j < events.len() ==> !begins(#[trigger] events[j], thread, invocation),
    ensures
        ({
            let tools = tools_in(agent_tree::activity_of(tasks, said, events).active, thread);
            forall|k: int|
                0 <= k < tools.len() ==> (#[trigger] tools[k]).invocation_id != invocation
        }),
{
    tools_are_open_starts(tasks, said, events, thread);
    let tools = tools_in(agent_tree::activity_of(tasks, said, events).active, thread);
    let all = counting(events.len());
    let test = |i: int| is_open(events, thread, i);
    let starts = all.filter(test);
    assert forall|k: int| 0 <= k < tools.len() implies (#[trigger] tools[k]).invocation_id
        != invocation by {
        let s = starts[k];
        all.lemma_filter_pred(test, k);
        assert(test(s));
        assert(tools[k] == started_tool(events[s]));
        if tools[k].invocation_id == invocation {
            assert(begins(events[s], thread, invocation));
            assert(s <= i);
            if s == i {
                assert(events[i].kind is ToolInvocationStarted);
                if is_decided_at(events, i, thread, invocation) {
                    let (approval, m) = choose|approval: Seq<char>, m: int|
                        {
                            &&& decides(events[i], approval)
                            &&& #[trigger] waits_since(events.take(i), approval, m)
                            &&& events[m].thread_id@ == thread
                            &&& events[m].kind->ToolInvocationWaitingApproval_invocation_id@
                                == invocation
                        };
                }
            } else {
                assert(!finishes(events[i], thread, invocation));
            }
        }
    }
}

proof fn last_of_filter(n: nat, test: spec_fn(int) -> bool, i: int)
    requires
        0 <= i < n,
        test(i),
        forall|j: int| i < j < n ==> !#[trigger] test(j),
    ensures
        counting(n).filter(test).len() > 0,
        counting(n).filter(test).last() == i,
    decreases n,
{
    reveal(Seq::filter);
    let all = counting(n);
    assert(all.drop_last() =~= counting((n - 1) as nat));
    assert(all.last() == n - 1);
    if i < n - 1 {
        assert(!test(n - 1));
        last_of_filter((n - 1) as nat, test, i);
    }
}

proof fn none_in_filter(n: nat, test: spec_fn(int) -> bool)
    requires
        forall|j: int| 0 <= j < n ==> !#[trigger] test(j),
    ensures
        counting(n).filter(test).len() == 0,
    decreases n,
{
    reveal(Seq::filter);
    let all = counting(n);
    if n > 0 {
        assert(all.drop_last() =~= counting((n - 1) as nat));
        assert(all.last() == n - 1);
        assert(!test(n - 1));
        none_in_filter((n - 1) as nat, test);
    }
}

/// The current tool of a thread is that of the invocation that was started last among those still
/// at work.
pub proof fn current_tool_is_the_last_at_work(
    known: AgentDetails,
    events: Seq<RuntimeEvent>,
    thread: Seq<char>,
    i: int,
)
    requires
        is_open(events, thread, i),
        forall|j: int| i < j < events.len() ==> !#[trigger] is_open(events, thread, j),
    ensures
        agent_tree::value_of(agent_tree::details_after(known, events).tools, thread) == Some(
            events[i].kind->ToolInvocationStarted_tool_name@,
        ),
{
    tools_are_open_starts(known.tasks, known.said, events, thread);
    let test = |i: int| is_open(events, thread, i);
    assert forall|j: int| i < j < events.len() implies !#[trigger] test(j) by {
        assert(!is_open(events, thread, j));
    }
    last_of_filter(events.len(), test, i);
    let starts = open_starts(events, thread);
    let active = agent_tree::activity_of(known.tasks, known.said, events).active;
    let tools = tools_in(active, thread);
    assert(tools.last() == started_tool(events[starts.last()]));
}

/// A thread in which nothing is at work after these events has the current tool that it had before
/// them, if any.
pub proof fn idle_threads_have_no_new_tool(
    known: AgentDetails,
    events: Seq<RuntimeEvent>,
    thread: Seq<char>,
)
    requires
        forall|j: int| 0 <= j < events.len() ==> !#[trigger] is_open(events, thread, j),
    ensures
        agent_tree::value_of(agent_tree::details_after(known, events).tools, thread)
            == agent_tree::value_of(known.tools, thread),
{
    tools_are_open_starts(known.tasks, known.said, events, thread);
    let test = |i: int| is_open(events, thread, i);
    assert forall|j: int| 0 <= j < events.len() implies !#[trigger] test(j) by {
        assert(!is_open(events, thread, j));
    }
    none_in_filter(events.len(), test);
}

/// Whether an event gives an agent a task.
pub open spec fn gives_task(event: RuntimeEvent, agent: Seq<char>) -> bool {
    event.kind matches RuntimeEventKind::SubagentSpawned { child_thread_id, .. }
        && child_thread_id@ == agent
}

/// Whether an event is a message that an agent wrote or got.
pub open spec fn concerns(event: RuntimeEvent, agent: Seq<char>) -> bool {
    event.kind matches RuntimeEventKind::InterAgentMessageSent {
        author_thread_id,
        recipient_thread_id,
        ..
    } && (author_thread_id@ == agent || recipient_thread_id@ == agent)
}

proof fn told_after(
    known: AgentDetails,
    events: Seq<RuntimeEvent>,
    agent: Seq<char>,
)
    requires
        events.len() > 0,
    ensures
        ({
            let rest = agent_tree::activity_of(known.tasks, known.said, events.drop_last());
            let after = agent_tree::activity_of(known.tasks, known.said, events);
            &&& agent_tree::value_of(after.tasks, agent) == if gives_task(events.last(), agent) {
                Some(events.last().kind->SubagentSpawned_message_preview@)
            } else {
                agent_tree::value_of(rest.tasks, agent)
            }
            &&& agent_tree::value_of(after.said, agent) == if concerns(events.last(), agent) {
                Some(events.last().kind->InterAgentMessageSent_content_preview@)
            } else {
                agent_tree::value_of(rest.said, agent)
            }
        }),
{
}

/// The task of an agent is the last that it was given; where these events give it none, the one
/// that it had stays.
pub proof fn the_last_task_counts(
    known: AgentDetails,
    events: Seq<RuntimeEvent>,
    agent: Seq<char>,
)
    ensures
        forall|i: int|
            0 <= i < events.len() && #[trigger] gives_task(events[i], agent) && (forall|j: int|
                i < j < events.len() ==> !#[trigger] gives_task(events[j], agent))
                ==> agent_tree::value_of(
                agent_tree::details_after(known, events).tasks,
                agent,
            ) == Some(events[i].kind->SubagentSpawned_message_preview@),
        (forall|j: int| 0 <= j < events.len() ==> !#[trigger] gives_task(events[j], agent))
            ==> agent_tree::value_of(agent_tree::details_after(known, events).tasks, agent)
            == agent_tree::value_of(known.tasks, agent),
    decreases events.len(),
{
    if events.len() > 0 {
        let rest = events.drop_last();
        the_last_task_counts(known, rest, agent);
        told_after(known, events, agent);
        let n = rest.len() as int;
        assert(events[n] == events.last());
        assert forall|i: int|
            0 <= i < events.len() && #[trigger] gives_task(events[i], agent) && (forall|j: int|
                i < j < events.len() ==> !#[trigger] gives_task(
                    events[j],
                    agent,
                )) implies agent_tree::value_of(
            agent_tree::details_after(known, events).tasks,
            agent,
        ) == Some(events[i].kind->SubagentSpawned_message_preview@) by {
            if i < n {
                assert(rest[i] == events[i]);
                assert(!gives_task(events[n], agent));
                assert forall|j: int| i < j < rest.len() implies !#[trigger] gives_task(
                    rest[j],
                    agent,
                ) by {
                    assert(rest[j] == events[j]);
                }
                assert(gives_task(rest[i], agent));
            }
        }
        if forall|j: int| 0 <= j < events.len() ==> !#[trigger] gives_task(events[j], agent) {
            assert(!gives_task(events[n], agent));
            assert forall|j: int| 0 <= j < rest.len() implies !#[trigger] gives_task(
                rest[j],
                agent,
            ) by {
                assert(rest[j] == events[j]);
            }
        }
    }
}

/// The last activity of an agent is the last message that it wrote or got; where these events hold
/// none, the one that it had stays.
pub proof fn the_last_message_counts(
    known: AgentDetails,
    events: Seq<RuntimeEvent>,
    agent: Seq<char>,
)
    ensures
        forall|i: int|
            0 <= i < events.len() && #[trigger] concerns(events[i], agent) && (forall|j: int|
                i < j < events.len() ==> !#[trigger] concerns(events[j], agent))
                ==> agent_tree::value_of(
                agent_tree::details_after(known, events).said,
                agent,
            ) == Some(events[i].kind->InterAgentMessageSent_content_preview@),
        (forall|j: int| 0 <= j < events.len() ==> !#[trigger] concerns(events[j], agent))
            ==> agent_tree::value_of(agent_tree::details_after(known, events).said, agent)
            == agent_tree::value_of(known.said, agent),
    decreases events.len(),
{
    if events.len() > 0 {
        let rest = events.drop_last();
        the_last_message_counts(known, rest, agent);
        told_after(known, events, agent);
        let n = rest.len() as int;
        assert(events[n] == events.last());
        assert forall|i: int|
            0 <= i < events.len() && #[trigger] concerns(events[i], agent) && (forall|j: int|
                i < j < events.len() ==> !#[trigger] concerns(
                    events[j],
                    agent,
                )) implies agent_tree::value_of(
            agent_tree::details_after(known, events).said,
            agent,
        ) == Some(events[i].kind->InterAgentMessageSent_content_preview@) by {
            if i < n {
                assert(rest[i] == events[i]);
                assert(!concerns(events[n], agent));
                assert forall|j: int| i < j < rest.len() implies !#[trigger] concerns(
                    rest[j],
                    agent,
                ) by {
                    assert(rest[j] == events[j]);
                }
                assert(concerns(rest[i], agent));
            }
        }
        if forall|j: int| 0 <= j < events.len() ==> !#[trigger] concerns(events[j], agent) {
            assert(!concerns(events[n], agent));
            assert forall|j: int| 0 <= j < rest.len() implies !#[trigger] concerns(
                rest[j],
                agent,
            ) by {
                assert(rest[j] == events[j]);
            }
        }
    }
}

/// What the agents tell is taken in one after the other, the root first. An agent of which nothing
/// is stored tells nothing.
pub proof fn agents_are_heard_in_order(
    root_events: Seq<RuntimeEvent>,
    children: Seq<AgentChild>,
    child: AgentChild,
)
    ensures
        agent_tree::details_of(root_events, Seq::empty()) == agent_tree::details_after(
            AgentDetails { tasks: Map::empty(), said: Map::empty(), tools: Map::empty() },
            root_events,
        ),
        agent_tree::details_of(root_events, children.push(child)) == match child.state {
            Some(state) => agent_tree::details_after(
                agent_tree::details_of(root_events, children),
                state.events@,
            ),
            None => agent_tree::details_of(root_events, children),
        },
{
    assert(children.push(child).drop_last() =~= children);
}

/// Of the edges that lead to an agent, the last in the order of the tree counts.
pub proof fn the_last_edge_counts(
    root: AgentRecordModel,
    children: Seq<AgentChild>,
    known: AgentDetails,
    i: int,
)
    requires
        0 <= i < children.len(),
        forall|j: int|
            i < j < children.len() ==> (#[trigger] children[j]).edge.child_thread_id@
                != children[i].edge.child_thread_id@,
    ensures
        ({
            let records = agent_tree::records_of(root, children, known);
            let id = children[i].edge.child_thread_id@;
            &&& records.contains_key(id)
            &&& records[id].thread_id == id
            &&& records[id].parent_thread_id == Some(children[i].edge.parent_thread_id@)
            &&& records[id].root_thread_id == children[i].edge.root_thread_id@
            &&& records[id] == agent_tree::child_record_of(children[i], known)
        }),
    decreases children.len(),
{
    if i < children.len() - 1 {
        let rest = children.drop_last();
        assert forall|j: int| i < j < rest.len() implies (
        #[trigger] rest[j]).edge.child_thread_id@ != rest[i].edge.child_thread_id@ by {
            assert(rest[j] == children[j]);
        }
        the_last_edge_counts(root, rest, known, i);
        assert(children[children.len() - 1] == children.last());
    }
}

/// No agent is shown but the root and those that an edge leads to.
pub proof fn nobody_else_is_shown(
    root: AgentRecordModel,
    children: Seq<AgentChild>,
    known: AgentDetails,
    id: Seq<char>,
)
    requires
        agent_tree::records_of(root, children, known).contains_key(id),
        id != root.thread_id,
    ensures
        exists|i: int|
            0 <= i < children.len() && (#[trigger] children[i]).edge.child_thread_id@ == id,
    decreases children.len(),
{
    if children.len() > 0 {
        if children.last().edge.child_thread_id@ == id {
            assert(children[children.len() - 1].edge.child_thread_id@ == id);
        } else {
            let rest = children.drop_last();
            nobody_else_is_shown(root, rest, known, id);
            let i = choose|i: int|
                0 <= i < rest.len() && (#[trigger] rest[i]).edge.child_thread_id@ == id;
            assert(children[i].edge.child_thread_id@ == id);
        }
    }
}

/// A spawned agent is shown with what is stored of it, and with what all agents told of it.
pub proof fn agents_are_shown_as_they_are(child: AgentChild, known: AgentDetails)
    ensures
        ({
            let record = agent_tree::child_record_of(child, known);
            let id = child.edge.child_thread_id@;
            &&& record.last_task_message is Some <==> known.tasks.contains_key(id)
            &&& known.tasks.contains_key(id) ==> record.last_task_message == Some(known.tasks[id])
            &&& record.last_activity is Some <==> known.said.contains_key(id)
            &&& known.said.contains_key(id) ==> record.last_activity == Some(known.said[id])
            &&& record.current_tool is Some <==> known.tools.contains_key(id)
            &&& known.tools.contains_key(id) ==> record.current_tool == Some(known.tools[id])
            &&& child.state matches Some(state) ==> match state.snapshot.lineage {
                Some(lineage) => {
                    &&& record.depth == lineage.depth
                    &&& record.agent_path == lineage.agent_path@
                    &&& record.agent_type == lineage.agent_type
                    &&& record.agent_role == lineage.agent_role.deep_view()
                    &&& record.agent_nickname == lineage.agent_nickname.deep_view()
                },
                None => {
                    &&& record.agent_path == child.edge.agent_path@
                    &&& record.agent_type is None
                    &&& record.agent_role is None
                    &&& record.agent_nickname is None
                },
            }
            &&& child.state is None ==> {
                &&& record.agent_path == child.edge.agent_path@
                &&& record.agent_role is None
                &&& record.tokens_used is None
            }
            &&& child.state matches Some(state) ==> record.tokens_used
                == match state.snapshot.token_info {
                Some(info) => Some(info.total_token_usage.total_tokens),
                None => None,
            }
        }),
{
}

/// The agent at the root is shown with what is stored of it, and with what all agents told of it;
/// it has no parent, no task, and stands idle unless it is loaded.
pub proof fn roots_are_shown_as_they_are(
    root_thread_id: Seq<char>,
    root: StoredThreadState,
    live: Option<AgentTreeAgentStatus>,
    known: AgentDetails,
)
    ensures
        ({
            let record = agent_tree::root_record_of(root_thread_id, root, live, known);
            &&& record.thread_id == root_thread_id
            &&& record.root_thread_id == root_thread_id
            &&& record.parent_thread_id is None
            &&& record.depth == 0
            &&& record.agent_path == "root"@
            &&& record.last_task_message is None
            &&& live matches Some(status) ==> record.status == status
            &&& live is None ==> record.status is Idle
            &&& record.last_activity is Some <==> known.said.contains_key(root_thread_id)
            &&& known.said.contains_key(root_thread_id) ==> record.last_activity == Some(
                known.said[root_thread_id],
            )
            &&& record.current_tool is Some <==> known.tools.contains_key(root_thread_id)
            &&& known.tools.contains_key(root_thread_id) ==> record.current_tool == Some(
                known.tools[root_thread_id],
            )
            &&& record.tokens_used is Some <==> root.snapshot.token_info is Some
            &&& root.snapshot.token_info matches Some(info) ==> record.tokens_used == Some(
                info.total_token_usage.total_tokens,
            )
            &&& root.snapshot.lineage matches Some(lineage) ==> record.agent_role
                == lineage.agent_role.deep_view() && record.agent_type == lineage.agent_type
                && record.agent_nickname == lineage.agent_nickname.deep_view()
            &&& root.snapshot.lineage is None ==> record.agent_role is None && record.agent_type
                is None && record.agent_nickname is None
        }),
{
}

/// An agent that was closed is done, whatever it was at. One that is open stands where it stands
/// while loaded; one that is not loaded has failed exactly where its last turn did, and is idle
/// otherwise.
pub proof fn agents_stand_where_they_were_left(
    edge: SpawnEdgeStatus,
    live: Option<AgentTreeAgentStatus>,
    events: Option<Seq<RuntimeEvent>>,
)
    ensures
        ({
            let status = agent_tree::edge_status_of(edge, live, events);
            let failed = events is Some && (projection::latest_turn_state_of(
                events->0,
            ) matches Some(turn) && turn.status == TurnStatus::Failed);
            &&& edge is Closed ==> status is Done
            &&& edge is Open && live is Some ==> live == Some(status)
            &&& edge is Open && live is None ==> (status is Failed <==> failed) && (status is Idle
                <==> !failed)
        }),
{
}

/// A loaded agent waits exactly where its turn or a request in it waits for the user, and runs
/// where it has a turn and nothing waits.
pub proof fn loaded_agents_wait_or_run(active_turn: Option<TurnStatus>, pending: nat)
    ensures
        ({
            let status = agent_tree::live_status_of(active_turn, pending);
            let waits = pending > 0 || (active_turn is Some && active_turn->0 is WaitingApproval);
            &&& (status is Some && status->0 is WaitingApproval) <==> waits
            &&& (status is Some && status->0 is Running) <==> active_turn is Some && !waits
            &&& status is None <==> active_turn is None && pending == 0
        }),
{
}

/// The path of an agent has one part more than that of the agent above it. Slashes around the parts
/// make no difference.
pub proof fn paths_count_their_parts(path: Seq<char>, name: Seq<char>)
    requires
        name.len() > 0,
        !name.contains('/'),
    ensures
        agent_tree::part_count(path + seq!['/'] + name) == agent_tree::part_count(path) + 1,
        agent_tree::part_count(path.push('/')) == agent_tree::part_count(path),
        agent_tree::part_count(Seq::empty()) == 0,
    decreases name.len(),
{
    let whole = path + seq!['/'] + name;
    assert(path.push('/').drop_last() =~= path);
    assert(path + seq!['/'] =~= path.push('/'));
    assert(agent_tree::part_count(path.push('/')) == agent_tree::part_count(path)) by {
        assert(path.push('/').last() == '/');
    }
    let shorter = name.drop_last();
    assert(whole.drop_last() =~= path + seq!['/'] + shorter);
    assert(whole.last() == name[name.len() - 1]);
    assert(name.contains(name[name.len() - 1]));
    assert(name[name.len() - 1] != '/');
    if name.len() == 1 {
        assert(whole.drop_last() =~= path.push('/'));
        assert(whole[whole.len() - 2] == '/');
        assert(agent_tree::part_count(whole) == agent_tree::part_count(whole.drop_last()) + 1);
    } else {
        assert forall|c: char| shorter.contains(c) implies name.contains(c) by {
            let k = shorter.index_of(c);
            assert(name[k] == c);
        }
        paths_count_their_parts(path, shorter);
        assert(whole[whole.len() - 2] == name[name.len() - 2]);
        assert(name.contains(name[name.len() - 2]));
    }
}

/// An agent stands before another where its path does. Of two at one path, that stands before the
/// other whose thread has the lesser name.
pub proof fn agents_stand_by_path_and_name(a: (Seq<char>, Seq<char>), b: (Seq<char>, Seq<char>))
    ensures
        a.0 != b.0 ==> agent_tree::place_before(a, b) == text::is_before(a.0, b.0),
        a.0 == b.0 ==> agent_tree::place_before(a, b) == text::is_before(a.1, b.1),
{
    text::before_is_strict(a.0);
}

/// An agent is shown once, right below its parent, and nothing else is shown there. It stands before
/// the agents below the same parent whose paths come later.
pub proof fn agents_are_shown_below_their_parent(
    node: AgentTreeNode,
    records: Map<Seq<char>, AgentRecordModel>,
    id: Seq<char>,
    child: Seq<char>,
)
    requires
        agent_tree::is_tree(node, records, id),
    ensures
        node.thread_id is Some && node.thread_id->0@ == records[id].thread_id,
        records.contains_key(child) && records[child].parent_thread_id == Some(id) <==> exists|
            i: int,
        | 0 <= i < node.children@.len() && #[trigger] agent_tree::child_threads(node)[i] == child,
        forall|i: int, j: int|
            0 <= i < node.children@.len() && 0 <= j < node.children@.len()
                && #[trigger] agent_tree::child_threads(node)[i]
                == #[trigger] agent_tree::child_threads(node)[j] ==> i == j,
        forall|i: int, j: int|
            0 <= i < node.children@.len() && 0 <= j < node.children@.len() && text::is_before(
                records[#[trigger] agent_tree::child_threads(node)[i]].agent_path,
                records[#[trigger] agent_tree::child_threads(node)[j]].agent_path,
            ) ==> i < j,
        forall|i: int|
            0 <= i < node.children@.len() ==> agent_tree::is_tree(
                #[trigger] node.children@[i],
                records,
                agent_tree::child_threads(node)[i],
            ),
{
    let list = agent_tree::child_threads(node);
    assert(list.contains(child) <==> agent_tree::parent_of(records, child) == Some(id));
    if list.contains(child) {
        let i = choose|i: int| 0 <= i < list.len() && list[i] == child;
        assert(list[i] == child);
    }
    if exists|i: int|
        0 <= i < node.children@.len() && #[trigger] agent_tree::child_threads(node)[i] == child {
        assert(list.contains(child));
    }
    assert forall|i: int, j: int|
        0 <= i < node.children@.len() && 0 <= j < node.children@.len() && #[trigger] list[i]
            == #[trigger] list[j] implies i == j by {
        let place = (records[list[i]].agent_path, list[i]);
        agent_tree::place_before_is_strict(place);
    }
    assert forall|i: int, j: int|
        0 <= i < node.children@.len() && 0 <= j < node.children@.len() && text::is_before(
            records[#[trigger] list[i]].agent_path,
            records[#[trigger] list[j]].agent_path,
        ) implies i < j by {
        let a = (records[list[i]].agent_path, list[i]);
        let b = (records[list[j]].agent_path, list[j]);
        text::before_is_strict(a.0);
        if j < i {
            agent_tree::place_before_chain(a, b, a);
            agent_tree::place_before_is_strict(a);
        }
    }
}

/// A node shows each thing that is recorded of its agent in its own place.
pub proof fn nodes_show_their_record(
    node: AgentTreeNode,
    records: Map<Seq<char>, AgentRecordModel>,
    id: Seq<char>,
)
    requires
        agent_tree::is_tree(node, records, id),
    ensures
        ({
            let record = records[id];
            &&& node.depth == record.depth
            &&& node.status == record.status
            &&& node.tokens_used == record.tokens_used
            &&& node.agent_type == record.agent_type
            &&& node.root_thread_id@ == record.root_thread_id
            &&& node.agent_path@ == record.agent_path
            &&& node.parent_thread_id is Some <==> record.parent_thread_id is Some
            &&& node.parent_thread_id is Some ==> node.parent_thread_id->0@
                == record.parent_thread_id->0
            &&& node.last_task_message is Some <==> record.last_task_message is Some
            &&& node.last_task_message is Some ==> node.last_task_message->0@
                == record.last_task_message->0
            &&& node.last_activity is Some <==> record.last_activity is Some
            &&& node.last_activity is Some ==> node.last_activity->0@ == record.last_activity->0
            &&& node.current_tool is Some <==> record.current_tool is Some
            &&& node.current_tool is Some ==> node.current_tool->0@ == record.current_tool->0
            &&& node.agent_nickname is Some <==> record.agent_nickname is Some
            &&& node.agent_nickname is Some ==> node.agent_nickname->0@ == record.agent_nickname->0
            &&& node.agent_role is Some <==> record.agent_role is Some
            &&& node.agent_role is Some ==> node.agent_role->0@ == record.agent_role->0
        }),
{
}

/// A tree is answered exactly where the thread is stored, and its root is as well where that is
/// another thread. The thread that is missing is named: the one that was asked for, or else the root.
pub proof fn trees_need_their_root(
    res: Result<AgentTreeResponse, AppServerError>,
    thread_id: Seq<char>,
    requested: Option<StoredThreadState>,
    root: Option<StoredThreadState>,
    live: Option<AgentTreeAgentStatus>,
    children: Seq<AgentChild>,
)
    requires
        agent_tree::is_tree_answer(res, thread_id, requested, root, live, children),
    ensures
        requested is None ==> (res matches Err(AppServerError::ThreadNotFound(missing)) && missing@
            == thread_id),
        requested matches Some(asked) ==> (asked.snapshot.lineage is None ==> res is Ok),
        requested matches Some(asked) ==> (asked.snapshot.lineage matches Some(lineage) ==> {
            &&& lineage.root_thread_id@ == thread_id ==> res is Ok
            &&& lineage.root_thread_id@ != thread_id ==> (res is Ok <==> root is Some)
            &&& res matches Err(error) ==> (error matches AppServerError::ThreadNotFound(missing)
                && missing@ == lineage.root_thread_id@)
        }),
{
}

} // verus!
