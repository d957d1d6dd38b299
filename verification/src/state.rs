//! What is stored of threads, and of what is open in them.
use vstd::prelude::*;

use crate::config::{PermissionProfile, PolicyMode, ThinkingMode};
use crate::data::{Alike, Duplicate};
use crate::events::RuntimeEvent;
use crate::ids::{ApprovalId, ExecSessionId, ThreadId};
use crate::types::{
    AgentType, CompactionSummary, CompactionSummaryModel, ConversationMessage,
    ConversationMessageModel, ModelRef, ModelRefModel, ResponseItem, TokenUsageInfo,
    TokenUsageInfoModel,
};

verus! {

/// What a thread was started by.
#[derive(Debug, Clone, Copy, PartialEq, Eq, Structural)]
pub enum ThreadSource {
    User,
    Subagent,
    Fork,
}

impl DeepView for ThreadSource {
    type V = ThreadSource;

    open spec fn deep_view(&self) -> ThreadSource {
        *self
    }
}

impl Duplicate for ThreadSource {
    fn duplicate(&self) -> (res: Self) {
        *self
    }
}

/// Where the thread of an agent stands among the agents.
#[derive(Debug, Clone, PartialEq, Eq)]
pub struct ThreadLineage {
    pub parent_thread_id: ThreadId,
    pub root_thread_id: ThreadId,
    pub depth: u32,
    pub agent_path: String,
    pub agent_type: Option<AgentType>,
    pub agent_role: Option<String>,
    pub agent_nickname: Option<String>,
    pub forked_from_id: Option<ThreadId>,
}

/// What a `ThreadLineage` holds.
#[verifier::ext_equal]
pub struct ThreadLineageModel {
    pub parent_thread_id: Seq<char>,
    pub root_thread_id: Seq<char>,
    pub depth: u32,
    pub agent_path: Seq<char>,
    pub agent_type: Option<AgentType>,
    pub agent_role: Option<Seq<char>>,
    pub agent_nickname: Option<Seq<char>>,
    pub forked_from_id: Option<Seq<char>>,
}

impl DeepView for ThreadLineage {
    type V = ThreadLineageModel;

    open spec fn deep_view(&self) -> ThreadLineageModel {
        ThreadLineageModel {
            parent_thread_id: self.parent_thread_id.deep_view(),
            root_thread_id: self.root_thread_id.deep_view(),
            depth: self.depth.deep_view(),
            agent_path: self.agent_path.deep_view(),
            agent_type: self.agent_type.deep_view(),
            agent_role: self.agent_role.deep_view(),
            agent_nickname: self.agent_nickname.deep_view(),
            forked_from_id: self.forked_from_id.deep_view(),
        }
    }
}

impl Duplicate for ThreadLineage {
    fn duplicate(&self) -> (res: Self) {
        ThreadLineage {
            parent_thread_id: self.parent_thread_id.duplicate(),
            root_thread_id: self.root_thread_id.duplicate(),
            depth: self.depth.duplicate(),
            agent_path: self.agent_path.duplicate(),
            agent_type: self.agent_type.duplicate(),
            agent_role: self.agent_role.duplicate(),
            agent_nickname: self.agent_nickname.duplicate(),
            forked_from_id: self.forked_from_id.duplicate(),
        }
    }
}

/// The settings that the last turn ran with.
#[derive(Debug, Clone, PartialEq, Eq)]
pub struct TurnContextItem {
    pub workspace_root: String,
    pub cwd: String,
    pub permission_profile: PermissionProfile,
    pub model: ModelRef,
    pub thinking_mode: Option<ThinkingMode>,
    pub command_timeout_secs: u64,
    pub max_output_bytes: usize,
    pub policy_mode: PolicyMode,
}

/// What a `TurnContextItem` holds.
#[verifier::ext_equal]
pub struct TurnContextItemModel {
    pub workspace_root: Seq<char>,
    pub cwd: Seq<char>,
    pub permission_profile: PermissionProfile,
    pub model: ModelRefModel,
    pub thinking_mode: Option<ThinkingMode>,
    pub command_timeout_secs: u64,
    pub max_output_bytes: usize,
    pub policy_mode: PolicyMode,
}

impl DeepView for TurnContextItem {
    type V = TurnContextItemModel;

    open spec fn deep_view(&self) -> TurnContextItemModel {
        TurnContextItemModel {
            workspace_root: self.workspace_root.deep_view(),
            cwd: self.cwd.deep_view(),
            permission_profile: self.permission_profile.deep_view(),
            model: self.model.deep_view(),
            thinking_mode: self.thinking_mode.deep_view(),
            command_timeout_secs: self.command_timeout_secs.deep_view(),
            max_output_bytes: self.max_output_bytes.deep_view(),
            policy_mode: self.policy_mode.deep_view(),
        }
    }
}

impl Duplicate for TurnContextItem {
    fn duplicate(&self) -> (res: Self) {
        TurnContextItem {
            workspace_root: self.workspace_root.duplicate(),
            cwd: self.cwd.duplicate(),
            permission_profile: self.permission_profile.duplicate(),
            model: self.model.duplicate(),
            thinking_mode: self.thinking_mode.duplicate(),
            command_timeout_secs: self.command_timeout_secs.duplicate(),
            max_output_bytes: self.max_output_bytes.duplicate(),
            policy_mode: self.policy_mode.duplicate(),
        }
    }
}

/// What is known of a thread.
#[derive(Debug, Clone, PartialEq, Eq)]
pub struct ThreadSnapshot {
    pub thread_id: ThreadId,
    pub workspace_root: String,
    pub cwd: String,
    pub permission_profile: PermissionProfile,
    pub thread_source: ThreadSource,
    pub lineage: Option<ThreadLineage>,
    pub latest_compaction: Option<CompactionSummary>,
    pub conversation: Vec<ConversationMessage>,
    pub token_info: Option<TokenUsageInfo>,
    pub reference_turn_context: Option<TurnContextItem>,
}

/// What a `ThreadSnapshot` holds.
#[verifier::ext_equal]
pub struct ThreadSnapshotModel {
    pub thread_id: Seq<char>,
    pub workspace_root: Seq<char>,
    pub cwd: Seq<char>,
    pub permission_profile: PermissionProfile,
    pub thread_source: ThreadSource,
    pub lineage: Option<ThreadLineageModel>,
    pub latest_compaction: Option<CompactionSummaryModel>,
    pub conversation: Seq<ConversationMessageModel>,
    pub token_info: Option<TokenUsageInfoModel>,
    pub reference_turn_context: Option<TurnContextItemModel>,
}

impl DeepView for ThreadSnapshot {
    type V = ThreadSnapshotModel;

    open spec fn deep_view(&self) -> ThreadSnapshotModel {
        ThreadSnapshotModel {
            thread_id: self.thread_id.deep_view(),
            workspace_root: self.workspace_root.deep_view(),
            cwd: self.cwd.deep_view(),
            permission_profile: self.permission_profile.deep_view(),
            thread_source: self.thread_source.deep_view(),
            lineage: self.lineage.deep_view(),
            latest_compaction: self.latest_compaction.deep_view(),
            conversation: self.conversation.deep_view(),
            token_info: self.token_info.deep_view(),
            reference_turn_context: self.reference_turn_context.deep_view(),
        }
    }
}

impl Duplicate for ThreadSnapshot {
    fn duplicate(&self) -> (res: Self) {
        ThreadSnapshot {
            thread_id: self.thread_id.duplicate(),
            workspace_root: self.workspace_root.duplicate(),
            cwd: self.cwd.duplicate(),
            permission_profile: self.permission_profile.duplicate(),
            thread_source: self.thread_source.duplicate(),
            lineage: self.lineage.duplicate(),
            latest_compaction: self.latest_compaction.duplicate(),
            conversation: self.conversation.duplicate(),
            token_info: self.token_info.duplicate(),
            reference_turn_context: self.reference_turn_context.duplicate(),
        }
    }
}

/// What is stored of a thread.
#[derive(Debug, Clone, PartialEq, Eq)]
pub struct StoredThreadState {
    pub snapshot: ThreadSnapshot,
    pub response_items: Vec<ResponseItem>,
    pub events: Vec<RuntimeEvent>,
}

/// What is open in a thread: requests that wait for the user, and running commands.
#[derive(Debug, Clone, PartialEq, Eq)]
pub struct RuntimeOverlay {
    pub pending_approvals: Vec<ApprovalId>,
    pub pending_user_inputs: Vec<ApprovalId>,
    pub open_exec_sessions: Vec<ExecSessionId>,
}

/// Whether a spawned agent is still at work.
#[derive(Debug, Clone, Copy, PartialEq, Eq, Structural)]
pub enum SpawnEdgeStatus {
    Open,
    Closed,
}

impl DeepView for SpawnEdgeStatus {
    type V = SpawnEdgeStatus;

    open spec fn deep_view(&self) -> SpawnEdgeStatus {
        *self
    }
}

/// An agent and the one that spawned it.
#[derive(Debug, Clone, PartialEq, Eq)]
pub struct ThreadSpawnEdge {
    pub parent_thread_id: ThreadId,
    pub child_thread_id: ThreadId,
    pub root_thread_id: ThreadId,
    pub agent_path: String,
    pub status: SpawnEdgeStatus,
}

impl RuntimeOverlay {
    /// Whether a request for approval waits for the user.
    pub fn has_pending_approval(&self) -> (res: bool)
        ensures
            res == (self.pending_approvals@.len() > 0),
    {
        !self.pending_approvals.is_empty()
    }

    /// Whether questions wait for the user.
    pub fn has_pending_user_input(&self) -> (res: bool)
        ensures
            res == (self.pending_user_inputs@.len() > 0),
    {
        !self.pending_user_inputs.is_empty()
    }

    /// Whether this request for approval waits for the user.
    pub fn has_pending_approval_id(&self, approval_id: &ApprovalId) -> (res: bool)
        ensures
            res == self.pending_approvals.deep_view().contains(approval_id@),
    {
        for i in 0..self.pending_approvals.len()
            invariant
                forall|j: int|
                    0 <= j < i ==> #[trigger] self.pending_approvals.deep_view()[j]
                        != approval_id@,
        {
            assert(self.pending_approvals.deep_view()[i as int]
                == self.pending_approvals@[i as int].deep_view());
            if self.pending_approvals[i].alike(approval_id) {
                return true;
            }
        }
        false
    }
}

/// A thread that nothing has happened in yet.
pub open spec fn new_thread(
    thread_id: Seq<char>,
    workspace_root: Seq<char>,
    cwd: Seq<char>,
    permission_profile: PermissionProfile,
    thread_source: ThreadSource,
    lineage: Option<ThreadLineageModel>,
) -> ThreadSnapshotModel {
    ThreadSnapshotModel {
        thread_id,
        workspace_root,
        cwd,
        permission_profile,
        thread_source,
        lineage,
        latest_compaction: None,
        conversation: Seq::empty(),
        token_info: None,
        reference_turn_context: None,
    }
}

impl ThreadSnapshot {
    /// A thread that nothing has happened in yet.
    pub fn new_thread_with_options(
        thread_id: ThreadId,
        workspace_root: String,
        cwd: String,
        permission_profile: PermissionProfile,
        thread_source: ThreadSource,
        lineage: Option<ThreadLineage>,
    ) -> (res: Self)
        ensures
            res.deep_view() == new_thread(
                thread_id@,
                workspace_root@,
                cwd@,
                permission_profile,
                thread_source,
                lineage.deep_view(),
            ),
    {
        let res = ThreadSnapshot {
            thread_id,
            workspace_root,
            cwd,
            permission_profile,
            thread_source,
            lineage,
            latest_compaction: None,
            conversation: Vec::new(),
            token_info: None,
            reference_turn_context: None,
        };
        proof {
            assert(res.deep_view().conversation =~= Seq::empty());
        }
        res
    }
}

} // verus!
