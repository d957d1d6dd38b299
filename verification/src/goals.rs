//! Goals of threads: how they are set, stored and shown.
use vstd::prelude::*;

use crate::error::AppServerError;
use crate::ids::{ThreadId, TurnId};
use crate::protocol;
use crate::protocol::{
    validate_thread_goal_objective, ThreadGoal, ThreadGoalGetResponse, ThreadGoalMode,
    ThreadGoalSetParams, ThreadGoalSetResponse, ThreadGoalStatus,
};
use crate::text;

verus! {

/// Where a stored goal stands.
#[derive(Debug, Clone, Copy, PartialEq, Eq, Structural)]
pub enum ThreadGoalStatusRecord {
    Active,
    Paused,
    Blocked,
    UsageLimited,
    BudgetLimited,
    Complete,
}

impl DeepView for ThreadGoalStatusRecord {
    type V = ThreadGoalStatusRecord;

    open spec fn deep_view(&self) -> ThreadGoalStatusRecord {
        *self
    }
}

/// A stored goal.
#[derive(Debug, Clone, PartialEq, Eq)]
pub struct ThreadGoalRecord {
    pub thread_id: ThreadId,
    pub goal_id: String,
    pub objective: String,
    pub status: ThreadGoalStatusRecord,
    pub token_budget: Option<i64>,
    pub tokens_used: i64,
    pub time_used_seconds: i64,
    pub continuation_suppressed: bool,
    pub continuation_suppressed_after_turn_id: Option<TurnId>,
    pub created_at_ms: i64,
    pub updated_at_ms: i64,
}

/// A change to a stored goal. What is absent is left as it is.
#[derive(Debug, Clone, PartialEq, Eq)]
pub struct GoalUpdate {
    pub objective: Option<String>,
    pub status: Option<ThreadGoalStatusRecord>,
    pub token_budget: Option<Option<i64>>,
    pub expected_goal_id: Option<String>,
}

/// What is written for a goal.
#[derive(Debug, Clone, PartialEq, Eq)]
pub enum GoalWrite {
    Replace {
        thread_id: ThreadId,
        objective: String,
        status: ThreadGoalStatusRecord,
        token_budget: Option<i64>,
    },
    Update { thread_id: ThreadId, update: GoalUpdate },
}

/// What is written for the mode of a goal.
#[derive(Debug, Clone, PartialEq, Eq)]
pub enum GoalModeWrite {
    ReplaceForThread(ThreadGoalMode),
    Change(ThreadGoalMode),
    Keep,
}

/// The status of a goal as it is shown.
pub open spec fn shown_status(status: ThreadGoalStatusRecord) -> ThreadGoalStatus {
    match status {
        ThreadGoalStatusRecord::Active => ThreadGoalStatus::Active,
        ThreadGoalStatusRecord::Paused => ThreadGoalStatus::Paused,
        ThreadGoalStatusRecord::Blocked => ThreadGoalStatus::Blocked,
        ThreadGoalStatusRecord::UsageLimited => ThreadGoalStatus::UsageLimited,
        ThreadGoalStatusRecord::BudgetLimited => ThreadGoalStatus::BudgetLimited,
        ThreadGoalStatusRecord::Complete => ThreadGoalStatus::Complete,
    }
}

/// The status of a goal as it is stored.
pub open spec fn stored_status(status: ThreadGoalStatus) -> ThreadGoalStatusRecord {
    match status {
        ThreadGoalStatus::Active => ThreadGoalStatusRecord::Active,
        ThreadGoalStatus::Paused => ThreadGoalStatusRecord::Paused,
        ThreadGoalStatus::Blocked => ThreadGoalStatusRecord::Blocked,
        ThreadGoalStatus::UsageLimited => ThreadGoalStatusRecord::UsageLimited,
        ThreadGoalStatus::BudgetLimited => ThreadGoalStatusRecord::BudgetLimited,
        ThreadGoalStatus::Complete => ThreadGoalStatusRecord::Complete,
    }
}

/// A status is shown as it was stored, and stored as it is shown.
pub proof fn goal_status_round_trip(record: ThreadGoalStatusRecord, status: ThreadGoalStatus)
    ensures
        stored_status(shown_status(record)) == record,
        shown_status(stored_status(status)) == status,
{
}

/// The status of a goal as it is shown.
pub fn status_protocol_from_record(status: ThreadGoalStatusRecord) -> (res: ThreadGoalStatus)
    ensures
        res == shown_status(status),
{
    match status {
        ThreadGoalStatusRecord::Active => ThreadGoalStatus::Active,
        ThreadGoalStatusRecord::Paused => ThreadGoalStatus::Paused,
        ThreadGoalStatusRecord::Blocked => ThreadGoalStatus::Blocked,
        ThreadGoalStatusRecord::UsageLimited => ThreadGoalStatus::UsageLimited,
        ThreadGoalStatusRecord::BudgetLimited => ThreadGoalStatus::BudgetLimited,
        ThreadGoalStatusRecord::Complete => ThreadGoalStatus::Complete,
    }
}

/// The status of a goal as it is stored.
pub fn status_record_from_protocol(status: ThreadGoalStatus) -> (res: ThreadGoalStatusRecord)
    ensures
        res == stored_status(status),
{
    match status {
        ThreadGoalStatus::Active => ThreadGoalStatusRecord::Active,
        ThreadGoalStatus::Paused => ThreadGoalStatusRecord::Paused,
        ThreadGoalStatus::Blocked => ThreadGoalStatusRecord::Blocked,
        ThreadGoalStatus::UsageLimited => ThreadGoalStatusRecord::UsageLimited,
        ThreadGoalStatus::BudgetLimited => ThreadGoalStatusRecord::BudgetLimited,
        ThreadGoalStatus::Complete => ThreadGoalStatusRecord::Complete,
    }
}

/// A stored goal as it is shown.
pub open spec fn shown_goal(record: ThreadGoalRecord) -> ThreadGoal {
    ThreadGoal {
        thread_id: record.thread_id,
        goal_id: record.goal_id,
        objective: record.objective,
        status: shown_status(record.status),
        token_budget: record.token_budget,
        tokens_used: record.tokens_used,
        time_used_seconds: record.time_used_seconds,
        continuation_suppressed: record.continuation_suppressed,
        continuation_suppressed_after_turn_id: record.continuation_suppressed_after_turn_id,
        created_at_ms: record.created_at_ms,
        updated_at_ms: record.updated_at_ms,
    }
}

/// A stored goal as it is shown.
pub fn thread_goal_from_record(record: ThreadGoalRecord) -> (res: ThreadGoal)
    ensures
        res == shown_goal(record),
{
    ThreadGoal {
        thread_id: record.thread_id,
        goal_id: record.goal_id,
        objective: record.objective,
        status: status_protocol_from_record(record.status),
        token_budget: record.token_budget,
        tokens_used: record.tokens_used,
        time_used_seconds: record.time_used_seconds,
        continuation_suppressed: record.continuation_suppressed,
        continuation_suppressed_after_turn_id: record.continuation_suppressed_after_turn_id,
        created_at_ms: record.created_at_ms,
        updated_at_ms: record.updated_at_ms,
    }
}

/// Whether only the runtime gives goals this status.
pub open spec fn is_runtime_owned(status: ThreadGoalStatus) -> bool {
    status == ThreadGoalStatus::UsageLimited || status == ThreadGoalStatus::BudgetLimited
}

/// Turns down a status that only the runtime gives.
pub fn validate_external_goal_status(status: ThreadGoalStatus) -> (res: Result<(), AppServerError>)
    ensures
        match res {
            Ok(_) => !is_runtime_owned(status),
            Err(error) => is_runtime_owned(status) && error.is_invalid(
                "usage_limited and budget_limited are runtime-owned goal statuses"@,
            ),
        },
        res is Err <==> status is UsageLimited || status is BudgetLimited,
{
    if matches!(status, ThreadGoalStatus::UsageLimited | ThreadGoalStatus::BudgetLimited) {
        return Err(
            AppServerError::invalid(
                "usage_limited and budget_limited are runtime-owned goal statuses",
            ),
        );
    }
    Ok(())
}

/// Turns down requests about goals where goals are not stored.
pub fn goal_store(configured: bool) -> (res: Result<(), AppServerError>)
    ensures
        match res {
            Ok(_) => configured,
            Err(error) => !configured && error.is_invalid("thread goal store is not configured"@),
        },
{
    if configured {
        Ok(())
    } else {
        Err(AppServerError::invalid("thread goal store is not configured"))
    }
}

/// Why an objective is turned down, if it is: it must say something, and not too much.
pub open spec fn objective_refusal(objective: Seq<char>) -> Option<Seq<char>> {
    if text::trim_of(objective).len() == 0 {
        Some("goal objective must not be empty"@)
    } else if text::trim_of(objective).len() > protocol::MAX_THREAD_GOAL_OBJECTIVE_CHARS {
        Some(
            "goal objective must be at most "@ + text::decimal_of(
                protocol::MAX_THREAD_GOAL_OBJECTIVE_CHARS as nat,
            ) + " characters"@,
        )
    } else {
        None
    }
}

/// Why a request to set a goal is turned down before anything is written: its objective, its
/// token budget and its status are looked at in this order.
pub open spec fn goal_set_refusal(params: ThreadGoalSetParams) -> Option<Seq<char>> {
    if params.objective is Some && objective_refusal(params.objective->0@) is Some {
        objective_refusal(params.objective->0@)
    } else if params.token_budget matches Some(Some(budget)) && budget <= 0 {
        Some("token_budget must be positive"@)
    } else if params.status matches Some(status) && is_runtime_owned(status) {
        Some("usage_limited and budget_limited are runtime-owned goal statuses"@)
    } else {
        None
    }
}

/// Checks a request to set a goal.
pub fn validate_goal_set(params: &ThreadGoalSetParams) -> (res: Result<(), AppServerError>)
    ensures
        match res {
            Ok(_) => goal_set_refusal(*params) is None,
            Err(error) => goal_set_refusal(*params) matches Some(reason) && error.is_invalid(
                reason,
            ),
        },
{
    if let Some(objective) = &params.objective {
        if let Err(message) = validate_thread_goal_objective(objective.as_str()) {
            return Err(AppServerError::InvalidRequest(message));
        }
    }
    if let Some(Some(token_budget)) = params.token_budget {
        if token_budget <= 0 {
            return Err(AppServerError::invalid("token_budget must be positive"));
        }
    }
    if let Some(status) = params.status {
        if let Err(error) = validate_external_goal_status(status) {
            return Err(error);
        }
    }
    Ok(())
}

/// What is written for a request to set a goal. Where the thread has no goal, one is created: it
/// needs an objective, and is active unless the request says otherwise. Where it has one, only
/// what the request names is changed, and only if the goal is still the same.
pub fn thread_goal_set(params: ThreadGoalSetParams, current: Option<ThreadGoalRecord>) -> (res:
    Result<GoalWrite, AppServerError>)
    ensures
        match goal_set_refusal(params) {
            Some(reason) => res matches Err(error) && error.is_invalid(reason),
            None => match (current, params.objective) {
                (None, None) => res matches Err(error) && error.is_invalid(
                    "objective is required when creating a thread goal"@,
                ),
                (None, Some(objective)) => res == Ok::<GoalWrite, AppServerError>(
                    GoalWrite::Replace {
                        thread_id: params.thread_id,
                        objective,
                        status: match params.status {
                            Some(status) => stored_status(status),
                            None => ThreadGoalStatusRecord::Active,
                        },
                        token_budget: match params.token_budget {
                            Some(budget) => budget,
                            None => None,
                        },
                    },
                ),
                (Some(goal), _) => res == Ok::<GoalWrite, AppServerError>(
                    GoalWrite::Update {
                        thread_id: params.thread_id,
                        update: GoalUpdate {
                            objective: params.objective,
                            status: match params.status {
                                Some(status) => Some(stored_status(status)),
                                None => None,
                            },
                            token_budget: params.token_budget,
                            expected_goal_id: Some(goal.goal_id),
                        },
                    },
                ),
            },
        },
        res matches Ok(write) ==> (write is Replace <==> current is None),
        res is Ok && current is None ==> params.objective is Some,
        res matches Ok(GoalWrite::Replace { thread_id, objective, status, token_budget }) ==> {
            &&& thread_id == params.thread_id
            &&& Some(objective) == params.objective
            &&& params.status is None ==> status is Active
            &&& token_budget matches Some(budget) ==> budget > 0
        },
        res matches Ok(GoalWrite::Update { thread_id, update }) ==> {
            &&& thread_id == params.thread_id
            &&& update.objective == params.objective
            &&& update.status is Some <==> params.status is Some
            &&& update.token_budget == params.token_budget
            &&& update.expected_goal_id == Some(current->0.goal_id)
        },
        current is Some && goal_set_refusal(params) is None ==> res is Ok,
{
    if let Err(error) = validate_goal_set(&params) {
        return Err(error);
    }
    match current {
        None => {
            let objective = match params.objective {
                Some(objective) => objective,
                None => return Err(
                    AppServerError::invalid("objective is required when creating a thread goal"),
                ),
            };
            let status = match params.status {
                Some(status) => status_record_from_protocol(status),
                None => ThreadGoalStatusRecord::Active,
            };
            let token_budget = match params.token_budget {
                Some(budget) => budget,
                None => None,
            };
            Ok(
                GoalWrite::Replace {
                    thread_id: params.thread_id,
                    objective,
                    status,
                    token_budget,
                },
            )
        },
        Some(goal) => {
            let status = match params.status {
                Some(status) => Some(status_record_from_protocol(status)),
                None => None,
            };
            Ok(
                GoalWrite::Update {
                    thread_id: params.thread_id,
                    update: GoalUpdate {
                        objective: params.objective,
                        status,
                        token_budget: params.token_budget,
                        expected_goal_id: Some(goal.goal_id),
                    },
                },
            )
        },
    }
}

/// The goal after an update; a goal that is no longer the expected one was not updated.
pub fn updated_goal(updated: Option<ThreadGoalRecord>) -> (res: Result<ThreadGoal, AppServerError>)
    ensures
        match updated {
            Some(record) => res == Ok::<ThreadGoal, AppServerError>(shown_goal(record)),
            None => res matches Err(error) && error.is_invalid(
                "thread goal changed while applying update"@,
            ),
        },
{
    match updated {
        Some(record) => Ok(thread_goal_from_record(record)),
        None => Err(AppServerError::invalid("thread goal changed while applying update")),
    }
}

/// What is written for the mode of a goal: a new goal replaces the mode that the thread had, a
/// request that names a mode sets it, and any other request keeps it.
pub fn goal_mode_write(creating_new_goal: bool, requested: Option<ThreadGoalMode>) -> (res:
    GoalModeWrite)
    ensures
        res == match (creating_new_goal, requested) {
            (true, Some(mode)) => GoalModeWrite::ReplaceForThread(mode),
            (true, None) => GoalModeWrite::ReplaceForThread(ThreadGoalMode::Standard),
            (false, Some(mode)) => GoalModeWrite::Change(mode),
            (false, None) => GoalModeWrite::Keep,
        },
        res is ReplaceForThread <==> creating_new_goal,
        res is Keep <==> !creating_new_goal && requested is None,
        requested is Some ==> forall|stored: ThreadGoalMode| #[trigger]
            mode_after(res, stored) == requested->0,
{
    match (creating_new_goal, requested) {
        (true, Some(mode)) => GoalModeWrite::ReplaceForThread(mode),
        (true, None) => GoalModeWrite::ReplaceForThread(ThreadGoalMode::Standard),
        (false, Some(mode)) => GoalModeWrite::Change(mode),
        (false, None) => GoalModeWrite::Keep,
    }
}

/// The mode of a goal after it was set. `stored` is the mode that was stored for the goal.
pub open spec fn mode_after(write: GoalModeWrite, stored: ThreadGoalMode) -> ThreadGoalMode {
    match write {
        GoalModeWrite::ReplaceForThread(mode) => mode,
        GoalModeWrite::Change(mode) => mode,
        GoalModeWrite::Keep => stored,
    }
}

/// The answer to a goal that was set: the goal, and its mode. `stored` is the mode that was stored
/// for the goal.
pub fn thread_goal_set_response(
    goal: ThreadGoal,
    write: GoalModeWrite,
    stored: ThreadGoalMode,
) -> (res: ThreadGoalSetResponse)
    ensures
        res == (ThreadGoalSetResponse { goal, mode: mode_after(write, stored) }),
{
    let mode = match write {
        GoalModeWrite::ReplaceForThread(mode) => mode,
        GoalModeWrite::Change(mode) => mode,
        GoalModeWrite::Keep => stored,
    };
    ThreadGoalSetResponse { goal, mode }
}

/// Whether a loaded thread must be told of the mode: the goal is another one, or its mode is.
pub fn goal_mode_changed(
    previous_goal_id: &Option<String>,
    previous_mode: ThreadGoalMode,
    goal_id: &String,
    mode: ThreadGoalMode,
) -> (res: bool)
    ensures
        res == (previous_goal_id.deep_view() != Some(goal_id@) || previous_mode != mode),
        !res ==> previous_goal_id is Some && previous_mode == mode,
        previous_mode != mode ==> res,
        previous_goal_id is None ==> res,
{
    let same_goal = match previous_goal_id {
        Some(previous) => *previous == *goal_id,
        None => false,
    };
    !same_goal || previous_mode != mode
}

/// The goal of a thread and its mode. Without a goal, the mode is the standard one.
pub fn thread_goal_get(goal: Option<ThreadGoalRecord>, mode: ThreadGoalMode) -> (res:
    ThreadGoalGetResponse)
    ensures
        res == match goal {
            Some(record) => ThreadGoalGetResponse { goal: Some(shown_goal(record)), mode },
            None => ThreadGoalGetResponse { goal: None, mode: ThreadGoalMode::Standard },
        },
        res.goal is Some <==> goal is Some,
        goal is Some ==> res.mode == mode,
        goal is None ==> res.mode is Standard,
{
    match goal {
        Some(record) => ThreadGoalGetResponse {
            goal: Some(thread_goal_from_record(record)),
            mode,
        },
        None => ThreadGoalGetResponse { goal: None, mode: ThreadGoalMode::Standard },
    }
}

/// The goal that commands in a thread count toward: its goal, while that is active.
pub fn active_goal_id(goal: Option<ThreadGoalRecord>) -> (res: Option<String>)
    ensures
        res == match goal {
            Some(record) => if record.status == ThreadGoalStatusRecord::Active {
                Some(record.goal_id)
            } else {
                None
            },
            None => None,
        },
        res is Some <==> goal is Some && goal->0.status is Active,
        res matches Some(id) ==> goal->0.goal_id == id,
{
    match goal {
        Some(record) => if record.status == ThreadGoalStatusRecord::Active {
            Some(record.goal_id)
        } else {
            None
        },
        None => None,
    }
}

} // verus!
