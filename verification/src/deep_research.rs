//! The deep research workflow: its phases, its agents, and what it leaves behind.
use vstd::prelude::*;

use crate::config::{AgentConfig, WebSearchConfig};
use crate::data;
use crate::data::Duplicate;
use crate::ids::ThreadId;
use crate::json;
use crate::protocol::{TurnMode, TurnStartParams};
use crate::state::ThreadLineage;
use crate::text;
use crate::types::{AgentType, TokenUsageInfo};
use crate::workflow;
use crate::workflow::{WorkflowRunStatus, WorkflowStopReason};

verus! {

/// How many elements of a list are kept of what a run leaves behind.
pub const MAX_WORKFLOW_ARTIFACT_ITEMS: usize = 50;

/// How many bytes the figures of a run may take.
pub const MAX_WORKFLOW_TEMPLATE_STATS_BYTES: usize = 16384;

/// The phases of deep research, in their order.
#[derive(Debug, Clone, Copy, PartialEq, Eq, Structural)]
pub enum DeepSearchPhaseId {
    Scope,
    Search,
    Extract,
    Verify,
    Synthesize,
}

impl DeepSearchPhaseId {
    /// The name of the phase.
    pub open spec fn name(self) -> Seq<char> {
        match self {
            DeepSearchPhaseId::Scope => "scope"@,
            DeepSearchPhaseId::Search => "search"@,
            DeepSearchPhaseId::Extract => "extract"@,
            DeepSearchPhaseId::Verify => "verify"@,
            DeepSearchPhaseId::Synthesize => "synthesize"@,
        }
    }

    /// The name of the phase.
    pub fn as_str(&self) -> (res: &'static str)
        ensures
            res@ == self.name(),
    {
        match self {
            DeepSearchPhaseId::Scope => "scope",
            DeepSearchPhaseId::Search => "search",
            DeepSearchPhaseId::Extract => "extract",
            DeepSearchPhaseId::Verify => "verify",
            DeepSearchPhaseId::Synthesize => "synthesize",
        }
    }
}

/// Why deep research stopped early.
#[derive(Debug, Clone, Copy, PartialEq, Eq, Structural)]
pub enum DeepSearchStopReason {
    TokenBudgetExceeded,
    RuntimeExceeded,
}

/// An early stop: where, why, and the figure that went over its limit.
#[derive(Debug, Clone, PartialEq, Eq)]
pub struct DeepSearchStopped {
    pub phase: DeepSearchPhaseId,
    pub reason: DeepSearchStopReason,
    pub reason_name: String,
    pub observed: u64,
    pub limit: u64,
}

/// The limits that deep research runs under.
#[derive(Debug, Clone, Copy, PartialEq, Eq, Structural)]
pub struct DeepSearchLimits {
    pub max_angles: usize,
    pub votes_per_claim: usize,
}

/// What was done in each phase.
#[derive(Debug, Clone, Copy, PartialEq, Eq, Structural)]
pub struct DeepSearchPhaseCounts {
    pub searched_angles: usize,
    pub search_failed: usize,
    pub search_skipped: usize,
    pub sources_selected: usize,
    pub sources_extracted: usize,
    pub extract_failed: usize,
    pub extract_skipped: usize,
    pub claims_ranked: usize,
    pub verdict_votes: usize,
    pub verdict_failed: usize,
    pub verdict_skipped: usize,
    pub synthesized: bool,
}

/// A change to what is shown of a run.
#[derive(Debug, Clone, PartialEq, Eq)]
pub enum RunChange {
    UpdatePhaseCounts { phase: DeepSearchPhaseId, completed: usize, failed: usize, skipped: usize },
    CompletePhase(DeepSearchPhaseId),
    FailPhase(DeepSearchPhaseId),
    SkipPhase(DeepSearchPhaseId),
    RecordArtifact { title: String, status: String, payload: String },
    SetReportSummary(String),
    SetTemplateStats(String),
    SetStopReason(WorkflowStopReason),
    AddAgentStats {
        calls: usize,
        failed_calls: usize,
        extra_calls: usize,
        tokens_used: Option<i64>,
    },
    Complete,
    Fail,
}

/// What a `RunChange` holds.
#[verifier::ext_equal]
pub enum RunChangeModel {
    UpdatePhaseCounts { phase: DeepSearchPhaseId, completed: nat, failed: nat, skipped: nat },
    CompletePhase(DeepSearchPhaseId),
    FailPhase(DeepSearchPhaseId),
    SkipPhase(DeepSearchPhaseId),
    RecordArtifact { title: Seq<char>, status: Seq<char>, payload: Seq<char> },
    SetReportSummary(Seq<char>),
    SetTemplateStats(Seq<char>),
    SetStopReason(WorkflowStopReason),
    AddAgentStats { calls: nat, failed_calls: nat, extra_calls: nat, tokens_used: Option<i64> },
    Complete,
    Fail,
}

impl DeepView for RunChange {
    type V = RunChangeModel;

    open spec fn deep_view(&self) -> RunChangeModel {
        match *self {
            RunChange::UpdatePhaseCounts { phase, completed, failed, skipped } =>
                RunChangeModel::UpdatePhaseCounts {
                    phase,
                    completed: completed as nat,
                    failed: failed as nat,
                    skipped: skipped as nat,
                },
            RunChange::CompletePhase(phase) => RunChangeModel::CompletePhase(phase),
            RunChange::FailPhase(phase) => RunChangeModel::FailPhase(phase),
            RunChange::SkipPhase(phase) => RunChangeModel::SkipPhase(phase),
            RunChange::RecordArtifact { title, status, payload } => RunChangeModel::RecordArtifact {
                title: title@,
                status: status@,
                payload: payload@,
            },
            RunChange::SetReportSummary(summary) => RunChangeModel::SetReportSummary(summary@),
            RunChange::SetTemplateStats(stats) => RunChangeModel::SetTemplateStats(stats@),
            RunChange::SetStopReason(reason) => RunChangeModel::SetStopReason(reason),
            RunChange::AddAgentStats { calls, failed_calls, extra_calls, tokens_used } =>
                RunChangeModel::AddAgentStats {
                    calls: calls as nat,
                    failed_calls: failed_calls as nat,
                    extra_calls: extra_calls as nat,
                    tokens_used,
                },
            RunChange::Complete => RunChangeModel::Complete,
            RunChange::Fail => RunChangeModel::Fail,
        }
    }
}

/// What remains of `a` when `b` is taken away.
pub open spec fn rest_of(a: nat, b: nat) -> nat {
    if a > b {
        (a - b) as nat
    } else {
        0
    }
}

/// How a phase with these counts ends: it fails where anything in it did, and is skipped where
/// nothing was done.
pub open spec fn finish_of(phase: DeepSearchPhaseId, completed: nat, failed: nat) -> RunChangeModel {
    if failed > 0 {
        RunChangeModel::FailPhase(phase)
    } else if completed > 0 {
        RunChangeModel::CompletePhase(phase)
    } else {
        RunChangeModel::SkipPhase(phase)
    }
}

/// How a phase with these counts ends.
pub fn finish_counted_phase(phase: DeepSearchPhaseId, completed_count: usize, failed_count: usize) -> (res:
    RunChange)
    ensures
        res.deep_view() == finish_of(phase, completed_count as nat, failed_count as nat),
{
    if failed_count > 0 {
        RunChange::FailPhase(phase)
    } else if completed_count > 0 {
        RunChange::CompletePhase(phase)
    } else {
        RunChange::SkipPhase(phase)
    }
}

/// The counts of a phase, and how it ends.
pub open spec fn counted(
    phase: DeepSearchPhaseId,
    completed: nat,
    failed: nat,
    skipped: nat,
) -> Seq<RunChangeModel> {
    seq![
        RunChangeModel::UpdatePhaseCounts { phase, completed, failed, skipped },
        finish_of(phase, completed, failed),
    ]
}

/// What was skipped in the search: what was passed over, and the angles that were never reached.
pub open spec fn search_skipped(counts: DeepSearchPhaseCounts, limits: DeepSearchLimits) -> nat {
    counts.search_skipped as nat + rest_of(
        limits.max_angles as nat,
        (counts.searched_angles + counts.search_failed) as nat,
    )
}

/// What was skipped in the extraction: what was passed over, and the sources that were never
/// reached.
pub open spec fn extract_skipped(counts: DeepSearchPhaseCounts) -> nat {
    rest_of(
        counts.sources_selected as nat,
        (counts.sources_extracted + counts.extract_failed) as nat,
    ) + counts.extract_skipped as nat
}

/// What was skipped in the verification: what was passed over, and the votes that were never cast.
pub open spec fn verify_skipped(counts: DeepSearchPhaseCounts, limits: DeepSearchLimits) -> nat {
    counts.verdict_skipped as nat + rest_of(
        counts.claims_ranked as nat * limits.votes_per_claim as nat,
        (counts.verdict_votes + counts.verdict_failed) as nat,
    )
}

/// Whether the figures of a run can be counted.
pub open spec fn is_countable(counts: DeepSearchPhaseCounts, limits: DeepSearchLimits) -> bool {
    &&& counts.searched_angles + counts.search_failed <= usize::MAX
    &&& search_skipped(counts, limits) <= usize::MAX
    &&& counts.sources_extracted + counts.extract_failed <= usize::MAX
    &&& extract_skipped(counts) <= usize::MAX
    &&& counts.claims_ranked as nat * limits.votes_per_claim as nat <= usize::MAX
    &&& counts.verdict_votes + counts.verdict_failed <= usize::MAX
    &&& verify_skipped(counts, limits) <= usize::MAX
}

/// The changes that show the counts of a run, phase by phase. What was planned and not done counts
/// as skipped.
pub open spec fn phase_changes(counts: DeepSearchPhaseCounts, limits: DeepSearchLimits) -> Seq<
    RunChangeModel,
> {
    let synthesized: nat = if counts.synthesized {
        1
    } else {
        0
    };
    counted(DeepSearchPhaseId::Scope, 1, 0, 0) + counted(
        DeepSearchPhaseId::Search,
        counts.searched_angles as nat,
        counts.search_failed as nat,
        search_skipped(counts, limits),
    ) + counted(
        DeepSearchPhaseId::Extract,
        counts.sources_extracted as nat,
        counts.extract_failed as nat,
        extract_skipped(counts),
    ) + counted(
        DeepSearchPhaseId::Verify,
        counts.verdict_votes as nat,
        counts.verdict_failed as nat,
        verify_skipped(counts, limits),
    ) + counted(DeepSearchPhaseId::Synthesize, synthesized, 0, (1 - synthesized) as nat)
}

/// Shows the counts of one phase, and how it ends.
fn count_phase(
    changes: &mut Vec<RunChange>,
    phase: DeepSearchPhaseId,
    completed: usize,
    failed: usize,
    skipped: usize,
)
    ensures
        final(changes).deep_view() == old(changes).deep_view() + counted(
            phase,
            completed as nat,
            failed as nat,
            skipped as nat,
        ),
{
    data::append(changes, RunChange::UpdatePhaseCounts { phase, completed, failed, skipped });
    data::append(changes, finish_counted_phase(phase, completed, failed));
    proof {
        assert(changes.deep_view() =~= old(changes).deep_view() + counted(
            phase,
            completed as nat,
            failed as nat,
            skipped as nat,
        ));
    }
}

/// Computes `phase_changes`.
pub fn project_deep_search_phase_counts(
    counts: &DeepSearchPhaseCounts,
    limits: DeepSearchLimits,
) -> (res: Vec<RunChange>)
    requires
        is_countable(*counts, limits),
    ensures
        res.deep_view() == phase_changes(*counts, limits),
{
    let mut changes: Vec<RunChange> = Vec::new();
    count_phase(&mut changes, DeepSearchPhaseId::Scope, 1, 0, 0);
    let searched: usize = counts.searched_angles + counts.search_failed;
    let skipped: usize = counts.search_skipped + limits.max_angles.saturating_sub(searched);
    count_phase(
        &mut changes,
        DeepSearchPhaseId::Search,
        counts.searched_angles,
        counts.search_failed,
        skipped,
    );
    let extracted: usize = counts.sources_extracted + counts.extract_failed;
    let skipped: usize = counts.sources_selected.saturating_sub(extracted)
        + counts.extract_skipped;
    count_phase(
        &mut changes,
        DeepSearchPhaseId::Extract,
        counts.sources_extracted,
        counts.extract_failed,
        skipped,
    );
    let planned: usize = counts.claims_ranked * limits.votes_per_claim;
    let voted: usize = counts.verdict_votes + counts.verdict_failed;
    let skipped: usize = counts.verdict_skipped + planned.saturating_sub(voted);
    count_phase(
        &mut changes,
        DeepSearchPhaseId::Verify,
        counts.verdict_votes,
        counts.verdict_failed,
        skipped,
    );
    let synthesized: usize = if counts.synthesized {
        1
    } else {
        0
    };
    count_phase(&mut changes, DeepSearchPhaseId::Synthesize, synthesized, 0, 1 - synthesized);
    proof {
        assert(changes.deep_view() =~= phase_changes(*counts, limits));
    }
    changes
}

/// A list that is longer than `max_items`, cut short: its beginning, and how much is missing.
pub open spec fn cut_short(items: Seq<Seq<char>>, max_items: nat) -> Seq<char> {
    json::object_of(
        seq![
            json::field_of("items"@, json::array_of(items.take(max_items as int))),
            json::field_of("max_items"@, text::decimal_of(max_items)),
            json::field_of(
                "truncated_count"@,
                text::decimal_of((items.len() - max_items) as nat),
            ),
        ],
    )
}

/// A JSON value, cut short where it is a list that is longer than `max_items`.
pub open spec fn compacted_list(value: Seq<char>, max_items: nat) -> Seq<char> {
    match json::elements_of(value) {
        Some(items) => if items.len() <= max_items {
            value
        } else {
            cut_short(items, max_items)
        },
        None => value,
    }
}

/// The fields of a JSON object, with their lists cut short.
pub open spec fn compacted_fields(
    fields: Seq<(Seq<char>, Seq<char>)>,
    max_items: nat,
) -> Seq<Seq<char>> {
    fields.map_values(
        |field: (Seq<char>, Seq<char>)|
            json::field_of(field.0, compacted_list(field.1, max_items)),
    )
}

/// A JSON value, with itself cut short where it is a list, and the lists in its fields where it is
/// an object.
pub open spec fn compacted(value: Seq<char>, max_items: nat) -> Seq<char> {
    if json::elements_of(value) is Some {
        compacted_list(value, max_items)
    } else {
        match json::fields_of(value) {
            Some(fields) => json::object_of(compacted_fields(fields, max_items)),
            None => value,
        }
    }
}

/// Computes `cut_short`, for a list that is longer than `max_items`, else keeps `value`.
pub fn compact_json_array(value: &str, items: Vec<String>, max_items: usize) -> (res: String)
    ensures
        res@ == if items@.len() <= max_items {
            value@
        } else {
            cut_short(items.deep_view(), max_items as nat)
        },
{
    let length: usize = items.len();
    if length <= max_items {
        return value.to_owned();
    }
    let mut kept = items;
    kept.truncate(max_items);
    let mut fields: Vec<String> = Vec::new();
    data::append(&mut fields, json::field("items", json::array(&kept).as_str()));
    data::append(&mut fields, json::field("max_items", text::decimal(max_items as u64).as_str()));
    data::append(
        &mut fields,
        json::field(
            "truncated_count",
            text::decimal((length - max_items) as u64).as_str(),
        ),
    );
    proof {
        assert(kept.deep_view() =~= items.deep_view().take(max_items as int));
        assert(items.deep_view().len() == items@.len());
        assert(fields.deep_view() =~= seq![
            json::field_of("items"@, json::array_of(items.deep_view().take(max_items as int))),
            json::field_of("max_items"@, text::decimal_of(max_items as nat)),
            json::field_of(
                "truncated_count"@,
                text::decimal_of((items@.len() - max_items) as nat),
            ),
        ]);
    }
    json::object(&fields)
}

/// Computes `compacted_list`.
fn compact_json_list(value: &str, max_items: usize) -> (res: String)
    ensures
        res@ == compacted_list(value@, max_items as nat),
{
    match json::elements(value) {
        Some(items) => {
            proof {
                assert(items.deep_view().len() == items@.len());
            }
            compact_json_array(value, items, max_items)
        },
        None => value.to_owned(),
    }
}

/// Computes `compacted`.
pub fn compact_json_value(value: &str, max_items: usize) -> (res: String)
    ensures
        res@ == compacted(value@, max_items as nat),
{
    if json::elements(value).is_some() {
        return compact_json_list(value, max_items);
    }
    let fields = match json::fields(value) {
        Some(fields) => fields,
        None => return value.to_owned(),
    };
    let mut texts: Vec<String> = Vec::new();
    let ghost all = compacted_fields(fields.deep_view(), max_items as nat);
    proof {
        assert(fields.deep_view().len() == fields@.len());
        assert(texts.deep_view() =~= all.take(0));
    }
    for i in 0..fields.len()
        invariant
            fields.deep_view().len() == fields@.len(),
            all == compacted_fields(fields.deep_view(), max_items as nat),
            texts.deep_view() == all.take(i as int),
    {
        let (name, value) = &fields[i];
        data::append(
            &mut texts,
            json::field(name.as_str(), compact_json_list(value.as_str(), max_items).as_str()),
        );
        proof {
            assert(fields.deep_view()[i as int] == (name@, value@));
            assert(texts.deep_view() =~= all.take(i + 1));
        }
    }
    proof {
        assert(all.take(fields@.len() as int) =~= all);
    }
    json::object(&texts)
}

/// What is kept of something that a run leaves behind.
pub fn compact_artifact_payload(value: &str) -> (res: String)
    ensures
        res@ == compacted(value@, MAX_WORKFLOW_ARTIFACT_ITEMS as nat),
{
    compact_json_value(value, MAX_WORKFLOW_ARTIFACT_ITEMS)
}

/// What is kept of the figures of a run: all, unless they take too many bytes as they are written.
pub open spec fn stats_kept(value: Seq<char>, serialized: Option<Seq<char>>) -> Seq<char> {
    match serialized {
        Some(serialized) => {
            let bytes = vstd::utf8::encode_utf8(serialized).len();
            if bytes <= MAX_WORKFLOW_TEMPLATE_STATS_BYTES {
                value
            } else {
                json::object_of(
                    seq![
                        json::field_of(
                            "max_bytes"@,
                            text::decimal_of(MAX_WORKFLOW_TEMPLATE_STATS_BYTES as nat),
                        ),
                        json::field_of("original_bytes"@, text::decimal_of(bytes)),
                        json::field_of("truncated"@, "true"@),
                    ],
                )
            }
        },
        None => json::object_of(
            seq![
                json::field_of("reason"@, json::quoted_of("template_stats_not_serializable"@)),
                json::field_of("truncated"@, "true"@),
            ],
        ),
    }
}

/// Computes `stats_kept`.
pub fn keep_template_stats(value: &str, serialized: Option<String>) -> (res: String)
    ensures
        res@ == stats_kept(value@, serialized.deep_view()),
{
    let mut fields: Vec<String> = Vec::new();
    match serialized {
        Some(serialized) => {
            let bytes: usize = serialized.as_str().as_bytes().len();
            if bytes <= MAX_WORKFLOW_TEMPLATE_STATS_BYTES {
                return value.to_owned();
            }
            let max_bytes = text::decimal(MAX_WORKFLOW_TEMPLATE_STATS_BYTES as u64);
            data::append(&mut fields, json::field("max_bytes", max_bytes.as_str()));
            data::append(
                &mut fields,
                json::field("original_bytes", text::decimal(bytes as u64).as_str()),
            );
            data::append(&mut fields, json::field("truncated", "true"));
            proof {
                assert(fields.deep_view() =~= seq![
                    json::field_of(
                        "max_bytes"@,
                        text::decimal_of(MAX_WORKFLOW_TEMPLATE_STATS_BYTES as nat),
                    ),
                    json::field_of("original_bytes"@, text::decimal_of(bytes as nat)),
                    json::field_of("truncated"@, "true"@),
                ]);
            }
        },
        None => {
            let reason = json::quoted("template_stats_not_serializable");
            data::append(&mut fields, json::field("reason", reason.as_str()));
            data::append(&mut fields, json::field("truncated", "true"));
            proof {
                assert(fields.deep_view() =~= seq![
                    json::field_of("reason"@, json::quoted_of("template_stats_not_serializable"@)),
                    json::field_of("truncated"@, "true"@),
                ]);
            }
        },
    }
    json::object(&fields)
}

/// What is kept of the figures of a run.
pub open spec fn compacted_stats(value: Seq<char>) -> Seq<char> {
    stats_kept(value, Some(json::written_of(value)))
}

/// Computes `compacted_stats`.
pub fn compact_template_stats(value: &str) -> (res: String)
    ensures
        res@ == compacted_stats(value@),
{
    keep_template_stats(value, Some(json::written(value)))
}

/// What deep research found. Each of the first five is JSON.
#[derive(Debug, Clone, PartialEq, Eq)]
pub struct DeepSearchRunResult {
    pub report: String,
    pub selected_sources: String,
    pub ranked_claims: String,
    pub aggregated_verdicts: String,
    pub stats: String,
    pub summary: String,
    pub selected_sources_len: usize,
    pub ranked_claims_len: usize,
    pub phase_counts: DeepSearchPhaseCounts,
    pub phase_counts_json: String,
}

/// The calls that a run made to its agents.
#[derive(Debug, Clone, Copy, PartialEq, Eq, Structural)]
pub struct AgentJsonRunStats {
    pub calls: usize,
    pub failed_calls: usize,
    pub tokens_used: Option<i64>,
}

impl AgentJsonRunStats {
    /// The change that shows the calls.
    pub open spec fn change(self) -> RunChangeModel {
        RunChangeModel::AddAgentStats {
            calls: self.calls as nat,
            failed_calls: self.failed_calls as nat,
            extra_calls: 0,
            tokens_used: self.tokens_used,
        }
    }

    /// With these tokens counted, where they are known.
    pub open spec fn with_tokens(self, tokens_used: Option<i64>) -> Self {
        AgentJsonRunStats {
            tokens_used: match tokens_used {
                Some(tokens) => Some(
                    match self.tokens_used {
                        Some(sum) => sum,
                        None => 0i64,
                    }.wrapping_add(tokens),
                ),
                None => self.tokens_used,
            },
            ..self
        }
    }

    /// With one more call counted.
    pub open spec fn with_call(self) -> Self {
        AgentJsonRunStats { calls: (self.calls + 1) as usize, ..self }
    }

    /// With one more failed call counted.
    pub open spec fn with_failure(self) -> Self {
        AgentJsonRunStats { failed_calls: (self.failed_calls + 1) as usize, ..self }
    }

    /// No call was made.
    pub fn new() -> (res: Self)
        ensures
            res == (AgentJsonRunStats { calls: 0, failed_calls: 0, tokens_used: None }),
    {
        AgentJsonRunStats { calls: 0, failed_calls: 0, tokens_used: None }
    }

    /// Counts a call that begins, and numbers it from one.
    pub fn next_call_index(&mut self) -> (res: usize)
        requires
            old(self).calls < usize::MAX,
        ensures
            res == old(self).calls + 1,
            *final(self) == old(self).with_call(),
    {
        self.calls = self.calls + 1;
        self.calls
    }

    /// Counts a call that failed.
    pub fn record_failure(&mut self)
        requires
            old(self).failed_calls < usize::MAX,
        ensures
            *final(self) == old(self).with_failure(),
    {
        self.failed_calls = self.failed_calls + 1;
    }

    /// Counts the tokens of a call, where they are known.
    pub fn record_tokens(&mut self, tokens_used: Option<i64>)
        ensures
            *final(self) == old(self).with_tokens(tokens_used),
    {
        if let Some(tokens) = tokens_used {
            let sum: i64 = match self.tokens_used {
                Some(sum) => sum,
                None => 0,
            };
            self.tokens_used = Some(sum.wrapping_add(tokens));
        }
    }
}

/// Something that a run leaves behind.
pub open spec fn artifact(title: Seq<char>, status: Seq<char>, payload: Seq<char>) -> RunChangeModel {
    RunChangeModel::RecordArtifact { title, status, payload }
}

/// The figures of a run, with the counts of its phases among them.
pub open spec fn stats_of(result: DeepSearchRunResult) -> Seq<char> {
    match json::with_field_of(result.stats@, "phase_counts"@, result.phase_counts_json@) {
        Some(stats) => stats,
        None => result.stats@,
    }
}

/// The changes that show what deep research found, and that the run is complete.
pub open spec fn success_changes(
    result: DeepSearchRunResult,
    limits: DeepSearchLimits,
    agent_stats: AgentJsonRunStats,
) -> Seq<RunChangeModel> {
    let max = MAX_WORKFLOW_ARTIFACT_ITEMS as nat;
    phase_changes(result.phase_counts, limits) + seq![
        artifact("Report"@, "completed"@, result.report@),
        artifact(
            "Sources"@,
            text::decimal_of(result.selected_sources_len as nat) + " selected"@,
            compacted(result.selected_sources@, max),
        ),
        artifact(
            "Ranked claims"@,
            text::decimal_of(result.ranked_claims_len as nat) + " claims"@,
            compacted(result.ranked_claims@, max),
        ),
        artifact("Verdicts"@, "aggregated"@, compacted(result.aggregated_verdicts@, max)),
        RunChangeModel::SetReportSummary(result.summary@),
        RunChangeModel::SetTemplateStats(compacted_stats(stats_of(result))),
        agent_stats.change(),
        RunChangeModel::Complete,
    ]
}

/// Computes `success_changes`.
pub fn record_deep_search_success(
    result: DeepSearchRunResult,
    limits: DeepSearchLimits,
    agent_stats: AgentJsonRunStats,
) -> (res: Vec<RunChange>)
    requires
        is_countable(result.phase_counts, limits),
    ensures
        res.deep_view() == success_changes(result, limits, agent_stats),
{
    let stats = match json::with_field(
        result.stats.as_str(),
        "phase_counts",
        result.phase_counts_json.as_str(),
    ) {
        Some(stats) => stats,
        None => result.stats.clone(),
    };
    let mut changes = project_deep_search_phase_counts(&result.phase_counts, limits);
    data::append(
        &mut changes,
        RunChange::RecordArtifact {
            title: "Report".to_owned(),
            status: "completed".to_owned(),
            payload: result.report.clone(),
        },
    );
    let selected = text::decimal(result.selected_sources_len as u64);
    data::append(
        &mut changes,
        RunChange::RecordArtifact {
            title: "Sources".to_owned(),
            status: text::concat2(selected.as_str(), " selected"),
            payload: compact_artifact_payload(result.selected_sources.as_str()),
        },
    );
    let ranked = text::decimal(result.ranked_claims_len as u64);
    data::append(
        &mut changes,
        RunChange::RecordArtifact {
            title: "Ranked claims".to_owned(),
            status: text::concat2(ranked.as_str(), " claims"),
            payload: compact_artifact_payload(result.ranked_claims.as_str()),
        },
    );
    data::append(
        &mut changes,
        RunChange::RecordArtifact {
            title: "Verdicts".to_owned(),
            status: "aggregated".to_owned(),
            payload: compact_artifact_payload(result.aggregated_verdicts.as_str()),
        },
    );
    data::append(&mut changes, RunChange::SetReportSummary(result.summary.clone()));
    data::append(&mut changes, RunChange::SetTemplateStats(compact_template_stats(stats.as_str())));
    data::append(
        &mut changes,
        RunChange::AddAgentStats {
            calls: agent_stats.calls,
            failed_calls: agent_stats.failed_calls,
            extra_calls: 0,
            tokens_used: agent_stats.tokens_used,
        },
    );
    data::append(&mut changes, RunChange::Complete);
    proof {
        assert(changes.deep_view() =~= success_changes(result, limits, agent_stats));
    }
    changes
}

/// The reason for which a run was stopped, from that of deep research.
pub fn workflow_stop_reason_from_deep_search(reason: DeepSearchStopReason) -> (res:
    WorkflowStopReason)
    ensures
        res == match reason {
            DeepSearchStopReason::TokenBudgetExceeded => WorkflowStopReason::TokenBudgetExceeded,
            DeepSearchStopReason::RuntimeExceeded => WorkflowStopReason::RuntimeExceeded,
        },
{
    match reason {
        DeepSearchStopReason::TokenBudgetExceeded => WorkflowStopReason::TokenBudgetExceeded,
        DeepSearchStopReason::RuntimeExceeded => WorkflowStopReason::RuntimeExceeded,
    }
}

/// Why deep research failed: what it says, the early stops among its causes in order, and the
/// phase that it failed in, where that is known.
#[derive(Debug, Clone, PartialEq, Eq)]
pub struct DeepSearchFailure {
    pub message: String,
    pub causes: Vec<Option<DeepSearchStopped>>,
    pub phase: Option<DeepSearchPhaseId>,
}

/// The first early stop among the causes.
pub open spec fn first_stop(causes: Seq<Option<DeepSearchStopped>>) -> Option<DeepSearchStopped>
    decreases causes.len(),
{
    if causes.len() == 0 {
        None
    } else if causes[0] is Some {
        causes[0]
    } else {
        first_stop(causes.skip(1))
    }
}

/// The early stop that deep research failed with, if it did.
pub fn deep_search_stopped_from_error(failure: &DeepSearchFailure) -> (res: Option<
    &DeepSearchStopped,
>)
    ensures
        match first_stop(failure.causes@) {
            Some(stopped) => res == Some(&stopped),
            None => res is None,
        },
{
    proof {
        assert(failure.causes@.skip(0) =~= failure.causes@);
    }
    for i in 0..failure.causes.len()
        invariant
            first_stop(failure.causes@) == first_stop(failure.causes@.skip(i as int)),
    {
        if let Some(stopped) = &failure.causes[i] {
            assert(failure.causes@.skip(i as int)[0] == failure.causes@[i as int]);
            return Some(stopped);
        }
        proof {
            assert(failure.causes@.skip(i as int).skip(1) =~= failure.causes@.skip(i + 1));
        }
    }
    None
}

/// The phase that deep research failed in: that of an early stop, or else the one that is known,
/// or else the first. What the message says does not count.
pub open spec fn failed_phase(failure: DeepSearchFailure) -> DeepSearchPhaseId {
    match first_stop(failure.causes@) {
        Some(stopped) => stopped.phase,
        None => match failure.phase {
            Some(phase) => phase,
            None => DeepSearchPhaseId::Scope,
        },
    }
}

/// Computes `failed_phase`.
pub fn failed_phase_from_error(failure: &DeepSearchFailure) -> (res: DeepSearchPhaseId)
    ensures
        res == failed_phase(*failure),
{
    match deep_search_stopped_from_error(failure) {
        Some(stopped) => stopped.phase,
        None => match failure.phase {
            Some(phase) => phase,
            None => DeepSearchPhaseId::Scope,
        },
    }
}

/// What a failed run leaves behind, as JSON.
pub open spec fn failure_payload(failure: DeepSearchFailure) -> Seq<char> {
    let error = json::field_of("error"@, json::quoted_of(failure.message@));
    match first_stop(failure.causes@) {
        Some(stopped) => json::object_of(
            seq![
                error,
                json::field_of("limit"@, text::decimal_of(stopped.limit as nat)),
                json::field_of("observed"@, text::decimal_of(stopped.observed as nat)),
                json::field_of("phase"@, json::quoted_of(stopped.phase.name())),
                json::field_of("stop_reason"@, json::quoted_of(stopped.reason_name@)),
            ],
        ),
        None => json::object_of(seq![error]),
    }
}

/// Computes `failure_payload`.
fn error_payload(failure: &DeepSearchFailure) -> (res: String)
    ensures
        res@ == failure_payload(*failure),
{
    let mut fields: Vec<String> = Vec::new();
    data::append(
        &mut fields,
        json::field("error", json::quoted(failure.message.as_str()).as_str()),
    );
    let ghost error = json::field_of("error"@, json::quoted_of(failure.message@));
    if let Some(stopped) = deep_search_stopped_from_error(failure) {
        data::append(
            &mut fields,
            json::field("limit", text::decimal(stopped.limit).as_str()),
        );
        data::append(
            &mut fields,
            json::field("observed", text::decimal(stopped.observed).as_str()),
        );
        data::append(
            &mut fields,
            json::field("phase", json::quoted(stopped.phase.as_str()).as_str()),
        );
        data::append(
            &mut fields,
            json::field("stop_reason", json::quoted(stopped.reason_name.as_str()).as_str()),
        );
        proof {
            assert(fields.deep_view() =~= seq![
                error,
                json::field_of("limit"@, text::decimal_of(stopped.limit as nat)),
                json::field_of("observed"@, text::decimal_of(stopped.observed as nat)),
                json::field_of("phase"@, json::quoted_of(stopped.phase.name())),
                json::field_of("stop_reason"@, json::quoted_of(stopped.reason_name@)),
            ]);
        }
    } else {
        proof {
            assert(fields.deep_view() =~= seq![error]);
        }
    }
    json::object(&fields)
}

/// The phases, in their order.
pub open spec fn phases() -> Seq<DeepSearchPhaseId> {
    seq![
        DeepSearchPhaseId::Scope,
        DeepSearchPhaseId::Search,
        DeepSearchPhaseId::Extract,
        DeepSearchPhaseId::Verify,
        DeepSearchPhaseId::Synthesize,
    ]
}

/// The changes that skip these phases, but for `failed`.
pub open spec fn skips(phases: Seq<DeepSearchPhaseId>, failed: DeepSearchPhaseId) -> Seq<
    RunChangeModel,
>
    decreases phases.len(),
{
    if phases.len() == 0 {
        Seq::empty()
    } else {
        let before = skips(phases.drop_last(), failed);
        if phases.last() != failed {
            before.push(RunChangeModel::SkipPhase(phases.last()))
        } else {
            before
        }
    }
}

/// The changes that show that deep research failed, and how.
pub open spec fn failure_changes(
    failure: DeepSearchFailure,
    agent_stats: AgentJsonRunStats,
) -> Seq<RunChangeModel> {
    let stop = match first_stop(failure.causes@) {
        Some(stopped) => seq![
            RunChangeModel::SetStopReason(
                match stopped.reason {
                    DeepSearchStopReason::TokenBudgetExceeded =>
                        WorkflowStopReason::TokenBudgetExceeded,
                    DeepSearchStopReason::RuntimeExceeded => WorkflowStopReason::RuntimeExceeded,
                },
            ),
        ],
        None => Seq::empty(),
    };
    seq![
        artifact("Error"@, "failed"@, failure_payload(failure)),
        RunChangeModel::SetReportSummary("Deep search failed: "@ + failure.message@),
    ] + stop + seq![
        agent_stats.change(),
        RunChangeModel::FailPhase(failed_phase(failure)),
    ] + skips(phases(), failed_phase(failure)) + seq![RunChangeModel::Fail]
}

/// Skips every phase but the one that failed.
fn skip_unfinished_deep_search_phases(changes: &mut Vec<RunChange>, failed: DeepSearchPhaseId)
    ensures
        final(changes).deep_view() == old(changes).deep_view() + skips(phases(), failed),
{
    let all: Vec<DeepSearchPhaseId> = vec![
        DeepSearchPhaseId::Scope,
        DeepSearchPhaseId::Search,
        DeepSearchPhaseId::Extract,
        DeepSearchPhaseId::Verify,
        DeepSearchPhaseId::Synthesize,
    ];
    let ghost before = changes.deep_view();
    proof {
        assert(all@ =~= phases());
        assert(all@.take(0) =~= Seq::empty());
        assert(changes.deep_view() =~= before + skips(all@.take(0), failed));
    }
    for i in 0..all.len()
        invariant
            changes.deep_view() == before + skips(all@.take(i as int), failed),
    {
        proof {
            assert(all@.take(i + 1).drop_last() =~= all@.take(i as int));
        }
        if all[i] != failed {
            data::append(changes, RunChange::SkipPhase(all[i]));
        }
        proof {
            assert(changes.deep_view() =~= before + skips(all@.take(i + 1), failed));
        }
    }
    proof {
        assert(all@.take(all@.len() as int) =~= phases());
    }
}

/// Computes `failure_changes`.
pub fn record_deep_search_failure(
    failure: &DeepSearchFailure,
    agent_stats: AgentJsonRunStats,
) -> (res: Vec<RunChange>)
    ensures
        res.deep_view() == failure_changes(*failure, agent_stats),
{
    let failed = failed_phase_from_error(failure);
    let mut changes: Vec<RunChange> = Vec::new();
    data::append(
        &mut changes,
        RunChange::RecordArtifact {
            title: "Error".to_owned(),
            status: "failed".to_owned(),
            payload: error_payload(failure),
        },
    );
    data::append(
        &mut changes,
        RunChange::SetReportSummary(
            text::concat2("Deep search failed: ", failure.message.as_str()),
        ),
    );
    if let Some(stopped) = deep_search_stopped_from_error(failure) {
        data::append(
            &mut changes,
            RunChange::SetStopReason(workflow_stop_reason_from_deep_search(stopped.reason)),
        );
    }
    data::append(
        &mut changes,
        RunChange::AddAgentStats {
            calls: agent_stats.calls,
            failed_calls: agent_stats.failed_calls,
            extra_calls: 0,
            tokens_used: agent_stats.tokens_used,
        },
    );
    data::append(&mut changes, RunChange::FailPhase(failed));
    skip_unfinished_deep_search_phases(&mut changes, failed);
    data::append(&mut changes, RunChange::Fail);
    proof {
        assert(changes.deep_view() =~= failure_changes(*failure, agent_stats));
    }
    changes
}

/// How deep research ended.
#[derive(Debug, Clone, Copy, PartialEq, Eq, Structural)]
pub enum DeepSearchEnd {
    /// It found something.
    Found,
    /// It failed.
    Failed,
    /// It failed because it was cancelled.
    Cancelled,
}

/// What is shown of a run when deep research has ended.
#[derive(Debug, Clone, Copy, PartialEq, Eq, Structural)]
pub enum RunEnd {
    /// Nothing: the run was over already.
    Leave,
    RecordSuccess,
    RecordFailure,
    Cancel,
}

/// What is done with a run whose turn has come.
#[derive(Debug, Clone, Copy, PartialEq, Eq, Structural)]
pub enum RunStart {
    /// Nothing: the run is over already, or there is none.
    Leave,
    /// It is shown as running, and deep research begins.
    Start,
}

/// What is done with a run whose turn has come. `status` is where the run stands, where it is
/// found.
pub fn start_deep_research_workflow(status: Option<WorkflowRunStatus>) -> (res: RunStart)
    ensures
        res == match status {
            Some(status) => if workflow::is_over(status) {
                RunStart::Leave
            } else {
                RunStart::Start
            },
            None => RunStart::Leave,
        },
        res is Start <==> status is Some && (status->0 is Queued || status->0 is Running),
{
    match status {
        Some(status) => if workflow::is_terminal(status) {
            RunStart::Leave
        } else {
            RunStart::Start
        },
        None => RunStart::Leave,
    }
}

/// What is shown of a run when deep research has ended. A run that was cancelled is shown as
/// cancelled, and one that is over otherwise stays as it is.
pub fn run_deep_research_workflow(
    ended: DeepSearchEnd,
    cancellation_requested: bool,
    status: WorkflowRunStatus,
) -> (res: RunEnd)
    ensures
        res == if ended == DeepSearchEnd::Cancelled && cancellation_requested {
            RunEnd::Cancel
        } else if workflow::is_over(status) {
            RunEnd::Leave
        } else if ended == DeepSearchEnd::Found {
            RunEnd::RecordSuccess
        } else {
            RunEnd::RecordFailure
        },
        res is Cancel ==> cancellation_requested && ended is Cancelled,
        res is RecordSuccess <==> ended is Found && (status is Queued || status is Running),
        res is RecordFailure ==> (status is Queued || status is Running) && ended !is Found,
        status is Running && ended is Failed ==> res is RecordFailure,
        ended is Cancelled && cancellation_requested ==> res is Cancel,
        ended !is Cancelled && !(status is Queued || status is Running) ==> res is Leave,
{
    match ended {
        DeepSearchEnd::Found => if workflow::is_terminal(status) {
            RunEnd::Leave
        } else {
            RunEnd::RecordSuccess
        },
        DeepSearchEnd::Failed | DeepSearchEnd::Cancelled => {
            if ended == DeepSearchEnd::Cancelled && cancellation_requested {
                RunEnd::Cancel
            } else if workflow::is_terminal(status) {
                RunEnd::Leave
            } else {
                RunEnd::RecordFailure
            }
        },
    }
}

/// Where deep research looks for sources.
#[derive(Debug, Clone, PartialEq, Eq)]
pub enum WorkflowSource {
    /// Where the server was told to.
    Given,
    /// Nowhere, for this reason.
    Unavailable { reason: String },
    /// In the Brave search, with this key.
    Brave { api_key: String },
}

/// Where deep research looks for sources, with these settings.
pub fn workflow_source_provider_for_config(
    given: bool,
    web_search: &Option<WebSearchConfig>,
) -> (res: WorkflowSource)
    ensures
        if given {
            res is Given
        } else {
            match *web_search {
                None => res matches WorkflowSource::Unavailable { reason } && reason@
                    == "web search is not configured"@,
                Some(search) => if text::lower_case_of(search.provider@) == "brave"@ {
                    res matches WorkflowSource::Brave { api_key } && api_key@ == search.api_key@
                } else {
                    res matches WorkflowSource::Unavailable { reason } && reason@
                        == "unsupported web search provider: "@ + search.provider@
                },
            }
        },
        res is Given <==> given,
        res matches WorkflowSource::Brave { api_key } ==> (*web_search matches Some(search)
            && search.api_key@ == api_key@),
        web_search is None ==> !(res is Brave),
{
    if given {
        return WorkflowSource::Given;
    }
    match web_search {
        None => WorkflowSource::Unavailable {
            reason: "web search is not configured".to_owned(),
        },
        Some(search) => {
            let provider = text::to_lower_case(search.provider.as_str());
            if !text::same(provider.as_str(), "brave") {
                return WorkflowSource::Unavailable {
                    reason: text::concat2(
                        "unsupported web search provider: ",
                        search.provider.as_str(),
                    ),
                };
            }
            WorkflowSource::Brave { api_key: search.api_key.clone() }
        },
    }
}

/// A character as it stands in the path of an agent.
pub open spec fn path_char(c: char) -> char {
    if workflow::is_plain(c) {
        text::lower_case(c)
    } else {
        '-'
    }
}

/// A text as it stands in the path of an agent, with all its characters.
pub open spec fn path_chars(value: Seq<char>) -> Seq<char> {
    value.map_values(|c: char| path_char(c))
}

/// One step in the path of an agent.
pub open spec fn path_segment(value: Seq<char>) -> Seq<char> {
    let trimmed = text::trim_char_of(path_chars(value), '-');
    if trimmed.len() == 0 {
        "agent"@
    } else {
        trimmed
    }
}

/// Computes `path_segment`.
pub fn sanitize_agent_path_segment(value: &str) -> (res: String)
    ensures
        res@ == path_segment(value@),
{
    let chars = text::chars_of(value);
    let mut sanitized: Vec<char> = Vec::new();
    for i in 0..chars.len()
        invariant
            chars@ == value@,
            sanitized@ == path_chars(value@).take(i as int),
    {
        let c = chars[i];
        if text::alphanumeric(c) || c == '-' || c == '_' {
            sanitized.push(text::lower(c));
        } else {
            sanitized.push('-');
        }
        proof {
            assert(sanitized@ =~= path_chars(value@).take(i + 1));
        }
    }
    proof {
        assert(path_chars(value@).take(value@.len() as int) =~= path_chars(value@));
    }
    let text = text::string_of(&sanitized);
    let trimmed = text::trim_char(text.as_str(), '-');
    if trimmed.unicode_len() == 0 {
        "agent".to_owned()
    } else {
        trimmed.to_owned()
    }
}

/// A step in the path of an agent is never empty, and only lower-case letters, digits, hyphens and
/// underscores stand in it.
pub proof fn path_segments_are_plain(value: Seq<char>)
    ensures
        path_segment(value).len() > 0,
        forall|i: int|
            0 <= i < path_segment(value).len() ==> {
                &&& workflow::is_plain(#[trigger] path_segment(value)[i])
                &&& text::lower_case(path_segment(value)[i]) == path_segment(value)[i]
            },
{
    reveal_strlit("agent");
    let chars = path_chars(value);
    text::trim_char_is_part(chars, '-');
    let trimmed = text::trim_char_of(chars, '-');
    assert forall|i: int| 0 <= i < path_segment(value).len() implies {
        &&& workflow::is_plain(#[trigger] path_segment(value)[i])
        &&& text::lower_case(path_segment(value)[i]) == path_segment(value)[i]
    } by {
        if trimmed.len() > 0 {
            let k = choose|k: int| 0 <= k < chars.len() && chars[k] == trimmed[i];
            assert(chars[k] == path_char(value[k]));
        }
    }
}

/// A call to an agent of a run.
#[derive(Debug, Clone, PartialEq, Eq)]
pub struct AgentJsonRequest {
    pub label: String,
    pub prompt: String,
}

/// Where the agent of a call stands: below the thread of the run, under a path that names the
/// run, the call and what it is for.
pub fn call_lineage(
    root_thread_id: &ThreadId,
    run_id: &str,
    call_index: usize,
    label: &str,
) -> (res: ThreadLineage)
    ensures
        res.parent_thread_id@ == root_thread_id@,
        res.root_thread_id@ == root_thread_id@,
        res.depth == 1,
        res.agent_path@ == "/root/workflow-"@ + path_segment(run_id@) + "/"@ + text::decimal_of(
            call_index as nat,
        ) + "-"@ + path_segment(label@),
        res.agent_type == Some(AgentType::WorkflowResearch),
        res.agent_role matches Some(role) && role@ == "workflow_json_runner"@,
        res.agent_nickname matches Some(nickname) && nickname@ == label@,
        res.forked_from_id is None,
{
    let start = text::concat5(
        "/root/workflow-",
        sanitize_agent_path_segment(run_id).as_str(),
        "/",
        text::decimal(call_index as u64).as_str(),
        "-",
    );
    ThreadLineage {
        parent_thread_id: root_thread_id.duplicate(),
        root_thread_id: root_thread_id.duplicate(),
        depth: 1,
        agent_path: text::concat2(start.as_str(), sanitize_agent_path_segment(label).as_str()),
        agent_type: Some(AgentType::WorkflowResearch),
        agent_role: Some("workflow_json_runner".to_owned()),
        agent_nickname: Some(label.to_owned()),
        forked_from_id: None,
    }
}

/// The turn that the agent of a call runs: an ordinary one, in the workspace of the run.
pub fn call_turn(thread_id: ThreadId, prompt: String, config: &AgentConfig) -> (res: TurnStartParams)
    ensures
        res.thread_id == thread_id,
        res.prompt == prompt,
        res.input@.len() == 0,
        res.workspace_root matches Some(root) && root@ == config.workspace_root@,
        res.turn_mode == TurnMode::Normal,
        res.turn_context is None,
{
    TurnStartParams {
        thread_id,
        prompt,
        input: Vec::new(),
        workspace_root: Some(config.workspace_root.clone()),
        turn_mode: TurnMode::Normal,
        turn_context: None,
    }
}

/// What an agent of a run answered.
#[derive(Debug, Clone, PartialEq, Eq)]
pub struct AgentJsonResponse {
    pub text: String,
    pub value: String,
    pub tokens_used: Option<i64>,
}

/// What an agent of a run answered: its text, and the JSON object in it, or null. `value` is the
/// object that was read from the text, if any.
pub fn run_json_inner(
    text: Option<String>,
    value: Option<String>,
    tokens_used: Option<i64>,
) -> (res: AgentJsonResponse)
    ensures
        res.text@ == match text {
            Some(text) => text@,
            None => ""@,
        },
        res.value@ == match value {
            Some(value) => value@,
            None => "null"@,
        },
        res.tokens_used == tokens_used,
{
    AgentJsonResponse {
        text: match text {
            Some(text) => text,
            None => "".to_owned(),
        },
        value: match value {
            Some(value) => value,
            None => "null".to_owned(),
        },
        tokens_used,
    }
}

/// Why a call to an agent of a run failed, and what was being done then, where that is told.
#[derive(Debug, Clone, PartialEq, Eq)]
pub struct AgentCallError<E> {
    pub context: Option<String>,
    pub cause: E,
}

/// The counts of a run after a call has ended. A failed turn counts as a failed call. The tokens of
/// one that did not fail are counted, and it still is a failed call where its thread could not be
/// shut down.
pub open spec fn stats_after_call(
    stats: AgentJsonRunStats,
    turn_failed: bool,
    shutdown_failed: bool,
    tokens_used: Option<i64>,
) -> AgentJsonRunStats {
    if turn_failed {
        stats.with_failure()
    } else if shutdown_failed {
        stats.with_tokens(tokens_used).with_failure()
    } else {
        stats.with_tokens(tokens_used)
    }
}

/// What comes of a call to an agent of a run, and what is counted of it. `turn` is the last text of
/// the agent, or why it could not be started or its turn failed; `shutdown` is how its thread was
/// shut down after the turn; `tokens_used` and `value` are the tokens that it used and the object
/// that was read from its text, where the turn did not fail.
pub fn run_json<E>(
    stats: &mut AgentJsonRunStats,
    turn: Result<Option<String>, E>,
    shutdown: Result<(), E>,
    tokens_used: Option<i64>,
    value: Option<String>,
) -> (res: Result<AgentJsonResponse, AgentCallError<E>>)
    requires
        old(stats).failed_calls < usize::MAX,
    ensures
        *final(stats) == stats_after_call(*old(stats), turn is Err, shutdown is Err, tokens_used),
        match (turn, shutdown) {
            (Err(cause), _) => res == Err::<AgentJsonResponse, AgentCallError<E>>(
                AgentCallError { context: None, cause },
            ),
            (Ok(_), Err(cause)) => {
                &&& res matches Err(error)
                &&& error.cause == cause
                &&& error.context.deep_view() == Some("failed to shut down workflow child runtime"@)
            },
            (Ok(text), Ok(_)) => {
                &&& res matches Ok(response)
                &&& response.text@ == match text {
                    Some(text) => text@,
                    None => ""@,
                }
                &&& response.value@ == match value {
                    Some(value) => value@,
                    None => "null"@,
                }
                &&& response.tokens_used == tokens_used
            },
        },
        res is Ok <==> turn is Ok && shutdown is Ok,
        final(stats).calls == old(stats).calls,
        final(stats).failed_calls == old(stats).failed_calls <==> res is Ok,
        turn matches Err(cause) ==> (res matches Err(error) && error.cause == cause),
{
    let text = match turn {
        Ok(text) => text,
        Err(cause) => {
            stats.record_failure();
            return Err(AgentCallError { context: None, cause });
        },
    };
    stats.record_tokens(tokens_used);
    match shutdown {
        Ok(_) => Ok(run_json_inner(text, value, tokens_used)),
        Err(cause) => {
            stats.record_failure();
            Err(
                AgentCallError {
                    context: Some("failed to shut down workflow child runtime".to_owned()),
                    cause,
                },
            )
        },
    }
}

/// Every call counts once, and fails at most once: there are never more failed calls than calls.
/// The tokens of a call are counted unless its turn failed.
pub proof fn failed_calls_are_calls(
    stats: AgentJsonRunStats,
    turn_failed: bool,
    shutdown_failed: bool,
    tokens_used: Option<i64>,
)
    requires
        stats.calls < usize::MAX,
        stats.failed_calls <= stats.calls,
    ensures
        ({
            let begun = stats.with_call();
            let after = stats_after_call(begun, turn_failed, shutdown_failed, tokens_used);
            &&& begun.failed_calls < usize::MAX
            &&& after.calls == stats.calls + 1
            &&& after.failed_calls == stats.failed_calls + if turn_failed || shutdown_failed {
                1int
            } else {
                0
            }
            &&& after.failed_calls <= after.calls
            &&& turn_failed ==> after.tokens_used == stats.tokens_used
            &&& !turn_failed ==> after.tokens_used == stats.with_tokens(tokens_used).tokens_used
        }),
{
}

/// How many tokens the agent of a call used: as it is now, where that is known, else as it is
/// stored.
pub fn workflow_child_tokens_used(
    live: Option<TokenUsageInfo>,
    stored: Option<TokenUsageInfo>,
) -> (res: Option<i64>)
    ensures
        res == match (live, stored) {
            (Some(info), _) => Some(info.total_token_usage.total_tokens),
            (None, Some(info)) => Some(info.total_token_usage.total_tokens),
            (None, None) => None,
        },
        res is None <==> live is None && stored is None,
        live matches Some(info) ==> res == Some(info.total_token_usage.total_tokens),
{
    match (live, stored) {
        (Some(info), _) => Some(info.total_token_usage.total_tokens),
        (None, Some(info)) => Some(info.total_token_usage.total_tokens),
        (None, None) => None,
    }
}

/// What a call to repair an answer is called.
pub fn repair_label(schema_name: &str) -> (res: String)
    ensures
        res@ == "repair-"@ + path_segment(schema_name@),
{
    text::concat2("repair-", sanitize_agent_path_segment(schema_name).as_str())
}

/// The repaired answer: the text of the agent, or else the JSON object that it gave.
pub open spec fn repaired(text: Seq<char>, object: Option<Seq<char>>) -> Seq<char> {
    match object {
        Some(object) => if text::trim_of(text).len() == 0 {
            object
        } else {
            text
        },
        None => text,
    }
}

/// Computes `repaired`.
pub fn repaired_answer(text: String, object: Option<String>) -> (res: String)
    ensures
        res@ == repaired(text@, object.deep_view()),
{
    match object {
        Some(object) => if text::trim(text.as_str()).unicode_len() == 0 {
            object
        } else {
            text
        },
        None => text,
    }
}

/// The JSON object that a text holds, as it is written, if it holds one.
pub open spec fn object_in(value: Seq<char>) -> Option<Seq<char>> {
    if json::fields_of(value) is Some {
        Some(json::written_of(value))
    } else {
        None
    }
}

/// The repaired answer, from what the agent answered.
pub fn repair_json(response: AgentJsonResponse) -> (res: String)
    ensures
        res@ == repaired(response.text@, object_in(response.value@)),
{
    let object = if json::fields(response.value.as_str()).is_some() {
        Some(json::written(response.value.as_str()))
    } else {
        None
    };
    repaired_answer(response.text, object)
}

/// A run that fails shows one phase as failed, and every other one as skipped.
pub proof fn failure_fails_one_phase(
    failure: DeepSearchFailure,
    agent_stats: AgentJsonRunStats,
    phase: DeepSearchPhaseId,
)
    ensures
        failure_changes(failure, agent_stats).contains(RunChangeModel::FailPhase(phase)) <==> phase
            == failed_phase(failure),
        failure_changes(failure, agent_stats).contains(RunChangeModel::SkipPhase(phase)) <==> phase
            != failed_phase(failure),
        failure_changes(failure, agent_stats).last() == RunChangeModel::Fail,
{
    let failed = failed_phase(failure);
    let changes = failure_changes(failure, agent_stats);
    let all = phases();
    skips_are(all, failed);
    let head: int = if first_stop(failure.causes@) is Some {
        3
    } else {
        2
    };
    assert(changes[head + 1] == RunChangeModel::FailPhase(failed));
    assert(all.contains(phase)) by {
        assert(all[0] == DeepSearchPhaseId::Scope);
        assert(all[1] == DeepSearchPhaseId::Search);
        assert(all[2] == DeepSearchPhaseId::Extract);
        assert(all[3] == DeepSearchPhaseId::Verify);
        assert(all[4] == DeepSearchPhaseId::Synthesize);
    }
    let skipped = skips(all, failed);
    assert forall|i: int| 0 <= i < skipped.len() implies changes[head + 2 + i] == #[trigger]
        skipped[i] by {}
    if phase != failed {
        assert(skipped.contains(RunChangeModel::SkipPhase(phase)));
        let i = skipped.index_of(RunChangeModel::SkipPhase(phase));
        assert(skipped[i] == RunChangeModel::SkipPhase(phase));
        assert(changes[head + 2 + i] == RunChangeModel::SkipPhase(phase));
    }
    assert forall|i: int| 0 <= i < changes.len() implies {
        &&& (#[trigger] changes[i]) == RunChangeModel::FailPhase(phase) ==> phase == failed
        &&& changes[i] == RunChangeModel::SkipPhase(phase) ==> phase != failed
    } by {
        if head + 2 <= i < head + 2 + skipped.len() {
            assert(skipped[i - head - 2] == changes[i]);
            assert(skipped.contains(changes[i]));
        }
    }
}

/// What is skipped are the phases other than `failed`.
pub proof fn skips_are(all: Seq<DeepSearchPhaseId>, failed: DeepSearchPhaseId)
    ensures
        forall|change: RunChangeModel| #[trigger]
            skips(all, failed).contains(change) ==> (change matches RunChangeModel::SkipPhase(p)
                && p != failed && all.contains(p)),
        forall|p: DeepSearchPhaseId|
            all.contains(p) && p != failed ==> #[trigger] skips(all, failed).contains(
                RunChangeModel::SkipPhase(p),
            ),
    decreases all.len(),
{
    if all.len() > 0 {
        let rest = all.drop_last();
        skips_are(rest, failed);
        let before = skips(rest, failed);
        let after = skips(all, failed);
        assert forall|change: RunChangeModel| #[trigger]
            after.contains(change) implies (change matches RunChangeModel::SkipPhase(p) && p
            != failed && all.contains(p)) by {
            let i = after.index_of(change);
            if i < before.len() {
                assert(before[i] == change);
                assert(before.contains(change));
                if let RunChangeModel::SkipPhase(p) = change {
                    let j = rest.index_of(p);
                    assert(all[j] == p);
                }
            } else {
                assert(change == RunChangeModel::SkipPhase(all.last()));
                assert(all[all.len() - 1] == all.last());
            }
        }
        assert forall|p: DeepSearchPhaseId|
            all.contains(p) && p != failed implies #[trigger] after.contains(
            RunChangeModel::SkipPhase(p),
        ) by {
            let j = all.index_of(p);
            if j < rest.len() {
                assert(rest[j] == p);
                assert(rest.contains(p));
                assert(before.contains(RunChangeModel::SkipPhase(p)));
                let i = before.index_of(RunChangeModel::SkipPhase(p));
                assert(after[i] == before[i]);
            } else {
                assert(after[before.len() as int] == RunChangeModel::SkipPhase(p));
            }
        }
    }
}

} // verus!
