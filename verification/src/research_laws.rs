//! What is shown of deep research, whether it succeeds or fails.
use vstd::prelude::*;

use crate::deep_research;
use crate::deep_research::{
    AgentJsonRunStats, DeepSearchFailure, DeepSearchLimits, DeepSearchPhaseCounts,
    DeepSearchPhaseId, DeepSearchRunResult, DeepSearchStopReason, DeepSearchStopped,
    RunChangeModel,
};
use crate::json;
use crate::text;
use crate::tool_laws;
use crate::workflow;
use crate::workflow::WorkflowStopReason;

verus! {

/// Whether the cause at `i` is the first early stop.
pub open spec fn stops_first(causes: Seq<Option<DeepSearchStopped>>, i: int) -> bool {
    &&& 0 <= i < causes.len()
    &&& causes[i] is Some
    &&& forall|j: int| 0 <= j < i ==> (#[trigger] causes[j]) is None
}

/// Whether no cause is an early stop.
pub open spec fn never_stops(causes: Seq<Option<DeepSearchStopped>>) -> bool {
    forall|j: int| 0 <= j < causes.len() ==> (#[trigger] causes[j]) is None
}

proof fn first_stop_is(causes: Seq<Option<DeepSearchStopped>>, i: int)
    requires
        stops_first(causes, i),
    ensures
        deep_research::first_stop(causes) == causes[i],
    decreases i,
{
    if i > 0 {
        let rest = causes.skip(1);
        assert(causes[0] is None);
        assert forall|j: int| 0 <= j < i - 1 implies (#[trigger] rest[j]) is None by {
            assert(rest[j] == causes[j + 1]);
        }
        assert(rest[i - 1] == causes[i]);
        first_stop_is(rest, i - 1);
    }
}

proof fn no_first_stop(causes: Seq<Option<DeepSearchStopped>>)
    requires
        never_stops(causes),
    ensures
        deep_research::first_stop(causes) is None,
    decreases causes.len(),
{
    if causes.len() > 0 {
        let rest = causes.skip(1);
        assert(causes[0] is None);
        assert forall|j: int| 0 <= j < rest.len() implies (#[trigger] rest[j]) is None by {
            assert(rest[j] == causes[j + 1]);
        }
        no_first_stop(rest);
    }
}

/// Where a cause of a failure is an early stop, the phase of the first such cause is shown as
/// failed, and no other; the others are shown as skipped. The reason for the stop is shown too.
pub proof fn stops_are_blamed_on_their_phase(
    failure: DeepSearchFailure,
    agent_stats: AgentJsonRunStats,
    i: int,
    phase: DeepSearchPhaseId,
    reason: WorkflowStopReason,
)
    requires
        stops_first(failure.causes@, i),
    ensures
        ({
            let stopped = failure.causes@[i]->0;
            let changes = deep_research::failure_changes(failure, agent_stats);
            &&& changes.contains(RunChangeModel::FailPhase(phase)) <==> phase == stopped.phase
            &&& changes.contains(RunChangeModel::SkipPhase(phase)) <==> phase != stopped.phase
            &&& changes.contains(RunChangeModel::SetStopReason(reason)) <==> match stopped.reason {
                DeepSearchStopReason::TokenBudgetExceeded => reason is TokenBudgetExceeded,
                DeepSearchStopReason::RuntimeExceeded => reason is RuntimeExceeded,
            }
        }),
{
    first_stop_is(failure.causes@, i);
    deep_research::failure_fails_one_phase(failure, agent_stats, phase);
    let changes = deep_research::failure_changes(failure, agent_stats);
    deep_research::skips_are(deep_research::phases(), failure.causes@[i]->0.phase);
    let skipped = deep_research::skips(
        deep_research::phases(),
        failure.causes@[i]->0.phase,
    );
    assert(changes[2] is SetStopReason);
    assert forall|k: int| 0 <= k < changes.len() && k != 2 implies !(
    #[trigger] changes[k] is SetStopReason) by {
        if 5 <= k < 5 + skipped.len() {
            assert(changes[k] == skipped[k - 5]);
            assert(skipped.contains(skipped[k - 5]));
        }
    }
}

/// Where no cause of a failure is an early stop, the phase that it is known to have failed in is
/// shown as failed, and no other; where that is not known, it is the first. No reason for a stop
/// is shown.
pub proof fn failures_are_blamed_on_their_phase(
    failure: DeepSearchFailure,
    agent_stats: AgentJsonRunStats,
    phase: DeepSearchPhaseId,
)
    requires
        never_stops(failure.causes@),
    ensures
        ({
            let changes = deep_research::failure_changes(failure, agent_stats);
            let blamed = match failure.phase {
                Some(known) => phase == known,
                None => phase is Scope,
            };
            &&& changes.contains(RunChangeModel::FailPhase(phase)) <==> blamed
            &&& changes.contains(RunChangeModel::SkipPhase(phase)) <==> !blamed
            &&& forall|k: int|
                0 <= k < changes.len() ==> !((#[trigger] changes[k]) is SetStopReason)
        }),
{
    no_first_stop(failure.causes@);
    deep_research::failure_fails_one_phase(failure, agent_stats, phase);
    let changes = deep_research::failure_changes(failure, agent_stats);
    let failed = deep_research::failed_phase(failure);
    deep_research::skips_are(deep_research::phases(), failed);
    let skipped = deep_research::skips(deep_research::phases(), failed);
    assert forall|k: int| 0 <= k < changes.len() implies !(#[trigger] changes[k] is SetStopReason) by {
        if 4 <= k < 4 + skipped.len() {
            assert(changes[k] == skipped[k - 4]);
            assert(skipped.contains(skipped[k - 4]));
        }
    }
}

/// A failure is shown with what it says: in the summary, and as what the run leaves behind. The
/// calls that were made are counted, and the run ends as failed.
pub proof fn failures_say_why(failure: DeepSearchFailure, agent_stats: AgentJsonRunStats)
    ensures
        ({
            let changes = deep_research::failure_changes(failure, agent_stats);
            &&& changes.contains(
                RunChangeModel::SetReportSummary("Deep search failed: "@ + failure.message@),
            )
            &&& changes.contains(
                RunChangeModel::AddAgentStats {
                    calls: agent_stats.calls as nat,
                    failed_calls: agent_stats.failed_calls as nat,
                    extra_calls: 0,
                    tokens_used: agent_stats.tokens_used,
                },
            )
            &&& changes.contains(RunChangeModel::Fail)
            &&& !changes.contains(RunChangeModel::Complete)
            &&& changes[0] matches RunChangeModel::RecordArtifact { title, status, payload }
                && title == "Error"@ && status == "failed"@
        }),
{
    let changes = deep_research::failure_changes(failure, agent_stats);
    let failed = deep_research::failed_phase(failure);
    deep_research::skips_are(deep_research::phases(), failed);
    let skipped = deep_research::skips(deep_research::phases(), failed);
    let head: int = if deep_research::first_stop(failure.causes@) is Some {
        3
    } else {
        2
    };
    assert(changes[1] is SetReportSummary);
    assert(changes[head] is AddAgentStats);
    assert(changes[changes.len() - 1] is Fail);
    assert forall|k: int| 0 <= k < changes.len() implies !((#[trigger] changes[k]) is Complete) by {
        if head + 2 <= k < head + 2 + skipped.len() {
            assert(changes[k] == skipped[k - head - 2]);
            assert(skipped.contains(skipped[k - head - 2]));
        }
    }
}

/// What a failure leaves behind names the message, and the stop with its figures where there was
/// one.
pub proof fn failures_leave_their_figures(failure: DeepSearchFailure, i: int)
    ensures
        never_stops(failure.causes@) ==> deep_research::failure_payload(failure)
            == "{"@ + json::field_of("error"@, json::quoted_of(failure.message@)) + "}"@,
        stops_first(failure.causes@, i) ==> deep_research::failure_payload(failure)
            == json::object_of(
            seq![
                json::field_of("error"@, json::quoted_of(failure.message@)),
                json::field_of(
                    "limit"@,
                    text::decimal_of(failure.causes@[i]->0.limit as nat),
                ),
                json::field_of(
                    "observed"@,
                    text::decimal_of(failure.causes@[i]->0.observed as nat),
                ),
                json::field_of("phase"@, json::quoted_of(failure.causes@[i]->0.phase.name())),
                json::field_of(
                    "stop_reason"@,
                    json::quoted_of(failure.causes@[i]->0.reason_name@),
                ),
            ],
        ),
{
    if never_stops(failure.causes@) {
        no_first_stop(failure.causes@);
        let one = seq![json::field_of("error"@, json::quoted_of(failure.message@))];
        assert(text::join_of(one, ","@) == one[0]);
    }
    if stops_first(failure.causes@, i) {
        first_stop_is(failure.causes@, i);
    }
}

/// The figures that are shown of a phase.
pub open spec fn shows_counts(
    changes: Seq<RunChangeModel>,
    phase: DeepSearchPhaseId,
    completed: nat,
    failed: nat,
    skipped: nat,
) -> bool {
    changes.contains(RunChangeModel::UpdatePhaseCounts { phase, completed, failed, skipped })
}

/// A phase is shown as failed exactly where anything in it failed, as complete where something was
/// done and nothing failed, and as skipped where nothing was done.
pub proof fn phases_end_by_their_counts(phase: DeepSearchPhaseId, completed: nat, failed: nat)
    ensures
        deep_research::finish_of(phase, completed, failed) == RunChangeModel::FailPhase(phase)
            <==> failed > 0,
        deep_research::finish_of(phase, completed, failed) == RunChangeModel::CompletePhase(phase)
            <==> failed == 0 && completed > 0,
        deep_research::finish_of(phase, completed, failed) == RunChangeModel::SkipPhase(phase)
            <==> failed == 0 && completed == 0,
{
}

/// What a run shows of its phases is what was counted in each: what was done, what failed, and as
/// skipped what was passed over and what was planned and never reached.
pub proof fn phases_show_their_counts(counts: DeepSearchPhaseCounts, limits: DeepSearchLimits)
    ensures
        ({
            let changes = deep_research::phase_changes(counts, limits);
            &&& shows_counts(changes, DeepSearchPhaseId::Scope, 1, 0, 0)
            &&& exists|skipped: nat| #[trigger]
                shows_counts(
                    changes,
                    DeepSearchPhaseId::Search,
                    counts.searched_angles as nat,
                    counts.search_failed as nat,
                    skipped,
                ) && (counts.searched_angles + counts.search_failed <= limits.max_angles ==> skipped
                    + counts.searched_angles + counts.search_failed == limits.max_angles
                    + counts.search_skipped) && (counts.searched_angles + counts.search_failed
                    >= limits.max_angles ==> skipped == counts.search_skipped)
            &&& exists|skipped: nat| #[trigger]
                shows_counts(
                    changes,
                    DeepSearchPhaseId::Extract,
                    counts.sources_extracted as nat,
                    counts.extract_failed as nat,
                    skipped,
                ) && (counts.sources_extracted + counts.extract_failed <= counts.sources_selected
                    ==> skipped + counts.sources_extracted + counts.extract_failed
                    == counts.sources_selected + counts.extract_skipped) && (
                counts.sources_extracted + counts.extract_failed >= counts.sources_selected
                    ==> skipped == counts.extract_skipped)
            &&& exists|skipped: nat| #[trigger]
                shows_counts(
                    changes,
                    DeepSearchPhaseId::Verify,
                    counts.verdict_votes as nat,
                    counts.verdict_failed as nat,
                    skipped,
                ) && (counts.verdict_votes + counts.verdict_failed <= counts.claims_ranked as nat
                    * limits.votes_per_claim as nat ==> skipped + counts.verdict_votes
                    + counts.verdict_failed == counts.claims_ranked as nat
                    * limits.votes_per_claim as nat + counts.verdict_skipped) && (
                counts.verdict_votes + counts.verdict_failed >= counts.claims_ranked as nat
                    * limits.votes_per_claim as nat ==> skipped == counts.verdict_skipped)
            &&& counts.synthesized ==> shows_counts(
                changes,
                DeepSearchPhaseId::Synthesize,
                1,
                0,
                0,
            )
            &&& !counts.synthesized ==> shows_counts(
                changes,
                DeepSearchPhaseId::Synthesize,
                0,
                0,
                1,
            )
            &&& changes.contains(RunChangeModel::CompletePhase(DeepSearchPhaseId::Scope))
            &&& changes.contains(RunChangeModel::FailPhase(DeepSearchPhaseId::Search))
                <==> counts.search_failed > 0
            &&& changes.contains(RunChangeModel::FailPhase(DeepSearchPhaseId::Extract))
                <==> counts.extract_failed > 0
            &&& changes.contains(RunChangeModel::FailPhase(DeepSearchPhaseId::Verify))
                <==> counts.verdict_failed > 0
            &&& changes.contains(RunChangeModel::CompletePhase(DeepSearchPhaseId::Synthesize))
                <==> counts.synthesized
        }),
{
    let changes = deep_research::phase_changes(counts, limits);
    assert(changes.len() == 10);
    assert(changes[0] == RunChangeModel::UpdatePhaseCounts {
        phase: DeepSearchPhaseId::Scope,
        completed: 1,
        failed: 0,
        skipped: 0,
    });
    assert(changes[1] == RunChangeModel::CompletePhase(DeepSearchPhaseId::Scope));
    let searched = deep_research::search_skipped(counts, limits);
    let extracted = deep_research::extract_skipped(counts);
    let verified = deep_research::verify_skipped(counts, limits);
    assert(changes[2] == RunChangeModel::UpdatePhaseCounts {
        phase: DeepSearchPhaseId::Search,
        completed: counts.searched_angles as nat,
        failed: counts.search_failed as nat,
        skipped: searched,
    });
    assert(changes[3] == deep_research::finish_of(
        DeepSearchPhaseId::Search,
        counts.searched_angles as nat,
        counts.search_failed as nat,
    ));
    assert(changes[4] == RunChangeModel::UpdatePhaseCounts {
        phase: DeepSearchPhaseId::Extract,
        completed: counts.sources_extracted as nat,
        failed: counts.extract_failed as nat,
        skipped: extracted,
    });
    assert(changes[5] == deep_research::finish_of(
        DeepSearchPhaseId::Extract,
        counts.sources_extracted as nat,
        counts.extract_failed as nat,
    ));
    assert(changes[6] == RunChangeModel::UpdatePhaseCounts {
        phase: DeepSearchPhaseId::Verify,
        completed: counts.verdict_votes as nat,
        failed: counts.verdict_failed as nat,
        skipped: verified,
    });
    assert(changes[7] == deep_research::finish_of(
        DeepSearchPhaseId::Verify,
        counts.verdict_votes as nat,
        counts.verdict_failed as nat,
    ));
    assert(changes[8] is UpdatePhaseCounts);
    assert(changes[9] == deep_research::finish_of(
        DeepSearchPhaseId::Synthesize,
        if counts.synthesized {
            1
        } else {
            0
        },
        0,
    ));
    assert(shows_counts(
        changes,
        DeepSearchPhaseId::Search,
        counts.searched_angles as nat,
        counts.search_failed as nat,
        searched,
    ));
    assert(shows_counts(
        changes,
        DeepSearchPhaseId::Extract,
        counts.sources_extracted as nat,
        counts.extract_failed as nat,
        extracted,
    ));
    assert(shows_counts(
        changes,
        DeepSearchPhaseId::Verify,
        counts.verdict_votes as nat,
        counts.verdict_failed as nat,
        verified,
    ));
}

/// What deep research found is shown whole: the report as it is, the sources, the claims and the
/// verdicts cut short where they are long, the summary, and the calls that were made. The run ends
/// as complete.
pub proof fn findings_are_shown(
    result: DeepSearchRunResult,
    limits: DeepSearchLimits,
    agent_stats: AgentJsonRunStats,
)
    ensures
        ({
            let changes = deep_research::success_changes(result, limits, agent_stats);
            &&& deep_research::phase_changes(result.phase_counts, limits).is_prefix_of(changes)
            &&& changes.contains(
                RunChangeModel::RecordArtifact {
                    title: "Report"@,
                    status: "completed"@,
                    payload: result.report@,
                },
            )
            &&& changes.contains(
                RunChangeModel::RecordArtifact {
                    title: "Sources"@,
                    status: text::decimal_of(result.selected_sources_len as nat) + " selected"@,
                    payload: deep_research::compacted(result.selected_sources@, 50),
                },
            )
            &&& changes.contains(
                RunChangeModel::RecordArtifact {
                    title: "Ranked claims"@,
                    status: text::decimal_of(result.ranked_claims_len as nat) + " claims"@,
                    payload: deep_research::compacted(result.ranked_claims@, 50),
                },
            )
            &&& changes.contains(
                RunChangeModel::RecordArtifact {
                    title: "Verdicts"@,
                    status: "aggregated"@,
                    payload: deep_research::compacted(result.aggregated_verdicts@, 50),
                },
            )
            &&& changes.contains(RunChangeModel::SetReportSummary(result.summary@))
            &&& changes.contains(
                RunChangeModel::AddAgentStats {
                    calls: agent_stats.calls as nat,
                    failed_calls: agent_stats.failed_calls as nat,
                    extra_calls: 0,
                    tokens_used: agent_stats.tokens_used,
                },
            )
            &&& changes.last() == RunChangeModel::Complete
            &&& !changes.contains(RunChangeModel::Fail)
        }),
{
    let changes = deep_research::success_changes(result, limits, agent_stats);
    let head = deep_research::phase_changes(result.phase_counts, limits);
    phases_show_their_counts(result.phase_counts, limits);
    assert(head.len() == 10);
    assert(changes[10] is RecordArtifact);
    assert(changes[11] is RecordArtifact);
    assert(changes[12] is RecordArtifact);
    assert(changes[13] is RecordArtifact);
    assert(changes[14] is SetReportSummary);
    assert(changes[15] is SetTemplateStats);
    assert(changes[16] is AddAgentStats);
    assert(changes[17] is Complete);
    assert(head.is_prefix_of(changes));
    assert forall|k: int| 0 <= k < changes.len() implies !((#[trigger] changes[k]) is Fail) by {
        if k < 10 {
            assert(changes[k] == head[k]);
        }
    }
}

/// A list that is too long is cut to what is kept of it, and says how many are missing.
pub proof fn long_lists_are_cut(kept: Seq<Seq<char>>, dropped: Seq<Seq<char>>)
    ensures
        deep_research::cut_short(kept + dropped, kept.len()) == json::object_of(
            seq![
                json::field_of("items"@, json::array_of(kept)),
                json::field_of("max_items"@, text::decimal_of(kept.len())),
                json::field_of("truncated_count"@, text::decimal_of(dropped.len())),
            ],
        ),
{
    assert((kept + dropped).take(kept.len() as int) =~= kept);
}

/// A value is left as it is unless it is a list, or an object that holds one, that is too long.
pub proof fn short_values_are_left(value: Seq<char>, max_items: nat)
    ensures
        json::elements_of(value) matches Some(items) ==> {
            &&& items.len() <= max_items ==> deep_research::compacted(value, max_items) == value
            &&& items.len() > max_items ==> deep_research::compacted(value, max_items)
                == deep_research::cut_short(items, max_items)
        },
        json::elements_of(value) is None && json::fields_of(value) is None
            ==> deep_research::compacted(value, max_items) == value,
        json::elements_of(value) is None ==> (json::fields_of(value) matches Some(fields) ==> exists|
            shown: Seq<Seq<char>>,
        |
            {
                &&& shown.len() == fields.len()
                &&& deep_research::compacted(value, max_items) == #[trigger] json::object_of(shown)
                &&& forall|i: int|
                    0 <= i < fields.len() ==> #[trigger] shown[i] == json::field_of(
                        fields[i].0,
                        match json::elements_of(fields[i].1) {
                            Some(items) => if items.len() > max_items {
                                deep_research::cut_short(items, max_items)
                            } else {
                                fields[i].1
                            },
                            None => fields[i].1,
                        },
                    )
            }),
{
    if json::elements_of(value) is None && json::fields_of(value) is Some {
        let fields = json::fields_of(value)->0;
        let shown = deep_research::compacted_fields(fields, max_items);
        assert(deep_research::compacted(value, max_items) == json::object_of(shown));
    }
}

/// The figures of a run are kept unless they take too many bytes; what stands for them then says
/// how many.
pub proof fn large_figures_are_replaced(value: Seq<char>, serialized: Seq<char>)
    ensures
        ({
            let bytes = vstd::utf8::encode_utf8(serialized).len();
            &&& bytes <= 16384 ==> deep_research::stats_kept(value, Some(serialized)) == value
            &&& bytes > 16384 ==> deep_research::stats_kept(value, Some(serialized))
                == json::object_of(
                seq![
                    json::field_of("max_bytes"@, text::decimal_of(16384)),
                    json::field_of("original_bytes"@, text::decimal_of(bytes)),
                    json::field_of("truncated"@, "true"@),
                ],
            )
        }),
{
}

/// The repaired answer is never blank where the agent gave a JSON object, and is the text of the
/// agent wherever that says anything.
pub proof fn repairs_say_something(text: Seq<char>, object: Option<Seq<char>>)
    ensures
        text::trim_of(text).len() > 0 ==> deep_research::repaired(text, object) == text,
        text::trim_of(text).len() == 0 ==> (object matches Some(given) ==> deep_research::repaired(
            text,
            object,
        ) == given),
        object is None ==> deep_research::repaired(text, object) == text,
{
}

/// Different phases have different names.
pub proof fn phases_have_names_of_their_own(a: DeepSearchPhaseId, b: DeepSearchPhaseId)
    ensures
        a.name() == b.name() ==> a == b,
        a.name() == "scope"@ <==> a is Scope,
        a.name() == "search"@ <==> a is Search,
        a.name() == "extract"@ <==> a is Extract,
        a.name() == "verify"@ <==> a is Verify,
        a.name() == "synthesize"@ <==> a is Synthesize,
{
    reveal_strlit("scope");
    reveal_strlit("search");
    reveal_strlit("extract");
    reveal_strlit("verify");
    reveal_strlit("synthesize");
    assert("scope"@.len() == 5 && "search"@[0] == 's' && "search"@.len() == 6);
    assert("extract"@.len() == 7 && "verify"@[0] == 'v' && "synthesize"@.len() == 10);
    assert("verify"@.len() == 6);
}

/// The tokens of a call are added to those that are known, and leave them as they are where the call
/// tells none. Nothing else is counted with them.
pub proof fn tokens_are_added_up(stats: AgentJsonRunStats, tokens: i64, more: i64)
    requires
        i64::MIN <= tokens + more <= i64::MAX,
    ensures
        stats.with_tokens(None) == stats,
        stats.tokens_used is None ==> {
            &&& stats.with_tokens(Some(tokens)).tokens_used == Some(tokens)
            &&& stats.with_tokens(Some(tokens)).with_tokens(Some(more)).tokens_used == Some(
                (tokens + more) as i64,
            )
        },
        stats.with_tokens(Some(tokens)).calls == stats.calls,
        stats.with_tokens(Some(tokens)).failed_calls == stats.failed_calls,
        stats.with_tokens(Some(tokens)).tokens_used is Some,
{
}

/// Phases are skipped in the order of the list, each where it stands, but for the failed one.
pub proof fn phases_are_skipped_in_order(
    earlier: Seq<DeepSearchPhaseId>,
    later: Seq<DeepSearchPhaseId>,
    phase: DeepSearchPhaseId,
    failed: DeepSearchPhaseId,
)
    ensures
        deep_research::skips(earlier + later, failed) == deep_research::skips(earlier, failed)
            + deep_research::skips(later, failed),
        phase != failed ==> deep_research::skips(seq![phase], failed) =~= seq![
            RunChangeModel::SkipPhase(phase),
        ],
        deep_research::skips(seq![failed], failed).len() == 0,
    decreases later.len(),
{
    reveal_with_fuel(deep_research::skips, 2);
    assert(seq![phase].drop_last() =~= Seq::empty());
    assert(seq![failed].drop_last() =~= Seq::empty());
    assert(seq![phase].last() == phase);
    assert(seq![failed].last() == failed);
    let both = earlier + later;
    if later.len() == 0 {
        assert(both =~= earlier);
    } else {
        assert(both.drop_last() =~= earlier + later.drop_last());
        assert(both.last() == later.last());
        phases_are_skipped_in_order(earlier, later.drop_last(), phase, failed);
    }
    assert(deep_research::skips(both, failed) =~= deep_research::skips(earlier, failed)
        + deep_research::skips(later, failed));
}

/// A phase comes before those that build on it: the question is scoped, sources are searched and
/// extracted, claims are verified, and the report is written last. Each comes once.
pub proof fn phases_come_in_order(i: int, j: int)
    requires
        0 <= i < deep_research::phases().len(),
        0 <= j < deep_research::phases().len(),
    ensures
        deep_research::phases().len() == 5,
        deep_research::phases()[i] is Scope ==> i <= j,
        deep_research::phases()[i] is Search && deep_research::phases()[j] is Extract ==> i < j,
        deep_research::phases()[i] is Extract && deep_research::phases()[j] is Verify ==> i < j,
        deep_research::phases()[i] is Synthesize ==> j <= i,
        deep_research::phases()[i] == deep_research::phases()[j] ==> i == j,
{
}

/// A step in the path of an agent holds the plain characters of its name in their places and in
/// lower case, with a hyphen for each other one, between the first that counts and the last. A name
/// without any gives the name of an agent.
pub proof fn path_steps_keep_plain_characters(value: Seq<char>)
    ensures
        ({
            let step = deep_research::path_segment(value);
            let chars = deep_research::path_chars(value);
            &&& chars.len() == value.len()
            &&& forall|i: int|
                0 <= i < value.len() ==> #[trigger] chars[i] == if workflow::is_plain(value[i]) {
                    text::lower_case(value[i])
                } else {
                    '-'
                }
            &&& step != "agent"@ ==> exists|start: int|
                #[trigger] tool_laws::is_cut_at(step, chars, '-', start)
            &&& tool_laws::is_all(chars, '-') ==> step == "agent"@
        }),
{
    let chars = deep_research::path_chars(value);
    let trimmed = text::trim_char_of(chars, '-');
    tool_laws::trimming_takes_a_character_from_both_ends(chars, '-');
    if tool_laws::is_all(chars, '-') && trimmed.len() > 0 {
        let start = choose|start: int| tool_laws::is_cut_at(trimmed, chars, '-', start);
        assert(trimmed[0] == chars.subrange(start, start + trimmed.len() as int)[0]);
        assert(trimmed[0] == chars[start]);
    }
}

/// Only a value with fields is an object, and it is one as it is written.
pub proof fn objects_have_fields(value: Seq<char>)
    ensures
        deep_research::object_in(value) is Some <==> json::fields_of(value) is Some,
        deep_research::object_in(value) is Some && json::compact_of(value) is Some
            ==> deep_research::object_in(value) == json::compact_of(value),
{
}

/// The figures of a run are kept together with the counts of its phases, and alone only where these
/// cannot be added.
pub proof fn figures_hold_the_counts(result: DeepSearchRunResult)
    ensures
        ({
            let joined = json::with_field_of(
                result.stats@,
                "phase_counts"@,
                result.phase_counts_json@,
            );
            &&& joined is Some ==> Some(deep_research::stats_of(result)) == joined
            &&& joined is None ==> deep_research::stats_of(result) == result.stats@
        }),
{
}

} // verus!
