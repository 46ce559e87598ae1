//! What the turns of a run leave behind.

use vstd::prelude::*;

use crate::ai::delivery::{results_view, Said, Streamed, ToolStatus};
use crate::ai::loop_batches::SummaryDraft;
use crate::ai::loop_stream::RoundTurn;
use crate::ai::messages::AiChatRole;
use crate::ai::results::AiExecutedToolResult;
use crate::ai::tool_loop::ToolLoop;
use crate::json::{Json, JsonTree};
use crate::text;

verus! {

/// An answer with calls stands in the history with each of its calls, in their order, under the
/// model that gave it. Its thinking is kept where there is any.
pub proof fn law_calls_stand_with_their_answer(
    run: &mut ToolLoop,
    imitates: bool,
    state: Option<JsonTree>,
    now_ms: i64,
    at: int,
)
    requires
        call_ensures(ToolLoop::conclude_stream, (run, imitates, state, now_ms), RoundTurn::Execute),
        0 <= at < run.round.completed@.len(),
    ensures
        ({
            let message = final(run).history@.last();
            let call = old(run).round.completed@[at];
            &&& message.tool_calls@.len() == old(run).round.completed@.len()
            &&& message.tool_calls@[at]@ == Json::Object(
                seq![
                    ("arguments"@, Json::Text(call.arguments@)),
                    ("id"@, Json::Text(call.id@)),
                    ("name"@, Json::Text(call.name@)),
                ],
            )
            &&& message.model is Some && message.model->0@ == old(run).settings.model@
            &&& message.thinking_content is Some <==> old(run).round.thinking@.len() > 0
            &&& message.thinking_content is Some ==> message.thinking_content->0@
                == old(run).round.thinking@
            &&& message.tool_call_id is None
            &&& message.id@ == "assistant-tool-round-"@ + text::decimal(
                old(run).round_index as nat,
            )
        }),
{
    let message = final(run).history@.last();
    let records = crate::ai::loop_stream::call_records(old(run).round.completed@);
    assert(crate::json::list_view(message.tool_calls@) == records);
    assert(crate::json::list_view(message.tool_calls@).len() == records.len());
    assert(crate::json::list_view(message.tool_calls@)[at] == records[at]);
}

/// The state that the provider wants back goes with the answer, under the key that it is kept by;
/// without one, an answer with calls keeps the parts that were streamed.
pub proof fn law_answers_keep_what_the_provider_wants_back(
    run: &mut ToolLoop,
    imitates: bool,
    state: Option<JsonTree>,
    now_ms: i64,
    res: RoundTurn,
)
    requires
        call_ensures(ToolLoop::conclude_stream, (run, imitates, state, now_ms), res),
        res is Answered || res == RoundTurn::Execute,
    ensures
        state is Some ==> {
            let parts = final(run).history@.last().provider_parts;
            &&& parts is Some
            &&& parts->0.key@ == old(run).settings.response_state_key@
            &&& parts->0.parts@.len() == 1
            &&& parts->0.parts@[0]@ == state->0@
        },
        state is None && res is Answered ==> final(run).history@.last().provider_parts is None,
        state is None && res == RoundTurn::Execute ==> {
            let parts = final(run).history@.last().provider_parts;
            &&& parts is Some
            &&& parts->0.key@ == old(run).settings.provider_type@
            &&& parts->0.parts@.len() == old(run).round.parts@.len()
            &&& forall|i: int|
                0 <= i < parts->0.parts@.len() ==> (#[trigger] parts->0.parts@[i])@
                    == old(run).round.parts@[i]@
        },
{
    let parts = final(run).history@.last().provider_parts;
    if state is Some {
        let kept = crate::json::list_view(parts->0.parts@);
        assert(kept == seq![state->0@]);
        assert(kept.len() == 1);
        assert(kept[0] == state->0@);
    } else if res == RoundTurn::Execute {
        let kept = crate::json::list_view(parts->0.parts@);
        let streamed = crate::json::list_view(old(run).round.parts@);
        assert(kept == streamed);
        assert(kept.len() == streamed.len());
        assert forall|i: int| 0 <= i < parts->0.parts@.len() implies (
        #[trigger] parts->0.parts@[i])@ == old(run).round.parts@[i]@ by {
            assert(kept[i] == streamed[i]);
        }
    }
}

/// Every answer is reported first of all: its round, counted from one, how many bytes it has, and
/// the calls it makes. What was delivered before stays.
pub proof fn law_answers_are_reported_first(
    run: &mut ToolLoop,
    imitates: bool,
    state: Option<JsonTree>,
    now_ms: i64,
    res: RoundTurn,
)
    requires
        call_ensures(ToolLoop::conclude_stream, (run, imitates, state, now_ms), res),
        run.sender.open,
        run.round_index < usize::MAX,
    ensures
        final(run).sender@.len() > old(run).sender@.len(),
        final(run).sender@.take(old(run).sender@.len() as int) == old(run).sender@,
        final(run).sender@[old(run).sender@.len() as int].said matches Said::AssistantRound {
            round_id,
            round,
            content_bytes,
            call_ids,
            synthetic,
        } && {
            &&& round == old(run).round_index + 1
            &&& round_id == old(run).settings.assistant_id@ + "-round-"@ + text::decimal(
                (old(run).round_index + 1) as nat,
            )
            &&& content_bytes == text::bytes_in(old(run).round.content@)
            &&& call_ids.len() == old(run).round.completed@.len()
            &&& forall|i: int|
                0 <= i < call_ids.len() ==> #[trigger] call_ids[i]
                    == old(run).round.completed@[i].id@
            &&& !synthetic
        },
        res == RoundTurn::Execute ==> final(run).sender@.len() == old(run).sender@.len() + 1,
{
    let before = old(run).sender@;
    let count = before.len() as int;
    assert(final(run).sender@.len() > count);
    assert(final(run).sender@[count].said == old(run).round_report());
    assert(final(run).sender@.take(count) =~= before);
}

/// Where a round is refused, each of its calls is turned away with the reason, too many calls before
/// a spent budget.
pub proof fn law_refused_rounds_turn_their_calls_away(
    run: &mut ToolLoop,
    imitates: bool,
    state: Option<JsonTree>,
    now_ms: i64,
    at: int,
)
    requires
        call_ensures(ToolLoop::conclude_stream, (run, imitates, state, now_ms), RoundTurn::Rejected),
        run.sender.open,
        0 <= at < run.round.completed@.len(),
    ensures
        ({
            let calls = old(run).round.completed@;
            let first = old(run).sender@.len() + if calls.len() > 16 {
                1int
            } else {
                2int
            };
            &&& final(run).sender@.len() == first + calls.len() + if old(run).settings.has_agent {
                0int
            } else {
                1int
            }
            &&& final(run).sender@[first + at].said matches Said::ToolStatus {
                call_id,
                name,
                status,
                envelope,
                risk,
                summary,
            } && {
                &&& call_id == calls[at].id@
                &&& name == calls[at].name@
                &&& status == ToolStatus::Rejected
                &&& envelope is Some && !envelope->0.ok && envelope->0.error is Some
                &&& envelope->0.error->0.code == if calls.len() > 16 {
                    "too_many_tool_calls"@
                } else {
                    "tool_budget_limit"@
                }
            }
            &&& !old(run).settings.has_agent ==> final(run).sender@.last().said matches Said::Stream(
                Streamed::Error(message),
            )
        }),
{
    let calls = old(run).round.completed@;
    if calls.len() > 16 {
        let message = "Too many tool calls in one round (max 16)."@;
        let told = crate::ai::tool_loop::rejections(calls, "too_many_tool_calls"@, message);
        let more = seq![old(run).round_report()] + told + old(run).closing_error(message);
        assert(final(run).sender@ == old(run).heard(more));
        assert(more[1 + at] == told[at]);
        assert(!old(run).settings.has_agent ==> more.last() == Said::Stream(Streamed::Error(message)));
    } else {
        let message = "Tool use stopped because the conversation reached the configured tool-round limit."@;
        let told = crate::ai::tool_loop::rejections(calls, "tool_budget_limit"@, message);
        let last = "Tool execution stopped after reaching the maximum tool rounds."@;
        let more = seq![
            old(run).round_report(),
            Said::Guardrail { code: "tool-budget-limit"@, message, content: None },
        ] + told + old(run).closing_error(last);
        assert(final(run).sender@ == old(run).heard(more));
        assert(more[2 + at] == told[at]);
        assert(!old(run).settings.has_agent ==> more.last() == Said::Stream(Streamed::Error(last)));
    }
}

/// An answer that only looks like tool use is turned down in the history: a call that the model did
/// not make, and under the same name the denial of it.
pub proof fn law_imitated_tools_are_turned_down(
    run: &mut ToolLoop,
    imitates: bool,
    state: Option<JsonTree>,
    now_ms: i64,
)
    requires
        call_ensures(ToolLoop::conclude_stream, (run, imitates, state, now_ms), RoundTurn::Retry),
        run.round_index < usize::MAX,
    ensures
        ({
            let count = old(run).history@.len() as int;
            let asked = final(run).history@[count];
            let denied = final(run).history@[count + 1];
            &&& final(run).history@.len() == count + 2
            &&& final(run).history@.take(count) == old(run).history@
            &&& asked.role == AiChatRole::Assistant && asked.content@.len() == 0
            &&& denied.role == AiChatRole::Tool
            &&& asked.tool_calls@.len() == 1 && denied.tool_calls@.len() == 0
            &&& denied.tool_call_id is Some
            &&& asked.tool_calls@[0]@ matches Json::Object(fields) && {
                &&& fields.len() == 3
                &&& fields[1] == ("id"@, Json::Text(denied.tool_call_id->0@))
                &&& fields[2] == ("name"@, Json::Text(old(run).settings.retry_tool_name@))
            }
            &&& denied.tool_call_id->0@ == old(run).settings.assistant_id@ + "-hard-deny-"@
                + text::decimal((old(run).hard_deny_retries + 1) as nat) + "-tool"@
            &&& asked.timestamp_ms == now_ms && denied.timestamp_ms == now_ms
            &&& final(run).round_index == old(run).round_index + 1
        }),
{
    let count = old(run).history@.len() as int;
    let asked = crate::json::list_view(final(run).history@[count].tool_calls@);
    assert(asked.len() == 1);
    assert(asked[0] == final(run).history@[count].tool_calls@[0]@);
}

/// A call whose forerunner failed is shown as rejected; of every other one only the notes are kept.
pub proof fn law_results_are_noted(
    run: &mut ToolLoop,
    result: &AiExecutedToolResult,
    annotated: AiExecutedToolResult,
    repeats: bool,
    content: String,
    now_ms: i64,
)
    requires
        call_ensures(
            ToolLoop::record_result,
            (run, result, annotated, repeats, content, now_ms),
            (),
        ),
        run.sender.open,
        run.recorded < run.batch@.len(),
    ensures
        ({
            let count = old(run).sender@.len() as int;
            let call = old(run).batch@[old(run).recorded as int];
            let failed = result.envelope.error is Some && result.envelope.error->0.code@
                == "dependency_failed"@;
            &&& final(run).sender@.len() == count + if failed {
                2int
            } else {
                1int
            }
            &&& final(run).sender@.last().said == Said::Checkpoint(final(run).notes@)
            &&& failed ==> {
                &&& final(run).sender@[count].said matches Said::ToolStatus {
                    call_id,
                    name,
                    status,
                    envelope,
                    risk,
                    summary,
                } && call_id == call.id@ && name == call.name@ && status == ToolStatus::Rejected
                    && envelope == Some(result.envelope@)
            }
            &&& results_view(final(run).round_results@).last() == (
                call.name@,
                annotated.success,
                annotated.envelope.summary@,
            )
            &&& repeats ==> final(run).history@[old(run).history@.len() as int].role
                == AiChatRole::System
        }),
{
}

/// A round that closes is marked last of all, under the name that its summary is awaited by. Its
/// summary is told where it had results, with what was in them.
pub proof fn law_closed_rounds_are_marked(
    run: &mut ToolLoop,
    state: Option<JsonTree>,
    level: u8,
    summary: SummaryDraft,
)
    requires
        call_ensures(ToolLoop::close_round, (run, state, level, summary), ()),
        run.sender.open,
        !run.pause_requested,
        run.round_index < usize::MAX,
    ensures
        ({
            let named = old(run).settings.assistant_id@ + "-round-"@ + text::decimal(
                (old(run).round_index + 1) as nat,
            );
            let said = final(run).sender@;
            &&& final(run).awaiting_summary is Some && final(run).awaiting_summary->0@ == named
            &&& said.last().said == (Said::RoundMarker { round_id: named, awaiting_summary: true })
            &&& old(run).round_results@.len() > 0 ==> {
                &&& said[said.len() - 2].said matches Said::RoundSummary {
                    round_id,
                    results,
                    text,
                    metadata,
                } && {
                    &&& round_id == named
                    &&& text == summary.text@
                    &&& results == results_view(old(run).round_results@)
                    &&& metadata matches Json::Object(fields) && {
                        &&& fields[0] == (
                            "contextLengthBefore"@,
                            Json::Number(text::decimal(summary.prompt_tokens as nat)),
                        )
                        &&& fields[1] == ("model"@, Json::Text(old(run).settings.model@))
                        &&& fields[2] == (
                            "numRounds"@,
                            Json::Number(text::decimal((old(run).round_index + 1) as nat)),
                        )
                    }
                }
            }
        }),
{
    let more = old(run).closing_reports(state, summary);
    assert(final(run).sender@ == old(run).heard(more));
    assert(final(run).sender@.last().said == more.last());
    if old(run).round_results@.len() > 0 {
        assert(final(run).sender@[final(run).sender@.len() - 2].said == more[more.len() - 2]);
    }
}

} // verus!
