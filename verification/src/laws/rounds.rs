//! The rounds of a run.

use vstd::prelude::*;

use crate::ai::delivery::{AiStreamEvent, Delivered, Said, Streamed};
use crate::ai::loop_batches::SummaryDraft;
use crate::ai::loop_stream::RoundTurn;
use crate::ai::messages::{AiChatMessage, AiChatRole};
use crate::ai::results::AiExecutedToolResult;
use crate::ai::tool_loop::{
    allowed_rounds, call_may_run_in_parallel, response_reserve, AiActionRisk, AiAgentLoopStatus,
    AiPolicyDecisionKind, BatchPlan, CompactedTask, CompletionReply, DispatchReply, LoopPhase,
    RoundGrant, ToolLoop,
};
use crate::json::JsonTree;

verus! {

/// A prompt is compacted first exactly where it takes more than three quarters of the window; one
/// that takes more than the whole window always is.
pub proof fn law_crowded_prompts_are_compacted_first(run: &mut ToolLoop, total: usize)
    requires
        call_ensures(ToolLoop::on_prompt_size, (run, total), ()),
    ensures
        final(run).phase == LoopPhase::AwaitCompaction || final(run).phase
            == LoopPhase::AwaitDispatch,
        old(run).settings.context_window <= usize::MAX / 75 ==> (final(run).phase
            == LoopPhase::AwaitCompaction <==> 100 * total > 75 * old(run).settings.context_window),
        total > old(run).settings.context_window ==> final(run).phase == LoopPhase::AwaitCompaction,
        final(run).history == old(run).history,
{
}

/// Where a prompt is compacted first, so is every larger one in the same window.
pub proof fn law_larger_prompts_are_compacted_too(
    run: &mut ToolLoop,
    total: usize,
    other: &mut ToolLoop,
    more: usize,
)
    requires
        call_ensures(ToolLoop::on_prompt_size, (run, total), ()),
        call_ensures(ToolLoop::on_prompt_size, (other, more), ()),
        run.settings.context_window == other.settings.context_window,
        total <= more,
        final(run).phase == LoopPhase::AwaitCompaction,
    ensures
        final(other).phase == LoopPhase::AwaitCompaction,
{
}

/// A run without an agent ends exactly once it has gone past its rounds, and says so; any other run
/// goes on, and its round may use tools again.
pub proof fn law_rounds_are_counted(run: &mut ToolLoop)
    requires
        call_ensures(ToolLoop::start_round, (run,), ()),
    ensures
        final(run).phase == LoopPhase::Finished <==> !old(run).settings.has_agent
            && old(run).round_index > old(run).settings.max_rounds,
        final(run).phase == LoopPhase::Finished ==> final(run).outcome is Some
            && final(run).outcome->0.status == AiAgentLoopStatus::Completed
            && final(run).outcome->0.content@ == old(run).assistant_content@,
        final(run).phase == LoopPhase::Finished && old(run).sender.open ==> final(run).sender@.len()
            == old(run).sender@.len() + 1 && final(run).sender@.last().said == Said::Stream(
            Streamed::Done,
        ),
        final(run).phase != LoopPhase::Finished ==> !final(run).summary_only,
        old(run).settings.has_agent ==> final(run).phase == LoopPhase::AwaitReady,
        final(run).round_index == old(run).round_index,
        final(run).history == old(run).history,
{
}

/// The run of an agent goes on with a round that was granted. A parent whose budget is spent may
/// still sum up; a child, and a run that is refused, has failed.
pub proof fn law_only_granted_rounds_start(run: &mut ToolLoop, grant: RoundGrant)
    requires
        call_ensures(ToolLoop::on_grant, (run, grant), ()),
    ensures
        final(run).phase == LoopPhase::AwaitProgress <==> grant == RoundGrant::Granted,
        final(run).phase == LoopPhase::AwaitFinalSummary <==> grant == RoundGrant::BudgetExhausted
            && !old(run).settings.is_child,
        final(run).phase == LoopPhase::Finished ==> final(run).outcome->0.status
            == AiAgentLoopStatus::Failed,
        final(run).history == old(run).history,
{
}

/// A round that only sums up is one that was granted for that, or one of a run that stalls; the
/// model is told so once.
pub proof fn law_stalled_runs_only_sum_up(run: &mut ToolLoop, stalled: bool, now_ms: i64)
    requires
        call_ensures(ToolLoop::on_progress, (run, stalled, now_ms), ()),
    ensures
        final(run).phase == LoopPhase::AwaitCommit,
        final(run).summary_only == (stalled || old(run).summary_only),
        !stalled ==> final(run).history == old(run).history,
        stalled ==> exists|i: int|
            0 <= i < final(run).history@.len() && (#[trigger] final(run).history@[i]).id@
                == "agent-no-progress"@,
        (exists|i: int|
            0 <= i < old(run).history@.len() && (#[trigger] old(run).history@[i]).id@
                == "agent-no-progress"@) ==> final(run).history == old(run).history,
        forall|i: int|
            0 <= i < old(run).history@.len() ==> i < final(run).history@.len()
                && #[trigger] final(run).history@[i] == old(run).history@[i],
{
    let before = old(run).history@;
    let after = final(run).history@;
    if after.len() == before.len() + 1 && after.drop_last() == before {
        assert forall|i: int| 0 <= i < before.len() implies #[trigger] after[i] == before[i] by {
            assert(after.drop_last()[i] == after[i]);
        }
        assert(after[before.len() as int].id@ == after.last().id@);
    }
}

/// A closing summary waits until every message was read: until then nothing changes. Once it may be
/// written, the round may not use tools any more.
pub proof fn law_summaries_wait_for_messages(run: &mut ToolLoop, reply: CompletionReply, now_ms: i64)
    requires
        call_ensures(ToolLoop::on_summary_completion, (run, reply, now_ms), ()),
    ensures
        final(run).phase == LoopPhase::AwaitProgress <==> reply == CompletionReply::Ready,
        final(run).phase == LoopPhase::Finished <==> reply == CompletionReply::Refused,
        reply == CompletionReply::PendingMessages ==> *final(run) == *old(run),
        reply == CompletionReply::Ready ==> final(run).summary_only && final(run).history@.len()
            == old(run).history@.len() + 1 && final(run).history@.last().role == AiChatRole::System,
{
}

/// The model is asked only with a current context: without one the run fails.
pub proof fn law_a_run_needs_its_context(run: &mut ToolLoop, context: Option<String>, now_ms: i64)
    requires
        call_ensures(ToolLoop::on_runtime_context, (run, context, now_ms), ()),
    ensures
        final(run).phase == LoopPhase::AwaitPromptSize <==> context is Some,
        context is None ==> final(run).phase == LoopPhase::Finished && final(run).outcome->0.status
            == AiAgentLoopStatus::Failed && final(run).history == old(run).history,
        context is Some ==> exists|i: int|
            0 <= i < final(run).history@.len() && (#[trigger] final(run).history@[i]).id@
                == "runtime-context-v2"@ && final(run).history@[i].role == AiChatRole::System
                && final(run).history@[i].content@ == context->0@,
{
    if context is Some {
        let before = old(run).history@;
        let after = final(run).history@;
        if crate::ai::messages::has_message(before, "runtime-context-v2"@) {
            lemma_message_found(before, "runtime-context-v2"@);
            let at = crate::ai::messages::message_position(before, "runtime-context-v2"@);
            assert(after[at].id@ == "runtime-context-v2"@);
        } else {
            assert(after[0].id@ == "runtime-context-v2"@);
        }
    }
}

proof fn lemma_message_found(messages: Seq<AiChatMessage>, id: Seq<char>)
    requires
        crate::ai::messages::has_message(messages, id),
    ensures
        0 <= crate::ai::messages::message_position(messages, id) < messages.len(),
    decreases messages.len(),
{
    let at = choose|i: int| 0 <= i < messages.len() && (#[trigger] messages[i]).id@ == id;
    if messages[0].id@ != id {
        assert(messages.drop_first()[at - 1].id@ == id);
        lemma_message_found(messages.drop_first(), id);
    }
}

/// A task that was compacted goes on with its shorter history; one that could not be fails with the
/// error, which the user hears of unless an agent reports for itself.
pub proof fn law_failed_compactions_end_the_run(run: &mut ToolLoop, compacted: Result<CompactedTask, String>)
    requires
        call_ensures(ToolLoop::on_compaction, (run, compacted), ()),
    ensures
        final(run).phase == LoopPhase::AwaitDispatch <==> compacted is Ok,
        compacted is Ok ==> final(run).history == compacted->Ok_0.history,
        compacted is Err ==> final(run).phase == LoopPhase::Finished && final(run).outcome->0.content@
            == compacted->Err_0@ && final(run).outcome->0.status == AiAgentLoopStatus::Failed,
        compacted is Err && old(run).sender.open && !old(run).settings.has_agent ==> final(run).sender@.len() == old(run).sender@.len() + 1 && final(run).sender@.last().said
            == Said::Stream(Streamed::Error(compacted->Err_0@)),
        compacted is Err && old(run).settings.has_agent ==> final(run).sender@ == old(run).sender@,
{
}

/// Only a run that may dispatch asks the model, and it reports the request: in a round that only sums
/// up, no tool is offered.
pub proof fn law_requests_are_reported(
    run: &mut ToolLoop,
    reply: DispatchReply,
    prompt: &Vec<AiChatMessage>,
    tokens: usize,
)
    requires
        call_ensures(ToolLoop::on_dispatch, (run, reply, prompt, tokens), ()),
        run.phase == LoopPhase::AwaitDispatch,
    ensures
        final(run).phase == LoopPhase::Streaming <==> !old(run).settings.has_agent || reply
            == DispatchReply::Granted,
        final(run).phase == LoopPhase::Streaming && old(run).sender.open ==> {
            let told = final(run).sender@;
            let count = old(run).sender@.len() as int;
            &&& told.len() == count + 2
            &&& told[count].said is Request
            &&& told[count].said->Request_tool_count == if old(run).summary_only {
                0
            } else {
                old(run).settings.tool_count as int
            }
            &&& told[count].said->Request_message_count == old(run).history@.len()
            &&& told[count].said->Request_budget_level == old(run).settings.budget_level
            &&& told[count + 1].said is PromptUsage
            &&& told[count + 1].said->PromptUsage_prompt_tokens == tokens
            &&& told[count + 1].said->PromptUsage_context_window == old(run).settings.context_window
        },
        final(run).history == old(run).history,
{
}

/// Every text that the model streams is kept and handed on as it is: nothing is dropped, repeated or
/// changed, and nothing is mistaken for thinking.
pub proof fn law_streamed_text_is_kept(run: &mut ToolLoop, chunk: String)
    requires
        call_ensures(ToolLoop::on_stream_event, (run, AiStreamEvent::Content(chunk)), ()),
    ensures
        final(run).assistant_content@ == old(run).assistant_content@ + chunk@,
        final(run).round.content@ == old(run).round.content@ + chunk@,
        final(run).assistant_thinking@ == old(run).assistant_thinking@,
        old(run).sender.open ==> final(run).phase == LoopPhase::Streaming && final(run).sender@.last().said == Said::Stream(Streamed::Content(chunk@)),
        !old(run).sender.open ==> final(run).phase == LoopPhase::Finished,
        final(run).history == old(run).history,
{
}

/// What the model thinks is kept apart from what it says.
pub proof fn law_thinking_is_kept_apart(run: &mut ToolLoop, chunk: String)
    requires
        call_ensures(ToolLoop::on_stream_event, (run, AiStreamEvent::Thinking(chunk)), ()),
    ensures
        final(run).assistant_thinking@ == old(run).assistant_thinking@ + chunk@,
        final(run).round.thinking@ == old(run).round.thinking@ + chunk@,
        final(run).assistant_content@ == old(run).assistant_content@,
        final(run).round.content@ == old(run).round.content@,
        old(run).sender.open ==> final(run).sender@.last().said == Said::Stream(
            Streamed::Thinking(chunk@),
        ),
{
}

/// A call that the model finished is kept under one identity, with its name and arguments, and so are
/// the calls of other identities.
pub proof fn law_finished_calls_are_kept(run: &mut ToolLoop, id: String, name: String, arguments: String)
    requires
        call_ensures(
            ToolLoop::on_stream_event,
            (run, AiStreamEvent::ToolCallComplete { id, name, arguments }),
            (),
        ),
    ensures
        exists|i: int|
            {
                &&& 0 <= i < final(run).round.completed@.len()
                &&& (#[trigger] final(run).round.completed@[i]).name == name
                &&& final(run).round.completed@[i].arguments == arguments
                &&& old(run).round.call_ids@.dom().contains(id@) ==> final(run).round.completed@[i].id
                    == old(run).round.call_ids@[id@]
            },
        old(run).round.completed@.len() <= final(run).round.completed@.len()
            <= old(run).round.completed@.len() + 1,
        final(run).assistant_content@ == old(run).assistant_content@,
{
    let calls = old(run).round.completed@;
    let here = final(run).round.call_ids@[id@];
    let call = crate::ai::messages::AiToolCall { id: here, name, arguments };
    let at = crate::ai::tool_loop::call_position(calls, here@);
    crate::ai::tool_loop::lemma_call_position_bounds(calls, here@);
    let after = final(run).round.completed@;
    if at < calls.len() {
        assert(after[at] == call);
    } else {
        assert(after[calls.len() as int] == call);
    }
}

/// An error of the model ends the run with that error; a report of usage changes nothing; the end of
/// the stream keeps what was said.
pub proof fn law_streams_end_as_they_say(run: &mut ToolLoop, event: AiStreamEvent)
    requires
        call_ensures(ToolLoop::on_stream_event, (run, event), ()),
    ensures
        event is Error ==> final(run).phase == LoopPhase::Finished && final(run).outcome->0.status
            == AiAgentLoopStatus::Failed && final(run).outcome->0.content@ == event->Error_0@,
        event is Done ==> final(run).phase == LoopPhase::StreamEnded && final(run).round
            == old(run).round && final(run).assistant_content == old(run).assistant_content,
        event is Usage ==> *final(run) == *old(run),
        event is Done || event is Error ==> final(run).awaiting_summary is None,
{
}

/// What becomes of an answer: one without calls is taken as it is, one that imitates tools where there
/// are none is turned down, one with more than sixteen calls or past the last round is refused, and
/// any other has its calls run.
pub proof fn law_answers_are_weighed(
    run: &mut ToolLoop,
    imitates: bool,
    state: Option<JsonTree>,
    now_ms: i64,
    res: RoundTurn,
)
    requires
        call_ensures(ToolLoop::conclude_stream, (run, imitates, state, now_ms), res),
    ensures
        ({
            let calls = old(run).round.completed@;
            let settings = old(run).settings;
            let spent = old(run).summary_only || (!settings.has_agent && old(run).round_index
                >= settings.max_rounds);
            let denied = calls.len() == 0 && imitates && !settings.policy_enabled
                && old(run).hard_deny_retries < settings.max_hard_deny_retries;
            &&& res == RoundTurn::Retry <==> denied
            &&& res == RoundTurn::Execute <==> 1 <= calls.len() <= 16 && !spent
            &&& res == RoundTurn::Rejected <==> calls.len() > 16 || (calls.len() > 0 && spent)
            &&& res is Answered <==> calls.len() == 0 && !denied
            &&& res == (RoundTurn::Answered { refund: true }) <==> calls.len() == 0 && !denied
                && settings.has_agent && !old(run).summary_only
        }),
        res == RoundTurn::Retry ==> final(run).hard_deny_retries == old(run).hard_deny_retries + 1,
        res != RoundTurn::Retry ==> final(run).hard_deny_retries == old(run).hard_deny_retries,
{
}

/// What an answer leaves in the history: the words of the model, and behind its calls nothing but
/// their results. A refused answer leaves nothing.
pub proof fn law_answers_are_remembered(
    run: &mut ToolLoop,
    imitates: bool,
    state: Option<JsonTree>,
    now_ms: i64,
    res: RoundTurn,
)
    requires
        call_ensures(ToolLoop::conclude_stream, (run, imitates, state, now_ms), res),
    ensures
        res is Answered || res == RoundTurn::Execute ==> {
            &&& final(run).history@.len() == old(run).history@.len() + 1
            &&& final(run).history@.drop_last() == old(run).history@
            &&& final(run).history@.last().role == AiChatRole::Assistant
            &&& final(run).history@.last().content@ == old(run).round.content@
            &&& final(run).history@.last().timestamp_ms == now_ms
        },
        res == RoundTurn::Execute ==> final(run).calls@ == old(run).round.completed@ && final(run).round_results@.len() == 0 && !final(run).pause_requested,
        res == RoundTurn::Rejected ==> final(run).phase == LoopPhase::Finished && final(run).history
            == old(run).history && final(run).outcome->0.status == AiAgentLoopStatus::Failed,
        res is Answered ==> (final(run).phase == LoopPhase::AwaitChildren
            <==> old(run).settings.has_agent && !old(run).settings.is_child),
        res is Answered ==> (final(run).phase == LoopPhase::AwaitFinish
            <==> !old(run).settings.has_agent),
{
}

/// A question to the user stands alone: beside other calls, none of the round is run.
pub proof fn law_questions_stand_alone(
    run: &mut ToolLoop,
    imitates: bool,
    state: Option<JsonTree>,
    now_ms: i64,
    at: int,
)
    requires
        call_ensures(ToolLoop::conclude_stream, (run, imitates, state, now_ms), RoundTurn::Execute),
        0 <= at < run.round.completed@.len(),
        run.round.completed@[at].name@ == "ask_user"@,
    ensures
        final(run).mixed_questions <==> old(run).round.completed@.len() > 1,
{
}

/// The calls of a round run in their order, each in one batch. A batch holds one call, or calls that
/// may all run beside others, as many as there are in a row up to the limit.
pub proof fn law_batches_are_rows_of_reads(run: &mut ToolLoop, parallel: &Vec<bool>, res: bool)
    requires
        call_ensures(ToolLoop::next_batch, (run, parallel), res),
        parallel@.len() == run.calls@.len(),
        run.settings.max_parallel_reads >= 1,
    ensures
        res <==> old(run).calls@.len() > 0,
        res ==> {
            let count = final(run).batch@.len() as int;
            let limit = old(run).settings.max_parallel_reads as int;
            &&& final(run).batch@ + final(run).calls@ == old(run).calls@
            &&& 1 <= count <= limit
            &&& count > 1 ==> forall|i: int| 0 <= i < count ==> #[trigger] parallel@[i]
            &&& parallel@[0] && count < limit && count < parallel@.len() ==> !parallel@[count]
            &&& final(run).recorded == 0
        },
{
    if res {
        let count = crate::ai::tool_loop::batch_len(
            parallel@,
            old(run).settings.max_parallel_reads as int,
        );
        crate::ai::tool_loop::lemma_batch_len(parallel@, old(run).settings.max_parallel_reads as int);
        if parallel@[0] {
            lemma_batch_is_full(parallel@, old(run).settings.max_parallel_reads as int);
        }
        let calls = old(run).calls@;
        assert(final(run).batch@.len() == count);
        assert(final(run).batch@ + final(run).calls@ =~= calls);
    }
}

proof fn lemma_batch_is_full(parallel: Seq<bool>, limit: int)
    requires
        parallel.len() > 0,
        limit >= 1,
        parallel[0],
    ensures
        ({
            let count = crate::ai::tool_loop::batch_len(parallel, limit);
            count < limit && count < parallel.len() ==> !parallel[count]
        }),
    decreases parallel.len(),
{
    if limit > 1 && parallel.len() > 1 && parallel[1] {
        let rest = parallel.drop_first();
        lemma_batch_is_full(rest, limit - 1);
        let count = crate::ai::tool_loop::batch_len(rest, limit - 1);
        if count < limit - 1 && count < rest.len() {
            crate::ai::tool_loop::lemma_batch_len(rest, limit - 1);
            assert(rest[count] == parallel[count + 1]);
        }
    }
}

/// Nothing of a round with a mixed question, or behind a failed call that it depends on, is run.
pub proof fn law_batches_that_cannot_run_are_turned_away(run: &ToolLoop, failed: bool, res: BatchPlan)
    requires
        call_ensures(ToolLoop::plan_batch, (run, failed), res),
    ensures
        res == BatchPlan::Parallel || res == BatchPlan::Single <==> !run.mixed_questions && !failed,
        res == BatchPlan::RejectMixedQuestions <==> run.mixed_questions,
        res == BatchPlan::Parallel ==> run.batch@.len() > 1,
        res == BatchPlan::Single ==> run.batch@.len() <= 1,
{
}

/// A call that is turned away was not run, and its result says so under its own identity.
pub proof fn law_turned_away_calls_did_not_run(
    run: &ToolLoop,
    plan: BatchPlan,
    res: Vec<AiExecutedToolResult>,
    at: int,
)
    requires
        call_ensures(ToolLoop::turn_away, (run, plan), res),
        0 <= at < run.batch@.len(),
    ensures
        res@.len() == run.batch@.len(),
        res@[at].tool_call_id@ == run.batch@[at].id@,
        res@[at].tool_name@ == run.batch@[at].name@,
        !res@[at].success,
        !res@[at].dispatched,
        res@[at].envelope.error is Some,
        !res@[at].envelope.ok,
{
    assert(!res@[at].success);
    assert(res@[at].envelope@.ok == res@[at].envelope.ok);
    assert(res@[at].envelope@.error is Some);
}

/// A result is what the model reads next, under the call that it belongs to, and it counts in the
/// summary of the round. Everything that was in the history stays.
pub proof fn law_results_reach_the_model(
    run: &mut ToolLoop,
    result: &AiExecutedToolResult,
    annotated: AiExecutedToolResult,
    repeats: bool,
    content: String,
    now_ms: i64,
)
    requires
        call_ensures(
            ToolLoop::record_result,
            (run, result, annotated, repeats, content, now_ms),
            (),
        ),
        run.recorded < run.batch.len(),
    ensures
        final(run).history@.last().role == AiChatRole::Tool,
        final(run).history@.last().content@ == content@,
        final(run).history@.last().tool_call_id == Some(annotated.tool_call_id),
        final(run).history@.take(old(run).history@.len() as int) == old(run).history@,
        final(run).history@.len() == old(run).history@.len() + if repeats {
            2int
        } else {
            1int
        },
        final(run).recorded == old(run).recorded + 1,
        final(run).round_results@.len() == old(run).round_results@.len() + 1,
        final(run).pause_requested <==> old(run).pause_requested || (result.envelope.error is Some
            && result.envelope.error->0.code@ == "agent_wait_paused"@),
{
    assert(crate::ai::delivery::results_view(final(run).round_results@).len()
        == crate::ai::delivery::results_view(old(run).round_results@).len() + 1);
}

/// A round whose calls have run is followed by the next, unless the user asked for a pause: then the
/// run has stalled. The model is pointed at the transcript once, where the window is that full.
pub proof fn law_rounds_follow_each_other(
    run: &mut ToolLoop,
    state: Option<JsonTree>,
    level: u8,
    summary: SummaryDraft,
)
    requires
        call_ensures(ToolLoop::close_round, (run, state, level, summary), ()),
        run.round_index < usize::MAX,
    ensures
        final(run).phase == LoopPhase::Finished <==> old(run).pause_requested,
        final(run).phase == LoopPhase::Finished ==> final(run).outcome->0.status
            == AiAgentLoopStatus::Stalled,
        !old(run).pause_requested ==> {
            let points = level >= 3 && !old(run).lookup_injected
                && old(run).settings.lookup_prompt is Some;
            &&& final(run).round_index == old(run).round_index + 1
            &&& final(run).history@.len() == old(run).history@.len() + if points {
                1int
            } else {
                0int
            }
            &&& points ==> final(run).history@.last().content@
                == old(run).settings.lookup_prompt->0@
            &&& final(run).lookup_injected == (points || old(run).lookup_injected)
            &&& final(run).awaiting_summary is Some
        },
{
}

/// A run that is over says whether it came to its end or stalled, in the words of its answer.
pub proof fn law_finished_runs_say_how(run: &mut ToolLoop, stalled: bool)
    requires
        call_ensures(ToolLoop::finish, (run, stalled), ()),
    ensures
        final(run).phase == LoopPhase::Finished,
        final(run).outcome is Some,
        final(run).outcome->0.content@ == old(run).assistant_content@,
        final(run).outcome->0.status == AiAgentLoopStatus::Stalled <==> stalled,
        final(run).outcome->0.status == AiAgentLoopStatus::Completed <==> !stalled,
        final(run).history == old(run).history,
{
}

/// A parent ends its work only once its children have ended, and any run only once its messages were
/// read.
pub proof fn law_runs_wait_for_others(run: &mut ToolLoop, active: bool, other: &mut ToolLoop, reply: CompletionReply)
    requires
        call_ensures(ToolLoop::on_children, (run, active), ()),
        call_ensures(ToolLoop::on_completion, (other, reply), ()),
        run.round_index < usize::MAX,
        other.round_index < usize::MAX,
    ensures
        final(run).phase == LoopPhase::RoundStart <==> active,
        final(run).phase == LoopPhase::AwaitCompletion <==> !active,
        active ==> final(run).round_index == old(run).round_index + 1,
        final(other).phase == LoopPhase::AwaitFinish <==> reply == CompletionReply::Ready,
        final(other).phase == LoopPhase::RoundStart <==> reply == CompletionReply::PendingMessages,
        final(other).phase == LoopPhase::Finished <==> reply == CompletionReply::Refused,
{
}

/// The number of rounds is the one that was asked for, brought within the limits.
pub proof fn law_allowed_rounds_are_within_limits(
    configured: Option<u32>,
    default_rounds: u32,
    min_rounds: u32,
    max_rounds: u32,
    res: u32,
)
    requires
        call_ensures(allowed_rounds, (configured, default_rounds, min_rounds, max_rounds), res),
        min_rounds <= max_rounds,
    ensures
        min_rounds <= res <= max_rounds,
        configured is Some && min_rounds <= configured->0 <= max_rounds ==> res == configured->0,
        configured is Some && configured->0 < min_rounds ==> res == min_rounds,
        configured is Some && configured->0 > max_rounds ==> res == max_rounds,
        configured is None && min_rounds <= default_rounds <= max_rounds ==> res == default_rounds,
        configured is None && default_rounds < min_rounds ==> res == min_rounds,
        configured is None && default_rounds > max_rounds ==> res == max_rounds,
{
}

/// The room for an answer is the configured one, where that is a positive number of tokens.
pub proof fn law_answers_have_room(configured: Option<i64>, window_reserve: usize, res: usize)
    requires
        call_ensures(response_reserve, (configured, window_reserve), res),
    ensures
        configured is Some && 0 < configured->0 <= usize::MAX ==> res == configured->0,
        !(configured is Some && 0 < configured->0 <= usize::MAX) ==> res == window_reserve,
{
}

/// Only a read that is allowed and in scope runs beside others.
pub proof fn law_only_allowed_reads_run_side_by_side(
    parallel_read: bool,
    decision: Option<(AiPolicyDecisionKind, AiActionRisk)>,
    in_scope: Option<bool>,
    res: bool,
)
    requires
        call_ensures(call_may_run_in_parallel, (parallel_read, decision, in_scope), res),
    ensures
        res <==> {
            &&& parallel_read
            &&& decision matches Some((kind, risk)) && kind == AiPolicyDecisionKind::Allow && risk
                == AiActionRisk::Read
            &&& in_scope is None || in_scope->0
        },
{
}

/// What is handed on goes to the stream that it belongs to.
pub proof fn law_deliveries_reach_their_stream(run: &mut ToolLoop, chunk: String, at: int)
    requires
        call_ensures(ToolLoop::on_stream_event, (run, AiStreamEvent::Content(chunk)), ()),
        0 <= at < final(run).sender@.len(),
    ensures
        at < old(run).sender@.len() ==> final(run).sender@[at] == old(run).sender@[at],
        at >= old(run).sender@.len() ==> {
            let delivered: Delivered = final(run).sender@[at];
            &&& delivered.generation == old(run).settings.generation
            &&& delivered.conversation_id == old(run).settings.conversation_id@
            &&& delivered.assistant_id == old(run).settings.assistant_id@
        },
{
}

} // verus!
