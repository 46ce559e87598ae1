//! The steps of a task between the model's answers.

use vstd::prelude::*;

use crate::ai::results::AiExecutedToolResult;
use crate::ai::round_call::{CallPhase, RoundCall};
use crate::ai::tool_loop::{AiAgentLoopStatus, LoopPhase, ToolLoop};
use crate::ai_state::compaction::CompactionLoad;
use crate::ai_state::entity::AiWorkspaceEntity;

verus! {

/// A task that is not let on ends in failure, at each of its gates; one that is let on goes to the next
/// step and changes nothing else.
pub proof fn law_gates_let_on_or_end(
    ready: &mut ToolLoop,
    summary: &mut ToolLoop,
    commit: &mut ToolLoop,
    batch: &mut ToolLoop,
    passes: bool,
)
    requires
        call_ensures(ToolLoop::on_ready, (ready, passes), ()),
        call_ensures(ToolLoop::on_final_summary, (summary, passes), ()),
        call_ensures(ToolLoop::on_commit, (commit, passes), ()),
        call_ensures(ToolLoop::on_batch_commit, (batch, passes), ()),
    ensures
        passes ==> final(ready).phase == LoopPhase::AwaitGrant && final(ready).history == old(
            ready).history,
        passes ==> final(summary).phase == LoopPhase::AwaitSummaryCompletion,
        passes ==> final(commit).phase == LoopPhase::AwaitContext,
        passes ==> final(batch).phase == LoopPhase::BatchReady && final(batch).batch == old(
            batch).batch,
        !passes ==> final(ready).phase == LoopPhase::Finished && final(summary).phase
            == LoopPhase::Finished && final(commit).phase == LoopPhase::Finished && final(
            batch).phase == LoopPhase::Finished,
        !passes ==> final(ready).outcome is Some && final(ready).outcome->0.status
            == AiAgentLoopStatus::Failed && final(ready).outcome->0.content@ == old(
            ready).assistant_content@,
        !passes ==> final(commit).outcome is Some && final(commit).outcome->0.status
            == AiAgentLoopStatus::Failed,
        !passes ==> final(batch).outcome is Some && final(batch).outcome->0.status
            == AiAgentLoopStatus::Failed,
{
}

/// A call that is lost ends the task in failure.
pub proof fn law_lost_calls_end_the_task(run: &mut ToolLoop)
    requires
        call_ensures(ToolLoop::on_call_lost, (run,), ()),
    ensures
        final(run).phase == LoopPhase::Finished,
        final(run).outcome is Some,
        final(run).outcome->0.status == AiAgentLoopStatus::Failed,
{
}

/// A stream that closes is at its end, and a batch that is done makes way for the next.
pub proof fn law_streams_and_batches_end(stream: &mut ToolLoop, batch: &mut ToolLoop)
    requires
        call_ensures(ToolLoop::on_stream_closed, (stream,), ()),
        call_ensures(ToolLoop::batch_done, (batch,), ()),
    ensures
        final(stream).phase == LoopPhase::StreamEnded,
        final(stream).history == old(stream).history,
        final(batch).phase == LoopPhase::Batching,
        final(batch).history == old(batch).history,
        final(batch).calls == old(batch).calls,
{
}

/// A call starts as the batch has it, new and without a result; it may coordinate and ask only where
/// it is alone.
pub proof fn law_calls_start_new(run: &ToolLoop, at: usize, res: RoundCall)
    requires
        call_ensures(ToolLoop::start_call, (run, at), res),
        at < run.batch@.len(),
    ensures
        res.call == run.batch@[at as int],
        res.phase == CallPhase::New,
        res.result is None,
        res.policy is None,
        res.order is None,
        res.allow_selection <==> run.batch@.len() == 1,
        res.has_agent <==> run.settings.has_agent && run.batch@.len() == 1,
        res.is_child <==> run.settings.is_child && run.batch@.len() == 1,
        res.sender.open == run.sender.open,
        res.sender@.len() == 0,
{
}

/// A child never asks the user to choose.
pub proof fn law_children_never_ask(call: &RoundCall, res: bool)
    requires
        call_ensures(RoundCall::may_select, (call,), res),
    ensures
        call.has_agent && call.is_child ==> !res,
        !call.allow_selection ==> !res,
        call.allow_selection && !call.has_agent ==> res,
        call.allow_selection && !call.is_child ==> res,
{
}

/// What the user chose is selected, and without a choice the call is cancelled.
pub proof fn law_choices_settle_the_call(call: &mut RoundCall, choice: Option<usize>)
    requires
        call_ensures(RoundCall::on_choice, (call, choice), ()),
        call.result is Some,
        call.result->0.is_ambiguous(),
    ensures
        ({
            let before = old(call).result->0;
            let after = final(call).result->0;
            let chosen = choice is Some && choice->0 < before.envelope.targets@.len();
            &&& final(call).phase == CallPhase::AwaitAnnotation
            &&& final(call).result is Some
            &&& after.success <==> chosen
            &&& chosen ==> after.envelope.selected_target == Some(
                before.envelope.targets@[choice->0 as int],
            ) && after.envelope.targets@.len() == 1 && after.error is None
            &&& !chosen ==> after.envelope.error is Some && after.envelope.error->0.code@
                == "operation_cancelled"@
            &&& after.tool_call_id == before.tool_call_id
        }),
{
}

/// Where several calls ran together a result that leaves open what was meant is settled, and others
/// stay as they are.
pub proof fn law_results_of_batches_are_settled(
    run: &mut ToolLoop,
    result: AiExecutedToolResult,
    choice: Option<usize>,
    res: AiExecutedToolResult,
)
    requires
        call_ensures(ToolLoop::settle_result, (run, result, choice), res),
    ensures
        ({
            let together = old(run).batch@.len() > 1 && !(old(run).settings.has_agent && old(
                run).settings.is_child);
            &&& !result.is_ambiguous() ==> res == result
            &&& together && result.is_ambiguous() && !old(run).sender.open ==> !res.success
                && res.envelope.error is Some && res.envelope.error->0.code@
                == "ui_delivery_failed"@
            &&& together && result.is_ambiguous() && old(run).sender.open && choice is None
                ==> !res.success
            &&& together && result.is_ambiguous() && old(run).sender.open && choice is Some
                && choice->0 < result.envelope.targets@.len() ==> res.success
                && res.envelope.selected_target == Some(
                result.envelope.targets@[choice->0 as int],
            )
            &&& final(run).phase == old(run).phase
        }),
{
    let together = old(run).batch@.len() > 1 && !(old(run).settings.has_agent && old(
        run).settings.is_child);
    if together && result.is_ambiguous() && !old(run).sender.open {
        assert(res.envelope@.error is Some);
    }
}

/// A compaction goes on once what changed is on disk, and is given up where that failed.
pub proof fn law_compactions_wait_for_the_disk<R>(
    ai: &mut AiWorkspaceEntity,
    load: CompactionLoad<R>,
    committed: bool,
    res: Option<CompactionLoad<R>>,
)
    requires
        call_ensures(AiWorkspaceEntity::on_compaction_barrier::<R>, (ai, load, committed), res),
    ensures
        committed ==> res == Some(load) && *final(ai) == *old(ai),
        !committed ==> res is None && !final(ai).history.compaction_loads@.dom().contains(
            load.request.conversation_id@,
        ) && !final(ai).loading_conversations@.dom().contains(load.request.conversation_id@),
{
}

/// A message is written to the branch of its run, where an agent wrote it, and else to that of its
/// conversation.
pub proof fn law_messages_are_written_to_their_branch(
    ai: &AiWorkspaceEntity,
    conversation: &str,
    message: &str,
    res: String,
)
    requires
        call_ensures(
            AiWorkspaceEntity::history_message_branch,
            (ai, conversation, message),
            res,
        ),
    ensures
        ai.agents.message_runs@.dom().contains(message@) ==> res@
            == ai.agents.message_runs@[message@].branch@,
        !ai.agents.message_runs@.dom().contains(message@)
            && ai.history.branches@.dom().contains(conversation@) ==> res@
            == ai.history.branches@[conversation@]@,
{
}

} // verus!
