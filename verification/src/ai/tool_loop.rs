//! The loop that alternates model answers and tool rounds.
//!
//! The loop owns no connection and waits for nothing itself. The host asks the model, commits the
//! history and runs the tools, and reports what came back; each report moves the loop on.

use vstd::prelude::*;

use crate::ai::delivery::{
    send_ai_loop_delivery, AiStreamDelivery, AiStreamDeliveryEvent, AiStreamDeliverySender, AiStreamEvent,
    Delivered, RoundResult, Said, Streamed, ToolStatus,
};
use crate::ai::messages::{
    agent_chat_message, find_message, has_message, last_user_id, last_user_message,
    replace_ai_runtime_context_message,
    runtime_context_placed, AiChatMessage, AiChatRole, AiToolCall,
};
use crate::ai::notes::{fresh_notes, NoteStep, Noted, TaskNotes};
use crate::ai::results::refusal_report;
use crate::ids;
use crate::json::JsonTree;
use crate::table::Table;
use crate::text;

verus! {

/// How many calls a model may ask for in one round.
pub const AI_TOOL_CALLS_PER_ROUND_SAFETY_LIMIT: usize = 16;

/// How a run of the loop ended.
#[derive(Clone, Copy, PartialEq, Eq, Structural, Debug)]
pub enum AiAgentLoopStatus {
    Completed,
    Failed,
    Stalled,
}

/// The end of a run and the text it leaves.
pub struct AiAgentLoopOutcome {
    pub content: String,
    pub status: AiAgentLoopStatus,
}

impl AiAgentLoopOutcome {
    /// Whether the run did not complete.
    pub fn failed(&self) -> (res: bool)
        ensures
            res == (self.status != AiAgentLoopStatus::Completed),
    {
        self.status != AiAgentLoopStatus::Completed
    }
}

/// What the loop waits for.
#[derive(Clone, Copy, PartialEq, Eq, Structural, Debug)]
pub enum LoopPhase {
    /// A round is about to start.
    RoundStart,
    /// The agent run waits for its turn.
    AwaitReady,
    /// The agent runtime is asked for a round.
    AwaitGrant,
    /// The budget is spent; the runtime is asked for a closing summary.
    AwaitFinalSummary,
    /// The runtime is asked whether messages are still unread.
    AwaitSummaryCompletion,
    /// The progress guard is consulted.
    AwaitProgress,
    /// The history has to be on disk before the model is asked.
    AwaitCommit,
    AwaitContext,
    AwaitPromptSize,
    AwaitCompaction,
    /// The agent runtime hands out the right to dispatch.
    AwaitDispatch,
    Streaming,
    StreamEnded,
    /// The answer is recorded; children may still be at work.
    AwaitChildren,
    AwaitCompletion,
    AwaitFinish,
    /// Calls are left to run in this round.
    Batching,
    /// The next calls are noted as pending and have to be on disk before they run.
    AwaitBatchCommit,
    /// The next calls may run.
    BatchReady,
    Finished,
}

/// The order in which the loop's waits follow each other.
pub open spec fn follows(before: LoopPhase, after: LoopPhase) -> bool {
    match before {
        LoopPhase::RoundStart => after == LoopPhase::AwaitReady || after == LoopPhase::AwaitProgress
            || after == LoopPhase::Finished,
        LoopPhase::AwaitReady => after == LoopPhase::AwaitGrant || after == LoopPhase::Finished,
        LoopPhase::AwaitGrant => after == LoopPhase::AwaitProgress || after
            == LoopPhase::AwaitFinalSummary || after == LoopPhase::Finished,
        LoopPhase::AwaitFinalSummary => after == LoopPhase::AwaitSummaryCompletion || after
            == LoopPhase::Finished,
        LoopPhase::AwaitSummaryCompletion => after == LoopPhase::AwaitSummaryCompletion || after
            == LoopPhase::AwaitProgress || after == LoopPhase::Finished,
        LoopPhase::AwaitProgress => after == LoopPhase::AwaitCommit,
        LoopPhase::AwaitCommit => after == LoopPhase::AwaitContext || after == LoopPhase::Finished,
        LoopPhase::AwaitContext => after == LoopPhase::AwaitPromptSize || after
            == LoopPhase::Finished,
        LoopPhase::AwaitPromptSize => after == LoopPhase::AwaitCompaction || after
            == LoopPhase::AwaitDispatch,
        LoopPhase::AwaitCompaction => after == LoopPhase::AwaitDispatch || after
            == LoopPhase::Finished,
        LoopPhase::AwaitDispatch => after == LoopPhase::AwaitDispatch || after
            == LoopPhase::Streaming || after == LoopPhase::Finished,
        LoopPhase::Streaming => after == LoopPhase::Streaming || after == LoopPhase::StreamEnded
            || after == LoopPhase::Finished,
        LoopPhase::StreamEnded => after == LoopPhase::RoundStart || after == LoopPhase::AwaitFinish
            || after == LoopPhase::AwaitCompletion || after == LoopPhase::AwaitChildren || after
            == LoopPhase::Batching || after == LoopPhase::Finished,
        LoopPhase::AwaitChildren => after == LoopPhase::RoundStart || after
            == LoopPhase::AwaitCompletion,
        LoopPhase::AwaitCompletion => after == LoopPhase::AwaitFinish || after
            == LoopPhase::RoundStart || after == LoopPhase::Finished,
        LoopPhase::AwaitFinish => after == LoopPhase::Finished,
        LoopPhase::Batching => after == LoopPhase::Batching || after == LoopPhase::AwaitBatchCommit
            || after == LoopPhase::RoundStart || after == LoopPhase::Finished,
        LoopPhase::AwaitBatchCommit => after == LoopPhase::BatchReady || after
            == LoopPhase::Finished,
        LoopPhase::BatchReady => after == LoopPhase::BatchReady || after == LoopPhase::Batching
            || after == LoopPhase::Finished,
        LoopPhase::Finished => false,
    }
}

/// A run of the loop: the waits it went through, from its start.
pub open spec fn is_run(run: Seq<LoopPhase>) -> bool {
    &&& run.len() > 0
    &&& run[0] == LoopPhase::RoundStart
    &&& forall|i: int| 0 < i < run.len() ==> follows(run[i - 1], #[trigger] run[i])
}

/// In every round the model is asked only after the history of that round is on disk: no round
/// starts between the commit and the request.
pub proof fn law_model_is_asked_after_commit(run: Seq<LoopPhase>, at: int)
    requires
        is_run(run),
        0 <= at < run.len(),
        run[at] == LoopPhase::Streaming,
    ensures
        exists|i: int|
            {
                &&& 0 < i <= at
                &&& run[i - 1] == LoopPhase::AwaitCommit
                &&& #[trigger] run[i] == LoopPhase::AwaitContext
                &&& within_a_round(run, i, at)
            },
{
    let i = lemma_context_follows_commit(run, at);
    assert(run[i] == LoopPhase::AwaitContext);
}

/// Whether no round starts from one wait to another.
pub open spec fn within_a_round(run: Seq<LoopPhase>, from: int, to: int) -> bool {
    forall|j: int| from <= j <= to ==> #[trigger] run[j] != LoopPhase::RoundStart
}

proof fn lemma_context_follows_commit(run: Seq<LoopPhase>, at: int) -> (i: int)
    requires
        is_run(run),
        0 <= at < run.len(),
        run[at] == LoopPhase::Streaming || run[at] == LoopPhase::AwaitDispatch || run[at]
            == LoopPhase::AwaitCompaction || run[at] == LoopPhase::AwaitPromptSize || run[at]
            == LoopPhase::AwaitContext,
    ensures
        0 < i <= at,
        run[i - 1] == LoopPhase::AwaitCommit,
        run[i] == LoopPhase::AwaitContext,
        within_a_round(run, i, at),
    decreases at,
{
    assert(at > 0);
    assert(follows(run[at - 1], run[at]));
    if run[at] == LoopPhase::AwaitContext {
        at
    } else {
        let earlier = lemma_context_follows_commit(run, at - 1);
        assert(within_a_round(run, earlier, at));
        earlier
    }
}

/// No call runs before the note that it is pending is on disk: since that commit the batch has been
/// the same.
pub proof fn law_calls_run_after_commit(run: Seq<LoopPhase>, at: int)
    requires
        is_run(run),
        0 <= at < run.len(),
        run[at] == LoopPhase::BatchReady,
    ensures
        exists|i: int|
            {
                &&& 0 < i <= at
                &&& #[trigger] run[i - 1] == LoopPhase::AwaitBatchCommit
                &&& forall|j: int| i <= j <= at ==> #[trigger] run[j] == LoopPhase::BatchReady
            },
    decreases at,
{
    assert(at > 0);
    assert(follows(run[at - 1], run[at]));
    if run[at - 1] == LoopPhase::BatchReady {
        law_calls_run_after_commit(run, at - 1);
        let i = choose|i: int|
            {
                &&& 0 < i <= at - 1
                &&& #[trigger] run[i - 1] == LoopPhase::AwaitBatchCommit
                &&& forall|j: int| i <= j <= at - 1 ==> #[trigger] run[j] == LoopPhase::BatchReady
            };
        assert(run[i - 1] == LoopPhase::AwaitBatchCommit);
        assert forall|j: int| i <= j <= at implies #[trigger] run[j] == LoopPhase::BatchReady by {
            if j < at {
                assert(i <= j <= at - 1);
            }
        }
    } else {
        let i = at;
        assert(run[i - 1] == LoopPhase::AwaitBatchCommit);
    }
}

/// Nothing follows the end of a run.
pub proof fn law_finished_runs_stay_finished(run: Seq<LoopPhase>, at: int)
    requires
        is_run(run),
        0 <= at < run.len(),
        run[at] == LoopPhase::Finished,
    ensures
        at == run.len() - 1,
{
    if at < run.len() - 1 {
        assert(follows(run[at + 1 - 1], run[at + 1]));
    }
}

/// What stays fixed over a run.
pub struct LoopSettings {
    /// Whether an agent run owns the loop.
    pub has_agent: bool,
    /// Whether that run is a child of another one.
    pub is_child: bool,
    pub max_rounds: usize,
    pub policy_enabled: bool,
    /// How much of the window the history took when the run started.
    pub budget_level: u8,
    /// How many tools are offered, and how the model is told to choose among them.
    pub tool_count: usize,
    pub tool_choice: String,
    /// How it reads that the model is free to choose.
    pub free_tool_choice: String,
    pub max_hard_deny_retries: usize,
    pub provider_id: Option<String>,
    pub provider_type: String,
    pub uses_responses: bool,
    pub response_state_key: String,
    pub model: String,
    pub context_window: usize,
    pub max_parallel_reads: usize,
    pub generation: u64,
    pub conversation_id: String,
    pub assistant_id: String,
    /// The name under which a turned-down answer is reported.
    pub retry_tool_name: String,
    /// How the user reads that a call only reads.
    pub read_risk_label: String,
    /// What points the model at the transcript once the history no longer fits.
    pub lookup_prompt: Option<String>,
}

/// What one model answer has brought so far.
pub struct RoundStream {
    pub content: String,
    pub thinking: String,
    /// The identity that each call of the provider goes by here.
    pub call_ids: Table<String, String>,
    pub pending: Table<String, AiToolCall>,
    pub completed: Vec<AiToolCall>,
    pub parts: Vec<JsonTree>,
}

/// A task whose history was made shorter, and what its summary says.
pub struct CompactedTask {
    pub history: Vec<AiChatMessage>,
    pub notes: Option<String>,
}

pub struct ToolLoop {
    pub settings: LoopSettings,
    pub phase: LoopPhase,
    pub history: Vec<AiChatMessage>,
    pub round_index: usize,
    /// Whether this round may only summarize.
    pub summary_only: bool,
    pub assistant_content: String,
    pub assistant_thinking: String,
    pub round: RoundStream,
    /// The round whose summary the next answer brings.
    pub awaiting_summary: Option<String>,
    pub hard_deny_retries: usize,
    pub lookup_injected: bool,
    /// The calls of this round that have not run.
    pub calls: Vec<AiToolCall>,
    /// The calls that run next.
    pub batch: Vec<AiToolCall>,
    pub mixed_questions: bool,
    pub pause_requested: bool,
    /// How many calls of the batch have their result.
    pub recorded: usize,
    /// What the calls of this round brought.
    pub round_results: Vec<RoundResult>,
    /// What is noted of the task.
    pub notes: TaskNotes,
    pub outcome: Option<AiAgentLoopOutcome>,
    pub sender: AiStreamDeliverySender,
}

/// Replies of the agent runtime to the request for a round.
#[derive(Clone, Copy, PartialEq, Eq, Structural, Debug)]
pub enum RoundGrant {
    Granted,
    BudgetExhausted,
    Refused,
}

/// Replies of the agent runtime to the announcement of an end.
#[derive(Clone, Copy, PartialEq, Eq, Structural, Debug)]
pub enum CompletionReply {
    Ready,
    PendingMessages,
    Refused,
}

/// Replies of the agent runtime to the request for dispatch.
#[derive(Clone, Copy, PartialEq, Eq, Structural, Debug)]
pub enum DispatchReply {
    Granted,
    /// New instructions have to be read first.
    DirectionChanged,
    Refused,
}

/// How the calls of a batch are carried out.
#[derive(Clone, Copy, PartialEq, Eq, Structural, Debug)]
pub enum BatchPlan {
    /// A question stood among other calls: none of them runs.
    RejectMixedQuestions,
    /// An earlier call that these rest on failed.
    RejectFailedDependency,
    Parallel,
    Single,
}

/// Policy's answer to a call.
#[derive(Clone, Copy, PartialEq, Eq, Structural, Debug)]
pub enum AiPolicyDecisionKind {
    Allow,
    RequireApproval,
    Deny,
}

#[derive(Clone, Copy, PartialEq, Eq, Structural, Debug)]
pub enum AiActionRisk {
    Read,
    Write,
    Execute,
    Destructive,
}

impl RoundStream {
    pub open spec fn is_empty(self) -> bool {
        &&& self.content@.len() == 0
        &&& self.thinking@.len() == 0
        &&& self.call_ids@ == Map::<Seq<char>, String>::empty()
        &&& self.pending@ == Map::<Seq<char>, AiToolCall>::empty()
        &&& self.completed@.len() == 0
        &&& self.parts@.len() == 0
    }

    pub open spec fn wf(self) -> bool {
        self.call_ids.wf() && self.pending.wf()
    }

    pub fn new() -> (res: Self)
        ensures
            res.is_empty(),
            res.wf(),
    {
        RoundStream {
            content: String::new(),
            thinking: String::new(),
            call_ids: Table::new(),
            pending: Table::new(),
            completed: Vec::new(),
            parts: Vec::new(),
        }
    }

    /// The identity under which a call of the provider goes on. Providers reuse identities across
    /// requests, so a fresh one is drawn when a call is first seen in a round.
    pub(crate) fn adopt(&mut self, provider_id: String) -> (res: String)
        requires
            old(self).wf(),
        ensures
            final(self).wf(),
            *final(self) == (RoundStream { call_ids: final(self).call_ids, ..*old(self) }),
            adopted(*old(self), *final(self), provider_id@, res),
    {
        match self.call_ids.get(&provider_id) {
            Some(id) => id.clone(),
            None => {
                let id = ids::tool_call_id();
                self.call_ids.insert(provider_id, id.clone());
                id
            },
        }
    }

    /// Notes a call that the provider finished. A repeated identity replaces the earlier call.
    pub(crate) fn complete(&mut self, call: AiToolCall)
        ensures
            *final(self) == (RoundStream { completed: final(self).completed, ..*old(self) }),
            final(self).completed@ == completed_with(old(self).completed@, call),
    {
        let mut i: usize = 0;
        while i < self.completed.len()
            invariant
                i <= self.completed.len(),
                *self == *old(self),
                forall|j: int| 0 <= j < i ==> (#[trigger] self.completed@[j]).id@ != call.id@,
            decreases self.completed.len() - i,
        {
            if text::same(self.completed[i].id.as_str(), call.id.as_str()) {
                proof {
                    lemma_call_position(self.completed@, call.id@, i as int);
                }
                self.completed.set(i, call);
                return;
            }
            i += 1;
        }
        proof {
            lemma_call_position(self.completed@, call.id@, i as int);
        }
        self.completed.push(call);
    }
}

/// How a provider's call identity was taken over.
pub open spec fn adopted(before: RoundStream, after: RoundStream, provider_id: Seq<char>, id: String) -> bool {
    if before.call_ids@.dom().contains(provider_id) {
        &&& after.call_ids@ == before.call_ids@
        &&& id == before.call_ids@[provider_id]
    } else {
        &&& after.call_ids@ == before.call_ids@.insert(provider_id, id)
        &&& id@.len() == 37
        &&& id@.subrange(0, 5) == "call_"@
    }
}

/// The position of the first call named `id`, or the number of calls.
pub open spec fn call_position(calls: Seq<AiToolCall>, id: Seq<char>) -> int
    decreases calls.len(),
{
    if calls.len() == 0 || calls[0].id@ == id {
        0
    } else {
        1 + call_position(calls.drop_first(), id)
    }
}

/// The finished calls after one more.
pub open spec fn completed_with(calls: Seq<AiToolCall>, call: AiToolCall) -> Seq<AiToolCall> {
    let at = call_position(calls, call.id@);
    if at < calls.len() {
        calls.update(at, call)
    } else {
        calls.push(call)
    }
}

proof fn lemma_call_position(calls: Seq<AiToolCall>, id: Seq<char>, at: int)
    requires
        0 <= at <= calls.len(),
        forall|j: int| 0 <= j < at ==> (#[trigger] calls[j]).id@ != id,
        at < calls.len() ==> calls[at].id@ == id,
    ensures
        call_position(calls, id) == at,
    decreases calls.len(),
{
    if at > 0 {
        assert(calls[0].id@ != id);
        assert forall|j: int| 0 <= j < at - 1 implies (#[trigger] calls.drop_first()[j]).id@ != id by {
            assert(calls[j + 1].id@ != id);
        }
        lemma_call_position(calls.drop_first(), id, at - 1);
    }
}

/// Finishing calls never makes two of them share an identity.
pub proof fn law_completed_calls_stay_distinct(calls: Seq<AiToolCall>, call: AiToolCall)
    requires
        forall|i: int, j: int| 0 <= i < j < calls.len() ==> calls[i].id@ != calls[j].id@,
    ensures
        forall|i: int, j: int|
            0 <= i < j < completed_with(calls, call).len() ==> completed_with(calls, call)[i].id@
                != completed_with(calls, call)[j].id@,
{
    lemma_call_position_bounds(calls, call.id@);
}

pub(crate) proof fn lemma_call_position_bounds(calls: Seq<AiToolCall>, id: Seq<char>)
    ensures
        0 <= call_position(calls, id) <= calls.len(),
        call_position(calls, id) < calls.len() ==> calls[call_position(calls, id)].id@ == id,
        forall|j: int| 0 <= j < call_position(calls, id) ==> (#[trigger] calls[j]).id@ != id,
    decreases calls.len(),
{
    if calls.len() > 0 && calls[0].id@ != id {
        let rest = calls.drop_first();
        lemma_call_position_bounds(rest, id);
        assert forall|j: int| 0 <= j < call_position(calls, id) implies (#[trigger] calls[j]).id@ != id by {
            if j > 0 {
                assert(rest[j - 1] == calls[j]);
            }
        }
    }
}

/// The number of rounds that a configuration allows.
pub fn allowed_rounds(configured: Option<u32>, default_rounds: u32, min_rounds: u32, max_rounds: u32) -> (res: u32)
    requires
        min_rounds <= max_rounds,
    ensures
        ({
            let wanted = match configured {
                Some(rounds) => rounds,
                None => default_rounds,
            };
            res == if wanted < min_rounds {
                min_rounds
            } else if wanted > max_rounds {
                max_rounds
            } else {
                wanted
            }
        }),
{
    let wanted: u32 = match configured {
        Some(rounds) => rounds,
        None => default_rounds,
    };
    if wanted < min_rounds {
        min_rounds
    } else if wanted > max_rounds {
        max_rounds
    } else {
        wanted
    }
}

/// The tokens kept free for the answer: the configured number where it is positive, else the
/// window's own reserve.
pub fn response_reserve(configured: Option<i64>, window_reserve: usize) -> (res: usize)
    ensures
        res == match configured {
            Some(tokens) => if 0 < tokens <= usize::MAX {
                tokens as usize
            } else {
                window_reserve
            },
            None => window_reserve,
        },
{
    match configured {
        Some(tokens) => {
            if tokens > 0 && tokens as u64 <= usize::MAX as u64 {
                tokens as usize
            } else {
                window_reserve
            }
        },
        None => window_reserve,
    }
}

/// Whether a read may run beside others: it is a read that policy allows, within the run's scope.
pub fn call_may_run_in_parallel(
    parallel_read: bool,
    decision: Option<(AiPolicyDecisionKind, AiActionRisk)>,
    in_scope: Option<bool>,
) -> (res: bool)
    ensures
        res == (parallel_read && decision == Some((AiPolicyDecisionKind::Allow, AiActionRisk::Read))
            && in_scope != Some(false)),
{
    let allowed = match decision {
        Some((kind, risk)) => kind == AiPolicyDecisionKind::Allow && risk == AiActionRisk::Read,
        None => false,
    };
    let scoped = match in_scope {
        Some(inside) => inside,
        None => true,
    };
    parallel_read && allowed && scoped
}

/// How many of the next calls run together: one that may run beside others takes the following
/// ones of its kind along, up to `limit`.
pub open spec fn batch_len(parallel: Seq<bool>, limit: int) -> int
    decreases parallel.len(),
{
    if parallel.len() == 0 {
        0
    } else if !parallel[0] || limit <= 1 {
        1
    } else if parallel.len() > 1 && parallel[1] {
        1 + batch_len(parallel.drop_first(), limit - 1)
    } else {
        1
    }
}

pub(crate) proof fn lemma_batch_len(parallel: Seq<bool>, limit: int)
    requires
        parallel.len() > 0,
    ensures
        1 <= batch_len(parallel, limit) <= parallel.len(),
        batch_len(parallel, limit) > 1 ==> forall|i: int| 0 <= i < batch_len(parallel, limit) ==> parallel[i],
        limit >= 1 ==> batch_len(parallel, limit) <= limit,
    decreases parallel.len(),
{
    if parallel[0] && limit > 1 && parallel.len() > 1 && parallel[1] {
        let rest = parallel.drop_first();
        lemma_batch_len(rest, limit - 1);
        assert forall|i: int| 0 <= i < batch_len(parallel, limit) implies parallel[i] by {
            if i > 1 {
                assert(rest[i - 1]);
            }
        }
    }
}

/// Calls run beside each other only where each of them may, and no more than the limit allows.
pub proof fn law_batches_respect_the_limit(parallel: Seq<bool>, limit: int)
    requires
        parallel.len() > 0,
        limit >= 1,
    ensures
        1 <= batch_len(parallel, limit) <= limit,
        batch_len(parallel, limit) <= parallel.len(),
        batch_len(parallel, limit) > 1 ==> forall|i: int| 0 <= i < batch_len(parallel, limit) ==> parallel[i],
{
    lemma_batch_len(parallel, limit);
}

/// Whether a prompt of `total` tokens leaves less than a quarter of the window free.
pub open spec fn crowds_window(total: int, context_window: usize) -> bool {
    total > (if context_window * 75 > usize::MAX {
        usize::MAX as int
    } else {
        context_window * 75
    }) / 100
}

/// The statuses of calls that are turned away together.
pub open spec fn rejections(calls: Seq<AiToolCall>, code: Seq<char>, message: Seq<char>) -> Seq<Said> {
    calls.map_values(
        |call: AiToolCall|
            Said::ToolStatus {
                call_id: call.id@,
                name: call.name@,
                status: ToolStatus::Rejected,
                envelope: Some(refusal_report(code, message)),
                risk: None,
                summary: Some(message),
            },
    )
}

impl ToolLoop {
    pub open spec fn wf(self) -> bool {
        self.round.wf()
    }

    pub open spec fn routed(self, said: Said) -> Delivered {
        Delivered {
            generation: self.settings.generation,
            conversation_id: self.settings.conversation_id@,
            assistant_id: self.settings.assistant_id@,
            said,
        }
    }

    /// What the window has heard once it was told `more`.
    pub open spec fn heard(self, more: Seq<Said>) -> Seq<Delivered> {
        if self.sender.open {
            self.sender@ + more.map_values(|said: Said| self.routed(said))
        } else {
            self.sender@
        }
    }

    /// What the window has heard once the loop told it `more`: an agent's owner announces the end
    /// of the stream itself.
    pub open spec fn heard_from_loop(self, said: Said) -> Seq<Delivered> {
        if self.settings.has_agent && said.ends_stream() {
            self.sender@
        } else {
            self.heard(seq![said])
        }
    }

    /// The run ended in failure and leaves `content`.
    pub open spec fn ended(self, content: Seq<char>, status: AiAgentLoopStatus) -> bool {
        &&& self.phase == LoopPhase::Finished
        &&& self.outcome is Some
        &&& self.outcome->0.content@ == content
        &&& self.outcome->0.status == status
    }

    /// Nothing but the end of the run distinguishes the two states.
    pub open spec fn only_ended(self, before: ToolLoop) -> bool {
        self == (ToolLoop { phase: self.phase, outcome: self.outcome, ..before })
    }

    /// The name of a round.
    pub open spec fn round_id(self) -> Seq<char> {
        self.settings.assistant_id@ + "-round-"@ + text::decimal((self.round_index + 1) as nat)
    }

    pub(crate) fn end(&mut self, content: String, status: AiAgentLoopStatus)
        ensures
            final(self).only_ended(*old(self)),
            final(self).ended(content@, status),
    {
        self.outcome = Some(AiAgentLoopOutcome { content, status });
        self.phase = LoopPhase::Finished;
    }

    pub(crate) fn fail(&mut self)
        ensures
            final(self).only_ended(*old(self)),
            final(self).ended(old(self).assistant_content@, AiAgentLoopStatus::Failed),
    {
        let content = self.assistant_content.clone();
        self.end(content, AiAgentLoopStatus::Failed);
    }

    pub(crate) fn tell(&mut self, event: AiStreamDeliveryEvent) -> (res: bool)
        ensures
            *final(self) == (ToolLoop { sender: final(self).sender, ..*old(self) }),
            final(self).sender.open == old(self).sender.open,
            final(self).sender@ == old(self).heard(seq![event@]),
            res == old(self).sender.open,
    {
        let ghost said = event@;
        let res = self.sender.send(
            AiStreamDelivery {
                generation: self.settings.generation,
                conversation_id: self.settings.conversation_id.clone(),
                assistant_id: self.settings.assistant_id.clone(),
                event,
            },
        );
        assert(self.sender@ =~= old(self).heard(seq![said]));
        res
    }

    pub(crate) fn tell_from_loop(&mut self, event: AiStreamDeliveryEvent) -> (res: bool)
        ensures
            *final(self) == (ToolLoop { sender: final(self).sender, ..*old(self) }),
            final(self).sender.open == old(self).sender.open,
            final(self).sender@ == old(self).heard_from_loop(event@),
            res == (old(self).sender.open || (old(self).settings.has_agent && event@.ends_stream())),
    {
        let ghost said = event@;
        let sent = send_ai_loop_delivery(
            self.settings.has_agent,
            &mut self.sender,
            self.settings.generation,
            self.settings.conversation_id.as_str(),
            self.settings.assistant_id.as_str(),
            event,
        );
        assert(self.sender@ =~= old(self).heard_from_loop(said));
        sent.is_ok()
    }

    /// Hands the notes to the window.
    pub(crate) fn tell_notes(&mut self)
        ensures
            *final(self) == (ToolLoop { sender: final(self).sender, ..*old(self) }),
            final(self).sender.open == old(self).sender.open,
            final(self).sender@ == old(self).heard(seq![Said::Checkpoint(old(self).notes@)]),
    {
        let notes = self.notes.duplicate();
        self.tell_from_loop(AiStreamDeliveryEvent::Checkpoint(notes));
    }

    /// A loop over a history, before its first round. `carries` says of each message whether it
    /// carries notes of a task.
    pub fn new(
        settings: LoopSettings,
        history: Vec<AiChatMessage>,
        carries: &Vec<bool>,
        sender: AiStreamDeliverySender,
    ) -> (res: ToolLoop)
        ensures
            res.settings == settings,
            res.history == history,
            res.sender == sender,
            res.phase == LoopPhase::RoundStart,
            res.round_index == 0,
            !res.summary_only,
            res.assistant_content@.len() == 0,
            res.assistant_thinking@.len() == 0,
            res.round.is_empty(),
            res.wf(),
            res.awaiting_summary is None,
            res.hard_deny_retries == 0,
            res.lookup_injected == has_message(history@, "transcript-lookup-reference"@),
            res.calls@.len() == 0,
            res.batch@.len() == 0,
            !res.mixed_questions,
            !res.pause_requested,
            res.recorded == 0,
            res.round_results@.len() == 0,
            res.notes@ == fresh_notes(history@, carries@),
            res.outcome is None,
    {
        let lookup_injected = find_message(&history, "transcript-lookup-reference").is_some();
        let notes = TaskNotes::new(&history, carries);
        ToolLoop {
            settings,
            phase: LoopPhase::RoundStart,
            history,
            round_index: 0,
            summary_only: false,
            assistant_content: String::new(),
            assistant_thinking: String::new(),
            round: RoundStream::new(),
            awaiting_summary: None,
            hard_deny_retries: 0,
            lookup_injected,
            calls: Vec::new(),
            batch: Vec::new(),
            mixed_questions: false,
            pause_requested: false,
            recorded: 0,
            round_results: Vec::new(),
            notes,
            outcome: None,
            sender,
        }
    }

    /// Opens the next round.
    ///
    /// Without an agent the loop is over once it has gone past the allowed rounds.
    pub fn start_round(&mut self)
        requires
            old(self).phase == LoopPhase::RoundStart,
        ensures
            follows(old(self).phase, final(self).phase),
            !old(self).settings.has_agent && old(self).round_index > old(self).settings.max_rounds ==> {
                &&& final(self).ended(old(self).assistant_content@, AiAgentLoopStatus::Completed)
                &&& *final(self) == (ToolLoop {
                    phase: LoopPhase::Finished,
                    outcome: final(self).outcome,
                    sender: final(self).sender,
                    ..*old(self)
                })
                &&& final(self).sender@ == old(self).heard(seq![Said::Stream(Streamed::Done)])
            },
            !(!old(self).settings.has_agent && old(self).round_index > old(self).settings.max_rounds) ==> {
                &&& *final(self) == (ToolLoop {
                    phase: if old(self).settings.has_agent {
                        LoopPhase::AwaitReady
                    } else {
                        LoopPhase::AwaitProgress
                    },
                    summary_only: false,
                    ..*old(self)
                })
            },
    {
        if !self.settings.has_agent && self.round_index > self.settings.max_rounds {
            self.tell_from_loop(AiStreamDeliveryEvent::Stream(AiStreamEvent::Done));
            let content = self.assistant_content.clone();
            self.end(content, AiAgentLoopStatus::Completed);
            return;
        }
        self.summary_only = false;
        self.phase = if self.settings.has_agent {
            LoopPhase::AwaitReady
        } else {
            LoopPhase::AwaitProgress
        };
    }

    /// The agent run has its turn, or was stopped while it waited.
    pub fn on_ready(&mut self, ready: bool)
        requires
            old(self).phase == LoopPhase::AwaitReady,
        ensures
            follows(old(self).phase, final(self).phase),
            ready ==> *final(self) == (ToolLoop { phase: LoopPhase::AwaitGrant, ..*old(self) }),
            !ready ==> final(self).only_ended(*old(self)) && final(self).ended(
                old(self).assistant_content@,
                AiAgentLoopStatus::Failed,
            ),
    {
        if ready {
            self.phase = LoopPhase::AwaitGrant;
        } else {
            self.fail();
        }
    }

    /// The agent runtime answered the request for a round.
    pub fn on_grant(&mut self, grant: RoundGrant)
        requires
            old(self).phase == LoopPhase::AwaitGrant,
        ensures
            follows(old(self).phase, final(self).phase),
            grant == RoundGrant::Granted ==> *final(self) == (ToolLoop {
                phase: LoopPhase::AwaitProgress,
                ..*old(self)
            }),
            grant == RoundGrant::BudgetExhausted && !old(self).settings.is_child ==> *final(self) == (ToolLoop {
                phase: LoopPhase::AwaitFinalSummary,
                ..*old(self)
            }),
            grant == RoundGrant::Refused || (grant == RoundGrant::BudgetExhausted && old(self).settings.is_child) ==> {
                &&& final(self).only_ended(*old(self))
                &&& final(self).ended(
                    "The shared task budget is exhausted or this run was stopped."@,
                    AiAgentLoopStatus::Failed,
                )
            },
    {
        match grant {
            RoundGrant::Granted => {
                self.phase = LoopPhase::AwaitProgress;
            },
            RoundGrant::BudgetExhausted => {
                if self.settings.is_child {
                    self.end(
                        "The shared task budget is exhausted or this run was stopped.".to_owned(),
                        AiAgentLoopStatus::Failed,
                    );
                } else {
                    self.phase = LoopPhase::AwaitFinalSummary;
                }
            },
            RoundGrant::Refused => {
                self.end(
                    "The shared task budget is exhausted or this run was stopped.".to_owned(),
                    AiAgentLoopStatus::Failed,
                );
            },
        }
    }

    /// The runtime answered the request for a closing summary. The host then stops the children
    /// and reads their last messages.
    pub fn on_final_summary(&mut self, granted: bool)
        requires
            old(self).phase == LoopPhase::AwaitFinalSummary,
        ensures
            follows(old(self).phase, final(self).phase),
            granted ==> *final(self) == (ToolLoop { phase: LoopPhase::AwaitSummaryCompletion, ..*old(self) }),
            !granted ==> final(self).only_ended(*old(self)) && final(self).ended(
                old(self).assistant_content@,
                AiAgentLoopStatus::Failed,
            ),
    {
        if granted {
            self.phase = LoopPhase::AwaitSummaryCompletion;
        } else {
            self.fail();
        }
    }

    /// The runtime answered the announcement of the closing summary. While messages are unread the
    /// host appends them and asks again.
    pub fn on_summary_completion(&mut self, reply: CompletionReply, now_ms: i64)
        requires
            old(self).phase == LoopPhase::AwaitSummaryCompletion,
        ensures
            follows(old(self).phase, final(self).phase),
            reply == CompletionReply::PendingMessages ==> *final(self) == *old(self),
            reply == CompletionReply::Refused ==> final(self).only_ended(*old(self)) && final(self).ended(
                old(self).assistant_content@,
                AiAgentLoopStatus::Failed,
            ),
            reply == CompletionReply::Ready ==> {
                &&& *final(self) == (ToolLoop {
                    phase: LoopPhase::AwaitProgress,
                    summary_only: true,
                    history: final(self).history,
                    ..*old(self)
                })
                &&& final(self).history@.len() == old(self).history@.len() + 1
                &&& final(self).history@.drop_last() == old(self).history@
                &&& final(self).history@.last().is_plain(
                    final(self).history@.last().id@,
                    AiChatRole::System,
                    "The shared tool-round budget is exhausted. Summarize completed work and remaining limitations from the available evidence. Do not call tools or claim that cancelled remote operations were terminated."@,
                    now_ms,
                )
            },
    {
        match reply {
            CompletionReply::Ready => {
                let notice = agent_chat_message(
                    AiChatRole::System,
                    "The shared tool-round budget is exhausted. Summarize completed work and remaining limitations from the available evidence. Do not call tools or claim that cancelled remote operations were terminated.".to_owned(),
                    now_ms,
                );
                self.history.push(notice);
                assert(self.history@.drop_last() =~= old(self).history@);
                self.summary_only = true;
                self.phase = LoopPhase::AwaitProgress;
            },
            CompletionReply::PendingMessages => {},
            CompletionReply::Refused => {
                self.fail();
            },
        }
    }

    /// The progress guard answered. A run that repeats itself may only explain itself, and is told
    /// so once.
    pub fn on_progress(&mut self, stalled: bool, now_ms: i64)
        requires
            old(self).phase == LoopPhase::AwaitProgress,
        ensures
            follows(old(self).phase, final(self).phase),
            *final(self) == (ToolLoop {
                phase: LoopPhase::AwaitCommit,
                summary_only: old(self).summary_only || stalled,
                history: final(self).history,
                ..*old(self)
            }),
            stalled && !has_message(old(self).history@, "agent-no-progress"@) ==> {
                &&& final(self).history@.len() == old(self).history@.len() + 1
                &&& final(self).history@.drop_last() == old(self).history@
                &&& final(self).history@.last().is_plain(
                    "agent-no-progress"@,
                    AiChatRole::System,
                    "Execution stopped after repeated identical failures without progress. Do not call tools. Explain what completed, what remains unresolved, and which prerequisite is needed to continue, in the user's language."@,
                    now_ms,
                )
            },
            !(stalled && !has_message(old(self).history@, "agent-no-progress"@)) ==> final(self).history
                == old(self).history,
    {
        self.summary_only = self.summary_only || stalled;
        if stalled {
            if find_message(&self.history, "agent-no-progress").is_none() {
                let notice = AiChatMessage::plain(
                    "agent-no-progress".to_owned(),
                    AiChatRole::System,
                    "Execution stopped after repeated identical failures without progress. Do not call tools. Explain what completed, what remains unresolved, and which prerequisite is needed to continue, in the user's language.".to_owned(),
                    now_ms,
                );
                self.history.push(notice);
                assert(self.history@.drop_last() =~= old(self).history@);
            }
        }
        self.phase = LoopPhase::AwaitCommit;
    }

    /// The history is on disk, or could not be brought there.
    pub fn on_commit(&mut self, committed: bool)
        requires
            old(self).phase == LoopPhase::AwaitCommit,
        ensures
            follows(old(self).phase, final(self).phase),
            committed ==> *final(self) == (ToolLoop { phase: LoopPhase::AwaitContext, ..*old(self) }),
            !committed ==> final(self).only_ended(*old(self)) && final(self).ended(
                old(self).assistant_content@,
                AiAgentLoopStatus::Failed,
            ),
    {
        if committed {
            self.phase = LoopPhase::AwaitContext;
        } else {
            self.fail();
        }
    }

    /// The window described the application, or is gone.
    pub fn on_runtime_context(&mut self, context: Option<String>, now_ms: i64)
        requires
            old(self).phase == LoopPhase::AwaitContext,
        ensures
            follows(old(self).phase, final(self).phase),
            match context {
                Some(content) => {
                    &&& *final(self) == (ToolLoop {
                        phase: LoopPhase::AwaitPromptSize,
                        history: final(self).history,
                        ..*old(self)
                    })
                    &&& runtime_context_placed(old(self).history@, final(self).history@, content@, now_ms)
                },
                None => final(self).only_ended(*old(self)) && final(self).ended(
                    old(self).assistant_content@,
                    AiAgentLoopStatus::Failed,
                ),
            },
    {
        match context {
            Some(content) => {
                replace_ai_runtime_context_message(&mut self.history, content, now_ms);
                self.phase = LoopPhase::AwaitPromptSize;
            },
            None => {
                self.fail();
            },
        }
    }

    /// The prompt was measured. One that crowds the window is compacted first.
    pub fn on_prompt_size(&mut self, total: usize)
        requires
            old(self).phase == LoopPhase::AwaitPromptSize,
        ensures
            follows(old(self).phase, final(self).phase),
            *final(self) == (ToolLoop {
                phase: if crowds_window(total as int, old(self).settings.context_window) {
                    LoopPhase::AwaitCompaction
                } else {
                    LoopPhase::AwaitDispatch
                },
                ..*old(self)
            }),
    {
        let limit: usize = match self.settings.context_window.checked_mul(75) {
            Some(scaled) => scaled,
            None => usize::MAX,
        } / 100;
        self.phase = if total > limit {
            LoopPhase::AwaitCompaction
        } else {
            LoopPhase::AwaitDispatch
        };
    }

    /// The history was compacted, or could not be.
    pub fn on_compaction(&mut self, compacted: Result<CompactedTask, String>)
        requires
            old(self).phase == LoopPhase::AwaitCompaction,
        ensures
            follows(old(self).phase, final(self).phase),
            final(self).sender.open == old(self).sender.open,
            match compacted {
                Ok(task) => {
                    &&& *final(self) == (ToolLoop {
                        phase: LoopPhase::AwaitDispatch,
                        history: task.history,
                        notes: final(self).notes,
                        sender: final(self).sender,
                        ..*old(self)
                    })
                    &&& final(self).notes@ == match task.notes {
                        Some(words) => old(self).notes@.and(seq![Noted::WorkingNotes(words@)]),
                        None => old(self).notes@,
                    }
                    &&& final(self).sender@ == old(self).heard(seq![Said::Checkpoint(final(self).notes@)])
                },
                Err(error) => {
                    &&& *final(self) == (ToolLoop {
                        phase: LoopPhase::Finished,
                        outcome: final(self).outcome,
                        sender: final(self).sender,
                        ..*old(self)
                    })
                    &&& final(self).ended(error@, AiAgentLoopStatus::Failed)
                    &&& final(self).sender@ == old(self).heard_from_loop(
                        Said::Stream(Streamed::Error(error@)),
                    )
                },
            },
    {
        match compacted {
            Ok(task) => {
                self.history = task.history;
                match task.notes {
                    Some(words) => {
                        self.notes.note(NoteStep::WorkingNotes(words));
                    },
                    None => {},
                }
                self.tell_notes();
                self.phase = LoopPhase::AwaitDispatch;
            },
            Err(error) => {
                self.tell_from_loop(
                    AiStreamDeliveryEvent::Stream(AiStreamEvent::Error(error.clone())),
                );
                self.end(error, AiAgentLoopStatus::Failed);
            },
        }
    }

    /// What the window hears when the model is asked.
    pub open spec fn request_reports(self, prompt: Seq<AiChatMessage>, prompt_tokens: usize) -> Seq<Said> {
        seq![
            Said::Request {
                logical_round: if self.round_index < usize::MAX {
                    self.round_index + 1
                } else {
                    self.round_index as int
                },
                budget_level: self.settings.budget_level,
                message_count: self.history@.len() as int,
                tool_count: if self.summary_only {
                    0
                } else {
                    self.settings.tool_count as int
                },
                hard_deny_retries: self.hard_deny_retries as int,
                tool_choice: if self.summary_only {
                    self.settings.free_tool_choice@
                } else {
                    self.settings.tool_choice@
                },
            },
            Said::PromptUsage {
                message_id: last_user_id(prompt),
                provider: match self.settings.provider_id {
                    Some(provider) => provider@,
                    None => self.settings.provider_type@,
                },
                model: self.settings.model@,
                prompt_tokens: prompt_tokens as int,
                context_window: self.settings.context_window as int,
            },
        ]
    }

    /// The request may go out, or new instructions have to be read first. Without an agent there
    /// is nobody to ask. `prompt` is the history as the provider gets it, and `prompt_tokens` what
    /// it takes up.
    pub fn on_dispatch(&mut self, reply: DispatchReply, prompt: &Vec<AiChatMessage>, prompt_tokens: usize)
        requires
            old(self).phase == LoopPhase::AwaitDispatch,
        ensures
            follows(old(self).phase, final(self).phase),
            final(self).sender.open == old(self).sender.open,
            !old(self).settings.has_agent || reply == DispatchReply::Granted ==> {
                &&& *final(self) == (ToolLoop {
                    phase: LoopPhase::Streaming,
                    round: final(self).round,
                    sender: final(self).sender,
                    ..*old(self)
                })
                &&& final(self).round.is_empty()
                &&& final(self).wf()
                &&& final(self).sender@ == old(self).heard(
                    old(self).request_reports(prompt@, prompt_tokens),
                )
            },
            old(self).settings.has_agent && reply == DispatchReply::DirectionChanged ==> *final(self)
                == *old(self),
            old(self).settings.has_agent && reply == DispatchReply::Refused ==> {
                &&& final(self).only_ended(*old(self))
                &&& final(self).ended(old(self).assistant_content@, AiAgentLoopStatus::Failed)
            },
    {
        if self.settings.has_agent {
            match reply {
                DispatchReply::Granted => {},
                DispatchReply::DirectionChanged => {
                    return;
                },
                DispatchReply::Refused => {
                    self.fail();
                    return;
                },
            }
        }
        self.tell(
            AiStreamDeliveryEvent::Request {
                logical_round: self.round_index.saturating_add(1),
                budget_level: self.settings.budget_level,
                message_count: self.history.len(),
                tool_count: if self.summary_only {
                    0
                } else {
                    self.settings.tool_count
                },
                hard_deny_retries: self.hard_deny_retries,
                tool_choice: if self.summary_only {
                    self.settings.free_tool_choice.clone()
                } else {
                    self.settings.tool_choice.clone()
                },
            },
        );
        let message_id = match last_user_message(prompt) {
            Some(at) => Some(prompt[at].id.clone()),
            None => None,
        };
        let provider = match &self.settings.provider_id {
            Some(provider) => provider.clone(),
            None => self.settings.provider_type.clone(),
        };
        assert(text::opt_view(message_id) == last_user_id(prompt@));
        self.tell(
            AiStreamDeliveryEvent::PromptUsage {
                message_id,
                provider,
                model: self.settings.model.clone(),
                prompt_tokens,
                context_window: self.settings.context_window,
            },
        );
        assert(self.sender@ =~= old(self).heard(
            old(self).request_reports(prompt@, prompt_tokens),
        ));
        self.round = RoundStream::new();
        self.phase = LoopPhase::Streaming;
    }
}

} // verus!
