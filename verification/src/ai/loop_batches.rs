//! The calls of a round of the tool loop.

use vstd::prelude::*;

use crate::ai::delivery::{
    results_view, AiStreamDeliveryEvent, AiStreamDeliverySender, AiStreamEvent, RoundResult, Said, Streamed,
    ToolStatus,
};
use crate::ai::loop_stream::round_name;
use crate::ai::messages::{agent_chat_message, AiChatMessage, AiChatRole, AiToolCall};
use crate::ai::notes::{pending_notes, NoteStep, Noted, Notes};
use crate::ai::results::{
    candidates_of, pre_execution_rejected_ai_tool_result, resolve_ai_candidate_selection_if_needed,
    selection_candidates, settled, AiExecutedToolResult, SelectionReply,
};
use crate::ai::round_call::{CallPhase, RoundCall};
use crate::ai::tool_loop::{
    batch_len, follows, law_batches_respect_the_limit, AiAgentLoopStatus, BatchPlan, LoopPhase, ToolLoop,
};
use crate::json::{members_view, object, said_text, text_member, Json, JsonTree};
use crate::text;

verus! {

/// The code and the reason with which a batch is turned away.
pub open spec fn refusal_of(plan: BatchPlan) -> (Seq<char>, Seq<char>) {
    match plan {
        BatchPlan::RejectMixedQuestions => (
            "invalid_tool_arguments"@,
            "Call ask_user alone, then plan other operations after receiving the answer. This batch was not executed."@,
        ),
        _ => (
            "dependency_failed"@,
            "A preceding dependency failed; this call was not dispatched."@,
        ),
    }
}

/// The warning that follows a call that keeps bringing nothing new.
pub open spec fn repetition_warning() -> Seq<char> {
    "The same tool request has repeatedly produced no new evidence. Do not repeat it unchanged. Inspect the result, use a different approach, or ask the user for the missing prerequisite. Terminal polling is not subject to this warning."@
}

/// The message that hands a result to the model.
pub open spec fn is_result_message(message: AiChatMessage, result: AiExecutedToolResult, content: Seq<char>, now_ms: i64) -> bool {
    &&& (AiChatMessage { tool_call_id: None, ..message }).is_plain(
        message.id@,
        AiChatRole::Tool,
        content,
        now_ms,
    )
    &&& message.tool_call_id == Some(result.tool_call_id)
}

/// What is said of a round that closes: its summary, made from its results, and what the prompt
/// takes up.
pub struct SummaryDraft {
    pub text: String,
    pub prompt_tokens: usize,
}

/// How a round's summary came about.
pub open spec fn summary_data(model: Seq<char>, prompt_tokens: nat, rounds: nat) -> Json {
    Json::Object(
        seq![
            ("contextLengthBefore"@, Json::Number(text::decimal(prompt_tokens))),
            said_text("model"@, model),
            ("numRounds"@, Json::Number(text::decimal(rounds))),
            ("numRoundsSinceLastSummarization"@, Json::Number(text::decimal(1))),
            said_text("source"@, "background"@),
            said_text("summarizationMode"@, "background"@),
        ],
    )
}

fn summary_metadata(model: &str, prompt_tokens: usize, rounds: u64) -> (res: JsonTree)
    ensures
        res@ == summary_data(model@, prompt_tokens as nat, rounds as nat),
{
    let mut members: Vec<(String, JsonTree)> = Vec::new();
    members.push(
        ("contextLengthBefore".to_owned(), JsonTree::Number(text::number(prompt_tokens as u64))),
    );
    members.push(text_member("model", model));
    members.push(("numRounds".to_owned(), JsonTree::Number(text::number(rounds))));
    members.push(
        ("numRoundsSinceLastSummarization".to_owned(), JsonTree::Number(text::number(1))),
    );
    members.push(text_member("source", "background"));
    members.push(text_member("summarizationMode", "background"));
    assert(members_view(members@) =~= summary_data(
        model@,
        prompt_tokens as nat,
        rounds as nat,
    )->Object_0);
    object(members)
}

fn duplicate_results(results: &Vec<RoundResult>) -> (res: Vec<RoundResult>)
    ensures
        results_view(res@) == results_view(results@),
{
    let mut out: Vec<RoundResult> = Vec::new();
    let mut i: usize = 0;
    while i < results.len()
        invariant
            i <= results.len(),
            out@ == results@.take(i as int),
        decreases results.len() - i,
    {
        out.push(
            RoundResult {
                tool_name: results[i].tool_name.clone(),
                success: results[i].success,
                summary: results[i].summary.clone(),
            },
        );
        i += 1;
        assert(out@ =~= results@.take(i as int));
    }
    assert(results@.take(i as int) =~= results@);
    out
}

impl ToolLoop {
    /// Picks the calls that run next and notes them as pending; `false` once none is left.
    ///
    /// `parallel` says of each remaining call whether it may run beside others. The window is told
    /// of the note before anything runs: cancellation can arrive after a remote side effect.
    pub fn next_batch(&mut self, parallel: &Vec<bool>) -> (res: bool)
        requires
            old(self).phase == LoopPhase::Batching,
            parallel@.len() == old(self).calls@.len(),
            old(self).settings.max_parallel_reads >= 1,
        ensures
            follows(old(self).phase, final(self).phase),
            final(self).sender.open == old(self).sender.open,
            res == (old(self).calls@.len() > 0),
            !res ==> *final(self) == *old(self),
            res ==> {
                let count = batch_len(parallel@, old(self).settings.max_parallel_reads as int);
                &&& *final(self) == (ToolLoop {
                    phase: LoopPhase::AwaitBatchCommit,
                    calls: final(self).calls,
                    batch: final(self).batch,
                    recorded: 0,
                    notes: final(self).notes,
                    sender: final(self).sender,
                    ..*old(self)
                })
                &&& final(self).batch@ == old(self).calls@.take(count)
                &&& final(self).calls@ == old(self).calls@.skip(count)
                &&& final(self).notes@ == old(self).notes@.and(pending_notes(final(self).batch@))
                &&& final(self).sender@ == old(self).heard(seq![Said::Checkpoint(final(self).notes@)])
            },
    {
        if self.calls.len() == 0 {
            return false;
        }
        let limit: usize = self.settings.max_parallel_reads;
        let mut count: usize = 1;
        proof {
            law_batches_respect_the_limit(parallel@, limit as int);
            assert(parallel@.skip(0) =~= parallel@);
        }
        while count < parallel.len() && count < limit && parallel[count - 1] && parallel[count]
            invariant
                1 <= count <= parallel.len(),
                count <= limit,
                batch_len(parallel@, limit as int) == count - 1 + batch_len(
                    parallel@.skip(count - 1),
                    limit - (count - 1),
                ),
            decreases parallel.len() - count,
        {
            let ghost rest = parallel@.skip(count - 1);
            assert(rest[0] && rest[1]);
            assert(rest.drop_first() =~= parallel@.skip(count as int));
            count += 1;
        }
        proof {
            let rest = parallel@.skip(count - 1);
            assert(rest[0] == parallel@[count - 1]);
            if rest.len() > 1 {
                assert(rest[1] == parallel@[count as int]);
            }
            assert(batch_len(rest, limit - (count - 1)) == 1);
        }
        let mut batch: Vec<AiToolCall> = Vec::new();
        let mut rest: Vec<AiToolCall> = Vec::new();
        let mut i: usize = 0;
        while i < self.calls.len()
            invariant
                i <= self.calls.len(),
                count <= self.calls.len(),
                batch@ == self.calls@.take(if i < count {
                    i as int
                } else {
                    count as int
                }),
                rest@ == if i < count {
                    Seq::<AiToolCall>::empty()
                } else {
                    self.calls@.subrange(count as int, i as int)
                },
            decreases self.calls.len() - i,
        {
            let call = self.calls[i].duplicate();
            if i < count {
                batch.push(call);
            } else {
                rest.push(call);
            }
            i += 1;
            assert(batch@ =~= self.calls@.take(if i < count {
                i as int
            } else {
                count as int
            }));
            assert(rest@ =~= if i < count {
                Seq::<AiToolCall>::empty()
            } else {
                self.calls@.subrange(count as int, i as int)
            });
        }
        assert(self.calls@.subrange(count as int, i as int) =~= self.calls@.skip(count as int));
        self.batch = batch;
        self.recorded = 0;
        self.calls = rest;
        self.notes.note_pending(&self.batch);
        self.tell_notes();
        self.phase = LoopPhase::AwaitBatchCommit;
        true
    }

    /// The pending note is on disk, or could not be brought there.
    pub fn on_batch_commit(&mut self, committed: bool)
        requires
            old(self).phase == LoopPhase::AwaitBatchCommit,
        ensures
            follows(old(self).phase, final(self).phase),
            committed ==> *final(self) == (ToolLoop { phase: LoopPhase::BatchReady, ..*old(self) }),
            !committed ==> final(self).only_ended(*old(self)) && final(self).ended(
                old(self).assistant_content@,
                AiAgentLoopStatus::Failed,
            ),
    {
        if committed {
            self.phase = LoopPhase::BatchReady;
        } else {
            self.fail();
        }
    }

    /// How the batch is carried out. Nothing runs before the model has read the user's answer.
    pub fn plan_batch(&self, dependency_failed: bool) -> (res: BatchPlan)
        requires
            self.phase == LoopPhase::BatchReady,
        ensures
            res == if self.mixed_questions {
                BatchPlan::RejectMixedQuestions
            } else if dependency_failed {
                BatchPlan::RejectFailedDependency
            } else if self.batch@.len() > 1 {
                BatchPlan::Parallel
            } else {
                BatchPlan::Single
            },
    {
        if self.mixed_questions {
            BatchPlan::RejectMixedQuestions
        } else if dependency_failed {
            BatchPlan::RejectFailedDependency
        } else if self.batch.len() > 1 {
            BatchPlan::Parallel
        } else {
            BatchPlan::Single
        }
    }

    /// The results of a batch that is turned away: one refusal per call, in order.
    pub fn turn_away(&self, plan: BatchPlan) -> (res: Vec<AiExecutedToolResult>)
        requires
            plan == BatchPlan::RejectMixedQuestions || plan == BatchPlan::RejectFailedDependency,
        ensures
            res@.len() == self.batch@.len(),
            forall|i: int|
                0 <= i < res@.len() ==> (#[trigger] res@[i]).is_refusal(
                    self.batch@[i].id@,
                    self.batch@[i].name@,
                    refusal_of(plan).0,
                    refusal_of(plan).1,
                    false,
                ),
    {
        let mut out: Vec<AiExecutedToolResult> = Vec::new();
        let mut i: usize = 0;
        while i < self.batch.len()
            invariant
                i <= self.batch.len(),
                out@.len() == i,
                plan == BatchPlan::RejectMixedQuestions || plan == BatchPlan::RejectFailedDependency,
                forall|j: int|
                    0 <= j < i ==> (#[trigger] out@[j]).is_refusal(
                        self.batch@[j].id@,
                        self.batch@[j].name@,
                        refusal_of(plan).0,
                        refusal_of(plan).1,
                        false,
                    ),
            decreases self.batch.len() - i,
        {
            let id = self.batch[i].id.clone();
            let name = self.batch[i].name.clone();
            let refused = if plan == BatchPlan::RejectMixedQuestions {
                pre_execution_rejected_ai_tool_result(
                    id,
                    name,
                    "invalid_tool_arguments",
                    "Call ask_user alone, then plan other operations after receiving the answer. This batch was not executed.",
                )
            } else {
                pre_execution_rejected_ai_tool_result(
                    id,
                    name,
                    "dependency_failed",
                    "A preceding dependency failed; this call was not dispatched.",
                )
            };
            out.push(refused);
            i += 1;
        }
        out
    }

    /// A call of the batch that runs. One of several that run beside each other neither belongs to
    /// the agent nor asks the user to pick a target; what it says goes to the window by itself.
    pub fn start_call(&self, at: usize) -> (res: RoundCall)
        requires
            self.phase == LoopPhase::BatchReady,
            at < self.batch@.len(),
        ensures
            ({
                let alone = self.batch@.len() == 1;
                &&& res == (RoundCall {
                    call: self.batch@[at as int],
                    phase: CallPhase::New,
                    has_agent: self.settings.has_agent && alone,
                    is_child: self.settings.is_child && alone,
                    allow_selection: alone,
                    generation: self.settings.generation,
                    conversation_id: self.settings.conversation_id,
                    assistant_id: self.settings.assistant_id,
                    policy: None,
                    order: None,
                    result: None,
                    sender: res.sender,
                })
                &&& res.sender.open == self.sender.open
                &&& res.sender@.len() == 0
            }),
    {
        let alone = self.batch.len() == 1;
        RoundCall {
            call: self.batch[at].duplicate(),
            phase: CallPhase::New,
            has_agent: self.settings.has_agent && alone,
            is_child: self.settings.is_child && alone,
            allow_selection: alone,
            generation: self.settings.generation,
            conversation_id: self.settings.conversation_id.clone(),
            assistant_id: self.settings.assistant_id.clone(),
            policy: None,
            order: None,
            result: None,
            sender: AiStreamDeliverySender { open: self.sender.open, sent: Vec::new() },
        }
    }

    /// A call was lost: the user could not be asked for consent, because the window is gone.
    pub fn on_call_lost(&mut self)
        requires
            old(self).phase == LoopPhase::BatchReady,
        ensures
            follows(old(self).phase, final(self).phase),
            final(self).only_ended(*old(self)),
            final(self).ended(old(self).assistant_content@, AiAgentLoopStatus::Failed),
    {
        self.fail();
    }

    /// Whether the results of the batch are settled here: those of calls that ran beside each other,
    /// unless a child asked for them.
    pub open spec fn settles_results(self) -> bool {
        self.batch@.len() > 1 && !(self.settings.has_agent && self.settings.is_child)
    }

    fn settles(&self) -> (res: bool)
        ensures
            res == self.settles_results(),
    {
        self.batch.len() > 1 && !(self.settings.has_agent && self.settings.is_child)
    }

    /// The choice that the user is given for the next result of the batch.
    pub open spec fn selection_request(self, result: AiExecutedToolResult, arguments: Seq<char>) -> Said {
        Said::ToolCandidateSelectionRequested {
            call_id: self.batch@[self.recorded as int].id@,
            name: self.batch@[self.recorded as int].name@,
            arguments,
            candidates: candidates_of(result.envelope.targets@),
        }
    }

    /// Puts the choice among several targets before the user, where the next result of the batch
    /// needs one and is settled here; `true` says that an answer will come. `arguments` are those of
    /// the call without secrets.
    pub fn ask_selection(&mut self, result: &AiExecutedToolResult, arguments: String) -> (res: bool)
        requires
            old(self).phase == LoopPhase::BatchReady,
            old(self).recorded < old(self).batch@.len(),
        ensures
            follows(old(self).phase, final(self).phase),
            *final(self) == (ToolLoop { sender: final(self).sender, ..*old(self) }),
            final(self).sender.open == old(self).sender.open,
            res == (old(self).settles_results() && result.is_ambiguous() && old(self).sender.open),
            final(self).sender@ == if res {
                old(self).heard(seq![old(self).selection_request(*result, arguments@)])
            } else {
                old(self).sender@
            },
    {
        if !self.settles() || !self.sender.open {
            return false;
        }
        match selection_candidates(result) {
            Some(candidates) => {
                let call_id = self.batch[self.recorded].id.clone();
                let name = self.batch[self.recorded].name.clone();
                self.tell(
                    AiStreamDeliveryEvent::ToolCandidateSelectionRequested {
                        call_id,
                        name,
                        arguments,
                        candidates,
                    },
                );
                true
            },
            None => false,
        }
    }

    /// The user's answer to the choice, where the window could show it.
    pub open spec fn reply_of(self, choice: Option<usize>) -> SelectionReply {
        if !self.sender.open {
            SelectionReply::Undelivered
        } else {
            match choice {
                Some(index) => SelectionReply::Chosen(index),
                None => SelectionReply::Cancelled,
            }
        }
    }

    /// Settles which target the next result of the batch meant, and reports what came of it. The
    /// user's `choice` counts only where they were asked.
    pub fn settle_result(&mut self, result: AiExecutedToolResult, choice: Option<usize>) -> (res: AiExecutedToolResult)
        requires
            old(self).phase == LoopPhase::BatchReady,
            old(self).recorded < old(self).batch@.len(),
        ensures
            follows(old(self).phase, final(self).phase),
            *final(self) == (ToolLoop { sender: final(self).sender, ..*old(self) }),
            final(self).sender.open == old(self).sender.open,
            if old(self).settles_results() {
                &&& settled(
                    old(self).batch@[old(self).recorded as int],
                    result,
                    old(self).reply_of(choice),
                    res,
                )
                &&& final(self).sender@ == if result.wants_selection() {
                    old(self).heard(
                        seq![
                            Said::ToolStatus {
                                call_id: old(self).batch@[old(self).recorded as int].id@,
                                name: old(self).batch@[old(self).recorded as int].name@,
                                status: if res.success {
                                    ToolStatus::Completed
                                } else {
                                    ToolStatus::Error
                                },
                                envelope: Some(res.envelope@),
                                risk: Some(old(self).settings.read_risk_label@),
                                summary: Some(res.envelope.summary@),
                            },
                        ],
                    )
                } else {
                    old(self).sender@
                }
            } else {
                res == result && *final(self) == *old(self)
            },
    {
        if !self.settles() {
            return result;
        }
        let reported = result.requires_selection();
        let reply = if !self.sender.open {
            SelectionReply::Undelivered
        } else {
            match choice {
                Some(index) => SelectionReply::Chosen(index),
                None => SelectionReply::Cancelled,
            }
        };
        let res = resolve_ai_candidate_selection_if_needed(&self.batch[self.recorded], result, reply);
        if reported {
            let call_id = self.batch[self.recorded].id.clone();
            let name = self.batch[self.recorded].name.clone();
            let risk = self.settings.read_risk_label.clone();
            self.tell(
                AiStreamDeliveryEvent::ToolStatus {
                    call_id,
                    name,
                    status: if res.success {
                        ToolStatus::Completed
                    } else {
                        ToolStatus::Error
                    },
                    envelope: Some(res.envelope.duplicate()),
                    risk: Some(risk),
                    summary: Some(res.envelope.summary.clone()),
                },
            );
        }
        res
    }

    /// The notes once the next call of the batch has its result.
    pub open spec fn notes_with(self, result: AiExecutedToolResult) -> Notes {
        self.notes@.and(
            seq![
                Noted::Recorded { call: self.batch@[self.recorded as int], result: result@ },
            ],
        )
    }

    /// What the window hears when a result is taken into the history. `annotated` is the result with
    /// what is said of recovery.
    pub open spec fn result_reports(self, result: AiExecutedToolResult, annotated: AiExecutedToolResult) -> Seq<Said> {
        let call = self.batch@[self.recorded as int];
        if result.error_code() == Some("dependency_failed"@) {
            seq![
                Said::ToolStatus {
                    call_id: call.id@,
                    name: call.name@,
                    status: ToolStatus::Rejected,
                    envelope: Some(result.envelope@),
                    risk: None,
                    summary: None,
                },
                Said::Checkpoint(self.notes_with(annotated)),
            ]
        } else {
            seq![Said::Checkpoint(self.notes_with(annotated))]
        }
    }

    /// Takes the result of the next call of the batch into the history. `annotated` is the result
    /// with what is said of recovery, `repeats` the progress guard's verdict, and `content` what the
    /// model reads of the result.
    pub fn record_result(
        &mut self,
        result: &AiExecutedToolResult,
        annotated: AiExecutedToolResult,
        repeats: bool,
        content: String,
        now_ms: i64,
    )
        requires
            old(self).phase == LoopPhase::BatchReady,
            old(self).recorded < old(self).batch@.len(),
        ensures
            follows(old(self).phase, final(self).phase),
            *final(self) == (ToolLoop {
                history: final(self).history,
                pause_requested: old(self).pause_requested || result.error_code() == Some(
                    "agent_wait_paused"@,
                ),
                recorded: (old(self).recorded + 1) as usize,
                round_results: final(self).round_results,
                notes: final(self).notes,
                sender: final(self).sender,
                ..*old(self)
            }),
            final(self).notes@ == old(self).notes_with(annotated),
            results_view(final(self).round_results@) == results_view(old(self).round_results@).push(
                (
                    old(self).batch@[old(self).recorded as int].name@,
                    annotated.success,
                    annotated.envelope.summary@,
                ),
            ),
            final(self).sender.open == old(self).sender.open,
            final(self).sender@ == old(self).heard(old(self).result_reports(*result, annotated)),
            ({
                let count = old(self).history@.len() as int;
                &&& final(self).history@.len() == count + if repeats {
                    2int
                } else {
                    1int
                }
                &&& final(self).history@.take(count) == old(self).history@
                &&& repeats ==> final(self).history@[count].is_plain(
                    final(self).history@[count].id@,
                    AiChatRole::System,
                    repetition_warning(),
                    now_ms,
                )
                &&& is_result_message(final(self).history@.last(), annotated, content@, now_ms)
            }),
    {
        let total: usize = self.batch.len();
        let call_id = self.batch[self.recorded].id.clone();
        let name = self.batch[self.recorded].name.clone();
        if result.reports("dependency_failed") {
            self.tell(
                AiStreamDeliveryEvent::ToolStatus {
                    call_id,
                    name: name.clone(),
                    status: ToolStatus::Rejected,
                    envelope: Some(result.envelope.duplicate()),
                    risk: None,
                    summary: None,
                },
            );
        }
        if result.reports("agent_wait_paused") {
            self.pause_requested = true;
        }
        if repeats {
            let warning = agent_chat_message(
                AiChatRole::System,
                "The same tool request has repeatedly produced no new evidence. Do not repeat it unchanged. Inspect the result, use a different approach, or ask the user for the missing prerequisite. Terminal polling is not subject to this warning.".to_owned(),
                now_ms,
            );
            self.history.push(warning);
        }
        let noted = self.batch[self.recorded].duplicate();
        self.notes.note(NoteStep::Recorded { call: noted, result: annotated.duplicate() });
        self.tell_notes();
        assert(self.sender@ =~= old(self).heard(old(self).result_reports(*result, annotated)));
        self.round_results.push(
            RoundResult {
                tool_name: name,
                success: annotated.success,
                summary: annotated.envelope.summary.clone(),
            },
        );
        assert(results_view(self.round_results@) =~= results_view(old(self).round_results@).push(
            (
                old(self).batch@[old(self).recorded as int].name@,
                annotated.success,
                annotated.envelope.summary@,
            ),
        ));
        assert(self.recorded < total);
        self.recorded += 1;
        let mut message = agent_chat_message(AiChatRole::Tool, content, now_ms);
        message.tool_call_id = Some(annotated.tool_call_id);
        self.history.push(message);
        assert(self.history@.take(old(self).history@.len() as int) =~= old(self).history@);
    }

    /// Every call of the batch has its result.
    pub fn batch_done(&mut self)
        requires
            old(self).phase == LoopPhase::BatchReady,
            old(self).recorded == old(self).batch@.len(),
        ensures
            follows(old(self).phase, final(self).phase),
            *final(self) == (ToolLoop { phase: LoopPhase::Batching, ..*old(self) }),
    {
        self.phase = LoopPhase::Batching;
    }

    /// The provider's own state of the round, where the protocol keeps one.
    pub open spec fn state_report(self, response_round: Option<JsonTree>) -> Seq<Said> {
        match response_round {
            Some(round) => if self.settings.uses_responses {
                seq![
                    Said::Stream(
                        Streamed::ProviderResponsePart(self.settings.response_state_key@, round@),
                    ),
                ]
            } else {
                Seq::empty()
            },
            None => Seq::empty(),
        }
    }

    /// What the window hears when a round closes.
    pub open spec fn closing_reports(self, response_round: Option<JsonTree>, summary: SummaryDraft) -> Seq<Said> {
        let name = round_name(self.settings.assistant_id@, self.round_index);
        self.state_report(response_round) + (if self.round_results@.len() > 0 {
            seq![
                Said::RoundSummary {
                    round_id: name,
                    results: results_view(self.round_results@),
                    text: summary.text@,
                    metadata: summary_data(
                        self.settings.model@,
                        summary.prompt_tokens as nat,
                        (self.round_index + 1) as nat,
                    ),
                },
            ]
        } else {
            Seq::empty()
        }) + seq![Said::RoundMarker { round_id: name, awaiting_summary: true }]
    }

    /// Whether the model is pointed at the transcript when a round closes at `level`.
    pub open spec fn injects_lookup(self, level: u8) -> bool {
        level >= 3 && !self.lookup_injected && self.settings.lookup_prompt is Some
    }

    /// Closes a round whose calls have all run. `level` says how much of the window the history
    /// takes, `response_round` is the provider's own state of the round, and `summary` says what the
    /// round came to.
    pub fn close_round(&mut self, response_round: Option<JsonTree>, level: u8, summary: SummaryDraft)
        requires
            old(self).phase == LoopPhase::Batching,
            old(self).calls@.len() == 0,
            old(self).round_index < usize::MAX,
        ensures
            follows(old(self).phase, final(self).phase),
            final(self).sender.open == old(self).sender.open,
            old(self).pause_requested ==> {
                &&& *final(self) == (ToolLoop {
                    phase: LoopPhase::Finished,
                    outcome: final(self).outcome,
                    sender: final(self).sender,
                    ..*old(self)
                })
                &&& final(self).ended(old(self).assistant_content@, AiAgentLoopStatus::Stalled)
                &&& final(self).sender@ == old(self).heard(
                    old(self).state_report(response_round) + (if old(self).settings.has_agent {
                        Seq::empty()
                    } else {
                        seq![Said::Stream(Streamed::Done)]
                    }),
                )
            },
            !old(self).pause_requested ==> {
                &&& *final(self) == (ToolLoop {
                    phase: LoopPhase::RoundStart,
                    round_index: (old(self).round_index + 1) as usize,
                    history: final(self).history,
                    awaiting_summary: final(self).awaiting_summary,
                    lookup_injected: old(self).lookup_injected || old(self).injects_lookup(level),
                    sender: final(self).sender,
                    ..*old(self)
                })
                &&& text::opt_view(final(self).awaiting_summary) == Some(
                    round_name(old(self).settings.assistant_id@, old(self).round_index),
                )
                &&& final(self).sender@ == old(self).heard(
                    old(self).closing_reports(response_round, summary),
                )
                &&& if old(self).injects_lookup(level) {
                    &&& final(self).history@.len() == old(self).history@.len() + 1
                    &&& final(self).history@.drop_last() == old(self).history@
                    &&& final(self).history@.last().is_plain(
                        "transcript-lookup-reference"@,
                        AiChatRole::System,
                        old(self).settings.lookup_prompt->0@,
                        0,
                    )
                } else {
                    final(self).history == old(self).history
                }
            },
    {
        match response_round {
            Some(round) => {
                if self.settings.uses_responses {
                    self.tell_from_loop(
                        AiStreamDeliveryEvent::Stream(
                            AiStreamEvent::ProviderResponsePart {
                                provider_type: self.settings.response_state_key.clone(),
                                part: round,
                            },
                        ),
                    );
                }
            },
            None => {},
        }
        assert(self.sender@ =~= old(self).heard(old(self).state_report(response_round)));
        if self.pause_requested {
            self.tell_from_loop(AiStreamDeliveryEvent::Stream(AiStreamEvent::Done));
            assert(self.sender@ =~= old(self).heard(
                old(self).state_report(response_round) + (if old(self).settings.has_agent {
                    Seq::empty()
                } else {
                    seq![Said::Stream(Streamed::Done)]
                }),
            ));
            let content = self.assistant_content.clone();
            self.end(content, AiAgentLoopStatus::Stalled);
            return;
        }
        let name = text::joined(
            text::joined(self.settings.assistant_id.as_str(), "-round-").as_str(),
            text::number(self.round_index as u64 + 1).as_str(),
        );
        if self.round_results.len() > 0 {
            let results = duplicate_results(&self.round_results);
            let metadata = summary_metadata(
                self.settings.model.as_str(),
                summary.prompt_tokens,
                self.round_index as u64 + 1,
            );
            self.tell(
                AiStreamDeliveryEvent::RoundSummary {
                    round_id: name.clone(),
                    results,
                    text: summary.text,
                    metadata,
                },
            );
        }
        if level >= 3 && !self.lookup_injected {
            let prompt = text::duplicate_option(&self.settings.lookup_prompt);
            match prompt {
                Some(prompt) => {
                    let reference = AiChatMessage::plain(
                        "transcript-lookup-reference".to_owned(),
                        AiChatRole::System,
                        prompt,
                        0,
                    );
                    self.history.push(reference);
                    assert(self.history@.drop_last() =~= old(self).history@);
                    self.lookup_injected = true;
                },
                None => {},
            }
        }
        self.tell(
            AiStreamDeliveryEvent::RoundMarker { round_id: name.clone(), awaiting_summary: true },
        );
        assert(self.sender@ =~= old(self).heard(
                    old(self).closing_reports(response_round, summary),
                ));
        self.awaiting_summary = Some(name);
        self.round_index += 1;
        self.phase = LoopPhase::RoundStart;
    }
}

} // verus!
