//! The model's answer within a round of the tool loop.

use vstd::prelude::*;

use crate::ai::delivery::{AiStreamDeliveryEvent, AiStreamEvent, Said, Streamed, ToolStatus};
use crate::ai::messages::{agent_chat_message, AiChatMessage, AiChatRole, AiToolCall, ProviderParts};
use crate::ai::notes::{NoteStep, Noted};
use crate::ai::results::{refusal_report, rejected_ai_tool_result};
use crate::ai::tool_loop::{
    adopted, completed_with, follows, rejections, AiAgentLoopStatus, CompletionReply, LoopPhase, RoundStream, ToolLoop,
    AI_TOOL_CALLS_PER_ROUND_SAFETY_LIMIT,
};
use crate::json;
use crate::json::{duplicate_list, list_view, members_view, object, said_text, text_member, Json, JsonTree};
use crate::text;

verus! {

/// What becomes of a round once the model has answered.
#[derive(Clone, Copy, PartialEq, Eq, Structural, Debug)]
pub enum RoundTurn {
    /// The answer imitated a tool call although tools are off: it is turned down and asked again.
    Retry,
    /// The model answered without calls. Where `refund` is set the round costs the run nothing.
    Answered { refund: bool },
    /// The calls were turned down and the run ended.
    Rejected,
    /// The calls run next.
    Execute,
}

/// The number of a round as the window counts it.
pub open spec fn round_number(round_index: usize) -> int {
    if round_index < usize::MAX {
        round_index + 1
    } else {
        round_index as int
    }
}

/// The name of a round.
pub open spec fn round_name(assistant_id: Seq<char>, round_index: usize) -> Seq<char> {
    assistant_id + "-round-"@ + text::decimal(round_number(round_index) as nat)
}

/// The name of a turned-down answer's stand-in.
pub open spec fn retry_name(assistant_id: Seq<char>, attempt: int) -> Seq<char> {
    assistant_id + "-hard-deny-"@ + text::decimal(attempt as nat)
}

pub open spec fn call_ids_of(calls: Seq<AiToolCall>) -> Seq<Seq<char>> {
    calls.map_values(|call: AiToolCall| call.id@)
}

/// A call as the model reads it back.
pub open spec fn call_record(id: Seq<char>, name: Seq<char>, arguments: Seq<char>) -> Json {
    Json::Object(
        seq![
            ("arguments"@, Json::Text(arguments)),
            ("id"@, Json::Text(id)),
            ("name"@, Json::Text(name)),
        ],
    )
}

pub open spec fn call_records(calls: Seq<AiToolCall>) -> Seq<Json> {
    calls.map_values(|call: AiToolCall| call_record(call.id@, call.name@, call.arguments@))
}

fn record_of(id: &str, name: &str, arguments: &str) -> (res: JsonTree)
    ensures
        res@ == call_record(id@, name@, arguments@),
{
    let mut members: Vec<(String, JsonTree)> = Vec::new();
    members.push(("arguments".to_owned(), JsonTree::Text(arguments.to_owned())));
    members.push(("id".to_owned(), JsonTree::Text(id.to_owned())));
    members.push(("name".to_owned(), JsonTree::Text(name.to_owned())));
    assert(members@[0].1@ == Json::Text(arguments@));
    assert(members@[1].1@ == Json::Text(id@));
    assert(members@[2].1@ == Json::Text(name@));
    let res = JsonTree::Object(members);
    assert(res@->Object_0 =~= call_record(id@, name@, arguments@)->Object_0);
    res
}

fn records_of(calls: &Vec<AiToolCall>) -> (res: Vec<JsonTree>)
    ensures
        list_view(res@) == call_records(calls@),
{
    let mut out: Vec<JsonTree> = Vec::new();
    let mut i: usize = 0;
    while i < calls.len()
        invariant
            i <= calls.len(),
            out@.len() == i,
            forall|j: int|
                0 <= j < i ==> (#[trigger] out@[j])@ == call_record(
                    calls@[j].id@,
                    calls@[j].name@,
                    calls@[j].arguments@,
                ),
        decreases calls.len() - i,
    {
        out.push(
            record_of(calls[i].id.as_str(), calls[i].name.as_str(), calls[i].arguments.as_str()),
        );
        i += 1;
    }
    assert(list_view(out@) =~= call_records(calls@));
    out
}

fn ids_of(calls: &Vec<AiToolCall>) -> (res: Vec<String>)
    ensures
        text::seq_view(res@) == call_ids_of(calls@),
{
    let mut out: Vec<String> = Vec::new();
    let mut i: usize = 0;
    while i < calls.len()
        invariant
            i <= calls.len(),
            out@.len() == i,
            forall|j: int| 0 <= j < i ==> (#[trigger] out@[j])@ == calls@[j].id@,
        decreases calls.len() - i,
    {
        out.push(calls[i].id.clone());
        i += 1;
    }
    assert(text::seq_view(out@) =~= call_ids_of(calls@));
    out
}

/// Whether the calls ask the user something among other things.
pub open spec fn mixes_questions(calls: Seq<AiToolCall>) -> bool {
    calls.len() > 1 && exists|i: int| 0 <= i < calls.len() && (#[trigger] calls[i]).name@ == "ask_user"@
}

fn asks_among_others(calls: &Vec<AiToolCall>) -> (res: bool)
    ensures
        res == mixes_questions(calls@),
{
    if calls.len() <= 1 {
        return false;
    }
    let mut i: usize = 0;
    while i < calls.len()
        invariant
            i <= calls.len(),
            calls.len() > 1,
            forall|j: int| 0 <= j < i ==> (#[trigger] calls@[j]).name@ != "ask_user"@,
        decreases calls.len() - i,
    {
        if text::same(calls[i].name.as_str(), "ask_user") {
            return true;
        }
        i += 1;
    }
    false
}

impl ToolLoop {
    /// The note that clears the marker of the round whose summary this answer brings.
    pub open spec fn marker(self) -> Seq<Said> {
        match self.awaiting_summary {
            Some(round_id) => seq![Said::RoundMarker { round_id: round_id@, awaiting_summary: false }],
            None => Seq::empty(),
        }
    }

    /// The stream moved on, the window heard `told`, and a window that is gone ends the run.
    pub open spec fn streamed_on(self, before: ToolLoop, told: Seq<Said>) -> bool {
        &&& self == (ToolLoop {
            phase: self.phase,
            outcome: self.outcome,
            sender: self.sender,
            awaiting_summary: None,
            round: self.round,
            assistant_content: self.assistant_content,
            assistant_thinking: self.assistant_thinking,
            ..before
        })
        &&& self.wf()
        &&& self.sender.open == before.sender.open
        &&& self.sender@ == before.heard(told)
        &&& if before.sender.open {
            self.phase == LoopPhase::Streaming && self.outcome == before.outcome
        } else {
            self.ended(self.assistant_content@, AiAgentLoopStatus::Failed)
        }
    }

    fn clear_marker(&mut self)
        ensures
            *final(self) == (ToolLoop {
                awaiting_summary: None,
                sender: final(self).sender,
                ..*old(self)
            }),
            final(self).sender.open == old(self).sender.open,
            final(self).sender@ == old(self).heard(old(self).marker()),
    {
        let mut marker: Option<String> = None;
        std::mem::swap(&mut marker, &mut self.awaiting_summary);
        match marker {
            Some(round_id) => {
                self.tell(AiStreamDeliveryEvent::RoundMarker { round_id, awaiting_summary: false });
                assert(self.sender@ =~= old(self).heard(old(self).marker()));
            },
            None => {
                assert(self.sender@ =~= old(self).heard(old(self).marker()));
            },
        }
    }

    fn pass_on(&mut self, event: AiStreamEvent)
        requires
            old(self).phase == LoopPhase::Streaming,
            old(self).wf(),
            old(self).awaiting_summary is None,
            !Said::Stream(event@).ends_stream(),
        ensures
            final(self).streamed_on(*old(self), seq![Said::Stream(event@)]),
            final(self).round == old(self).round,
            final(self).assistant_content == old(self).assistant_content,
            final(self).assistant_thinking == old(self).assistant_thinking,
    {
        if !self.tell_from_loop(AiStreamDeliveryEvent::Stream(event)) {
            self.fail();
        }
    }

    /// The model sent `event`.
    pub fn on_stream_event(&mut self, event: AiStreamEvent)
        requires
            old(self).phase == LoopPhase::Streaming,
            old(self).wf(),
        ensures
            follows(old(self).phase, final(self).phase),
            final(self).sender.open == old(self).sender.open,
            match event {
                AiStreamEvent::Content(chunk) => {
                    &&& final(self).streamed_on(
                        *old(self),
                        old(self).marker().push(Said::Stream(Streamed::Content(chunk@))),
                    )
                    &&& final(self).round == (RoundStream {
                        content: final(self).round.content,
                        ..old(self).round
                    })
                    &&& final(self).round.content@ == old(self).round.content@ + chunk@
                    &&& final(self).assistant_content@ == old(self).assistant_content@ + chunk@
                    &&& final(self).assistant_thinking == old(self).assistant_thinking
                },
                AiStreamEvent::Thinking(chunk) => {
                    &&& final(self).streamed_on(
                        *old(self),
                        old(self).marker().push(Said::Stream(Streamed::Thinking(chunk@))),
                    )
                    &&& final(self).round == (RoundStream {
                        thinking: final(self).round.thinking,
                        ..old(self).round
                    })
                    &&& final(self).round.thinking@ == old(self).round.thinking@ + chunk@
                    &&& final(self).assistant_thinking@ == old(self).assistant_thinking@ + chunk@
                    &&& final(self).assistant_content == old(self).assistant_content
                },
                AiStreamEvent::ProviderResponsePart { provider_type, part } => {
                    let kept = provider_type@ == old(self).settings.provider_type@ || (
                    old(self).settings.uses_responses && provider_type@
                        == old(self).settings.response_state_key@);
                    &&& *final(self) == (ToolLoop { round: final(self).round, ..*old(self) })
                    &&& final(self).round == (RoundStream { parts: final(self).round.parts, ..old(self).round })
                    &&& final(self).round.parts@ == if kept {
                        old(self).round.parts@.push(part)
                    } else {
                        old(self).round.parts@
                    }
                },
                AiStreamEvent::ToolCall { id, name, arguments } => {
                    let here = final(self).round.call_ids@[id@];
                    &&& final(self).streamed_on(
                        *old(self),
                        old(self).marker().push(
                            Said::Stream(Streamed::ToolCall(here@, name@, arguments@)),
                        ),
                    )
                    &&& adopted(old(self).round, final(self).round, id@, here)
                    &&& final(self).round == (RoundStream {
                        call_ids: final(self).round.call_ids,
                        pending: final(self).round.pending,
                        ..old(self).round
                    })
                    &&& final(self).round.pending@ == old(self).round.pending@.insert(
                        here@,
                        AiToolCall { id: here, name, arguments },
                    )
                    &&& final(self).assistant_content == old(self).assistant_content
                    &&& final(self).assistant_thinking == old(self).assistant_thinking
                },
                AiStreamEvent::ToolCallComplete { id, name, arguments } => {
                    let here = final(self).round.call_ids@[id@];
                    let call = AiToolCall { id: here, name, arguments };
                    &&& final(self).streamed_on(
                        *old(self),
                        old(self).marker().push(
                            Said::Stream(Streamed::ToolCallComplete(here@, name@, arguments@)),
                        ),
                    )
                    &&& adopted(old(self).round, final(self).round, id@, here)
                    &&& final(self).round == (RoundStream {
                        call_ids: final(self).round.call_ids,
                        pending: final(self).round.pending,
                        completed: final(self).round.completed,
                        ..old(self).round
                    })
                    &&& final(self).round.pending@ == old(self).round.pending@.insert(here@, call)
                    &&& final(self).round.completed@ == completed_with(old(self).round.completed@, call)
                    &&& final(self).assistant_content == old(self).assistant_content
                    &&& final(self).assistant_thinking == old(self).assistant_thinking
                },
                AiStreamEvent::Usage { .. } => *final(self) == *old(self),
                AiStreamEvent::Done => {
                    &&& *final(self) == (ToolLoop {
                        phase: LoopPhase::StreamEnded,
                        awaiting_summary: None,
                        sender: final(self).sender,
                        ..*old(self)
                    })
                    &&& final(self).sender@ == old(self).heard(old(self).marker())
                },
                AiStreamEvent::Error(error) => {
                    &&& *final(self) == (ToolLoop {
                        phase: LoopPhase::Finished,
                        outcome: final(self).outcome,
                        awaiting_summary: None,
                        assistant_content: final(self).assistant_content,
                        sender: final(self).sender,
                        ..*old(self)
                    })
                    &&& final(self).assistant_content@ == error@
                    &&& final(self).ended(error@, AiAgentLoopStatus::Failed)
                    &&& final(self).sender@ == if old(self).settings.has_agent {
                        old(self).heard(old(self).marker())
                    } else {
                        old(self).heard(old(self).marker().push(Said::Stream(Streamed::Error(error@))))
                    }
                },
            },
    {
        match event {
            AiStreamEvent::Usage { .. } => {},
            AiStreamEvent::Content(chunk) => {
                self.clear_marker();
                self.round.content.append(chunk.as_str());
                self.assistant_content.append(chunk.as_str());
                let ghost said = Said::Stream(Streamed::Content(chunk@));
                self.pass_on(AiStreamEvent::Content(chunk));
                assert(self.sender@ =~= old(self).heard(old(self).marker().push(said)));
            },
            AiStreamEvent::Thinking(chunk) => {
                self.clear_marker();
                self.round.thinking.append(chunk.as_str());
                self.assistant_thinking.append(chunk.as_str());
                let ghost said = Said::Stream(Streamed::Thinking(chunk@));
                self.pass_on(AiStreamEvent::Thinking(chunk));
                assert(self.sender@ =~= old(self).heard(old(self).marker().push(said)));
            },
            AiStreamEvent::ProviderResponsePart { provider_type, part } => {
                let own = text::same(provider_type.as_str(), self.settings.provider_type.as_str());
                let state = self.settings.uses_responses && text::same(
                    provider_type.as_str(),
                    self.settings.response_state_key.as_str(),
                );
                if own || state {
                    self.round.parts.push(part);
                }
            },
            AiStreamEvent::ToolCall { id, name, arguments } => {
                let ghost provider_id = id@;
                let here = self.round.adopt(id);
                assert(self.round.call_ids@[provider_id] == here);
                self.clear_marker();
                self.round.pending.insert(
                    here.clone(),
                    AiToolCall { id: here.clone(), name: name.clone(), arguments: arguments.clone() },
                );
                let ghost said = Said::Stream(Streamed::ToolCall(here@, name@, arguments@));
                self.pass_on(AiStreamEvent::ToolCall { id: here, name, arguments });
                assert(self.sender@ =~= old(self).heard(old(self).marker().push(said)));
            },
            AiStreamEvent::ToolCallComplete { id, name, arguments } => {
                let ghost provider_id = id@;
                let here = self.round.adopt(id);
                assert(self.round.call_ids@[provider_id] == here);
                self.clear_marker();
                self.round.pending.insert(
                    here.clone(),
                    AiToolCall { id: here.clone(), name: name.clone(), arguments: arguments.clone() },
                );
                self.round.complete(
                    AiToolCall { id: here.clone(), name: name.clone(), arguments: arguments.clone() },
                );
                let ghost said = Said::Stream(Streamed::ToolCallComplete(here@, name@, arguments@));
                self.pass_on(AiStreamEvent::ToolCallComplete { id: here, name, arguments });
                assert(self.sender@ =~= old(self).heard(old(self).marker().push(said)));
            },
            AiStreamEvent::Done => {
                self.clear_marker();
                self.phase = LoopPhase::StreamEnded;
            },
            AiStreamEvent::Error(error) => {
                self.clear_marker();
                let ghost cleared = *self;
                self.assistant_content = error.clone();
                self.tell_from_loop(
                    AiStreamDeliveryEvent::Stream(AiStreamEvent::Error(error.clone())),
                );
                assert(!old(self).settings.has_agent ==> self.sender@ =~= old(self).heard(
                    old(self).marker().push(Said::Stream(Streamed::Error(error@))),
                ));
                self.end(error, AiAgentLoopStatus::Failed);
            },
        }
    }

    /// The model's stream closed without an end of its own.
    pub fn on_stream_closed(&mut self)
        requires
            old(self).phase == LoopPhase::Streaming,
        ensures
            follows(old(self).phase, final(self).phase),
            *final(self) == (ToolLoop { phase: LoopPhase::StreamEnded, ..*old(self) }),
    {
        self.phase = LoopPhase::StreamEnded;
    }
}

/// What a turned-down answer is taken to have asked for.
pub open spec fn retry_arguments(attempt: int) -> Json {
    Json::Object(
        seq![
            said_text("reason"@, "tool_use_disabled"@),
            ("retryAttempt"@, Json::Number(text::decimal(attempt as nat))),
        ],
    )
}

fn write_retry_arguments(attempt: usize) -> (res: String)
    ensures
        res@ == json::text_of(retry_arguments(attempt as int)),
{
    let mut members: Vec<(String, JsonTree)> = Vec::new();
    members.push(text_member("reason", "tool_use_disabled"));
    members.push(("retryAttempt".to_owned(), JsonTree::Number(text::number(attempt as u64))));
    assert(members_view(members@) =~= retry_arguments(attempt as int)->Object_0);
    json::write(&object(members))
}

/// What the model reads after its answer was turned down.
pub open spec fn retry_notice() -> Json {
    Json::Object(
        seq![
            said_text("kind"@, "tool_denied"@),
            said_text("reason"@, "Tool use is disabled."@),
            said_text(
                "detail"@,
                "Do not emit JSON that imitates a tool call or tool result. Answer conversationally without claiming app actions were performed."@,
            ),
        ],
    )
}

fn write_retry_notice() -> (res: String)
    ensures
        res@ == json::text_of(retry_notice()),
{
    let mut members: Vec<(String, JsonTree)> = Vec::new();
    members.push(text_member("kind", "tool_denied"));
    members.push(text_member("reason", "Tool use is disabled."));
    members.push(
        text_member(
            "detail",
            "Do not emit JSON that imitates a tool call or tool result. Answer conversationally without claiming app actions were performed.",
        ),
    );
    assert(members_view(members@) =~= retry_notice()->Object_0);
    json::write(&object(members))
}

/// The stand-in for an answer that was turned down: a call that asked for nothing.
pub open spec fn is_retry_call(message: AiChatMessage, settings_model: Seq<char>, tool: Seq<char>, name: Seq<char>, attempt: int, now_ms: i64) -> bool {
    &&& message.id@ == name + "-assistant"@
    &&& message.role == AiChatRole::Assistant
    &&& message.content@.len() == 0
    &&& message.timestamp_ms == now_ms
    &&& text::opt_view(message.model) == Some(settings_model)
    &&& message.context is None
    &&& !message.is_streaming
    &&& message.thinking_content is None
    &&& message.original_messages is None
    &&& message.provider_parts is None
    &&& message.tool_call_id is None
    &&& list_view(message.tool_calls@) == seq![
        call_record(name + "-tool"@, tool, json::text_of(retry_arguments(attempt))),
    ]
    &&& message.turn is None
    &&& message.transcript_ref is None
    &&& message.summary_ref is None
    &&& message.branches is None
    &&& message.suggestions@.len() == 0
}

/// The denial that follows such a stand-in.
pub open spec fn is_retry_denial(message: AiChatMessage, name: Seq<char>, now_ms: i64) -> bool {
    &&& message.id@ == name + "-tool-result"@
    &&& message.role == AiChatRole::Tool
    &&& message.content@ == json::text_of(retry_notice())
    &&& message.timestamp_ms == now_ms
    &&& message.model is None
    &&& message.context is None
    &&& !message.is_streaming
    &&& message.thinking_content is None
    &&& message.original_messages is None
    &&& message.provider_parts is None
    &&& text::opt_view(message.tool_call_id) == Some(name + "-tool"@)
    &&& message.tool_calls@.len() == 0
    &&& message.turn is None
    &&& message.transcript_ref is None
    &&& message.summary_ref is None
    &&& message.branches is None
    &&& message.suggestions@.len() == 0
}

/// The provider state of a message.
pub open spec fn carries_parts(message: AiChatMessage, key: Seq<char>, parts: Seq<Json>) -> bool {
    &&& message.provider_parts is Some
    &&& message.provider_parts->0.key@ == key
    &&& list_view(message.provider_parts->0.parts@) == parts
}

/// The model's answer in a round that calls tools.
pub open spec fn is_round_message(
    message: AiChatMessage,
    before: ToolLoop,
    response_round: Option<JsonTree>,
    now_ms: i64,
) -> bool {
    &&& message.id@ == "assistant-tool-round-"@ + text::decimal(before.round_index as nat)
    &&& message.role == AiChatRole::Assistant
    &&& message.content@ == before.round.content@
    &&& message.timestamp_ms == now_ms
    &&& text::opt_view(message.model) == Some(before.settings.model@)
    &&& message.context is None
    &&& !message.is_streaming
    &&& text::opt_view(message.thinking_content) == if before.round.thinking@.len() == 0 {
        None
    } else {
        Some(before.round.thinking@)
    }
    &&& message.original_messages is None
    &&& match response_round {
        Some(round) => carries_parts(message, before.settings.response_state_key@, seq![round@]),
        None => carries_parts(message, before.settings.provider_type@, list_view(before.round.parts@)),
    }
    &&& message.tool_call_id is None
    &&& list_view(message.tool_calls@) == call_records(before.round.completed@)
    &&& message.turn is None
    &&& message.transcript_ref is None
    &&& message.summary_ref is None
    &&& message.branches is None
    &&& message.suggestions@.len() == 0
}

impl ToolLoop {
    /// The report of the model's answer in this round.
    pub open spec fn round_report(self) -> Said {
        Said::AssistantRound {
            round_id: round_name(self.settings.assistant_id@, self.round_index),
            round: round_number(self.round_index),
            content_bytes: text::bytes_in(self.round.content@) as int,
            call_ids: call_ids_of(self.round.completed@),
            synthetic: false,
        }
    }

    /// Whether an answer that imitates tools is asked for again.
    pub open spec fn retries(self, imitates_tools: bool) -> bool {
        &&& self.round.completed@.len() == 0
        &&& !self.settings.policy_enabled
        &&& self.hard_deny_retries < self.settings.max_hard_deny_retries
        &&& imitates_tools
    }

    /// Whether this round may not run calls.
    pub open spec fn is_out_of_rounds(self) -> bool {
        self.summary_only || (!self.settings.has_agent && self.round_index >= self.settings.max_rounds)
    }

    fn turn_down_calls(&mut self, code: &str, message: &str)
        ensures
            *final(self) == (ToolLoop { sender: final(self).sender, ..*old(self) }),
            final(self).sender.open == old(self).sender.open,
            final(self).sender@ == old(self).heard(
                rejections(old(self).round.completed@, code@, message@),
            ),
    {
        let ghost all = rejections(self.round.completed@, code@, message@);
        let mut i: usize = 0;
        assert(self.sender@ =~= old(self).heard(all.take(0)));
        while i < self.round.completed.len()
            invariant
                i <= self.round.completed.len(),
                *self == (ToolLoop { sender: self.sender, ..*old(self) }),
                self.sender.open == old(self).sender.open,
                all == rejections(old(self).round.completed@, code@, message@),
                self.sender@ == old(self).heard(all.take(i as int)),
            decreases self.round.completed.len() - i,
        {
            let ghost prior = *self;
            let call = self.round.completed[i].duplicate();
            let refused = rejected_ai_tool_result(call.id.clone(), call.name.clone(), code, message);
            self.tell(
                AiStreamDeliveryEvent::ToolStatus {
                    call_id: call.id,
                    name: call.name,
                    status: ToolStatus::Rejected,
                    envelope: Some(refused.envelope),
                    risk: None,
                    summary: Some(message.to_owned()),
                },
            );
            assert(all.take(i + 1) =~= all.take(i as int).push(all[i as int]));
            i += 1;
            assert(self.sender@ =~= old(self).heard(all.take(i as int)));
        }
        assert(all.take(i as int) =~= all);
    }

    fn advance(&mut self)
        requires
            old(self).round_index < usize::MAX,
        ensures
            *final(self) == (ToolLoop {
                round_index: (old(self).round_index + 1) as usize,
                phase: LoopPhase::RoundStart,
                ..*old(self)
            }),
    {
        self.round_index += 1;
        self.phase = LoopPhase::RoundStart;
    }

    fn report_round(&mut self)
        ensures
            *final(self) == (ToolLoop { sender: final(self).sender, ..*old(self) }),
            final(self).sender.open == old(self).sender.open,
            final(self).sender@ == old(self).heard(seq![old(self).round_report()]),
    {
        let number: usize = self.round_index.saturating_add(1);
        let name = text::joined(
            text::joined(self.settings.assistant_id.as_str(), "-round-").as_str(),
            text::number(number as u64).as_str(),
        );
        self.tell(
            AiStreamDeliveryEvent::AssistantRound {
                round_id: name,
                round: number,
                content_bytes: text::byte_len(self.round.content.as_str()),
                call_ids: ids_of(&self.round.completed),
                synthetic: false,
            },
        );
    }

    /// Turns an answer down that imitates tool calls, and asks again.
    fn retry_without_tools(&mut self, now_ms: i64)
        requires
            old(self).hard_deny_retries < usize::MAX,
            old(self).round_index < usize::MAX,
        ensures
            ({
                let attempt = old(self).hard_deny_retries + 1;
                let name = retry_name(old(self).settings.assistant_id@, attempt);
                &&& *final(self) == (ToolLoop {
                    phase: LoopPhase::RoundStart,
                    round_index: (old(self).round_index + 1) as usize,
                    hard_deny_retries: attempt as usize,
                    history: final(self).history,
                    sender: final(self).sender,
                    ..*old(self)
                })
                &&& final(self).sender.open == old(self).sender.open
                &&& final(self).sender@ == old(self).heard(old(self).retry_reports())
                &&& final(self).history@.len() == old(self).history@.len() + 2
                &&& final(self).history@.take(old(self).history@.len() as int) == old(self).history@
                &&& is_retry_call(
                    final(self).history@[old(self).history@.len() as int],
                    old(self).settings.model@,
                    old(self).settings.retry_tool_name@,
                    name,
                    attempt,
                    now_ms,
                )
                &&& is_retry_denial(final(self).history@[old(self).history@.len() as int + 1], name, now_ms)
            }),
    {
        let attempt: usize = self.hard_deny_retries + 1;
        let name = text::joined(
            text::joined(self.settings.assistant_id.as_str(), "-hard-deny-").as_str(),
            text::number(attempt as u64).as_str(),
        );
        let call_id = text::joined(name.as_str(), "-tool");
        self.tell(
            AiStreamDeliveryEvent::Guardrail {
                code: "tool-disabled-hard-deny".to_owned(),
                message: "Tool calling is disabled, so the assistant response that looked like a tool transcript was rejected and retried.".to_owned(),
                content: Some(self.round.content.clone()),
            },
        );
        let mut ids: Vec<String> = Vec::new();
        ids.push(call_id.clone());
        assert(text::seq_view(ids@) =~= seq![call_id@]);
        self.tell(
            AiStreamDeliveryEvent::AssistantRound {
                round_id: name.clone(),
                round: attempt,
                content_bytes: text::byte_len(self.round.content.as_str()),
                call_ids: ids,
                synthetic: true,
            },
        );
        let refused = rejected_ai_tool_result(
            call_id.clone(),
            self.settings.retry_tool_name.clone(),
            "tool_use_disabled",
            "Tool use is disabled.",
        );
        self.tell(
            AiStreamDeliveryEvent::ToolStatus {
                call_id: call_id.clone(),
                name: self.settings.retry_tool_name.clone(),
                status: ToolStatus::Rejected,
                envelope: Some(refused.envelope),
                risk: Some("write".to_owned()),
                summary: Some("Tool use is disabled.".to_owned()),
            },
        );
        assert(self.sender@ =~= old(self).heard(old(self).retry_reports()));
        let arguments = write_retry_arguments(attempt);
        let mut calls: Vec<JsonTree> = Vec::new();
        calls.push(
            record_of(call_id.as_str(), self.settings.retry_tool_name.as_str(), arguments.as_str()),
        );
        assert(list_view(calls@) =~= seq![
            call_record(call_id@, self.settings.retry_tool_name@, arguments@),
        ]);
        let mut stand_in = AiChatMessage::plain(
            text::joined(name.as_str(), "-assistant"),
            AiChatRole::Assistant,
            String::new(),
            now_ms,
        );
        stand_in.model = Some(self.settings.model.clone());
        stand_in.tool_calls = calls;
        let mut denial = AiChatMessage::plain(
            text::joined(name.as_str(), "-tool-result"),
            AiChatRole::Tool,
            write_retry_notice(),
            now_ms,
        );
        denial.tool_call_id = Some(call_id);
        self.history.push(stand_in);
        self.history.push(denial);
        assert(self.history@.take(old(self).history@.len() as int) =~= old(self).history@);
        self.hard_deny_retries = attempt;
        self.advance();
    }

    /// What the window hears of an answer that is turned down.
    pub open spec fn retry_reports(self) -> Seq<Said> {
        let attempt = self.hard_deny_retries + 1;
        let name = retry_name(self.settings.assistant_id@, attempt);
        seq![
            Said::Guardrail {
                code: "tool-disabled-hard-deny"@,
                message: "Tool calling is disabled, so the assistant response that looked like a tool transcript was rejected and retried."@,
                content: Some(self.round.content@),
            },
            Said::AssistantRound {
                round_id: name,
                round: attempt,
                content_bytes: text::bytes_in(self.round.content@) as int,
                call_ids: seq![name + "-tool"@],
                synthetic: true,
            },
            Said::ToolStatus {
                call_id: name + "-tool"@,
                name: self.settings.retry_tool_name@,
                status: ToolStatus::Rejected,
                envelope: Some(refusal_report("tool_use_disabled"@, "Tool use is disabled."@)),
                risk: Some("write"@),
                summary: Some("Tool use is disabled."@),
            },
        ]
    }

    fn record_answer(&mut self, response_round: Option<JsonTree>, now_ms: i64)
        ensures
            *final(self) == (ToolLoop {
                phase: if !old(self).settings.has_agent {
                    LoopPhase::AwaitFinish
                } else if old(self).settings.is_child {
                    LoopPhase::AwaitCompletion
                } else {
                    LoopPhase::AwaitChildren
                },
                history: final(self).history,
                sender: final(self).sender,
                ..*old(self)
            }),
            final(self).sender.open == old(self).sender.open,
            final(self).history@.len() == old(self).history@.len() + 1,
            final(self).history@.drop_last() == old(self).history@,
            match response_round {
                Some(round) => {
                    &&& (AiChatMessage {
                        provider_parts: None,
                        ..final(self).history@.last()
                    }).is_plain(
                        final(self).history@.last().id@,
                        AiChatRole::Assistant,
                        old(self).round.content@,
                        now_ms,
                    )
                    &&& carries_parts(
                        final(self).history@.last(),
                        old(self).settings.response_state_key@,
                        seq![round@],
                    )
                    &&& final(self).sender@ == old(self).heard(
                        seq![
                            Said::Stream(
                                Streamed::ProviderResponsePart(
                                    old(self).settings.response_state_key@,
                                    round@,
                                ),
                            ),
                        ],
                    )
                },
                None => {
                    &&& final(self).history@.last().is_plain(
                        final(self).history@.last().id@,
                        AiChatRole::Assistant,
                        old(self).round.content@,
                        now_ms,
                    )
                    &&& final(self).sender@ == old(self).sender@
                },
            },
    {
        let mut message = agent_chat_message(
            AiChatRole::Assistant,
            self.round.content.clone(),
            now_ms,
        );
        match response_round {
            Some(round) => {
                let mut parts: Vec<JsonTree> = Vec::new();
                parts.push(round.duplicate());
                assert(list_view(parts@) =~= seq![round@]);
                message.provider_parts = Some(
                    ProviderParts { key: self.settings.response_state_key.clone(), parts },
                );
                self.tell_from_loop(
                    AiStreamDeliveryEvent::Stream(
                        AiStreamEvent::ProviderResponsePart {
                            provider_type: self.settings.response_state_key.clone(),
                            part: round,
                        },
                    ),
                );
            },
            None => {},
        }
        self.history.push(message);
        assert(self.history@.drop_last() =~= old(self).history@);
        self.phase = if !self.settings.has_agent {
            LoopPhase::AwaitFinish
        } else if self.settings.is_child {
            LoopPhase::AwaitCompletion
        } else {
            LoopPhase::AwaitChildren
        };
    }

    fn begin_calls(&mut self, response_round: Option<JsonTree>, now_ms: i64)
        ensures
            *final(self) == (ToolLoop {
                phase: LoopPhase::Batching,
                history: final(self).history,
                calls: final(self).calls,
                mixed_questions: mixes_questions(old(self).round.completed@),
                pause_requested: false,
                round_results: final(self).round_results,
                ..*old(self)
            }),
            final(self).round_results@.len() == 0,
            final(self).calls@ == old(self).round.completed@,
            final(self).history@.len() == old(self).history@.len() + 1,
            final(self).history@.drop_last() == old(self).history@,
            is_round_message(final(self).history@.last(), *old(self), response_round, now_ms),
    {
        let mut message = AiChatMessage::plain(
            text::joined("assistant-tool-round-", text::number(self.round_index as u64).as_str()),
            AiChatRole::Assistant,
            self.round.content.clone(),
            now_ms,
        );
        message.model = Some(self.settings.model.clone());
        message.thinking_content = if self.round.thinking.as_str().is_empty() {
            None
        } else {
            Some(self.round.thinking.clone())
        };
        message.tool_calls = records_of(&self.round.completed);
        match response_round {
            Some(round) => {
                let mut parts: Vec<JsonTree> = Vec::new();
                parts.push(round);
                assert(list_view(parts@) =~= seq![round@]);
                message.provider_parts = Some(
                    ProviderParts { key: self.settings.response_state_key.clone(), parts },
                );
            },
            None => {
                message.provider_parts = Some(
                    ProviderParts {
                        key: self.settings.provider_type.clone(),
                        parts: duplicate_list(&self.round.parts),
                    },
                );
            },
        }
        self.history.push(message);
        assert(self.history@.drop_last() =~= old(self).history@);
        let mut calls: Vec<AiToolCall> = Vec::new();
        let mut i: usize = 0;
        while i < self.round.completed.len()
            invariant
                i <= self.round.completed.len(),
                calls@ == self.round.completed@.take(i as int),
            decreases self.round.completed.len() - i,
        {
            calls.push(self.round.completed[i].duplicate());
            i += 1;
            assert(calls@ =~= self.round.completed@.take(i as int));
        }
        assert(calls@ =~= self.round.completed@);
        self.mixed_questions = asks_among_others(&self.round.completed);
        self.calls = calls;
        self.pause_requested = false;
        self.round_results = Vec::new();
        self.phase = LoopPhase::Batching;
    }
}

impl ToolLoop {
    /// The model has answered. `imitates_tools` says whether the answer reads like a tool
    /// transcript, `response_round` is the provider's own state of the round.
    pub fn conclude_stream(
        &mut self,
        imitates_tools: bool,
        response_round: Option<JsonTree>,
        now_ms: i64,
    ) -> (res: RoundTurn)
        requires
            old(self).phase == LoopPhase::StreamEnded,
            old(self).round_index < usize::MAX,
        ensures
            follows(old(self).phase, final(self).phase),
            final(self).sender.open == old(self).sender.open,
            old(self).retries(imitates_tools) ==> {
                let attempt = old(self).hard_deny_retries + 1;
                let name = retry_name(old(self).settings.assistant_id@, attempt);
                &&& res == RoundTurn::Retry
                &&& *final(self) == (ToolLoop {
                    phase: LoopPhase::RoundStart,
                    round_index: (old(self).round_index + 1) as usize,
                    hard_deny_retries: attempt as usize,
                    history: final(self).history,
                    sender: final(self).sender,
                    ..*old(self)
                })
                &&& final(self).sender@ == old(self).heard(
                    seq![old(self).round_report()] + old(self).retry_reports(),
                )
                &&& final(self).history@.len() == old(self).history@.len() + 2
                &&& final(self).history@.take(old(self).history@.len() as int) == old(self).history@
                &&& is_retry_call(
                    final(self).history@[old(self).history@.len() as int],
                    old(self).settings.model@,
                    old(self).settings.retry_tool_name@,
                    name,
                    attempt,
                    now_ms,
                )
                &&& is_retry_denial(
                    final(self).history@[old(self).history@.len() as int + 1],
                    name,
                    now_ms,
                )
            },
            old(self).round.completed@.len() == 0 && !old(self).retries(imitates_tools) ==> {
                &&& res == (RoundTurn::Answered {
                    refund: old(self).settings.has_agent && !old(self).summary_only,
                })
                &&& *final(self) == (ToolLoop {
                    phase: if !old(self).settings.has_agent {
                        LoopPhase::AwaitFinish
                    } else if old(self).settings.is_child {
                        LoopPhase::AwaitCompletion
                    } else {
                        LoopPhase::AwaitChildren
                    },
                    history: final(self).history,
                    sender: final(self).sender,
                    ..*old(self)
                })
                &&& final(self).history@.len() == old(self).history@.len() + 1
                &&& final(self).history@.drop_last() == old(self).history@
                &&& (AiChatMessage { provider_parts: None, ..final(self).history@.last() }).is_plain(
                    final(self).history@.last().id@,
                    AiChatRole::Assistant,
                    old(self).round.content@,
                    now_ms,
                )
                &&& match response_round {
                    Some(round) => {
                        &&& carries_parts(
                            final(self).history@.last(),
                            old(self).settings.response_state_key@,
                            seq![round@],
                        )
                        &&& final(self).sender@ == old(self).heard(
                            seq![
                                old(self).round_report(),
                                Said::Stream(
                                    Streamed::ProviderResponsePart(
                                        old(self).settings.response_state_key@,
                                        round@,
                                    ),
                                ),
                            ],
                        )
                    },
                    None => {
                        &&& final(self).history@.last().provider_parts is None
                        &&& final(self).sender@ == old(self).heard(seq![old(self).round_report()])
                    },
                }
            },
            old(self).round.completed@.len() > AI_TOOL_CALLS_PER_ROUND_SAFETY_LIMIT ==> {
                let message = "Too many tool calls in one round (max 16)."@;
                &&& res == RoundTurn::Rejected
                &&& *final(self) == (ToolLoop {
                    phase: LoopPhase::Finished,
                    outcome: final(self).outcome,
                    sender: final(self).sender,
                    ..*old(self)
                })
                &&& final(self).ended(old(self).assistant_content@, AiAgentLoopStatus::Failed)
                &&& final(self).sender@ == old(self).heard(
                    seq![old(self).round_report()] + rejections(
                        old(self).round.completed@,
                        "too_many_tool_calls"@,
                        message,
                    ) + old(self).closing_error(message),
                )
            },
            0 < old(self).round.completed@.len() <= AI_TOOL_CALLS_PER_ROUND_SAFETY_LIMIT
                && old(self).is_out_of_rounds() ==> {
                let message = "Tool use stopped because the conversation reached the configured tool-round limit."@;
                &&& res == RoundTurn::Rejected
                &&& *final(self) == (ToolLoop {
                    phase: LoopPhase::Finished,
                    outcome: final(self).outcome,
                    sender: final(self).sender,
                    ..*old(self)
                })
                &&& final(self).ended(old(self).assistant_content@, AiAgentLoopStatus::Failed)
                &&& final(self).sender@ == old(self).heard(
                    seq![
                        old(self).round_report(),
                        Said::Guardrail { code: "tool-budget-limit"@, message, content: None },
                    ] + rejections(old(self).round.completed@, "tool_budget_limit"@, message)
                        + old(self).closing_error(
                        "Tool execution stopped after reaching the maximum tool rounds."@,
                    ),
                )
            },
            0 < old(self).round.completed@.len() <= AI_TOOL_CALLS_PER_ROUND_SAFETY_LIMIT
                && !old(self).is_out_of_rounds() ==> {
                &&& res == RoundTurn::Execute
                &&& *final(self) == (ToolLoop {
                    phase: LoopPhase::Batching,
                    history: final(self).history,
                    calls: final(self).calls,
                    mixed_questions: mixes_questions(old(self).round.completed@),
                    pause_requested: false,
                    round_results: final(self).round_results,
                    sender: final(self).sender,
                    ..*old(self)
                })
                &&& final(self).round_results@.len() == 0
                &&& final(self).sender@ == old(self).heard(seq![old(self).round_report()])
                &&& final(self).calls@ == old(self).round.completed@
                &&& final(self).history@.len() == old(self).history@.len() + 1
                &&& final(self).history@.drop_last() == old(self).history@
                &&& is_round_message(final(self).history@.last(), *old(self), response_round, now_ms)
            },
    {
        self.report_round();
        let ghost reported = *self;
        if self.round.completed.len() == 0 {
            if !self.settings.policy_enabled && self.hard_deny_retries
                < self.settings.max_hard_deny_retries && imitates_tools {
                self.retry_without_tools(now_ms);
                assert(self.sender@ =~= old(self).heard(
                    seq![old(self).round_report()] + old(self).retry_reports(),
                ));
                return RoundTurn::Retry;
            }
            let refund = self.settings.has_agent && !self.summary_only;
            self.record_answer(response_round, now_ms);
            proof {
                if response_round is Some {
                    assert(self.sender@ =~= old(self).heard(
                        seq![
                            old(self).round_report(),
                            Said::Stream(
                                Streamed::ProviderResponsePart(
                                    old(self).settings.response_state_key@,
                                    response_round->0@,
                                ),
                            ),
                        ],
                    ));
                }
            }
            return RoundTurn::Answered { refund };
        }
        if self.round.completed.len() > AI_TOOL_CALLS_PER_ROUND_SAFETY_LIMIT {
            self.turn_down_calls(
                "too_many_tool_calls",
                "Too many tool calls in one round (max 16).",
            );
            self.tell_from_loop(
                AiStreamDeliveryEvent::Stream(
                    AiStreamEvent::Error("Too many tool calls in one round (max 16).".to_owned()),
                ),
            );
            assert(self.sender@ =~= old(self).heard(
                seq![old(self).round_report()] + rejections(
                    old(self).round.completed@,
                    "too_many_tool_calls"@,
                    "Too many tool calls in one round (max 16)."@,
                ) + old(self).closing_error("Too many tool calls in one round (max 16)."@),
            ));
            self.fail();
            return RoundTurn::Rejected;
        }
        if self.summary_only || (!self.settings.has_agent && self.round_index
            >= self.settings.max_rounds) {
            self.tell(
                AiStreamDeliveryEvent::Guardrail {
                    code: "tool-budget-limit".to_owned(),
                    message: "Tool use stopped because the conversation reached the configured tool-round limit.".to_owned(),
                    content: None,
                },
            );
            self.turn_down_calls(
                "tool_budget_limit",
                "Tool use stopped because the conversation reached the configured tool-round limit.",
            );
            self.tell_from_loop(
                AiStreamDeliveryEvent::Stream(
                    AiStreamEvent::Error(
                        "Tool execution stopped after reaching the maximum tool rounds.".to_owned(),
                    ),
                ),
            );
            proof {
                let message = "Tool use stopped because the conversation reached the configured tool-round limit."@;
                assert(self.sender@ =~= old(self).heard(
                    seq![
                        old(self).round_report(),
                        Said::Guardrail { code: "tool-budget-limit"@, message, content: None },
                    ] + rejections(old(self).round.completed@, "tool_budget_limit"@, message)
                        + old(self).closing_error(
                        "Tool execution stopped after reaching the maximum tool rounds."@,
                    ),
                ));
            }
            self.fail();
            return RoundTurn::Rejected;
        }
        self.begin_calls(response_round, now_ms);
        RoundTurn::Execute
    }

    /// The error that closes the stream, where no agent's owner announces it.
    pub open spec fn closing_error(self, message: Seq<char>) -> Seq<Said> {
        if self.settings.has_agent {
            Seq::empty()
        } else {
            seq![Said::Stream(Streamed::Error(message))]
        }
    }

    /// Whether children of the run are still at work. While they are, the run waits for them and
    /// takes another round.
    pub fn on_children(&mut self, active: bool)
        requires
            old(self).phase == LoopPhase::AwaitChildren,
            old(self).round_index < usize::MAX,
        ensures
            follows(old(self).phase, final(self).phase),
            active ==> *final(self) == (ToolLoop {
                round_index: (old(self).round_index + 1) as usize,
                phase: LoopPhase::RoundStart,
                ..*old(self)
            }),
            !active ==> *final(self) == (ToolLoop { phase: LoopPhase::AwaitCompletion, ..*old(self) }),
    {
        if active {
            self.advance();
        } else {
            self.phase = LoopPhase::AwaitCompletion;
        }
    }

    /// The runtime answered the announcement of the run's end. Unread messages open another round.
    pub fn on_completion(&mut self, reply: CompletionReply)
        requires
            old(self).phase == LoopPhase::AwaitCompletion,
            old(self).round_index < usize::MAX,
        ensures
            follows(old(self).phase, final(self).phase),
            reply == CompletionReply::Ready ==> *final(self) == (ToolLoop {
                phase: LoopPhase::AwaitFinish,
                ..*old(self)
            }),
            reply == CompletionReply::PendingMessages ==> *final(self) == (ToolLoop {
                round_index: (old(self).round_index + 1) as usize,
                phase: LoopPhase::RoundStart,
                ..*old(self)
            }),
            reply == CompletionReply::Refused ==> final(self).only_ended(*old(self)) && final(self).ended(
                old(self).assistant_content@,
                AiAgentLoopStatus::Failed,
            ),
    {
        match reply {
            CompletionReply::Ready => {
                self.phase = LoopPhase::AwaitFinish;
            },
            CompletionReply::PendingMessages => {
                self.advance();
            },
            CompletionReply::Refused => {
                self.fail();
            },
        }
    }

    /// Ends the run with the answer that was recorded.
    pub fn finish(&mut self, stalled: bool)
        requires
            old(self).phase == LoopPhase::AwaitFinish,
        ensures
            follows(old(self).phase, final(self).phase),
            *final(self) == (ToolLoop {
                phase: LoopPhase::Finished,
                outcome: final(self).outcome,
                notes: final(self).notes,
                sender: final(self).sender,
                ..*old(self)
            }),
            final(self).notes@ == old(self).notes@.and(seq![Noted::NeedsContinuation(stalled)]),
            final(self).ended(
                old(self).assistant_content@,
                if stalled {
                    AiAgentLoopStatus::Stalled
                } else {
                    AiAgentLoopStatus::Completed
                },
            ),
            final(self).sender@ == old(self).heard(
                if old(self).settings.has_agent {
                    seq![Said::Checkpoint(final(self).notes@)]
                } else {
                    seq![Said::Checkpoint(final(self).notes@), Said::Stream(Streamed::Done)]
                },
            ),
    {
        self.notes.note(NoteStep::NeedsContinuation(stalled));
        self.tell_notes();
        self.tell_from_loop(AiStreamDeliveryEvent::Stream(AiStreamEvent::Done));
        assert(self.sender@ =~= old(self).heard(
            if old(self).settings.has_agent {
                seq![Said::Checkpoint(self.notes@)]
            } else {
                seq![Said::Checkpoint(self.notes@), Said::Stream(Streamed::Done)]
            },
        ));
        let content = self.assistant_content.clone();
        self.end(
            content,
            if stalled {
                AiAgentLoopStatus::Stalled
            } else {
                AiAgentLoopStatus::Completed
            },
        );
    }
}

} // verus!
