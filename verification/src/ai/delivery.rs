//! What the model loop tells the window that shows it.

use vstd::prelude::*;

use crate::ai::notes::{Notes, TaskNotes};
use crate::ai::results::{candidates_view, AiToolEnvelope, Candidate, Reported};
use crate::json::{Json, JsonTree};
use crate::text;

verus! {

/// What a model streams.
pub enum AiStreamEvent {
    Content(String),
    Thinking(String),
    ToolCall { id: String, name: String, arguments: String },
    ToolCallComplete { id: String, name: String, arguments: String },
    ProviderResponsePart { provider_type: String, part: JsonTree },
    Usage { input_tokens: Option<u64>, output_tokens: Option<u64> },
    Done,
    Error(String),
}

/// What a tool call has come to.
#[derive(Clone, Copy, PartialEq, Eq, Structural, Debug)]
pub enum ToolStatus {
    Rejected,
    Approved,
    Running,
    Completed,
    Error,
}

/// What a round's summary says of one call.
pub struct RoundResult {
    pub tool_name: String,
    pub success: bool,
    pub summary: String,
}

/// What the results of a round say.
pub open spec fn results_view(results: Seq<RoundResult>) -> Seq<(Seq<char>, bool, Seq<char>)> {
    results.map_values(
        |result: RoundResult| (result.tool_name@, result.success, result.summary@),
    )
}

/// One delivery to the window.
pub enum AiStreamDeliveryEvent {
    Stream(AiStreamEvent),
    /// The working notes of the task changed.
    Checkpoint(TaskNotes),
    /// A model request is about to start.
    Request {
        budget_level: u8,
        logical_round: usize,
        message_count: usize,
        tool_count: usize,
        hard_deny_retries: usize,
        tool_choice: String,
    },
    /// What the prompt of a request takes up. `message_id` is the last message from the user.
    PromptUsage {
        message_id: Option<String>,
        provider: String,
        model: String,
        prompt_tokens: usize,
        context_window: usize,
    },
    /// A round's marker was set or cleared.
    RoundMarker { round_id: String, awaiting_summary: bool },
    AssistantRound {
        round_id: String,
        round: usize,
        content_bytes: usize,
        call_ids: Vec<String>,
        synthetic: bool,
    },
    Guardrail { code: String, message: String, content: Option<String> },
    ToolStatus {
        call_id: String,
        name: String,
        status: ToolStatus,
        envelope: Option<AiToolEnvelope>,
        risk: Option<String>,
        summary: Option<String>,
    },
    /// The user is asked for consent. Secrets have been taken out of the arguments and the reason.
    ToolApprovalRequested { call_id: String, name: String, arguments: String, action_risk: String, reason: String },
    /// The user is asked to choose. Secrets have been taken out of the arguments.
    ToolCandidateSelectionRequested { call_id: String, name: String, arguments: String, candidates: Vec<Candidate> },
    /// What a round came to. `text` says it in words, made from the results.
    RoundSummary { round_id: String, results: Vec<RoundResult>, text: String, metadata: JsonTree },
}

/// A delivery together with the stream it belongs to.
pub struct AiStreamDelivery {
    pub generation: u64,
    pub conversation_id: String,
    pub assistant_id: String,
    pub event: AiStreamDeliveryEvent,
}

/// The sending end of a window's delivery queue.
pub struct AiStreamDeliverySender {
    /// Whether the window still listens.
    pub open: bool,
    pub sent: Vec<AiStreamDelivery>,
}

/// What a streamed event says.
pub enum Streamed {
    Content(Seq<char>),
    Thinking(Seq<char>),
    ToolCall(Seq<char>, Seq<char>, Seq<char>),
    ToolCallComplete(Seq<char>, Seq<char>, Seq<char>),
    ProviderResponsePart(Seq<char>, Json),
    Usage(Option<u64>, Option<u64>),
    Done,
    Error(Seq<char>),
}

/// What a delivery says.
pub enum Said {
    Stream(Streamed),
    Checkpoint(Notes),
    Request {
        budget_level: u8,
        logical_round: int,
        message_count: int,
        tool_count: int,
        hard_deny_retries: int,
        tool_choice: Seq<char>,
    },
    PromptUsage {
        message_id: Option<Seq<char>>,
        provider: Seq<char>,
        model: Seq<char>,
        prompt_tokens: int,
        context_window: int,
    },
    RoundMarker { round_id: Seq<char>, awaiting_summary: bool },
    AssistantRound {
        round_id: Seq<char>,
        round: int,
        content_bytes: int,
        call_ids: Seq<Seq<char>>,
        synthetic: bool,
    },
    Guardrail { code: Seq<char>, message: Seq<char>, content: Option<Seq<char>> },
    ToolStatus {
        call_id: Seq<char>,
        name: Seq<char>,
        status: ToolStatus,
        envelope: Option<Reported>,
        risk: Option<Seq<char>>,
        summary: Option<Seq<char>>,
    },
    ToolApprovalRequested {
        call_id: Seq<char>,
        name: Seq<char>,
        arguments: Seq<char>,
        action_risk: Seq<char>,
        reason: Seq<char>,
    },
    ToolCandidateSelectionRequested {
        call_id: Seq<char>,
        name: Seq<char>,
        arguments: Seq<char>,
        candidates: Seq<(int, Seq<char>, Seq<char>)>,
    },
    RoundSummary {
        round_id: Seq<char>,
        results: Seq<(Seq<char>, bool, Seq<char>)>,
        text: Seq<char>,
        metadata: Json,
    },
}

/// A delivery as the window reads it.
pub struct Delivered {
    pub generation: u64,
    pub conversation_id: Seq<char>,
    pub assistant_id: Seq<char>,
    pub said: Said,
}

impl AiStreamEvent {
    pub open spec fn view(self) -> Streamed {
        match self {
            AiStreamEvent::Content(chunk) => Streamed::Content(chunk@),
            AiStreamEvent::Thinking(chunk) => Streamed::Thinking(chunk@),
            AiStreamEvent::ToolCall { id, name, arguments } => Streamed::ToolCall(
                id@,
                name@,
                arguments@,
            ),
            AiStreamEvent::ToolCallComplete { id, name, arguments } => Streamed::ToolCallComplete(
                id@,
                name@,
                arguments@,
            ),
            AiStreamEvent::ProviderResponsePart { provider_type, part } => Streamed::ProviderResponsePart(
                provider_type@,
                part@,
            ),
            AiStreamEvent::Usage { input_tokens, output_tokens } => Streamed::Usage(
                input_tokens,
                output_tokens,
            ),
            AiStreamEvent::Done => Streamed::Done,
            AiStreamEvent::Error(error) => Streamed::Error(error@),
        }
    }
}

impl AiStreamDeliveryEvent {
    pub open spec fn view(self) -> Said {
        match self {
            AiStreamDeliveryEvent::Stream(event) => Said::Stream(event@),
            AiStreamDeliveryEvent::Checkpoint(notes) => Said::Checkpoint(notes@),
            AiStreamDeliveryEvent::Request {
                budget_level,
                logical_round,
                message_count,
                tool_count,
                hard_deny_retries,
                tool_choice,
            } => Said::Request {
                budget_level,
                logical_round: logical_round as int,
                message_count: message_count as int,
                tool_count: tool_count as int,
                hard_deny_retries: hard_deny_retries as int,
                tool_choice: tool_choice@,
            },
            AiStreamDeliveryEvent::PromptUsage {
                message_id,
                provider,
                model,
                prompt_tokens,
                context_window,
            } => Said::PromptUsage {
                message_id: text::opt_view(message_id),
                provider: provider@,
                model: model@,
                prompt_tokens: prompt_tokens as int,
                context_window: context_window as int,
            },
            AiStreamDeliveryEvent::RoundMarker { round_id, awaiting_summary } => Said::RoundMarker {
                round_id: round_id@,
                awaiting_summary,
            },
            AiStreamDeliveryEvent::AssistantRound {
                round_id,
                round,
                content_bytes,
                call_ids,
                synthetic,
            } => Said::AssistantRound {
                round_id: round_id@,
                round: round as int,
                content_bytes: content_bytes as int,
                call_ids: text::seq_view(call_ids@),
                synthetic,
            },
            AiStreamDeliveryEvent::Guardrail { code, message, content } => Said::Guardrail {
                code: code@,
                message: message@,
                content: text::opt_view(content),
            },
            AiStreamDeliveryEvent::ToolStatus { call_id, name, status, envelope, risk, summary } => Said::ToolStatus {
                call_id: call_id@,
                name: name@,
                status,
                envelope: match envelope {
                    Some(envelope) => Some(envelope@),
                    None => None,
                },
                risk: text::opt_view(risk),
                summary: text::opt_view(summary),
            },
            AiStreamDeliveryEvent::ToolApprovalRequested {
                call_id,
                name,
                arguments,
                action_risk,
                reason,
            } => Said::ToolApprovalRequested {
                call_id: call_id@,
                name: name@,
                arguments: arguments@,
                action_risk: action_risk@,
                reason: reason@,
            },
            AiStreamDeliveryEvent::ToolCandidateSelectionRequested {
                call_id,
                name,
                arguments,
                candidates,
            } => Said::ToolCandidateSelectionRequested {
                call_id: call_id@,
                name: name@,
                arguments: arguments@,
                candidates: candidates_view(candidates@),
            },
            AiStreamDeliveryEvent::RoundSummary { round_id, results, text, metadata } => Said::RoundSummary {
                round_id: round_id@,
                results: results_view(results@),
                text: text@,
                metadata: metadata@,
            },
        }
    }

    /// Whether the delivery ends the stream.
    pub open spec fn is_terminal(self) -> bool {
        self@.ends_stream()
    }
}

impl Said {
    /// Whether this ends the stream.
    pub open spec fn ends_stream(self) -> bool {
        match self {
            Said::Stream(Streamed::Done) => true,
            Said::Stream(Streamed::Error(_)) => true,
            _ => false,
        }
    }
}

impl AiStreamDelivery {
    pub open spec fn view(self) -> Delivered {
        Delivered {
            generation: self.generation,
            conversation_id: self.conversation_id@,
            assistant_id: self.assistant_id@,
            said: self.event@,
        }
    }
}

impl AiStreamDeliverySender {
    pub open spec fn view(self) -> Seq<Delivered> {
        self.sent@.map_values(|delivery: AiStreamDelivery| delivery@)
    }

    /// Hands a delivery to the window; `false` where it no longer listens.
    pub fn send(&mut self, delivery: AiStreamDelivery) -> (res: bool)
        ensures
            res == old(self).open,
            final(self).open == old(self).open,
            final(self)@ == if old(self).open {
                old(self)@.push(delivery@)
            } else {
                old(self)@
            },
    {
        if self.open {
            let ghost before = self.sent@;
            self.sent.push(delivery);
            assert(self@ =~= before.map_values(|delivery: AiStreamDelivery| delivery@).push(delivery@));
            true
        } else {
            false
        }
    }
}

/// Sends one delivery of the model loop. With `defer_terminal` the end of the stream is held back:
/// the owner of the run announces it.
pub fn send_ai_loop_delivery(
    defer_terminal: bool,
    sender: &mut AiStreamDeliverySender,
    generation: u64,
    conversation_id: &str,
    assistant_id: &str,
    event: AiStreamDeliveryEvent,
) -> (res: Result<(), ()>)
    ensures
        final(sender).open == old(sender).open,
        defer_terminal && event@.ends_stream() ==> res is Ok && *final(sender) == *old(sender),
        !(defer_terminal && event@.ends_stream()) ==> {
            &&& res is Ok == old(sender).open
            &&& final(sender)@ == if old(sender).open {
                old(sender)@.push(
                    Delivered {
                        generation,
                        conversation_id: conversation_id@,
                        assistant_id: assistant_id@,
                        said: event@,
                    },
                )
            } else {
                old(sender)@
            }
        },
{
    let terminal = match &event {
        AiStreamDeliveryEvent::Stream(AiStreamEvent::Done) => true,
        AiStreamDeliveryEvent::Stream(AiStreamEvent::Error(_)) => true,
        _ => false,
    };
    if defer_terminal && terminal {
        return Ok(());
    }
    let sent = sender.send(
        AiStreamDelivery {
            generation,
            conversation_id: conversation_id.to_owned(),
            assistant_id: assistant_id.to_owned(),
            event,
        },
    );
    if sent {
        Ok(())
    } else {
        Err(())
    }
}

} // verus!
