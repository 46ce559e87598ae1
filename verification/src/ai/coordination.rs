//! What a call that coordinates agents comes to.

use vstd::prelude::*;

use crate::ai::agent_commands::CoordinationError;
use crate::ai::messages::AiToolCall;
use crate::ai::results::{
    agent_tool_result, answer_report, rejected_ai_tool_result, AiExecutedToolResult,
};
use crate::json::{self, list_view, members_view, object, said_text, text_member, Json, JsonTree};

verus! {

/// Why a coordination call came to nothing.
pub enum CoordinationFailure {
    /// The run has no agent.
    Unavailable,
    InvalidArguments,
    /// The window that carries commands out is gone.
    HostClosed,
    /// The run was stopped before the window answered.
    Cancelled,
    /// The agents' runtime refused, in its own words.
    Runtime(String),
}

impl CoordinationFailure {
    pub open spec fn says(self) -> Seq<char> {
        match self {
            CoordinationFailure::Unavailable => "Agent coordination is unavailable"@,
            CoordinationFailure::InvalidArguments => "Invalid agent arguments"@,
            CoordinationFailure::HostClosed => "Agent host closed"@,
            CoordinationFailure::Cancelled => "Agent operation was cancelled"@,
            CoordinationFailure::Runtime(words) => words@,
        }
    }

    pub fn words(&self) -> (res: &str)
        ensures
            res@ == self.says(),
    {
        match self {
            CoordinationFailure::Unavailable => "Agent coordination is unavailable",
            CoordinationFailure::InvalidArguments => "Invalid agent arguments",
            CoordinationFailure::HostClosed => "Agent host closed",
            CoordinationFailure::Cancelled => "Agent operation was cancelled",
            CoordinationFailure::Runtime(words) => words.as_str(),
        }
    }
}

impl CoordinationError {
    /// The failure of a call that was turned away before anyone was asked. `runtime_words` is how the
    /// agents' runtime words the error, which counts where the error is the runtime's.
    pub fn failure(self, runtime_words: String) -> (res: CoordinationFailure)
        ensures
            res == match self {
                CoordinationError::Unavailable => CoordinationFailure::Unavailable,
                CoordinationError::InvalidArguments => CoordinationFailure::InvalidArguments,
                CoordinationError::InvalidState | CoordinationError::ParentOnly => CoordinationFailure::Runtime(
                    runtime_words,
                ),
            },
    {
        match self {
            CoordinationError::Unavailable => CoordinationFailure::Unavailable,
            CoordinationError::InvalidArguments => CoordinationFailure::InvalidArguments,
            CoordinationError::InvalidState | CoordinationError::ParentOnly => CoordinationFailure::Runtime(
                runtime_words,
            ),
        }
    }
}

/// Whether a result refuses a coordination call in some words.
pub open spec fn is_refused(result: AiExecutedToolResult, call: AiToolCall, words: Seq<char>) -> bool {
    result.is_refusal(call.id@, call.name@, "agent_operation_failed"@, words, true)
}

/// Whether a result gives the answer to a coordination call.
pub open spec fn is_answer(result: AiExecutedToolResult, call: AiToolCall, answer: Json) -> bool {
    &&& result.tool_call_id == call.id
    &&& result.tool_name == call.name
    &&& result.success
    &&& result.output@ == json::text_of(answer)
    &&& result.error is None
    &&& result.duration_ms == 0
    &&& result.dispatched
    &&& result.envelope@ == answer_report(call, answer)
}

/// The result of a coordination call that failed.
pub fn refused_coordination(call: &AiToolCall, failure: &CoordinationFailure) -> (res: AiExecutedToolResult)
    ensures
        is_refused(res, *call, failure.says()),
{
    rejected_ai_tool_result(
        call.id.clone(),
        call.name.clone(),
        "agent_operation_failed",
        failure.words(),
    )
}

/// The result of a coordination call. Secrets have been taken out of its answer before.
pub fn answer_coordination(call: &AiToolCall, outcome: Result<JsonTree, CoordinationFailure>) -> (res: AiExecutedToolResult)
    ensures
        match outcome {
            Ok(answer) => is_answer(res, *call, answer@),
            Err(failure) => is_refused(res, *call, failure.says()),
        },
{
    match outcome {
        Ok(answer) => agent_tool_result(call, answer),
        Err(failure) => refused_coordination(call, &failure),
    }
}

/// The result of a command that the window carried out. Secrets have been taken out of its answer
/// before.
pub fn answer_agent_command(call: &AiToolCall, applied: Result<JsonTree, String>) -> (res: AiExecutedToolResult)
    ensures
        match applied {
            Ok(answer) => is_answer(res, *call, answer@),
            Err(error) => is_refused(res, *call, error@),
        },
{
    match applied {
        Ok(answer) => agent_tool_result(call, answer),
        Err(error) => rejected_ai_tool_result(
            call.id.clone(),
            call.name.clone(),
            "agent_operation_failed",
            error.as_str(),
        ),
    }
}

/// The result of a command that was handed to the window: what the window answered, where it was
/// reached and did answer.
pub fn host_answer(call: &AiToolCall, delivered: bool, reply: Option<AiExecutedToolResult>) -> (res: AiExecutedToolResult)
    ensures
        if !delivered {
            is_refused(res, *call, CoordinationFailure::HostClosed.says())
        } else {
            match reply {
                Some(result) => res == result,
                None => is_refused(res, *call, CoordinationFailure::Cancelled.says()),
            }
        },
{
    if !delivered {
        return refused_coordination(call, &CoordinationFailure::HostClosed);
    }
    match reply {
        Some(result) => result,
        None => refused_coordination(call, &CoordinationFailure::Cancelled),
    }
}

/// That something was received.
pub open spec fn received() -> Json {
    Json::Object(seq![said_text("status"@, "received"@)])
}

/// The answer to a report of progress.
pub fn progress_answer(reported: Result<(), String>) -> (res: Result<JsonTree, CoordinationFailure>)
    ensures
        match (reported, res) {
            (Ok(_), Ok(answer)) => answer@ == received(),
            (Err(words), Err(failure)) => failure == CoordinationFailure::Runtime(words),
            _ => false,
        },
{
    match reported {
        Ok(_) => {
            let mut members: Vec<(String, JsonTree)> = Vec::new();
            members.push(text_member("status", "received"));
            assert(members_view(members@) =~= received()->Object_0);
            Ok(object(members))
        },
        Err(words) => Err(CoordinationFailure::Runtime(words)),
    }
}

/// The messages that came back for a question.
pub open spec fn replied(messages: Seq<Json>) -> Json {
    Json::Object(seq![("messages"@, Json::List(messages))])
}

/// The answer to a question to the parent.
pub fn parent_answer(replies: Result<Vec<JsonTree>, String>) -> (res: Result<JsonTree, CoordinationFailure>)
    ensures
        match (replies, res) {
            (Ok(messages), Ok(answer)) => answer@ == replied(list_view(messages@)),
            (Err(words), Err(failure)) => failure == CoordinationFailure::Runtime(words),
            _ => false,
        },
{
    match replies {
        Ok(messages) => {
            let ghost sent = list_view(messages@);
            let mut members: Vec<(String, JsonTree)> = Vec::new();
            members.push(("messages".to_owned(), json::list(messages)));
            assert(members_view(members@) =~= replied(sent)->Object_0);
            Ok(object(members))
        },
        Err(words) => Err(CoordinationFailure::Runtime(words)),
    }
}

/// Something that happened to a child, and its place among what happened.
pub struct AgentEvent {
    pub sequence: u64,
    pub event: JsonTree,
}

/// Where the reader of some events stands afterwards.
pub open spec fn cursor_after(cursor: u64, events: Seq<AgentEvent>) -> u64 {
    if events.len() == 0 {
        cursor
    } else {
        events.last().sequence
    }
}

pub open spec fn events_view(events: Seq<AgentEvent>) -> Seq<Json> {
    events.map_values(|event: AgentEvent| event.event@)
}

/// What happened, and what was said meanwhile.
pub open spec fn waited(events: Seq<Json>, messages: Seq<Json>) -> Json {
    Json::Object(seq![("events"@, Json::List(events)), ("messages"@, Json::List(messages))])
}

fn event_list(events: Vec<AgentEvent>) -> (res: Vec<JsonTree>)
    ensures
        list_view(res@) == events_view(events@),
{
    let ghost all = events@;
    let mut events = events;
    let mut res: Vec<JsonTree> = Vec::new();
    let ghost mut done: int = 0;
    assert(events@ =~= all.skip(0));
    assert(list_view(res@) =~= events_view(all.take(0)));
    while events.len() > 0
        invariant
            0 <= done <= all.len(),
            events@ == all.skip(done),
            list_view(res@) == events_view(all.take(done)),
        decreases events.len(),
    {
        let ghost before = res@;
        let event = events.remove(0);
        assert(event == all[done]);
        res.push(event.event);
        proof {
            assert(list_view(res@) =~= list_view(before).push(all[done].event@));
            assert(events_view(all.take(done + 1)) =~= events_view(all.take(done)).push(
                all[done].event@,
            ));
            done = done + 1;
            assert(events@ =~= all.skip(done));
        }
    }
    assert(all.take(done) =~= all);
    res
}

/// The answer to a wait for children, and where the reader of their events stands then. `messages`
/// are those that came for the parent meanwhile.
pub fn wait_answer(cursor: u64, events: Result<Vec<AgentEvent>, String>, messages: Vec<JsonTree>) -> (res: (u64, Result<JsonTree, CoordinationFailure>))
    ensures
        match (events, res.1) {
            (Ok(events), Ok(answer)) => {
                &&& res.0 == cursor_after(cursor, events@)
                &&& answer@ == waited(events_view(events@), list_view(messages@))
            },
            (Err(words), Err(failure)) => {
                &&& res.0 == cursor
                &&& failure == CoordinationFailure::Runtime(words)
            },
            _ => false,
        },
{
    match events {
        Ok(events) => {
            let ghost happened = events_view(events@);
            let ghost sent = list_view(messages@);
            let moved: u64 = if events.len() == 0 {
                cursor
            } else {
                events[events.len() - 1].sequence
            };
            let mut members: Vec<(String, JsonTree)> = Vec::new();
            members.push(("events".to_owned(), json::list(event_list(events))));
            members.push(("messages".to_owned(), json::list(messages)));
            assert(members_view(members@) =~= waited(happened, sent)->Object_0);
            (moved, Ok(object(members)))
        },
        Err(words) => (cursor, Err(CoordinationFailure::Runtime(words))),
    }
}

} // verus!
