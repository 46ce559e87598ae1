//! What a parent reads when its commands to agents were carried out.

use vstd::prelude::*;

use crate::ai::messages::AiChatMessage;
use crate::ai_state::model::AgentRunRef;
use crate::json::{self, list_view, members_view, object, said_text, text_member, Json, JsonTree};
use crate::text;

verus! {

/// A task was handed to a new child.
pub open spec fn delegated(run: AgentRunRef) -> Json {
    Json::Object(
        seq![
            said_text("agent_id"@, run.agent_id@),
            said_text("run_id"@, run.run_id@),
            said_text("status"@, "queued"@),
        ],
    )
}

pub fn delegation_answer(run: &AgentRunRef) -> (res: JsonTree)
    ensures
        res@ == delegated(*run),
{
    let mut members: Vec<(String, JsonTree)> = Vec::new();
    members.push(text_member("agent_id", run.agent_id.as_str()));
    members.push(text_member("run_id", run.run_id.as_str()));
    members.push(text_member("status", "queued"));
    assert(members_view(members@) =~= delegated(*run)->Object_0);
    object(members)
}

/// A message reached a child.
pub open spec fn message_received(run: AgentRunRef, sequence: u64) -> Json {
    Json::Object(
        seq![
            said_text("agent_id"@, run.agent_id@),
            said_text("run_id"@, run.run_id@),
            ("sequence"@, Json::Number(text::decimal(sequence as nat))),
            said_text("status"@, "received"@),
        ],
    )
}

pub fn message_answer(run: &AgentRunRef, sequence: u64) -> (res: JsonTree)
    ensures
        res@ == message_received(*run, sequence),
{
    let mut members: Vec<(String, JsonTree)> = Vec::new();
    members.push(text_member("agent_id", run.agent_id.as_str()));
    members.push(text_member("run_id", run.run_id.as_str()));
    members.push(("sequence".to_owned(), JsonTree::Number(text::number(sequence))));
    members.push(text_member("status", "received"));
    assert(members_view(members@) =~= message_received(*run, sequence)->Object_0);
    object(members)
}

/// A child is being stopped. Whether something it started elsewhere ends too is not known.
pub open spec fn stopping() -> Json {
    Json::Object(
        seq![
            ("remote_operation_termination_confirmed"@, Json::Bool(false)),
            said_text("status"@, "stopping"@),
        ],
    )
}

pub fn stop_answer() -> (res: JsonTree)
    ensures
        res@ == stopping(),
{
    let mut members: Vec<(String, JsonTree)> = Vec::new();
    members.push(("remote_operation_termination_confirmed".to_owned(), JsonTree::Bool(false)));
    members.push(text_member("status", "stopping"));
    assert(members_view(members@) =~= stopping()->Object_0);
    object(members)
}

/// The tool calls of some messages, one message after the other.
pub open spec fn calls_in(messages: Seq<AiChatMessage>) -> Seq<Json>
    decreases messages.len(),
{
    if messages.len() == 0 {
        Seq::empty()
    } else {
        calls_in(messages.drop_last()) + list_view(messages.last().tool_calls@)
    }
}

fn list_calls(messages: &Vec<AiChatMessage>) -> (res: Vec<JsonTree>)
    ensures
        list_view(res@) == calls_in(messages@),
{
    let mut calls: Vec<JsonTree> = Vec::new();
    let mut i: usize = 0;
    assert(messages@.take(0) =~= Seq::<AiChatMessage>::empty());
    assert(list_view(calls@) =~= Seq::<Json>::empty());
    while i < messages.len()
        invariant
            i <= messages.len(),
            list_view(calls@) == calls_in(messages@.take(i as int)),
        decreases messages.len() - i,
    {
        let ghost before = calls@;
        let mut own = json::duplicate_list(&messages[i].tool_calls);
        let ghost added = own@;
        calls.append(&mut own);
        assert(list_view(calls@) =~= list_view(before) + list_view(added));
        assert(messages@.take(i + 1).drop_last() =~= messages@.take(i as int));
        i += 1;
    }
    assert(messages@.take(i as int) =~= messages@);
    calls
}

/// What a child has found out, with its tool calls where they were asked for.
pub open spec fn result_read(
    agent_id: Seq<char>,
    state: Json,
    result: Json,
    details: bool,
    messages: Option<Seq<AiChatMessage>>,
) -> Json {
    Json::Object(
        seq![
            said_text("agent_id"@, agent_id),
            ("result"@, result),
            ("state"@, state),
            (
                "tools"@,
                if details {
                    Json::List(
                        match messages {
                            Some(messages) => calls_in(messages),
                            None => Seq::empty(),
                        },
                    )
                } else {
                    Json::Null
                },
            ),
        ],
    )
}

pub fn result_answer(
    agent_id: &str,
    state: JsonTree,
    result: JsonTree,
    details: bool,
    messages: Option<&Vec<AiChatMessage>>,
) -> (res: JsonTree)
    ensures
        res@ == result_read(
            agent_id@,
            state@,
            result@,
            details,
            match messages {
                Some(messages) => Some(messages@),
                None => None,
            },
        ),
{
    let tools = if details {
        let calls = match messages {
            Some(messages) => list_calls(messages),
            None => Vec::new(),
        };
        let tools = json::list(calls);
        assert(messages is None ==> list_view(calls@) =~= Seq::<Json>::empty());
        tools
    } else {
        JsonTree::Null
    };
    let mut members: Vec<(String, JsonTree)> = Vec::new();
    members.push(text_member("agent_id", agent_id));
    members.push(("result".to_owned(), result));
    members.push(("state".to_owned(), state));
    members.push(("tools".to_owned(), tools));
    let ghost expected = result_read(
        agent_id@,
        state@,
        result@,
        details,
        match messages {
            Some(messages) => Some(messages@),
            None => None,
        },
    );
    assert(members_view(members@) =~= expected->Object_0);
    object(members)
}

} // verus!
