//! What is said between agents, tools and the model.

use vstd::prelude::*;
use vstd::string::StringSliceAdditionalSpecFns;

use crate::ai::agent_commands::CoordinationError;
use crate::ai::agent_run::{AgentUpdate, MailboxMessage};
use crate::ai::checkpoint::summary_chunk_end;
use crate::ai::coordination::{
    answer_agent_command, answer_coordination, host_answer, parent_answer, progress_answer,
    wait_answer, AgentEvent, CoordinationFailure,
};
use crate::ai::delivery::{
    send_ai_loop_delivery, AiStreamDelivery, AiStreamDeliveryEvent, AiStreamDeliverySender,
};
use crate::ai::loop_mail::MailRead;
use crate::ai::messages::{
    agent_chat_message, find_message, last_user_message, replace_ai_runtime_context_message,
    AiChatMessage, AiChatRole, AiToolCall,
};
use crate::ai::notes::{NoteStep, Noted, TaskNotes};
use crate::ai::results::{
    agent_tool_result, ai_direction_changed_result, pre_execution_rejected_ai_tool_result,
    rejected_ai_tool_result, AiExecutedToolResult,
};
use crate::ai::tool_loop::{LoopPhase, ToolLoop};
use crate::json::{list_view, text_of, Json, JsonTree};
use crate::text::seq_view;

verus! {

/// A refusal is no success: its words are all there is, under its code, and it can be tried again;
/// whether the call was handed on is told.
pub proof fn law_refusals_are_no_success(
    id: String,
    name: String,
    code: &str,
    message: &str,
    handed: AiExecutedToolResult,
    kept: AiExecutedToolResult,
)
    requires
        call_ensures(rejected_ai_tool_result, (id, name, code, message), handed),
        call_ensures(pre_execution_rejected_ai_tool_result, (id, name, code, message), kept),
    ensures
        handed.dispatched,
        !kept.dispatched,
        !handed.success && !kept.success,
        handed.tool_call_id@ == id@ && kept.tool_call_id@ == id@,
        handed.tool_name@ == name@ && kept.tool_name@ == name@,
        handed.output@ == message@ && kept.output@ == message@,
        handed.error is Some && handed.error->0@ == message@,
        !handed.envelope.ok && !kept.envelope.ok,
        handed.envelope.error is Some && handed.envelope.error->0.code@ == code@,
        handed.envelope.error->0.message@ == message@,
        kept.envelope.error is Some && kept.envelope.error->0.code@ == code@,
        handed.envelope.recoverable && kept.envelope.recoverable,
        handed.duration_ms == 0,
{
    assert(handed.envelope@.error is Some);
    assert(kept.envelope@.error is Some);
    assert(handed.envelope@.ok == handed.envelope.ok);
    assert(kept.envelope@.ok == kept.envelope.ok);
}

/// An answer is a success, and holds the answer as text and as data.
pub proof fn law_answers_are_successes(call: &AiToolCall, answer: JsonTree, res: AiExecutedToolResult)
    requires
        call_ensures(agent_tool_result, (call, answer), res),
    ensures
        res.success,
        res.dispatched,
        res.error is None,
        res.tool_call_id@ == call.id@,
        res.tool_name@ == call.name@,
        res.output@ == text_of(answer@),
        res.envelope.ok,
        res.envelope.error is None,
        res.envelope.summary@ == call.name@,
        res.envelope.data is Some,
        res.envelope.data->0@ == answer@,
{
    assert(res.envelope@.ok == res.envelope.ok);
    assert(res.envelope@.summary == res.envelope.summary@);
    assert(res.envelope@.error is None);
    assert(res.envelope@.data is Some);
}

/// A call that the user overtook was not handed on, and says so.
pub proof fn law_overtaken_calls_were_not_handed_on(call: &AiToolCall, res: AiExecutedToolResult)
    requires
        call_ensures(ai_direction_changed_result, (call,), res),
    ensures
        !res.success,
        !res.dispatched,
        res.tool_call_id@ == call.id@,
        res.envelope.error is Some,
        res.envelope.error->0.code@ == "agent_direction_changed"@,
{
    assert(res.envelope@.error is Some);
}

/// Each failure has its words.
pub proof fn law_failures_of_coordination_have_words(failure: &CoordinationFailure, res: &str)
    requires
        call_ensures(CoordinationFailure::words, (failure,), res),
    ensures
        failure is Unavailable ==> res@ == "Agent coordination is unavailable"@,
        failure is InvalidArguments ==> res@ == "Invalid agent arguments"@,
        failure is HostClosed ==> res@ == "Agent host closed"@,
        failure is Cancelled ==> res@ == "Agent operation was cancelled"@,
        failure is Runtime ==> res@ == failure->Runtime_0@,
{
}

/// What the runtime finds wrong is told in its words, and the rest in the library's.
pub proof fn law_errors_become_failures(error: CoordinationError, words: String, res: CoordinationFailure)
    requires
        call_ensures(CoordinationError::failure, (error, words), res),
    ensures
        error is Unavailable <==> res is Unavailable,
        error is InvalidArguments <==> res is InvalidArguments,
        error is InvalidState || error is ParentOnly <==> res is Runtime,
        res is Runtime ==> res->Runtime_0 == words,
{
}

/// A command of an agent is answered with what came of it, or refused with what went wrong.
pub proof fn law_commands_are_answered(
    call: &AiToolCall,
    applied: Result<JsonTree, String>,
    res: AiExecutedToolResult,
    outcome: Result<JsonTree, CoordinationFailure>,
    told: AiExecutedToolResult,
    words: &str,
)
    requires
        call_ensures(answer_agent_command, (call, applied), res),
        call_ensures(answer_coordination, (call, outcome), told),
        outcome is Err ==> call_ensures(CoordinationFailure::words, (&outcome->Err_0,), words),
    ensures
        res.success <==> applied is Ok,
        res.tool_call_id@ == call.id@,
        applied matches Ok(answer) ==> res.output@ == text_of(answer@),
        applied matches Err(error) ==> res.output@ == error@ && res.envelope.error is Some
            && res.envelope.error->0.code@ == "agent_operation_failed"@,
        told.success <==> outcome is Ok,
        told.tool_call_id@ == call.id@,
        outcome matches Ok(answer) ==> told.output@ == text_of(answer@),
        outcome is Err ==> told.output@ == words@,
{
    if applied is Err {
        assert(res.envelope@.error is Some);
    }
}

/// What the host replied is the answer; a host that is gone or silent is told of.
pub proof fn law_the_hosts_reply_is_the_answer(
    call: &AiToolCall,
    delivered: bool,
    reply: Option<AiExecutedToolResult>,
    res: AiExecutedToolResult,
)
    requires
        call_ensures(host_answer, (call, delivered, reply), res),
    ensures
        delivered && reply is Some ==> res == reply->0,
        !delivered ==> !res.success && res.output@ == "Agent host closed"@,
        delivered && reply is None ==> !res.success && res.output@
            == "Agent operation was cancelled"@,
        !delivered || reply is None ==> res.tool_call_id@ == call.id@,
{
}

/// Progress is answered with a receipt, and a parent with what it said.
pub proof fn law_receipts_and_replies(
    reported: Result<(), String>,
    receipt: Result<JsonTree, CoordinationFailure>,
    replies: Result<Vec<JsonTree>, String>,
    answer: Result<JsonTree, CoordinationFailure>,
)
    requires
        call_ensures(progress_answer, (reported,), receipt),
        call_ensures(parent_answer, (replies,), answer),
    ensures
        receipt is Ok <==> reported is Ok,
        receipt matches Ok(tree) ==> tree@ == Json::Object(
            seq![("status"@, Json::Text("received"@))],
        ),
        receipt matches Err(failure) ==> failure is Runtime && failure->Runtime_0
            == reported->Err_0,
        answer is Ok <==> replies is Ok,
        answer matches Ok(tree) ==> tree@ == Json::Object(
            seq![("messages"@, Json::List(list_view(replies->Ok_0@)))],
        ),
        answer matches Err(failure) ==> failure is Runtime && failure->Runtime_0 == replies->Err_0,
{
}

/// Who waits is told everything that came, and waits for what comes behind the last of it.
pub proof fn law_waiting_goes_on_behind_the_last_event(
    cursor: u64,
    events: Result<Vec<AgentEvent>, String>,
    messages: Vec<JsonTree>,
    res: (u64, Result<JsonTree, CoordinationFailure>),
)
    requires
        call_ensures(wait_answer, (cursor, events, messages), res),
    ensures
        res.1 is Ok <==> events is Ok,
        events is Err ==> res.0 == cursor,
        events matches Ok(list) ==> (list@.len() == 0 ==> res.0 == cursor) && (list@.len() > 0
            ==> res.0 == list@[list@.len() - 1].sequence),
        events matches Ok(list) ==> res.1->Ok_0@ is Object && res.1->Ok_0@->Object_0.len() == 2
            && res.1->Ok_0@->Object_0[0].0 == "events"@ && res.1->Ok_0@->Object_0[0].1 is List
            && res.1->Ok_0@->Object_0[0].1->List_0.len() == list@.len()
            && res.1->Ok_0@->Object_0[1] == ("messages"@, Json::List(list_view(messages@))),
        events matches Ok(list) ==> forall|i: int|
            0 <= i < list@.len() ==> res.1->Ok_0@->Object_0[0].1->List_0[i] == (
            #[trigger] list@[i]).event@,
{
}

/// A note is written behind the others, and what was written stays.
pub proof fn law_notes_are_written_at_the_end(notes: &mut TaskNotes, step: NoteStep)
    requires
        call_ensures(TaskNotes::note, (notes, step), ()),
    ensures
        final(notes)@.steps.len() == old(notes)@.steps.len() + 1,
        final(notes)@.steps.last() == step@,
        final(notes)@.steps.drop_last() == old(notes)@.steps,
        final(notes)@.task == old(notes)@.task,
        final(notes)@.continues == old(notes)@.continues,
{
    assert(final(notes)@.steps.drop_last() =~= old(notes)@.steps);
}

/// Calls that are about to run are noted one by one, and so is what the user directs.
pub proof fn law_calls_and_directives_are_noted(
    notes: &mut TaskNotes,
    calls: &Vec<AiToolCall>,
    other: &mut TaskNotes,
    directives: Vec<String>,
    at: int,
)
    requires
        call_ensures(TaskNotes::note_pending, (notes, calls), ()),
        call_ensures(TaskNotes::note_directives, (other, directives), ()),
    ensures
        final(notes)@.steps.len() == old(notes)@.steps.len() + calls@.len(),
        0 <= at < calls@.len() ==> final(notes)@.steps[old(notes)@.steps.len() + at]
            == Noted::Pending(calls@[at]),
        0 <= at < old(notes)@.steps.len() ==> final(notes)@.steps[at] == old(notes)@.steps[at],
        final(other)@.steps.len() == old(other)@.steps.len() + directives@.len(),
        0 <= at < directives@.len() ==> final(other)@.steps[old(other)@.steps.len() + at]
            == Noted::Directive(directives@[at]@),
{
    if 0 <= at < directives@.len() {
        assert(seq_view(directives@)[at] == directives@[at]@);
    }
}

/// The task is what the user asked last, and the notes are new.
pub proof fn law_the_task_is_what_was_asked_last(
    history: &Vec<AiChatMessage>,
    carries: &Vec<bool>,
    res: TaskNotes,
    last: Option<usize>,
)
    requires
        call_ensures(TaskNotes::new, (history, carries), res),
        call_ensures(last_user_message, (history,), last),
    ensures
        last is None ==> res@.task.len() == 0,
        last is Some ==> res@.task == history@[last->0 as int].content@,
        res@.steps.len() == 0,
        carries@.len() == 0 ==> res@.continues is None,
        history@.len() > 0 && history@.len() <= carries@.len() && carries@[history@.len() - 1]
            ==> res@.continues == Some(history@.last().id@),
        history@.len() > 0 && history@.len() <= carries@.len() && !carries@[history@.len() - 1]
            && history@.last().role == AiChatRole::User ==> res@.continues is None,
{
    lemma_asked_last(history@, last);
    if carries@.len() == 0 {
        lemma_nothing_continued(history@, carries@);
    }
}

proof fn lemma_asked_last(history: Seq<AiChatMessage>, last: Option<usize>)
    requires
        match last {
            Some(i) => i < history.len() && history[i as int].role == AiChatRole::User && forall|j: int|
                i < j < history.len() ==> (#[trigger] history[j]).role != AiChatRole::User,
            None => forall|j: int|
                0 <= j < history.len() ==> (#[trigger] history[j]).role != AiChatRole::User,
        },
    ensures
        last is None ==> crate::ai::notes::asked_last(history).len() == 0,
        last is Some ==> crate::ai::notes::asked_last(history) == history[last->0 as int].content@,
    decreases history.len(),
{
    if history.len() > 0 && history.last().role != AiChatRole::User {
        lemma_asked_last(history.drop_last(), last);
    } else if history.len() > 0 {
        if last is Some && last->0 < history.len() - 1 {
            assert(history[history.len() - 1].role != AiChatRole::User);
        }
        if last is None {
            assert(history[history.len() - 1].role != AiChatRole::User);
        }
    }
}

proof fn lemma_nothing_continued(history: Seq<AiChatMessage>, carries: Seq<bool>)
    requires
        carries.len() == 0,
    ensures
        crate::ai::notes::continued_from(history, carries) is None,
    decreases history.len(),
{
    if history.len() > 0 {
        lemma_nothing_continued(history.drop_last(), carries);
    }
}

/// A message is found by its name, the first that bears it.
pub proof fn law_messages_are_found_by_name(messages: &Vec<AiChatMessage>, id: &str, res: Option<usize>, at: int)
    requires
        call_ensures(find_message, (messages, id), res),
        0 <= at < messages@.len(),
        messages@[at].id@ == id@,
        forall|j: int| 0 <= j < at ==> (#[trigger] messages@[j]).id@ != id@,
    ensures
        res is Some,
        res->0 == at,
{
    crate::ai::messages::lemma_message_position(messages@, id@, at);
}

/// A message that is made has the words it was made with, and nothing else.
pub proof fn law_made_messages_are_plain(role: AiChatRole, content: String, now: i64, res: AiChatMessage)
    requires
        call_ensures(agent_chat_message, (role, content, now), res),
    ensures
        res.role == role,
        res.content@ == content@,
        res.timestamp_ms == now,
        !res.is_streaming,
        res.tool_calls@.len() == 0,
        res.tool_call_id is None,
        res.id@.len() == 36,
{
}

/// The context of the runtime is told once: it takes the place of the one before, or the first place.
pub proof fn law_the_runtime_context_is_told_once(
    history: &mut Vec<AiChatMessage>,
    content: String,
    now: i64,
    at: int,
)
    requires
        call_ensures(replace_ai_runtime_context_message, (history, content, now), ()),
    ensures
        0 <= at < old(history)@.len() && old(history)@[at].id@ == "runtime-context-v2"@ && (forall|j: int|
            0 <= j < at ==> (#[trigger] old(history)@[j]).id@ != "runtime-context-v2"@) ==> {
            &&& final(history)@.len() == old(history)@.len()
            &&& final(history)@[at].content@ == content@
            &&& final(history)@[at].role == AiChatRole::System
            &&& final(history)@[at].id@ == "runtime-context-v2"@
            &&& forall|j: int|
                0 <= j < old(history)@.len() && j != at ==> #[trigger] final(history)@[j] == old(
                    history)@[j]
        },
        (forall|j: int| 0 <= j < old(history)@.len() ==> (#[trigger] old(history)@[j]).id@
            != "runtime-context-v2"@) ==> {
            &&& final(history)@.len() == old(history)@.len() + 1
            &&& final(history)@[0].content@ == content@
            &&& final(history)@[0].role == AiChatRole::System
            &&& forall|j: int|
                0 <= j < old(history)@.len() ==> final(history)@[j + 1] == #[trigger] old(history)@[j]
        },
{
    let before = old(history)@;
    if 0 <= at < before.len() && before[at].id@ == "runtime-context-v2"@ && (forall|j: int|
        0 <= j < at ==> (#[trigger] before[j]).id@ != "runtime-context-v2"@) {
        crate::ai::messages::lemma_message_position(before, "runtime-context-v2"@, at);
        assert(crate::ai::messages::has_message(before, "runtime-context-v2"@));
    }
}

/// The end of a stream is held back where it is to be; everything else is handed on, in order, as long
/// as somebody listens.
pub proof fn law_deliveries_are_handed_on_in_order(
    defer: bool,
    sender: &mut AiStreamDeliverySender,
    generation: u64,
    conversation: &str,
    assistant: &str,
    event: AiStreamDeliveryEvent,
    res: Result<(), ()>,
)
    requires
        call_ensures(
            send_ai_loop_delivery,
            (defer, sender, generation, conversation, assistant, event),
            res,
        ),
    ensures
        ({
            let ends = event is Stream && (event->Stream_0 is Done || event->Stream_0 is Error);
            &&& defer && ends ==> res is Ok && *final(sender) == *old(sender)
            &&& !(defer && ends) ==> (res is Ok <==> old(sender).open)
            &&& !(defer && ends) && old(sender).open ==> {
                let last = final(sender)@.last();
                &&& final(sender)@.len() == old(sender)@.len() + 1
                &&& final(sender)@.drop_last() == old(sender)@
                &&& last.generation == generation
                &&& last.conversation_id == conversation@
                &&& last.assistant_id == assistant@
                &&& last.said == event@
            }
            &&& !old(sender).open ==> final(sender)@ == old(sender)@
        }),
{
    if old(sender).open {
        assert(final(sender)@.len() > 0 ==> final(sender)@.push(final(sender)@.last()).drop_last()
            =~= final(sender)@);
    }
}

/// A listener gets what is sent while it listens.
pub proof fn law_listeners_get_what_is_sent(sender: &mut AiStreamDeliverySender, delivery: AiStreamDelivery, res: bool)
    requires
        call_ensures(AiStreamDeliverySender::send, (sender, delivery), res),
    ensures
        res == old(sender).open,
        final(sender).open == old(sender).open,
        res ==> final(sender)@.len() == old(sender)@.len() + 1 && final(sender)@.last() == delivery@,
        !res ==> final(sender)@ == old(sender)@,
{
}

/// A chunk ends between characters, fits into the budget, and no longer one would have fitted by one
/// character.
pub proof fn law_chunks_end_between_characters<F: Fn(&str) -> usize>(
    source: &str,
    budget: usize,
    estimate: &F,
    end: usize,
)
    requires
        call_ensures(summary_chunk_end::<F>, (source, budget, estimate), end),
    ensures
        end <= source.spec_bytes().len(),
        vstd::utf8::is_char_boundary(source.spec_bytes(), end as int),
        end > 0 ==> exists|part: &str, tokens: usize| #[trigger]
            call_ensures(*estimate, (part,), tokens) && part.spec_bytes()
                == source.spec_bytes().subrange(0, end as int) && tokens <= budget,
        end < source.spec_bytes().len() ==> exists|part: &str, tokens: usize| #[trigger]
            call_ensures(*estimate, (part,), tokens) && part.spec_bytes().len() > end && tokens
                > budget,
{
    let bytes = source.spec_bytes();
    if end < bytes.len() {
        let next = choose|next: int|
            {
                &&& end < next <= bytes.len()
                &&& #[trigger] vstd::utf8::is_char_boundary(bytes, next)
                &&& forall|k: int|
                    end < k < next ==> !vstd::utf8::is_char_boundary(bytes, k)
                &&& crate::ai::checkpoint::measured(*estimate, bytes, next, budget, false)
            };
        let (part, tokens) = choose|part: &str, tokens: usize| #[trigger]
            call_ensures(*estimate, (part,), tokens) && part.spec_bytes() == bytes.subrange(0, next)
                && (tokens <= budget) == false;
        assert(part.spec_bytes().len() > end);
    }
}

/// Mail is read into the history, and tells of news where the task waits to go on; what the user wrote
/// in it is noted.
pub proof fn law_mail_is_read_into_the_history(
    run: &mut ToolLoop,
    messages: &Vec<MailboxMessage>,
    updates: &Vec<AgentUpdate>,
    cursor: u64,
    deferred: bool,
    now: i64,
    res: MailRead,
    at: int,
)
    requires
        call_ensures(ToolLoop::on_mail, (run, messages, updates, cursor, deferred, now), res),
        0 <= at < messages@.len(),
    ensures
        final(run).history@.len() >= old(run).history@.len() + messages@.len(),
        messages@[at].from_user ==> final(run).history@[old(run).history@.len() + at].role
            == AiChatRole::User && final(run).history@[old(run).history@.len() + at].content@
            == messages@[at].text@,
        !messages@[at].from_user ==> final(run).history@[old(run).history@.len() + at].role
            == AiChatRole::System,
        old(run).phase != LoopPhase::AwaitGrant ==> !res.news,
        old(run).phase == LoopPhase::AwaitGrant ==> (res.news <==> res.cursor != cursor || deferred),
        old(run).settings.is_child ==> res.cursor == cursor,
        !res.news ==> final(run).notes@ == old(run).notes@,
        final(run).phase == old(run).phase,
{
}

} // verus!
