//! What is kept of the agents' runs.

use vstd::prelude::*;

use crate::ai_state::agent_details::AgentPageDelivery;
use crate::ai_state::agent_records::{find_parent_usage, says_more, AgentUpdate};
use crate::ai_state::agents::AgentError;
use crate::ai_state::entity::{AgentCommunicationPage, AiWorkspaceEntity};
use crate::ai_state::journal::RevisionClock;
use crate::ai_state::model::{
    AgentConversationOptions, AgentRecord, AgentRunRef, AgentSnapshot, AgentState, AgentUsage,
};

verus! {

/// A run takes tools while it is there and, where it is an agent's, while it still listens.
pub proof fn law_runs_take_tools_while_they_listen(ai: &AiWorkspaceEntity, generation: u64, listens: bool, tools: bool, commands: bool)
    requires
        call_ensures(AiWorkspaceEntity::run_accepts_tools, (ai, generation), tools),
        call_ensures(AiWorkspaceEntity::takes_agent_command, (ai, generation, listens), commands),
    ensures
        !ai.chat_stream_runs@.dom().contains(generation) ==> !tools,
        ai.chat_stream_runs@.dom().contains(generation) && ai.chat_stream_runs@[generation].agent is None
            ==> tools,
        ai.chat_stream_runs@.dom().contains(generation) && ai.chat_stream_runs@[generation].agent is Some
            ==> (tools <==> ai.chat_stream_runs@[generation].accepts_messages),
        commands <==> listens && tools,
{
}

/// The streams of a run are those that were begun for it, each once.
pub proof fn law_streams_belong_to_their_run(ai: &AiWorkspaceEntity, run: &AgentRunRef, res: Vec<u64>, generation: u64)
    requires
        call_ensures(AiWorkspaceEntity::chat_stream_runs_for_agent, (ai, run), res),
    ensures
        res@.no_duplicates(),
        res@.contains(generation) <==> {
            let stream = ai.chat_stream_runs@[generation];
            &&& ai.chat_stream_runs@.dom().contains(generation)
            &&& stream.agent is Some
            &&& stream.agent->0.run_id@ == run.run_id@
            &&& stream.agent->0.agent_id@ == run.agent_id@
            &&& stream.agent->0.group_id@ == run.group_id@
        },
{
    assert(res@.contains(generation) == (ai.chat_stream_runs@.dom().contains(generation)
        && ai.chat_stream_runs@[generation].is_of(*run)));
}

/// A message can be added to the task on show while it runs, is no child and listens; it goes to the
/// run of the stream at hand.
pub proof fn law_supplements_go_to_the_task_on_show(
    ai: &AiWorkspaceEntity,
    can: bool,
    res: Result<AgentRunRef, AgentError>,
    generation: u64,
)
    requires
        call_ensures(AiWorkspaceEntity::can_supplement_agent, (ai,), can),
        call_ensures(AiWorkspaceEntity::supplement_agent, (ai,), res),
    ensures
        !ai.chat_is_loading ==> !can,
        ai.conversation_state.active_conversation_id is None ==> !can,
        ({
            let stream = ai.chat_stream_runs@[generation];
            ai.chat_is_loading && ai.chat_stream_runs@.dom().contains(generation) && !stream.child
                && stream.agent is Some && stream.accepts_messages
                && ai.conversation_state.active_conversation_id is Some
                && ai.conversation_state.active_conversation_id->0@ == stream.conversation_id@ ==> can
        }),
        can ==> exists|stream: u64| #[trigger]
            ai.chat_stream_runs@.dom().contains(stream) && !ai.chat_stream_runs@[stream].child
                && ai.chat_stream_runs@[stream].agent is Some
                && ai.chat_stream_runs@[stream].accepts_messages
                && ai.chat_stream_runs@[stream].conversation_id@
                == ai.conversation_state.active_conversation_id->0@,
        can && ai.chat_stream_runs@.dom().contains(ai.chat_stream_generation)
            && ai.chat_stream_runs@[ai.chat_stream_generation].agent is Some <==> res is Ok,
        res matches Ok(run) ==> ai.chat_stream_runs@[ai.chat_stream_generation].agent == Some(run),
        res matches Err(error) ==> error == AgentError::StaleRun,
{
}

/// What was chosen for a conversation counts for it, and the default for the others; choosing changes
/// no other conversation.
pub proof fn law_options_count_for_their_conversation(
    ai: &mut AiWorkspaceEntity,
    conversation: &str,
    options: AgentConversationOptions,
    at: int,
    read: AgentConversationOptions,
)
    requires
        call_ensures(AiWorkspaceEntity::set_agent_options, (ai, conversation, options), ()),
        0 <= at < ai.conversation_state.conversations@.len(),
        ai.conversation_state.conversations@[at].id@ == conversation@,
        forall|j: int|
            0 <= j < at ==> (#[trigger] ai.conversation_state.conversations@[j]).id@ != conversation@,
        call_ensures(AiWorkspaceEntity::agent_options, (&*final(ai), conversation), read),
    ensures
        read == options,
        final(ai).conversation_state.conversations@.len() == old(
            ai).conversation_state.conversations@.len(),
        forall|j: int|
            0 <= j < old(ai).conversation_state.conversations@.len() && j != at ==> #[trigger] final(
                ai).conversation_state.conversations@[j] == old(
                ai).conversation_state.conversations@[j],
        final(ai).history.asked().len() == old(ai).history.asked().len() + 1,
{
    let before = old(ai).conversation_state.conversations@;
    let after = final(ai).conversation_state.conversations@;
    crate::ai_state::model::lemma_conversation_position(before, conversation@, at);
    assert(after[at].id@ == conversation@);
    assert forall|j: int| 0 <= j < at implies (#[trigger] after[j]).id@ != conversation@ by {
        assert(after[j] == before[j]);
    }
    crate::ai_state::model::lemma_conversation_position(after, conversation@, at);
}

/// A stream is bound to the run it was made for, as its parent's or a child's.
pub proof fn law_streams_are_bound_to_their_run(
    ai: &mut AiWorkspaceEntity,
    generation: u64,
    run: AgentRunRef,
    child: bool,
    bound: Option<AgentRunRef>,
    is_child: bool,
    other: u64,
)
    requires
        call_ensures(AiWorkspaceEntity::bind_agent_run, (ai, generation, run, child), ()),
        ai.chat_stream_runs@.dom().contains(generation),
        call_ensures(AiWorkspaceEntity::agent_run, (&*final(ai), generation), bound),
        call_ensures(AiWorkspaceEntity::is_child_stream, (&*final(ai), generation), is_child),
        other != generation,
    ensures
        bound == Some(run),
        is_child == child,
        final(ai).chat_stream_runs@[other] == old(ai).chat_stream_runs@[other],
        final(ai).chat_stream_runs@[generation].conversation_id == old(
            ai).chat_stream_runs@[generation].conversation_id,
{
}

/// An update says something new where the run's state, progress, usage, model or messages changed.
pub proof fn law_updates_say_what_changed(record: &AgentRecord, update: &AgentUpdate, usage: AgentUsage, res: bool, at: int)
    requires
        call_ensures(says_more, (record, update, usage), res),
    ensures
        record.snapshot.state != update.snapshot.state ==> res,
        record.snapshot.progress@ != update.snapshot.progress@ ==> res,
        record.snapshot.usage != update.snapshot.usage ==> res,
        record.parent_usage != usage ==> res,
        record.snapshot.model.provider_id@ != update.snapshot.model.provider_id@ ==> res,
        record.snapshot.model.model@ != update.snapshot.model.model@ ==> res,
        record.communication@.len() != update.communication@.len() ==> res,
        0 <= at < record.communication@.len() && at < update.communication@.len()
            && record.communication@[at].consumed != update.communication@[at].consumed ==> res,
        res && record.snapshot.state == update.snapshot.state && record.snapshot.progress@
            == update.snapshot.progress@ && record.snapshot.usage == update.snapshot.usage
            && record.parent_usage == usage && record.snapshot.model.provider_id@
            == update.snapshot.model.provider_id@ && record.snapshot.model.model@
            == update.snapshot.model.model@ && record.communication@.len()
            == update.communication@.len() ==> exists|i: int|
            0 <= i < record.communication@.len() && (
            #[trigger] record.communication@[i]).consumed != update.communication@[i].consumed,
{
}

/// What the parent used is found with the parent: the first run of the same conversation and group
/// that has none above it.
pub proof fn law_the_parents_usage_is_found(
    updates: &Vec<AgentUpdate>,
    snapshot: &AgentSnapshot,
    res: Option<AgentUsage>,
    at: int,
)
    requires
        call_ensures(find_parent_usage, (updates, snapshot), res),
        0 <= at < updates@.len(),
        forall|j: int|
            0 <= j < at ==> !((#[trigger] updates@[j]).snapshot.conversation_id@
                == snapshot.conversation_id@ && updates@[j].snapshot.run.group_id@
                == snapshot.run.group_id@ && updates@[j].snapshot.parent_id is None),
    ensures
        updates@[at].snapshot.conversation_id@ == snapshot.conversation_id@
            && updates@[at].snapshot.run.group_id@ == snapshot.run.group_id@
            && updates@[at].snapshot.parent_id is None ==> res == Some(updates@[at].snapshot.usage),
        res is None ==> !(updates@[at].snapshot.conversation_id@ == snapshot.conversation_id@
            && updates@[at].snapshot.run.group_id@ == snapshot.run.group_id@
            && updates@[at].snapshot.parent_id is None),
{
    lemma_parent(updates@, *snapshot, at);
}

proof fn lemma_parent(updates: Seq<AgentUpdate>, snapshot: AgentSnapshot, at: int)
    requires
        0 <= at < updates.len(),
        forall|j: int|
            0 <= j < at ==> !((#[trigger] updates[j]).snapshot.conversation_id@
                == snapshot.conversation_id@ && updates[j].snapshot.run.group_id@
                == snapshot.run.group_id@ && updates[j].snapshot.parent_id is None),
    ensures
        updates[at].is_parent_of(snapshot) ==> crate::ai_state::agent_records::parent_usage(
            updates,
            snapshot,
        ) == Some(updates[at].snapshot.usage),
    decreases at,
{
    if at > 0 {
        assert(!updates[0].is_parent_of(snapshot));
        let rest = updates.drop_first();
        assert forall|j: int| 0 <= j < at - 1 implies !((
        #[trigger] rest[j]).snapshot.conversation_id@ == snapshot.conversation_id@
            && rest[j].snapshot.run.group_id@ == snapshot.run.group_id@
            && rest[j].snapshot.parent_id is None) by {
            assert(rest[j] == updates[j + 1]);
        }
        lemma_parent(rest, snapshot, at - 1);
        assert(rest[at - 1] == updates[at]);
    }
}

/// A run's messages leave memory once it has ended and all of them are on disk, and not before.
pub proof fn law_messages_leave_memory_once_on_disk(ai: &mut AiWorkspaceEntity, run: Seq<char>, at: int)
    requires
        call_ensures(AiWorkspaceEntity::release_committed_agent_messages, (ai,), ()),
        ai.agents.records@.dom().contains(run),
        0 <= at < ai.agents.records@[run].messages@.len(),
    ensures
        ({
            let before = old(ai).agents.records@[run];
            let after = final(ai).agents.records@[run];
            let state = before.snapshot.state;
            let ended = state == AgentState::Completed || state == AgentState::Failed || state
                == AgentState::Cancelled || state == AgentState::Interrupted;
            let waits = old(ai).history.changes.messages@.dom().contains(
                (before.snapshot.conversation_id@, before.messages@[at].id@),
            );
            &&& final(ai).agents.records@.dom().contains(run)
            &&& after.snapshot == before.snapshot
            &&& !ended || waits ==> after.messages == before.messages
            &&& after.messages@.len() == 0 || after.messages@ == before.messages@
            &&& ended && (forall|i: int|
                0 <= i < before.messages@.len() ==> !old(ai).history.changes.messages@.dom().contains(
                    (before.snapshot.conversation_id@, (#[trigger] before.messages@[i]).id@),
                )) ==> after.messages@.len() == 0
        }),
{
    let before = old(ai).agents.records@[run];
    let after = final(ai).agents.records@[run];
}

/// What an agent said is shown where its run is on show, and a failure is noted.
pub proof fn law_what_was_said_is_shown(
    ai: &mut AiWorkspaceEntity,
    run: &String,
    result: Result<Option<AgentCommunicationPage>, ()>,
    res: bool,
)
    requires
        call_ensures(AiWorkspaceEntity::apply_agent_communication, (ai, run, result), res),
    ensures
        res <==> old(ai).agents.detail is Some && old(ai).agents.detail->0@ == run@ && old(
            ai).agents.communication_pages@.dom().contains(run@),
        !res ==> *final(ai) == *old(ai),
        res ==> {
            let before = old(ai).agents.communication_pages@[run@];
            let after = final(ai).agents.communication_pages@[run@];
            &&& !after.loading
            &&& result matches Ok(page) ==> after.page == page && after.failed == before.failed
            &&& result is Err ==> after.failed && after.page == before.page
            &&& after.cursors == before.cursors
        },
{
}

/// A page of a run is asked for once at a time, and a further one only where there is more; without a
/// store the run says that it failed.
pub proof fn law_pages_of_runs_are_asked_for_once(
    ai: &mut AiWorkspaceEntity,
    run: &String,
    older: Option<bool>,
    waiter: u64,
)
    requires
        call_ensures(AiWorkspaceEntity::load_agent_message_page, (ai, run, older, waiter), ()),
    ensures
        !old(ai).agents.records@.dom().contains(run@) ==> *final(ai) == *old(ai),
        old(ai).agents.details_loading@.dom().contains(run@) ==> *final(ai) == *old(ai),
        old(ai).agents.records@.dom().contains(run@) && !old(
            ai).agents.details_loading@.dom().contains(run@) && older is None && !old(
            ai).history.store_open ==> final(ai).agents.detail_errors@.dom().contains(run@)
            && !final(ai).agents.details_loading@.dom().contains(run@),
{
}

/// A page that comes for a run that is not on show is not shown, and of a run that moved on it is read
/// again.
pub proof fn law_late_pages_are_not_shown(
    ai: &mut AiWorkspaceEntity,
    delivery: AgentPageDelivery,
    waiter: u64,
    res: bool,
)
    requires
        call_ensures(AiWorkspaceEntity::apply_agent_message_page, (ai, delivery, waiter), res),
    ensures
        ({
            let shown = old(ai).agents.detail is Some && old(ai).agents.detail->0@ == delivery.run@;
            let moved = old(ai).agents.records@.dom().contains(delivery.run@) && old(
                ai).agents.records@[delivery.run@].revision != delivery.record_revision;
            &&& !shown ==> !res
            &&& shown && delivery.result is Err ==> res
            &&& shown && delivery.result is Ok ==> (res <==> !moved)
            &&& !shown ==> final(ai).history == old(ai).history
            &&& !shown ==> !final(ai).agents.details_loading@.dom().contains(delivery.run@)
        }),
{
}

/// A record that is new is kept under its run, counts its parent up and is to be written.
pub proof fn law_new_records_are_kept(
    ai: &mut AiWorkspaceEntity,
    record: AgentRecord,
    clock: &mut RevisionClock,
    other: Seq<char>,
)
    requires
        call_ensures(AiWorkspaceEntity::add_agent_record, (ai, record, clock), ()),
        other != record.snapshot.run.run_id@,
    ensures
        ({
            let run = record.snapshot.run.run_id@;
            let parent = record.parent_message_id@;
            &&& final(ai).agents.records@.dom().contains(run)
            &&& final(ai).agents.records@[run] == record
            &&& final(ai).agents.dirty@.dom().contains(run)
            &&& final(ai).agents.parent_revisions@.dom().contains(parent)
            &&& !old(ai).agents.parent_revisions@.dom().contains(parent) ==> final(
                ai).agents.parent_revisions@[parent] == 1
            &&& old(ai).agents.parent_revisions@.dom().contains(parent) && old(
                ai).agents.parent_revisions@[parent] < u64::MAX ==> final(
                ai).agents.parent_revisions@[parent] == old(ai).agents.parent_revisions@[parent] + 1
            &&& final(ai).agents.records@.dom().contains(other) <==> old(
                ai).agents.records@.dom().contains(other)
            &&& final(ai).agents.records@[other] == old(ai).agents.records@[other]
        }),
{
}

/// A detail that is closed leaves nothing of its run on show; other runs keep what they have.
pub proof fn law_closed_details_leave_nothing(ai: &mut AiWorkspaceEntity, other: Seq<char>)
    requires
        call_ensures(AiWorkspaceEntity::close_agent_detail, (ai,), ()),
        ai.agents.detail is Some,
        other != ai.agents.detail->0@,
    ensures
        final(ai).agents.detail is None,
        !final(ai).agents.detail_lists@.dom().contains(old(ai).agents.detail->0@),
        !final(ai).agents.details_loading@.dom().contains(old(ai).agents.detail->0@),
        !final(ai).agents.communication_pages@.dom().contains(old(ai).agents.detail->0@),
        final(ai).agents.detail_lists@.dom().contains(other) <==> old(
            ai).agents.detail_lists@.dom().contains(other),
        final(ai).agents.communication_pages@.dom().contains(other) <==> old(
            ai).agents.communication_pages@.dom().contains(other),
        final(ai).agents.records == old(ai).agents.records,
{
}

} // verus!
