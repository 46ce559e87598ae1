//! The journal of the history, and what the store answers.

use vstd::prelude::*;

use crate::ai_state::archives::ArchiveDelivery;
use crate::ai_state::deliveries::{Delivery, OpenedStore};
use crate::ai_state::entity::{AiWorkspaceEntity, Effect, HistoryRange, HistoryStatus, HistoryWriteState};
use crate::ai_state::journal::{HistoryEvent, RevisionClock};
use crate::ai_state::model::{has_conversation, AgentRecord, HistoryViewOwner};
use crate::workspace::app::WorkspaceApp;

verus! {

/// A message that changed is to be written whole under the next revision; one that is not there is
/// not. No other message is concerned.
pub proof fn law_changed_messages_are_to_be_written(
    ai: &mut AiWorkspaceEntity,
    conversation: &str,
    message: &str,
    clock: &mut RevisionClock,
    other: (Seq<char>, Seq<char>),
)
    requires
        call_ensures(
            AiWorkspaceEntity::history_message_changed,
            (ai, conversation, message, clock),
            (),
        ),
        other != (conversation@, message@),
    ensures
        ({
            let key = (conversation@, message@);
            let there = old(ai).message(conversation@, message@) is Some;
            let before = old(ai).history.changes;
            let after = final(ai).history.changes;
            &&& !there ==> *final(ai) == *old(ai) && final(clock).last == old(clock).last
            &&& there ==> {
                &&& final(clock).last == old(clock).last + 1
                &&& after.revision == final(clock).last
                &&& after.messages@.dom().contains(key)
                &&& after.messages@[key] == final(clock).last
                &&& after.full_messages@.dom().contains(key)
                &&& after.full_messages@[key] == final(clock).last
            }
            &&& after.messages@.dom().contains(other) <==> before.messages@.dom().contains(other)
            &&& after.messages@[other] == before.messages@[other]
        }),
{
}

/// A message that grew is to be written, and not as a whole.
pub proof fn law_grown_messages_are_not_written_whole(
    ai: &mut AiWorkspaceEntity,
    conversation: &str,
    message: &str,
    clock: &mut RevisionClock,
)
    requires
        call_ensures(
            AiWorkspaceEntity::history_stream_text_changed,
            (ai, conversation, message, clock),
            (),
        ),
        ai.message(conversation@, message@) is Some,
    ensures
        final(clock).last == old(clock).last + 1,
        final(ai).history.changes.messages@.dom().contains((conversation@, message@)),
        final(ai).history.changes.messages@[(conversation@, message@)] == final(clock).last,
        final(ai).history.changes.full_messages == old(ai).history.changes.full_messages,
        final(ai).history.changes.stream_bases == old(ai).history.changes.stream_bases,
{
}

/// A conversation whose heading or title changed is to be written; so is a new one.
pub proof fn law_changed_conversations_are_to_be_written(
    ai: &mut AiWorkspaceEntity,
    conversation: &str,
    clock: &mut RevisionClock,
    titled: &mut AiWorkspaceEntity,
    titles: &mut RevisionClock,
    fresh: &mut AiWorkspaceEntity,
    dates: &mut RevisionClock,
)
    requires
        call_ensures(AiWorkspaceEntity::history_metadata_changed, (ai, conversation, clock), ()),
        call_ensures(AiWorkspaceEntity::history_title_changed, (titled, conversation, titles), ()),
        call_ensures(AiWorkspaceEntity::history_created, (fresh, conversation, dates), ()),
        has_conversation(ai.conversation_state.conversations@, conversation@),
        has_conversation(titled.conversation_state.conversations@, conversation@),
    ensures
        final(ai).history.changes.metadata@.dom().contains(conversation@),
        final(ai).history.changes.metadata@[conversation@] == old(clock).last + 1,
        final(titled).history.changes.extra@.len() == old(titled).history.changes.extra@.len() + 1,
        final(titled).history.changes.extra@.last().1@ is Rename,
        final(titled).history.changes.extra@.last().1@->Rename_conversation_id == conversation@,
        final(fresh).history.changes.created@.dom().contains(conversation@),
        final(fresh).history.changes.created@[conversation@] == old(dates).last + 1,
        final(clock).last == old(clock).last + 1,
        final(titles).last == old(titles).last + 1,
        final(dates).last == old(dates).last + 1,
{
}

/// An event is written once under its name: a later one takes its place.
pub proof fn law_events_are_queued_under_their_name(
    ai: &mut AiWorkspaceEntity,
    conversation: &str,
    family: &str,
    id: &str,
    event: HistoryEvent,
    clock: &mut RevisionClock,
    other: (Seq<char>, Seq<char>, Seq<char>),
)
    requires
        call_ensures(
            AiWorkspaceEntity::queue_history_event,
            (ai, conversation, family, id, event, clock),
            (),
        ),
        other != (conversation@, family@, id@),
    ensures
        ({
            let key = (conversation@, family@, id@);
            let after = final(ai).history.changes.events@;
            &&& after.dom().contains(key)
            &&& after[key] == (final(clock).last, event)
            &&& final(clock).last == old(clock).last + 1
            &&& after.dom().contains(other) <==> old(ai).history.changes.events@.dom().contains(other)
            &&& final(ai).history.asked().last() == Effect::Save
        }),
{
}

/// Who waits for the disk is answered at once where everything is on it, and otherwise waits for the
/// latest change.
pub proof fn law_waiters_wait_for_the_latest_change(ai: &mut AiWorkspaceEntity, waiter: u64)
    requires
        call_ensures(AiWorkspaceEntity::history_barrier, (ai, waiter), ()),
    ensures
        ({
            let before = old(ai).history;
            let met = before.status == HistoryStatus::Idle || (before.quitting && before.writer is None
                && before.changes.revision == 0) || (before.committed >= before.changes.revision
                && before.status == HistoryStatus::Ready && before.writes());
            let asked = final(ai).history.asked();
            &&& asked.len() == before.asked().len() + 1
            &&& met ==> asked.last() == (Effect::Answer { waiter, committed: true })
                && final(ai).history.waiters == before.waiters
            &&& !met ==> asked.last() == Effect::Save && final(ai).history.waiters@.len()
                == before.waiters@.len() + 1 && final(ai).history.waiters@.last() == (
                before.changes.revision,
                waiter,
            )
        }),
{
}

/// A save that is asked for is asked for, and nothing else changes.
pub proof fn law_saves_are_asked_for(ai: &mut AiWorkspaceEntity)
    requires
        call_ensures(AiWorkspaceEntity::request_history_save, (ai,), ()),
    ensures
        final(ai).history.asked() == old(ai).history.asked().push(Effect::Save),
        final(ai).history.changes == old(ai).history.changes,
        final(ai).conversation_state == old(ai).conversation_state,
{
}

/// A history that could not be read says so, and can be tried again.
pub proof fn law_unread_histories_can_be_tried_again(ai: &mut AiWorkspaceEntity)
    requires
        call_ensures(AiWorkspaceEntity::history_load_failed, (ai,), ()),
    ensures
        final(ai).chat_initialization_error is Some,
        final(ai).chat_initialization_error->0.can_retry,
        final(ai).chat_initialization_error->0.message_key@ == "ai.chat.load_failed_generic"@,
        final(ai).history == old(ai).history,
{
}

/// Opening the store makes what was asked for before late.
pub proof fn law_opening_makes_earlier_answers_late(ai: &mut AiWorkspaceEntity)
    requires
        call_ensures(AiWorkspaceEntity::initialize_history, (ai,), ()),
        ai.history.generation < u64::MAX,
    ensures
        final(ai).history.generation == old(ai).history.generation + 1,
        final(ai).history.status == HistoryStatus::Loading,
        final(ai).history.load_running,
        final(ai).history.asked().last() == (Effect::Open {
            generation: final(ai).history.generation,
        }),
        final(ai).history.asked().len() == old(ai).history.asked().len() + 1,
{
}

/// What the store says to an earlier question is not taken in.
pub proof fn law_answers_to_earlier_questions_are_dropped(
    ai: &mut AiWorkspaceEntity,
    generation: u64,
    store: Result<OpenedStore, ()>,
    clock: &mut RevisionClock,
    waiter: u64,
)
    requires
        call_ensures(
            AiWorkspaceEntity::apply_delivery,
            (ai, Delivery::Initialized { generation, store }, clock, waiter),
            (),
        ),
        generation != ai.history.generation,
    ensures
        *final(ai) == *old(ai),
        final(clock).last == old(clock).last,
{
}

/// A store that does not open leaves the history failed; one that opens lets the clock go on behind
/// what is in it.
pub proof fn law_opened_stores_set_the_clock(
    ai: &mut AiWorkspaceEntity,
    store: Result<OpenedStore, ()>,
    clock: &mut RevisionClock,
    waiter: u64,
)
    requires
        call_ensures(
            AiWorkspaceEntity::apply_delivery,
            (ai, Delivery::Initialized { generation: ai.history.generation, store }, clock, waiter),
            (),
        ),
    ensures
        store is Err ==> final(ai).history.status == HistoryStatus::Failed && final(
            ai).chat_initialization_error is Some && final(clock).last == old(clock).last,
        store matches Ok(opened) ==> final(clock).last >= opened.revision && final(clock).last
            >= old(clock).last && (final(clock).last == opened.revision || final(clock).last == old(
            clock).last),
        store matches Ok(opened) ==> opened.writer is None ==> final(ai).history.status
            == HistoryStatus::Failed,
{
}

/// A write that failed stops the history, and so does a writer that is not ready; a timer that rang is
/// over.
pub proof fn law_failed_writes_stop_the_history(
    ai: &mut AiWorkspaceEntity,
    clock: &mut RevisionClock,
    waiter: u64,
    other: &mut AiWorkspaceEntity,
    state: HistoryWriteState,
    third: &mut AiWorkspaceEntity,
)
    requires
        call_ensures(
            AiWorkspaceEntity::apply_delivery,
            (ai, Delivery::WriteFailed, clock, waiter),
            (),
        ),
        call_ensures(
            AiWorkspaceEntity::apply_delivery,
            (other, Delivery::WriteState(state), clock, waiter),
            (),
        ),
        call_ensures(
            AiWorkspaceEntity::apply_delivery,
            (third, Delivery::StreamSave, clock, waiter),
            (),
        ),
    ensures
        final(ai).history.status == HistoryStatus::Failed,
        !final(ai).history.write_running,
        final(ai).history.changes == old(ai).history.changes,
        final(other).history.status == HistoryStatus::Ready <==> state == HistoryWriteState::Ready,
        final(other).history.status == HistoryStatus::Failed <==> state != HistoryWriteState::Ready,
        final(other).history.writer is Some <==> old(other).history.writer is Some,
        !final(third).history.save_timer_running,
        final(third).history.changes == old(third).history.changes,
{
}

/// Runs that the store knows are added to those in memory, which win.
pub proof fn law_stored_runs_are_added(
    ai: &mut AiWorkspaceEntity,
    conversation: String,
    records: Vec<AgentRecord>,
    clock: &mut RevisionClock,
    waiter: u64,
    run: Seq<char>,
)
    requires
        call_ensures(
            AiWorkspaceEntity::apply_delivery,
            (
                ai,
                Delivery::Agents {
                    generation: ai.history.generation,
                    conversation,
                    records: Ok::<Vec<AgentRecord>, ()>(records),
                },
                clock,
                waiter,
            ),
            (),
        ),
        has_conversation(ai.conversation_state.conversations@, conversation@),
    ensures
        !final(ai).history.agents_load_running,
        old(ai).agents.records@.dom().contains(run) ==> final(ai).agents.records@.dom().contains(run)
            && final(ai).agents.records@[run] == old(ai).agents.records@[run],
        forall|i: int|
            0 <= i < records@.len() ==> final(ai).agents.records@.dom().contains(
                (#[trigger] records@[i]).snapshot.run.run_id@,
            ),
{
    lemma_runs_added(old(ai).agents.records@, records@, run);
}

proof fn lemma_runs_added(
    map: Map<Seq<char>, AgentRecord>,
    records: Seq<AgentRecord>,
    run: Seq<char>,
)
    ensures
        ({
            let all = crate::ai_state::deliveries::runs_added(map, records);
            &&& map.dom().contains(run) ==> all.dom().contains(run) && all[run] == map[run]
            &&& forall|i: int|
                0 <= i < records.len() ==> all.dom().contains(
                    (#[trigger] records[i]).snapshot.run.run_id@,
                )
        }),
    decreases records.len(),
{
    if records.len() > 0 {
        let rest = records.drop_last();
        lemma_runs_added(map, rest, run);
        let all = crate::ai_state::deliveries::runs_added(map, records);
        assert forall|i: int| 0 <= i < records.len() implies all.dom().contains(
            (#[trigger] records[i]).snapshot.run.run_id@,
        ) by {
            if i < rest.len() {
                assert(rest[i] == records[i]);
            }
        }
    }
}

/// An archive that is open is closed by a click, and any other is opened from its newest page.
pub proof fn law_archives_open_and_close(
    ai: &mut AiWorkspaceEntity,
    conversation: String,
    message: String,
    range: HistoryRange,
    waiter: u64,
)
    requires
        call_ensures(
            AiWorkspaceEntity::toggle_history_archive,
            (ai, conversation, message, range, waiter),
            (),
        ),
    ensures
        ({
            let key = (conversation@, message@);
            let open = old(ai).history.archives@.dom().contains(key) && old(
                ai).history.archives@[key].expanded && old(ai).history.archives@[key].range@ == range@;
            let now = final(ai).history.archives@[key];
            &&& final(ai).history.archives@.dom().contains(key)
            &&& now.expanded <==> !open
            &&& now.messages@.len() == 0
            &&& !open ==> now.range@ == range@
            &&& !open && old(ai).history.store_open ==> now.loading && final(
                ai).history.asked().last() is LoadArchive && final(
                ai).history.asked().last()->LoadArchive_conversation == conversation@ && final(
                ai).history.asked().last()->LoadArchive_message == message@ && final(
                ai).history.asked().last()->LoadArchive_before is None
            &&& open ==> final(ai).history.asked() == old(ai).history.asked()
        }),
{
}

/// An archive turns its pages where there are more, back through the pages it came by.
pub proof fn law_archives_turn_where_there_is_more(
    ai: &mut AiWorkspaceEntity,
    conversation: String,
    message: String,
    older: bool,
    waiter: u64,
)
    requires
        call_ensures(
            AiWorkspaceEntity::page_history_archive,
            (ai, conversation, message, older, waiter),
            (),
        ),
        ai.history.archives@.dom().contains((conversation@, message@)),
    ensures
        ({
            let key = (conversation@, message@);
            let view = old(ai).history.archives@[key];
            let now = final(ai).history.archives@[key];
            &&& view.loading ==> *final(ai) == *old(ai)
            &&& older && view.before is None ==> *final(ai) == *old(ai)
            &&& !older && view.cursors@.len() <= 1 ==> *final(ai) == *old(ai)
            &&& !view.loading && older && view.before is Some && old(ai).history.store_open ==> {
                &&& now.cursors@ == view.cursors@.push(view.before)
                &&& now.loading
                &&& final(ai).history.asked().last() is LoadArchive
                &&& final(ai).history.asked().last()->LoadArchive_before == view.before
            }
            &&& !view.loading && !older && view.cursors@.len() > 1 && old(ai).history.store_open
                ==> now.cursors@ == view.cursors@.drop_last() && now.loading
        }),
{
}

/// A page of an archive is shown where it is awaited, and otherwise dropped.
pub proof fn law_archive_pages_are_shown_where_awaited(ai: &mut AiWorkspaceEntity, delivery: ArchiveDelivery)
    requires
        call_ensures(AiWorkspaceEntity::apply_history_archive, (ai, delivery), ()),
    ensures
        ({
            let key = (delivery.conversation@, delivery.message@);
            let view = old(ai).history.archives@[key];
            let now = final(ai).history.archives@[key];
            let awaited = delivery.generation == old(ai).history.generation && old(
                ai).history.archives@.dom().contains(key) && view.expanded && view.range@
                == delivery.range@ && view.revision == delivery.revision;
            &&& !awaited ==> *final(ai) == *old(ai)
            &&& awaited ==> !now.loading
            &&& awaited && delivery.result is Err ==> now.failed && now.messages == view.messages
            &&& awaited && delivery.result is Ok ==> now.messages == delivery.result->Ok_0.messages
                && now.before == delivery.result->Ok_0.before && now.failed == view.failed
        }),
{
}

/// Once loads are cancelled, answers to them are late and nothing is on its way.
pub proof fn law_cancelled_loads_are_over(ai: &mut AiWorkspaceEntity, id: Seq<char>)
    requires
        call_ensures(AiWorkspaceEntity::cancel_history_page_loads, (ai,), ()),
        ai.history.pages@.dom().contains(id),
        ai.history.generation < u64::MAX,
        ai.history.page_generation < u64::MAX,
    ensures
        final(ai).history.generation == old(ai).history.generation + 1,
        final(ai).history.page_generation == old(ai).history.page_generation + 1,
        final(ai).history.pages@.dom().contains(id),
        !final(ai).history.pages@[id].loading,
        final(ai).history.pages@[id].descriptions == old(ai).history.pages@[id].descriptions,
        !final(ai).history.load_running,
        !final(ai).history.agents_load_running,
        final(ai).history.changes == old(ai).history.changes,
{
}

/// A text stays in memory while its row is on show, and rows that are not are let go of.
pub proof fn law_texts_stay_while_they_are_on_show(
    ai: &mut AiWorkspaceEntity,
    conversation: String,
    message: Seq<char>,
)
    requires
        call_ensures(
            AiWorkspaceEntity::release_hidden_history_bodies,
            (ai, HistoryViewOwner::Main(conversation)),
            (),
        ),
        ai.history.pages@.dom().contains(conversation@),
    ensures
        ({
            let before = old(ai).history.pages@[conversation@];
            let after = final(ai).history.pages@[conversation@];
            &&& after.body_leases@.dom().contains(message) <==> before.body_leases@.dom().contains(
                message,
            ) && before.visible_bodies@.dom().contains(message)
            &&& !after.visible_bodies@.dom().contains(message)
            &&& !after.body_cleanup_scheduled
        }),
{
}

/// A quit that is given up lets the history go on; nothing else changes.
pub proof fn law_resumed_histories_go_on(app: &mut WorkspaceApp)
    requires
        call_ensures(WorkspaceApp::resume_after_quit, (app,), ()),
    ensures
        !final(app).ai_entity.history.quitting,
        final(app).ai_entity.history.changes == old(app).ai_entity.history.changes,
        final(app).ai_entity.conversation_state == old(app).ai_entity.conversation_state,
{
}

} // verus!
