//! What is written to the store, and read back.

use vstd::prelude::*;

use crate::ai_state::entity::{AiWorkspaceEntity, Effect, PageDirection};
use crate::ai_state::journal::{
    HistoryEvent, JournalBatch, Mutation, RevisionClock,
};
use crate::ai_state::model::{conversation_position, has_conversation, AiConversation};
use crate::ai_state::pages::PageDelivery;
use crate::ai_state::writes_done::StreamBase;

verus! {

/// A conversation that is compacted goes on in a branch of its own, from its first message, and what
/// was not written of the old branch is not written any more; what agents wrote is.
pub proof fn law_compacted_histories_go_on_in_a_branch(
    ai: &mut AiWorkspaceEntity,
    id: &str,
    through: String,
    clock: &mut RevisionClock,
    at: int,
    message: Seq<char>,
)
    requires
        call_ensures(AiWorkspaceEntity::compact_history, (ai, id, through, clock), ()),
        0 <= at < ai.conversation_state.conversations@.len(),
        ai.conversation_state.conversations@[at].id@ == id@,
        forall|j: int|
            0 <= j < at ==> (#[trigger] ai.conversation_state.conversations@[j]).id@ != id@,
        ai.conversation_state.conversations@[at].messages@.len() > 0,
        clock.last < u64::MAX - 1,
    ensures
        ({
            let before = old(ai).history.changes;
            let after = final(ai).history.changes;
            let change = after.extra@.last().1@;
            &&& final(clock).last == old(clock).last + 2
            &&& after.extra@.len() == before.extra@.len() + 1
            &&& after.extra@.last().0 == old(clock).last + 1
            &&& change is Compact
            &&& change->Compact_conversation_id == id@
            &&& change->Compact_through_message == through@
            &&& change->Compact_source_branch == old(ai).history.branch_of(id@)
            &&& change->Compact_branch_id == final(ai).history.branch_of(id@)
            &&& change->Compact_revision == old(clock).last + 1
            &&& final(ai).history.branches@.dom().contains(id@)
            &&& after.messages@.dom().contains((id@, message)) <==> before.messages@.dom().contains(
                (id@, message),
            ) && old(ai).agents.message_runs@.dom().contains(message)
            &&& after.metadata@.dom().contains(id@)
            &&& final(ai).history.asked().last() == Effect::Save
        }),
{
    crate::ai_state::model::lemma_conversation_position(
        old(ai).conversation_state.conversations@,
        id@,
        at,
    );
}

/// A conversation without messages is not compacted, and one that is not there neither.
pub proof fn law_empty_histories_are_not_compacted(
    ai: &mut AiWorkspaceEntity,
    id: &str,
    through: String,
    clock: &mut RevisionClock,
)
    requires
        call_ensures(AiWorkspaceEntity::compact_history, (ai, id, through, clock), ()),
        forall|j: int|
            0 <= j < ai.conversation_state.conversations@.len() ==> (
            #[trigger] ai.conversation_state.conversations@[j]).id@ != id@,
    ensures
        *final(ai) == *old(ai),
        final(clock).last == old(clock).last,
{
    let conversations = old(ai).conversation_state.conversations@;
    crate::ai_state::model::lemma_conversation_position(
        conversations,
        id@,
        conversations.len() as int,
    );
}

/// An edit is written as the messages from its place on, behind the message before it.
pub proof fn law_edits_are_written_from_their_place(
    ai: &mut AiWorkspaceEntity,
    id: &str,
    first: usize,
    replaced: Option<&str>,
    clock: &mut RevisionClock,
    at: int,
)
    requires
        call_ensures(
            AiWorkspaceEntity::replace_history_tail,
            (ai, id, first, replaced, clock),
            (),
        ),
        0 <= at < ai.conversation_state.conversations@.len(),
        ai.conversation_state.conversations@[at].id@ == id@,
        forall|j: int|
            0 <= j < at ==> (#[trigger] ai.conversation_state.conversations@[j]).id@ != id@,
        first <= ai.conversation_state.conversations@[at].messages@.len(),
        clock.last < u64::MAX - 1,
    ensures
        ({
            let messages = old(ai).conversation_state.conversations@[at].messages@;
            let change = final(ai).history.changes.extra@.last().1@;
            &&& final(clock).last == old(clock).last + 2
            &&& change is ReplaceTail
            &&& change->ReplaceTail_conversation_id == id@
            &&& change->ReplaceTail_source_branch == old(ai).history.branch_of(id@)
            &&& change->ReplaceTail_messages.len() == messages.len() - first
            &&& first > 0 ==> change->after_message == Some(messages[first - 1].id@)
                && change->before_message is None
            &&& first == 0 ==> change->after_message is None
            &&& first == 0 && replaced is Some ==> change->before_message == Some(replaced->0@)
            &&& first == 0 && replaced is None ==> change->before_message is None
            &&& forall|i: int|
                0 <= i < messages.len() - first ==> #[trigger] change->ReplaceTail_messages[i]
                    == crate::ai::messages::said(messages[first + i])
        }),
{
    crate::ai_state::model::lemma_conversation_position(
        old(ai).conversation_state.conversations@,
        id@,
        at,
    );
}

/// A conversation is read from its newest page, and further pages are read in the direction asked for.
pub proof fn law_conversations_are_read_from_their_newest_page(
    ai: &mut AiWorkspaceEntity,
    id: String,
    other: &mut AiWorkspaceEntity,
    older: bool,
)
    requires
        call_ensures(AiWorkspaceEntity::request_history_conversation, (ai, id), ()),
        call_ensures(AiWorkspaceEntity::request_history_page, (other, id, older), ()),
        ai.history.page_generation < u64::MAX,
        other.history.page_generation < u64::MAX,
    ensures
        final(ai).history.asked().len() > old(ai).history.asked().len() ==> final(
            ai).history.asked().last() is LoadPage && final(
            ai).history.asked().last()->LoadPage_direction == PageDirection::Initial && final(
            ai).history.asked().last()->LoadPage_cursor is None && final(
            ai).history.asked().last()->LoadPage_conversation == id@,
        final(other).history.asked().len() > old(other).history.asked().len() && older ==> final(
            other).history.asked().last()->LoadPage_direction == PageDirection::Older && final(
            other).history.asked().last()->LoadPage_cursor == old(other).history.pages@[id@].before,
        final(other).history.asked().len() > old(other).history.asked().len() && !older ==> final(
            other).history.asked().last()->LoadPage_direction == PageDirection::Newer && final(
            other).history.asked().last()->LoadPage_cursor == old(other).history.pages@[id@].after,
        old(ai).history.quitting || !old(ai).history.store_open ==> *final(ai) == *old(ai),
        old(other).history.quitting || !old(other).history.store_open ==> *final(other) == *old(other),
{
}

/// What is read again while the newest message is followed is the newest page.
pub proof fn law_followed_histories_are_read_from_the_newest(ai: &mut AiWorkspaceEntity, id: String)
    requires
        call_ensures(AiWorkspaceEntity::refresh_history_page, (ai, id), ()),
        ai.history.page_generation < u64::MAX,
        ai.chat_ui.following_tail || !ai.history.pages@.dom().contains(id@),
    ensures
        final(ai).history.asked().len() > old(ai).history.asked().len() ==> final(
            ai).history.asked().last() is LoadPage && final(
            ai).history.asked().last()->LoadPage_direction == PageDirection::Initial,
{
}

/// A page that was not asked for last, or of a conversation that is not on show, is dropped.
pub proof fn law_late_pages_are_dropped(ai: &mut AiWorkspaceEntity, delivery: PageDelivery)
    requires
        call_ensures(AiWorkspaceEntity::apply_history_page, (ai, delivery), ()),
        delivery.generation != ai.history.page_generation
            || ai.conversation_state.active_conversation_id is None
            || ai.conversation_state.active_conversation_id->0@ != delivery.id@,
    ensures
        *final(ai) == *old(ai),
{
}

/// A text is asked for where the message is listed and the store is open, with the message's place in
/// the store, and once unless it is tried again.
pub proof fn law_texts_are_asked_for_once(
    ai: &mut AiWorkspaceEntity,
    conversation: String,
    message: String,
    section: Option<u64>,
    retry: bool,
)
    requires
        call_ensures(
            AiWorkspaceEntity::request_history_body,
            (ai, conversation, message, section, retry, false),
            (),
        ),
    ensures
        ({
            let known = old(ai).history.pages@.dom().contains(conversation@);
            let page = old(ai).history.pages@[conversation@];
            let listed = known && page.descriptions@.dom().contains(message@);
            let tried = page.body_tasks@.dom().contains(message@) || page.body_errors@.dom().contains(
                message@,
            );
            let asks = old(ai).history.store_open && listed && (retry || !tried);
            let effect = final(ai).history.asked().last();
            &&& !asks ==> *final(ai) == *old(ai)
            &&& asks ==> {
                &&& final(ai).history.asked().len() == old(ai).history.asked().len() + 1
                &&& effect is LoadBody
                &&& effect->LoadBody_message == message@
                &&& effect->LoadBody_storage_id == page.descriptions@[message@].storage_id@
                &&& effect->LoadBody_revision == page.descriptions@[message@].revision
                &&& effect->LoadBody_generation == old(ai).history.generation
                &&& section is Some ==> effect->LoadBody_section == section
            }
        }),
{
}

/// A write that is on disk is done: the store has at least its revision, and what changed up to it is
/// no longer to be written.
pub proof fn law_written_changes_are_done(
    ai: &mut AiWorkspaceEntity,
    revision: u64,
    streams: Vec<StreamBase>,
    waiter: u64,
    key: (Seq<char>, Seq<char>),
    conversation: Seq<char>,
)
    requires
        call_ensures(AiWorkspaceEntity::apply_written, (ai, revision, streams, waiter), ()),
    ensures
        ({
            let before = old(ai).history;
            let after = final(ai).history;
            &&& !after.write_running
            &&& after.committed >= revision && after.committed >= before.committed
            &&& after.committed == revision || after.committed == before.committed
            &&& after.changes.messages@.dom().contains(key) <==> before.changes.messages@.dom().contains(
                key,
            ) && before.changes.messages@[key] > revision
            &&& after.changes.deleted@.dom().contains(conversation)
                <==> before.changes.deleted@.dom().contains(conversation)
                && before.changes.deleted@[conversation] > revision
            &&& after.changes.created@.dom().contains(conversation)
                <==> before.changes.created@.dom().contains(conversation)
                && before.changes.created@[conversation] > revision
        }),
{
}

/// Everything that changed is written: conversations that are new, those that changed, what was
/// queued, and those that were deleted.
pub proof fn law_all_changes_are_written(ai: &AiWorkspaceEntity, res: JournalBatch, at: int)
    requires
        call_ensures(AiWorkspaceEntity::history_operations, (ai,), res),
        ai.wf(),
    ensures
        ({
            let changes = ai.history.changes;
            let writes = crate::ai_state::journal::mutations_view(res.operations@);
            &&& res.revision == changes.revision
            &&& 0 <= at < changes.extra@.len() ==> writes.contains(changes.extra@[at].1@)
            &&& 0 <= at < changes.deleted.entries@.len() ==> writes.contains(
                Mutation::DeleteConversation {
                    conversation_id: changes.deleted.entries@[at].0@,
                    revision: changes.deleted.entries@[at].1,
                },
            )
            &&& 0 <= at < changes.events.entries@.len() ==> writes.contains(
                Mutation::PutEvent {
                    conversation_id: changes.events.entries@[at].0.0@,
                    family: changes.events.entries@[at].0.1@,
                    id: changes.events.entries@[at].0.2@,
                    event: changes.events.entries@[at].1.1@,
                    revision: changes.events.entries@[at].1.0,
                },
            )
            &&& 0 <= at < changes.created.entries@.len() && has_conversation(
                ai.conversation_state.conversations@,
                changes.created.entries@[at].0@,
            ) ==> creates(
                writes,
                changes.created.entries@[at].0@,
                changes.created.entries@[at].1,
            )
        }),
{
    let changes = ai.history.changes;
    let conversations = ai.conversation_state.conversations@;
    let writes = crate::ai_state::journal::mutations_view(res.operations@);
    let created = crate::ai_state::writes::card_writes(changes.created.entries@, conversations, true);
    let carded = crate::ai_state::writes::card_writes(
        changes.metadata.entries@,
        conversations,
        false,
    );
    let extra = crate::ai_state::writes::extra_writes(changes.extra@);
    let ordered = crate::ai_state::writes::events_in_order(changes.events.entries@);
    let events = ordered.map_values(|write: (u64, Mutation)| write.1);
    let deleted = crate::ai_state::writes::deletions(changes.deleted.entries@);
    assert(writes == created + carded + extra + events + deleted);
    let first: int = created.len() + carded.len() as int;
    if 0 <= at < changes.extra@.len() {
        assert(writes[first + at] == changes.extra@[at].1@);
    }
    if 0 <= at < changes.deleted.entries@.len() {
        assert(writes[first + extra.len() + events.len() + at] == deleted[at]);
    }
    if 0 <= at < changes.events.entries@.len() {
        lemma_events(changes.events.entries@, at);
        let write = crate::ai_state::writes::event_write(changes.events.entries@[at]);
        let i = choose|i: int| 0 <= i < ordered.len() && ordered[i] == write;
        assert(events[i] == write.1);
        assert(writes[first + extra.len() + i] == write.1);
    }
    if 0 <= at < changes.created.entries@.len() && has_conversation(
        conversations,
        changes.created.entries@[at].0@,
    ) {
        lemma_cards(changes.created.entries@, conversations, at);
        let i = choose|i: int|
            {
                &&& 0 <= i < created.len()
                &&& #[trigger] created[i] is Create
                &&& created[i]->Create_conversation.id == changes.created.entries@[at].0@
                &&& created[i]->Create_revision == changes.created.entries@[at].1
            };
        assert(writes[i] == created[i]);
    }
}

proof fn lemma_events(
    entries: Seq<((String, String, String), (u64, HistoryEvent))>,
    at: int,
)
    requires
        0 <= at < entries.len(),
    ensures
        crate::ai_state::writes::events_in_order(entries).contains(
            crate::ai_state::writes::event_write(entries[at]),
        ),
    decreases entries.len(),
{
    let rest = entries.drop_last();
    let earlier = crate::ai_state::writes::events_in_order(rest);
    let all = crate::ai_state::writes::events_in_order(entries);
    let write = crate::ai_state::writes::event_write(entries.last());
    let place = crate::ai_state::writes::revision_place(earlier, write.0);
    lemma_revision_place(earlier, write.0);
    assert(all == earlier.insert(place, write));
    if at == entries.len() - 1 {
        assert(all[place] == write);
    } else {
        lemma_events(rest, at);
        let wanted = crate::ai_state::writes::event_write(entries[at]);
        assert(rest[at] == entries[at]);
        let i = choose|i: int| 0 <= i < earlier.len() && earlier[i] == wanted;
        if i < place {
            assert(all[i] == wanted);
        } else {
            assert(all[i + 1] == wanted);
        }
    }
}

proof fn lemma_revision_place(writes: Seq<(u64, Mutation)>, revision: u64)
    ensures
        0 <= crate::ai_state::writes::revision_place(writes, revision) <= writes.len(),
    decreases writes.len(),
{
    if writes.len() > 0 && writes[0].0 <= revision {
        lemma_revision_place(writes.drop_first(), revision);
    }
}

/// Whether a conversation is created under a revision.
pub open spec fn creates(writes: Seq<Mutation>, id: Seq<char>, revision: u64) -> bool {
    exists|i: int|
        {
            &&& 0 <= i < writes.len()
            &&& #[trigger] writes[i] is Create
            &&& writes[i]->Create_conversation.id == id
            &&& writes[i]->Create_revision == revision
        }
}

proof fn lemma_cards(entries: Seq<(String, u64)>, conversations: Seq<AiConversation>, at: int)
    requires
        0 <= at < entries.len(),
        has_conversation(conversations, entries[at].0@),
    ensures
        creates(
            crate::ai_state::writes::card_writes(entries, conversations, true),
            entries[at].0@,
            entries[at].1,
        ),
    decreases entries.len(),
{
    let rest = entries.drop_last();
    let earlier = crate::ai_state::writes::card_writes(rest, conversations, true);
    let all = crate::ai_state::writes::card_writes(entries, conversations, true);
    if at == entries.len() - 1 {
        let id = entries[at].0@;
        lemma_found(conversations, id);
        assert(all[earlier.len() as int] is Create);
    } else {
        assert(rest[at] == entries[at]);
        lemma_cards(rest, conversations, at);
        let i = choose|i: int|
            {
                &&& 0 <= i < earlier.len()
                &&& #[trigger] earlier[i] is Create
                &&& earlier[i]->Create_conversation.id == entries[at].0@
                &&& earlier[i]->Create_revision == entries[at].1
            };
        assert(all[i] == earlier[i]);
    }
}

proof fn lemma_found(conversations: Seq<AiConversation>, id: Seq<char>)
    requires
        has_conversation(conversations, id),
    ensures
        0 <= conversation_position(conversations, id) < conversations.len(),
        conversations[conversation_position(conversations, id)].id@ == id,
    decreases conversations.len(),
{
    if conversations.len() > 0 && conversations[0].id@ != id {
        let rest = conversations.drop_first();
        let i = choose|i: int| 0 <= i < conversations.len() && (#[trigger] conversations[i]).id@ == id;
        assert(rest[i - 1].id@ == id);
        lemma_found(rest, id);
    }
}

} // verus!
