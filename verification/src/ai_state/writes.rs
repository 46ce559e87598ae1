//! Writing the journal: which changes go to the store, and in which order.

use vstd::prelude::*;

use crate::ai::messages::{find_message, message_position, said, said_all, AiChatMessage};
use crate::ai_state::entity::{
    batch_view, pending_list_view, pending_view, AiHistoryState, AiWorkspaceEntity, Batch, Effect,
    HistoryEffect, HistoryStatus, PendingView,
};
use crate::ai_state::journal::{
    mutations_view, HistoryEvent, HistoryMutation, JournalBatch, Mutation, PendingMessage,
};
use crate::ai_state::model::{conversation_position, find_conversation, AiConversation};
use crate::table::Table;
use crate::text;

verus! {

/// The writes of conversations' own data: those of conversations that are still there.
pub open spec fn card_writes(
    entries: Seq<(String, u64)>,
    conversations: Seq<AiConversation>,
    created: bool,
) -> Seq<Mutation>
    decreases entries.len(),
{
    if entries.len() == 0 {
        Seq::empty()
    } else {
        let earlier = card_writes(entries.drop_last(), conversations, created);
        let (id, revision) = entries.last();
        let at = conversation_position(conversations, id@);
        if at < conversations.len() {
            let conversation = conversations[at].card();
            let messages = Seq::empty();
            earlier.push(
                if created {
                    Mutation::Create { conversation, messages, loaded: false, revision }
                } else {
                    Mutation::Metadata { conversation, messages, loaded: false, revision }
                },
            )
        } else {
            earlier
        }
    }
}

pub open spec fn extra_writes(extra: Seq<(u64, HistoryMutation)>) -> Seq<Mutation> {
    extra.map_values(|entry: (u64, HistoryMutation)| entry.1@)
}

/// An event that waits to be written.
pub open spec fn event_write(entry: ((String, String, String), (u64, HistoryEvent))) -> (u64, Mutation) {
    (
        entry.1.0,
        Mutation::PutEvent {
            conversation_id: entry.0.0@,
            family: entry.0.1@,
            id: entry.0.2@,
            event: entry.1.1@,
            revision: entry.1.0,
        },
    )
}

/// How many of the first writes of a list have a revision up to `revision`.
pub open spec fn revision_place(writes: Seq<(u64, Mutation)>, revision: u64) -> int
    decreases writes.len(),
{
    if writes.len() == 0 || writes[0].0 > revision {
        0
    } else {
        1 + revision_place(writes.drop_first(), revision)
    }
}

/// The events, each in the place of its revision.
pub open spec fn events_in_order(entries: Seq<((String, String, String), (u64, HistoryEvent))>) -> Seq<(u64, Mutation)>
    decreases entries.len(),
{
    if entries.len() == 0 {
        Seq::empty()
    } else {
        let earlier = events_in_order(entries.drop_last());
        let write = event_write(entries.last());
        earlier.insert(revision_place(earlier, write.0), write)
    }
}

pub open spec fn deletions(entries: Seq<(String, u64)>) -> Seq<Mutation> {
    entries.map_values(
        |entry: (String, u64)|
            Mutation::DeleteConversation { conversation_id: entry.0@, revision: entry.1 },
    )
}

/// Events are written in the order in which they happened.
pub proof fn law_events_are_written_in_order(
    entries: Seq<((String, String, String), (u64, HistoryEvent))>,
    i: int,
    j: int,
)
    requires
        0 <= i <= j < events_in_order(entries).len(),
    ensures
        events_in_order(entries)[i].0 <= events_in_order(entries)[j].0,
{
    lemma_events_sorted(entries);
}

proof fn lemma_events_sorted(entries: Seq<((String, String, String), (u64, HistoryEvent))>)
    ensures
        forall|i: int, j: int|
            0 <= i <= j < events_in_order(entries).len() ==> (#[trigger] events_in_order(entries)[i]).0
                <= (#[trigger] events_in_order(entries)[j]).0,
        events_in_order(entries).len() == entries.len(),
    decreases entries.len(),
{
    if entries.len() > 0 {
        lemma_events_sorted(entries.drop_last());
        let earlier = events_in_order(entries.drop_last());
        let write = event_write(entries.last());
        lemma_revision_place(earlier, write.0);
        let at = revision_place(earlier, write.0);
        let now = earlier.insert(at, write);
        assert forall|i: int, j: int| 0 <= i <= j < now.len() implies (#[trigger] now[i]).0 <= (
        #[trigger] now[j]).0 by {
            let a = if i < at {
                i
            } else {
                i - 1
            };
            let b = if j < at {
                j
            } else {
                j - 1
            };
            if i != at && j != at {
                assert(now[i] == earlier[a]);
                assert(now[j] == earlier[b]);
                assert(earlier[a].0 <= earlier[b].0);
            } else if i == at && j != at {
                assert(now[j] == earlier[b]);
                assert(earlier[at].0 <= earlier[b].0);
            } else if i != at {
                assert(now[i] == earlier[a]);
            }
        }
    }
}

proof fn lemma_revision_place(writes: Seq<(u64, Mutation)>, revision: u64)
    ensures
        0 <= revision_place(writes, revision) <= writes.len(),
        forall|j: int| 0 <= j < revision_place(writes, revision) ==> (#[trigger] writes[j]).0 <= revision,
        revision_place(writes, revision) < writes.len() ==> writes[revision_place(writes, revision)].0
            > revision,
    decreases writes.len(),
{
    if writes.len() > 0 && writes[0].0 <= revision {
        let rest = writes.drop_first();
        lemma_revision_place(rest, revision);
        assert forall|j: int| 0 <= j < revision_place(writes, revision) implies (#[trigger] writes[j]).0
            <= revision by {
            if j > 0 {
                assert(rest[j - 1] == writes[j]);
            }
        }
    }
}

proof fn lemma_revision_place_at(writes: Seq<(u64, Mutation)>, revision: u64, at: int)
    requires
        0 <= at <= writes.len(),
        forall|j: int| 0 <= j < at ==> (#[trigger] writes[j]).0 <= revision,
        at < writes.len() ==> writes[at].0 > revision,
    ensures
        revision_place(writes, revision) == at,
    decreases writes.len(),
{
    if at > 0 {
        assert(writes[0].0 <= revision);
        let rest = writes.drop_first();
        assert forall|j: int| 0 <= j < at - 1 implies (#[trigger] rest[j]).0 <= revision by {
            assert(rest[j] == writes[j + 1]);
        }
        if at < writes.len() {
            assert(rest[at - 1] == writes[at]);
        }
        lemma_revision_place_at(rest, revision, at - 1);
    }
}

/// A pending message and its place among the messages of its branch.
pub struct PendingSlot {
    pub index: usize,
    pub pending: PendingMessage,
}

pub open spec fn slot_view(slot: PendingSlot) -> (int, PendingView) {
    (slot.index as int, pending_view(slot.pending))
}

pub open spec fn slots_view(slots: Seq<PendingSlot>) -> Seq<(int, PendingView)> {
    slots.map_values(|slot: PendingSlot| slot_view(slot))
}

/// Whether a pending message goes before another: by conversation, by branch, and then as they
/// follow each other there.
pub open spec fn goes_before(a: (int, PendingView), b: (int, PendingView)) -> bool {
    ||| text::text_before(a.1.conversation, b.1.conversation)
    ||| a.1.conversation == b.1.conversation && text::text_before(a.1.branch, b.1.branch)
    ||| a.1.conversation == b.1.conversation && a.1.branch == b.1.branch && a.0 < b.0
}

/// How many of the first slots do not go behind a new one.
pub open spec fn slot_place(slots: Seq<(int, PendingView)>, slot: (int, PendingView)) -> int
    decreases slots.len(),
{
    if slots.len() == 0 || goes_before(slot, slots[0]) {
        0
    } else {
        1 + slot_place(slots.drop_first(), slot)
    }
}

proof fn lemma_slot_place_at(slots: Seq<(int, PendingView)>, slot: (int, PendingView), at: int)
    requires
        0 <= at <= slots.len(),
        forall|j: int| 0 <= j < at ==> !goes_before(slot, #[trigger] slots[j]),
        at < slots.len() ==> goes_before(slot, slots[at]),
    ensures
        slot_place(slots, slot) == at,
    decreases slots.len(),
{
    if at > 0 {
        assert(!goes_before(slot, slots[0]));
        let rest = slots.drop_first();
        assert forall|j: int| 0 <= j < at - 1 implies !goes_before(slot, #[trigger] rest[j]) by {
            assert(rest[j] == slots[j + 1]);
        }
        if at < slots.len() {
            assert(rest[at - 1] == slots[at]);
        }
        lemma_slot_place_at(rest, slot, at - 1);
    }
}

fn slot_goes_before(a: &PendingSlot, b: &PendingSlot) -> (res: bool)
    ensures
        res == goes_before(slot_view(*a), slot_view(*b)),
{
    if text::before(a.pending.conversation.as_str(), b.pending.conversation.as_str()) {
        return true;
    }
    if !text::same(a.pending.conversation.as_str(), b.pending.conversation.as_str()) {
        return false;
    }
    if text::before(a.pending.branch.as_str(), b.pending.branch.as_str()) {
        return true;
    }
    text::same(a.pending.branch.as_str(), b.pending.branch.as_str()) && a.index < b.index
}

fn insert_slot(slots: &mut Vec<PendingSlot>, slot: PendingSlot)
    ensures
        slots_view(final(slots)@) == slots_view(old(slots)@).insert(
            slot_place(slots_view(old(slots)@), slot_view(slot)),
            slot_view(slot),
        ),
{
    let ghost before = slots_view(slots@);
    let mut at: usize = 0;
    while at < slots.len() && !slot_goes_before(&slot, &slots[at])
        invariant
            at <= slots.len(),
            slots@ == old(slots)@,
            before == slots_view(slots@),
            forall|j: int| 0 <= j < at ==> !goes_before(slot_view(slot), #[trigger] before[j]),
        decreases slots.len() - at,
    {
        assert(before[at as int] == slot_view(slots@[at as int]));
        at += 1;
    }
    proof {
        if at < slots@.len() {
            assert(before[at as int] == slot_view(slots@[at as int]));
        }
        lemma_slot_place_at(before, slot_view(slot), at as int);
    }
    slots.insert(at, slot);
    assert(slots_view(slots@) =~= before.insert(at as int, slot_view(slot)));
}

fn insert_event(events: &mut Vec<(u64, HistoryMutation)>, revision: u64, mutation: HistoryMutation)
    ensures
        crate::ai_state::editing::extra_view(final(events)@)
            == crate::ai_state::editing::extra_view(old(events)@).insert(
            revision_place(crate::ai_state::editing::extra_view(old(events)@), revision),
            (revision, mutation@),
        ),
{
    let ghost before = crate::ai_state::editing::extra_view(events@);
    let mut at: usize = 0;
    while at < events.len() && events[at].0 <= revision
        invariant
            at <= events.len(),
            events@ == old(events)@,
            before == crate::ai_state::editing::extra_view(events@),
            forall|j: int| 0 <= j < at ==> (#[trigger] before[j]).0 <= revision,
        decreases events.len() - at,
    {
        assert(before[at as int].0 == events@[at as int].0);
        at += 1;
    }
    proof {
        if at < events@.len() {
            assert(before[at as int].0 == events@[at as int].0);
        }
        lemma_revision_place_at(before, revision, at as int);
    }
    let ghost said = mutation@;
    events.insert(at, (revision, mutation));
    assert(crate::ai_state::editing::extra_view(events@) =~= before.insert(
        at as int,
        (revision, said),
    ));
}

fn push_cards(
    operations: &mut Vec<HistoryMutation>,
    table: &Table<String, u64>,
    conversations: &Vec<AiConversation>,
    created: bool,
)
    ensures
        mutations_view(final(operations)@) == mutations_view(old(operations)@) + card_writes(
            table.entries@,
            conversations@,
            created,
        ),
{
    let ghost start = mutations_view(operations@);
    let mut i: usize = 0;
    assert(table.entries@.take(0) =~= Seq::<(String, u64)>::empty());
    assert(start + Seq::<Mutation>::empty() =~= start);
    while i < table.entries.len()
        invariant
            i <= table.entries.len(),
            mutations_view(operations@) == start + card_writes(
                table.entries@.take(i as int),
                conversations@,
                created,
            ),
        decreases table.entries.len() - i,
    {
        let ghost done = card_writes(table.entries@.take(i as int), conversations@, created);
        let ghost before = operations@;
        assert(table.entries@.take(i + 1).drop_last() =~= table.entries@.take(i as int));
        let entry = &table.entries[i];
        match find_conversation(conversations, entry.0.as_str()) {
            Some(at) => {
                let conversation = conversations[at].metadata();
                assert(said_all(conversation.messages@) =~= Seq::empty());
                let mutation = if created {
                    HistoryMutation::Create { conversation, revision: entry.1 }
                } else {
                    HistoryMutation::Metadata { conversation, revision: entry.1 }
                };
                let ghost said = mutation@;
                operations.push(mutation);
                assert(mutations_view(operations@) =~= mutations_view(before).push(said));
                assert(start + done.push(said) =~= mutations_view(before).push(said));
            },
            None => {},
        }
        i += 1;
    }
    assert(table.entries@.take(i as int) =~= table.entries@);
}

impl AiWorkspaceEntity {
    /// Where a pending message stands: with its agent's run, or in the conversation.
    pub open spec fn pending_source(self, conversation: Seq<char>, message: Seq<char>) -> Option<Seq<AiChatMessage>> {
        let runs = self.agents.message_runs@;
        let records = self.agents.records@;
        if runs.dom().contains(message) && records.dom().contains(runs[message].run@)
            && records[runs[message].run@].snapshot.conversation_id@ == conversation {
            Some(records[runs[message].run@].messages@)
        } else {
            let at = conversation_position(self.conversation_state.conversations@, conversation);
            if at < self.conversation_state.conversations@.len() {
                Some(self.conversation_state.conversations@[at].messages@)
            } else {
                None
            }
        }
    }

    /// A pending message as it is written; `None` where it is no longer there.
    pub open spec fn pending_slot(self, conversation: Seq<char>, message: Seq<char>, revision: u64) -> Option<(int, PendingView)> {
        match self.pending_source(conversation, message) {
            Some(messages) => {
                let at = message_position(messages, message);
                let key = (conversation, message);
                let bases = self.history.changes.stream_bases@;
                if at < messages.len() {
                    Some(
                        (
                            at,
                            PendingView {
                                conversation,
                                branch: self.message_branch(conversation, message),
                                message: said(messages[at]),
                                revision,
                                base: if !self.history.write_running && bases.dom().contains(key) {
                                    Some(bases[key])
                                } else {
                                    None
                                },
                                structural: self.history.changes.full_messages@.dom().contains(key),
                            },
                        ),
                    )
                } else {
                    None
                }
            },
            None => None,
        }
    }

    /// The pending messages, each in its place.
    pub open spec fn pending_in_order(self, entries: Seq<((String, String), u64)>) -> Seq<(int, PendingView)>
        decreases entries.len(),
    {
        if entries.len() == 0 {
            Seq::empty()
        } else {
            let earlier = self.pending_in_order(entries.drop_last());
            let (key, revision) = entries.last();
            match self.pending_slot(key.0@, key.1@, revision) {
                Some(slot) => earlier.insert(slot_place(earlier, slot), slot),
                None => earlier,
            }
        }
    }

    /// Everything that waits to be written.
    pub open spec fn journal(self) -> Batch {
        let changes = self.history.changes;
        let conversations = self.conversation_state.conversations@;
        Batch {
            revision: changes.revision,
            operations: card_writes(changes.created.entries@, conversations, true) + card_writes(
                changes.metadata.entries@,
                conversations,
                false,
            ) + extra_writes(changes.extra@) + events_in_order(changes.events.entries@).map_values(
                |write: (u64, Mutation)| write.1,
            ) + deletions(changes.deleted.entries@),
            streams: Seq::empty(),
            pending: self.pending_in_order(changes.messages.entries@).map_values(
                |slot: (int, PendingView)| slot.1,
            ),
        }
    }

    fn find_pending(&self, conversation: &String, message: &String, revision: u64) -> (res: Option<PendingSlot>)
        requires
            self.wf(),
        ensures
            match res {
                Some(slot) => self.pending_slot(conversation@, message@, revision) == Some(slot_view(slot)),
                None => self.pending_slot(conversation@, message@, revision) is None,
            },
    {
        let own = match self.agents.message_runs.get(message) {
            Some(owner) => match self.agents.records.get(&owner.run) {
                Some(record) => if text::same(
                    record.snapshot.conversation_id.as_str(),
                    conversation.as_str(),
                ) {
                    Some(&record.messages)
                } else {
                    None
                },
                None => None,
            },
            None => None,
        };
        let messages = match own {
            Some(messages) => messages,
            None => match find_conversation(
                &self.conversation_state.conversations,
                conversation.as_str(),
            ) {
                Some(at) => &self.conversation_state.conversations[at].messages,
                None => {
                    return None;
                },
            },
        };
        let index = match find_message(messages, message.as_str()) {
            Some(index) => index,
            None => {
                return None;
            },
        };
        let key = (conversation.clone(), message.clone());
        let base = if self.history.write_running {
            None
        } else {
            match self.history.changes.stream_bases.get(&key) {
                Some(base) => Some(*base),
                None => None,
            }
        };
        Some(
            PendingSlot {
                index,
                pending: PendingMessage {
                    conversation: conversation.clone(),
                    branch: self.history_message_branch(conversation.as_str(), message.as_str()),
                    message: messages[index].duplicate(),
                    revision,
                    base,
                    structural: self.history.changes.full_messages.contains(&key),
                },
            },
        )
    }

    fn collect_pending(&self) -> (res: Vec<PendingMessage>)
        requires
            self.wf(),
        ensures
            pending_list_view(res@) == self.journal().pending,
    {
        let entries = &self.history.changes.messages.entries;
        let mut slots: Vec<PendingSlot> = Vec::new();
        let mut i: usize = 0;
        assert(entries@.take(0) =~= Seq::<((String, String), u64)>::empty());
        assert(slots_view(slots@) =~= Seq::<(int, PendingView)>::empty());
        while i < entries.len()
            invariant
                i <= entries.len(),
                self.wf(),
                slots_view(slots@) == self.pending_in_order(entries@.take(i as int)),
            decreases entries.len() - i,
        {
            assert(entries@.take(i + 1).drop_last() =~= entries@.take(i as int));
            let entry = &entries[i];
            match self.find_pending(&entry.0.0, &entry.0.1, entry.1) {
                Some(slot) => {
                    insert_slot(&mut slots, slot);
                },
                None => {},
            }
            i += 1;
        }
        assert(entries@.take(i as int) =~= entries@);
        let ghost all = slots_view(slots@);
        let mut out: Vec<PendingMessage> = Vec::new();
        let ghost mut done: int = 0;
        let ghost sorted = slots@;
        assert(slots@ =~= sorted.skip(0));
        while slots.len() > 0
            invariant
                0 <= done <= sorted.len(),
                slots@ == sorted.skip(done),
                out@.len() == done,
                all == slots_view(sorted),
                forall|j: int| 0 <= j < done ==> pending_view(#[trigger] out@[j]) == all[j].1,
            decreases slots@.len(),
        {
            let slot = slots.remove(0);
            assert(slot == sorted[done]);
            assert(slots@ =~= sorted.skip(done + 1));
            out.push(slot.pending);
            proof {
                done = done + 1;
            }
        }
        assert(pending_list_view(out@) =~= all.map_values(|slot: (int, PendingView)| slot.1));
        out
    }

    fn collect_events(&self) -> (res: Vec<(u64, HistoryMutation)>)
        ensures
            crate::ai_state::editing::extra_view(res@) == events_in_order(
                self.history.changes.events.entries@,
            ),
    {
        let entries = &self.history.changes.events.entries;
        let mut out: Vec<(u64, HistoryMutation)> = Vec::new();
        let mut i: usize = 0;
        assert(entries@.take(0) =~= Seq::<((String, String, String), (u64, HistoryEvent))>::empty());
        assert(crate::ai_state::editing::extra_view(out@) =~= Seq::<(u64, Mutation)>::empty());
        while i < entries.len()
            invariant
                i <= entries.len(),
                crate::ai_state::editing::extra_view(out@) == events_in_order(
                    entries@.take(i as int),
                ),
            decreases entries.len() - i,
        {
            assert(entries@.take(i + 1).drop_last() =~= entries@.take(i as int));
            let entry = &entries[i];
            let mutation = HistoryMutation::PutEvent {
                conversation_id: entry.0.0.clone(),
                family: entry.0.1.clone(),
                id: entry.0.2.clone(),
                event: entry.1.1.duplicate(),
                revision: entry.1.0,
            };
            insert_event(&mut out, entry.1.0, mutation);
            i += 1;
        }
        assert(entries@.take(i as int) =~= entries@);
        out
    }

    /// Collects everything that waits to be written: new conversations first, deletions last, and
    /// new messages in the order in which they follow each other.
    pub fn history_operations(&self) -> (res: JournalBatch)
        requires
            self.wf(),
        ensures
            batch_view(res) == self.journal(),
    {
        let changes = &self.history.changes;
        let mut operations: Vec<HistoryMutation> = Vec::new();
        let ghost empty = Seq::<Mutation>::empty();
        assert(mutations_view(operations@) =~= empty);
        push_cards(
            &mut operations,
            &changes.created,
            &self.conversation_state.conversations,
            true,
        );
        push_cards(
            &mut operations,
            &changes.metadata,
            &self.conversation_state.conversations,
            false,
        );
        let ghost cards = mutations_view(operations@);
        let ghost extra = extra_writes(changes.extra@);
        let mut i: usize = 0;
        assert(cards + extra.take(0) =~= cards);
        while i < changes.extra.len()
            invariant
                i <= changes.extra.len(),
                extra == extra_writes(changes.extra@),
                mutations_view(operations@) == cards + extra.take(i as int),
            decreases changes.extra.len() - i,
        {
            let ghost before = mutations_view(operations@);
            operations.push(changes.extra[i].1.duplicate());
            assert(mutations_view(operations@) =~= before.push(extra[i as int]));
            i += 1;
            assert(mutations_view(operations@) =~= cards + extra.take(i as int));
        }
        assert(extra.take(i as int) =~= extra);
        let mut events = self.collect_events();
        let ghost ordered = events@;
        let ghost writes = events_in_order(changes.events.entries@).map_values(
            |write: (u64, Mutation)| write.1,
        );
        assert(writes.len() == ordered.len());
        assert forall|j: int| 0 <= j < ordered.len() implies #[trigger] writes[j] == ordered[j].1@ by {
            assert(crate::ai_state::editing::extra_view(ordered)[j] == (ordered[j].0, ordered[j].1@));
        }
        let ghost middle = mutations_view(operations@);
        let ghost mut done: int = 0;
        assert(middle + writes.take(0) =~= middle);
        assert(events@ =~= ordered.skip(0));
        while events.len() > 0
            invariant
                0 <= done <= ordered.len(),
                events@ == ordered.skip(done),
                writes.len() == ordered.len(),
                forall|j: int| 0 <= j < ordered.len() ==> #[trigger] writes[j] == ordered[j].1@,
                mutations_view(operations@) == middle + writes.take(done),
            decreases events@.len(),
        {
            let ghost before = mutations_view(operations@);
            let (_, mutation) = events.remove(0);
            assert(mutation == ordered[done].1);
            assert(events@ =~= ordered.skip(done + 1));
            let ghost said = mutation@;
            operations.push(mutation);
            assert(mutations_view(operations@) =~= before.push(said));
            assert(writes[done] == said);
            assert(middle + writes.take(done + 1) =~= before.push(said));
            proof {
                done = done + 1;
            }
        }
        assert(writes.take(done) =~= writes);
        let pending = self.collect_pending();
        let ghost deleted = deletions(changes.deleted.entries@);
        let ghost so_far = mutations_view(operations@);
        let mut k: usize = 0;
        assert(so_far + deleted.take(0) =~= so_far);
        while k < changes.deleted.entries.len()
            invariant
                k <= changes.deleted.entries.len(),
                deleted == deletions(changes.deleted.entries@),
                mutations_view(operations@) == so_far + deleted.take(k as int),
            decreases changes.deleted.entries.len() - k,
        {
            let ghost before = mutations_view(operations@);
            let entry = &changes.deleted.entries[k];
            operations.push(
                HistoryMutation::DeleteConversation {
                    conversation_id: entry.0.clone(),
                    revision: entry.1,
                },
            );
            assert(mutations_view(operations@) =~= before.push(deleted[k as int]));
            k += 1;
            assert(mutations_view(operations@) =~= so_far + deleted.take(k as int));
        }
        assert(deleted.take(k as int) =~= deleted);
        assert(mutations_view(operations@) =~= self.journal().operations);
        let res = JournalBatch {
            revision: changes.revision,
            operations,
            streams: Vec::new(),
            pending,
        };
        assert(batch_view(res).streams =~= Seq::empty());
        res
    }

    /// Whether there is something to write and a writer to take it.
    pub open spec fn can_write(self) -> bool {
        &&& !self.history.write_running
        &&& self.history.status == HistoryStatus::Ready
        &&& self.history.writer is Some
        &&& self.journal().operations.len() > 0 || self.journal().pending.len() > 0
    }

    /// Hands what waits to the writer, one batch at a time.
    pub fn start_history_write(&mut self)
        requires
            old(self).wf(),
        ensures
            final(self).wf(),
            !old(self).can_write() ==> *final(self) == *old(self),
            old(self).can_write() ==> {
                &&& *final(self) == (AiWorkspaceEntity {
                    history: AiHistoryState {
                        write_running: true,
                        effects: final(self).history.effects,
                        ..old(self).history
                    },
                    ..*old(self)
                })
                &&& final(self).history.asked() == old(self).history.asked().push(
                    Effect::Write(old(self).journal()),
                )
            },
    {
        if self.history.write_running || self.history.status != HistoryStatus::Ready
            || self.history.writer.is_none() {
            return;
        }
        let batch = self.history_operations();
        assert(batch_view(batch).operations.len() == batch.operations@.len());
        assert(batch_view(batch).pending.len() == batch.pending@.len());
        if batch.operations.len() == 0 && batch.pending.len() == 0 {
            return;
        }
        self.history.write_running = true;
        self.history.ask(HistoryEffect::Write(batch));
    }

    /// An event of the batch that was handed out cannot be put into writing: nothing is written any
    /// more.
    pub fn refuse_history_write(&mut self)
        requires
            old(self).wf(),
            old(self).history.write_running,
        ensures
            final(self).wf(),
            *final(self) == (AiWorkspaceEntity {
                history: AiHistoryState {
                    write_running: false,
                    status: HistoryStatus::Failed,
                    ..old(self).history
                },
                ..*old(self)
            }),
            !final(self).can_write(),
    {
        self.history.write_running = false;
        self.history.status = HistoryStatus::Failed;
    }
}

} // verus!
