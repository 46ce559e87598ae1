//! Taking in what the agent runtime says of its runs, and putting it into the journal.

use vstd::prelude::*;

use crate::ai::messages::AiChatMessage;
use crate::ai_state::agent_records::{
    can_count, counted_up, find_parent_usage, is_newer, names_view, off_model, refreshed, remodel,
    says_more, usage_beside, AgentUpdate, MessageName,
};
use crate::ai_state::entity::{AiAgentWorkspace, AiWorkspaceEntity};
use crate::ai_state::journal::{
    AgentCard, AgentCardView, Changes, Happened, HistoryEvent, RevisionClock,
};
use crate::ai_state::model::{AgentMessage, AgentRecord, AgentUsage};
use crate::text;

verus! {

impl AgentRecord {
    /// What is stored of a run besides its messages.
    pub open spec fn card(self) -> AgentCardView {
        AgentCardView {
            snapshot: self.snapshot@,
            parent_usage: self.parent_usage,
            created_at_ms: self.created_at_ms,
            parent_message_id: self.parent_message_id@,
            target_labels: text::seq_view(self.target_labels@),
            revision: self.revision,
            message_branch: self.message_branch@,
        }
    }

    pub fn metadata_projection(&self) -> (res: AgentCard)
        ensures
            res@ == self.card(),
    {
        AgentCard {
            snapshot: self.snapshot.duplicate(),
            parent_usage: self.parent_usage,
            created_at_ms: self.created_at_ms,
            parent_message_id: self.parent_message_id.clone(),
            target_labels: text::duplicate_list(&self.target_labels),
            revision: self.revision,
            message_branch: self.message_branch.clone(),
        }
    }
}

/// One update was taken in, and the messages that it moved were told.
pub open spec fn step_of_update(
    before: (AiWorkspaceEntity, Seq<MessageName>),
    after: (AiWorkspaceEntity, Seq<MessageName>),
    updates: Seq<AgentUpdate>,
    at: int,
) -> bool {
    &&& after.0.update_taken(before.0, updates, at)
    &&& after.1 == before.1 + before.0.moved_by(updates, at)
}

pub open spec fn steps_of_updates(steps: Seq<(AiWorkspaceEntity, Seq<MessageName>)>, updates: Seq<AgentUpdate>) -> bool {
    &&& steps.len() == updates.len() + 1
    &&& forall|i: int|
        #![trigger updates[i]]
        0 <= i < updates.len() ==> step_of_update(steps[i], steps[i + 1], updates, i)
}

/// The workspace, and the last revision that was given out.
pub type Journaled = (AiWorkspaceEntity, u64);

/// One message after the other was put into the journal.
pub open spec fn steps_of_talk(steps: Seq<Journaled>, name: MessageName, messages: Seq<AgentMessage>) -> bool {
    &&& steps.len() == messages.len() + 1
    &&& forall|i: int|
        #![trigger messages[i]]
        0 <= i < messages.len() ==> steps[i + 1].0.message_persisted(
            steps[i].0,
            name,
            messages[i],
            steps[i].1,
            steps[i + 1].1,
        )
}

/// One run after the other was put into the journal where it changed.
pub open spec fn steps_of_runs(steps: Seq<Journaled>, entries: Seq<(String, AgentRecord)>, changed: Set<Seq<char>>) -> bool {
    &&& steps.len() == entries.len() + 1
    &&& forall|i: int|
        #![trigger entries[i]]
        0 <= i < entries.len() ==> step_of_run(steps[i], steps[i + 1], entries[i], changed)
}

pub open spec fn step_of_run(before: Journaled, after: Journaled, entry: (String, AgentRecord), changed: Set<Seq<char>>) -> bool {
    let (run, record) = entry;
    if changed.contains(run@) {
        after.0.record_persisted(before.0, run@, record, before.1, after.1)
    } else {
        after == before
    }
}

/// The family of events that a run's messages to other agents belong to.
pub open spec fn talk_family(run: Seq<char>) -> Seq<char> {
    "agent-communication:"@ + run
}

/// How much the journal may have to take in of the runs in a table.
pub open spec fn volume(entries: Seq<(String, AgentRecord)>) -> nat
    decreases entries.len(),
{
    if entries.len() == 0 {
        0
    } else {
        volume(entries.drop_last()) + 1 + entries.last().1.communication@.len()
    }
}

proof fn lemma_off_model_len(conversation: Seq<char>, messages: Seq<AiChatMessage>, model: Seq<char>)
    ensures
        off_model(conversation, messages, model).len() <= messages.len(),
    decreases messages.len(),
{
    if messages.len() > 0 {
        lemma_off_model_len(conversation, messages.drop_last(), model);
    }
}

proof fn lemma_volume_grows(entries: Seq<(String, AgentRecord)>, n: int)
    requires
        0 <= n <= entries.len(),
    ensures
        volume(entries.take(n)) <= volume(entries),
    decreases entries.len(),
{
    if n < entries.len() {
        assert(entries.drop_last().take(n) =~= entries.take(n));
        lemma_volume_grows(entries.drop_last(), n);
    } else {
        assert(entries.take(n) =~= entries);
    }
}

impl AiWorkspaceEntity {
    /// Whether an update is taken into the record of its run.
    pub open spec fn takes_update(self, updates: Seq<AgentUpdate>, at: int) -> bool {
        let run = updates[at].snapshot.run.run_id@;
        &&& self.agents.records@.dom().contains(run)
        &&& {
            let record = self.agents.records@[run];
            is_newer(record, updates[at], usage_beside(updates, updates[at], record))
        }
    }

    /// What taking in one update does.
    pub open spec fn update_taken(self, before: AiWorkspaceEntity, updates: Seq<AgentUpdate>, at: int) -> bool {
        let update = updates[at];
        let run = update.snapshot.run.run_id@;
        let record = before.agents.records@[run];
        if before.takes_update(updates, at) {
            &&& self == (AiWorkspaceEntity {
                agents: AiAgentWorkspace {
                    records: self.agents.records,
                    dirty: self.agents.dirty,
                    parent_revisions: self.agents.parent_revisions,
                    ..before.agents
                },
                ..before
            })
            &&& self.agents.records@ == before.agents.records@.insert(run, self.agents.records@[run])
            &&& refreshed(
                self.agents.records@[run],
                record,
                update,
                usage_beside(updates, update, record),
            )
            &&& self.agents.dirty@ == before.agents.dirty@.insert(run, ())
            &&& self.agents.parent_revisions@ == counted_up(
                before.agents.parent_revisions@,
                record.parent_message_id@,
            )
        } else {
            self == before
        }
    }

    /// The messages that one update puts on another model.
    pub open spec fn moved_by(self, updates: Seq<AgentUpdate>, at: int) -> Seq<MessageName> {
        let update = updates[at];
        if self.takes_update(updates, at) {
            off_model(
                update.snapshot.conversation_id@,
                self.agents.records@[update.snapshot.run.run_id@].messages@,
                update.snapshot.model.model@,
            )
        } else {
            Seq::empty()
        }
    }

    /// What taking in updates one after the other does, and which messages change by it.
    pub open spec fn updates_taken(self, before: AiWorkspaceEntity, updates: Seq<AgentUpdate>, moved: Seq<MessageName>) -> bool {
        exists|steps: Seq<(AiWorkspaceEntity, Seq<MessageName>)>|
            {
                &&& #[trigger] steps_of_updates(steps, updates)
                &&& steps[0] == (before, Seq::<MessageName>::empty())
                &&& steps.last() == (self, moved)
            }
    }

    fn take_update(&mut self, update: AgentUpdate, usage: Option<AgentUsage>, changed: &mut Vec<(String, String)>, Ghost(updates): Ghost<Seq<AgentUpdate>>, Ghost(at): Ghost<int>)
        requires
            old(self).wf(),
            updates[at] == update,
            usage == crate::ai_state::agent_records::parent_usage(updates, update.snapshot),
            old(self).takes_update(updates, at) ==> can_count(
                old(self).agents.parent_revisions@,
                old(self).agents.records@[update.snapshot.run.run_id@].parent_message_id@,
            ),
        ensures
            final(self).wf(),
            final(self).update_taken(*old(self), updates, at),
            names_view(final(changed)@) == names_view(old(changed)@) + old(self).moved_by(updates, at),
    {
        let run = update.snapshot.run.run_id.clone();
        let usage = match self.agents.records.get(&run) {
            Some(record) => {
                let usage = match usage {
                    Some(usage) => usage,
                    None => record.parent_usage,
                };
                if !says_more(record, &update, usage) {
                    assert(names_view(changed@) + Seq::<MessageName>::empty() =~= names_view(
                        changed@,
                    ));
                    return;
                }
                usage
            },
            None => {
                assert(names_view(changed@) + Seq::<MessageName>::empty() =~= names_view(changed@));
                return;
            },
        };
        match self.agents.records.remove(&run) {
            Some(record) => {
                let ghost known = record;
                let mut record = record;
                remodel(
                    &update.snapshot.conversation_id,
                    &mut record.messages,
                    &update.snapshot.model.model,
                    changed,
                );
                record.snapshot = update.snapshot;
                record.parent_usage = usage;
                record.communication = update.communication;
                record.revision = update.stamp;
                self.count_parent(&record.parent_message_id);
                self.agents.dirty.insert(run.clone(), ());
                let ghost now = record;
                self.agents.records.insert(run, record);
                assert(refreshed(now, known, update, usage));
                assert(self.agents.records@ =~= old(self).agents.records@.insert(
                    update.snapshot.run.run_id@,
                    now,
                ));
            },
            None => {},
        }
    }

    /// Whether every count that an update may raise has room.
    pub open spec fn can_take(self, n: int) -> bool {
        forall|parent: Seq<char>|
            self.agents.parent_revisions@.dom().contains(parent)
                ==> #[trigger] self.agents.parent_revisions@[parent] + n <= u64::MAX
    }

    /// How many messages of the runs that updates speak of there are.
    pub open spec fn reach(self, updates: Seq<AgentUpdate>) -> nat
        decreases updates.len(),
    {
        if updates.len() == 0 {
            0
        } else {
            let run = updates.last().snapshot.run.run_id@;
            self.reach(updates.drop_last()) + if self.agents.records@.dom().contains(run) {
                self.agents.records@[run].messages@.len()
            } else {
                0
            }
        }
    }

    /// The runs are the same, each with as many messages.
    pub open spec fn same_sizes(self, before: AiWorkspaceEntity) -> bool {
        &&& self.agents.records@.dom() == before.agents.records@.dom()
        &&& forall|run: Seq<char>|
            before.agents.records@.dom().contains(run) ==> (#[trigger] self.agents.records@[run]).messages@.len()
                == before.agents.records@[run].messages@.len()
    }

    fn take_updates(&mut self, updates: Vec<AgentUpdate>) -> (res: Vec<(String, String)>)
        requires
            old(self).wf(),
            old(self).can_take(updates@.len() as int),
        ensures
            final(self).wf(),
            final(self).updates_taken(*old(self), updates@, names_view(res@)),
            res@.len() <= old(self).reach(updates@),
    {
        let ghost all = updates@;
        let mut usages: Vec<Option<AgentUsage>> = Vec::new();
        let mut at: usize = 0;
        while at < updates.len()
            invariant
                at <= updates.len(),
                usages@.len() == at,
                forall|i: int|
                    0 <= i < at ==> #[trigger] usages@[i]
                        == crate::ai_state::agent_records::parent_usage(
                        updates@,
                        updates@[i].snapshot,
                    ),
            decreases updates.len() - at,
        {
            usages.push(find_parent_usage(&updates, &updates[at].snapshot));
            at = at + 1;
        }
        let total: usize = updates.len();
        let mut rest = updates;
        let mut changed: Vec<(String, String)> = Vec::new();
        let mut next: usize = 0;
        let ghost mut steps: Seq<(AiWorkspaceEntity, Seq<MessageName>)> = seq![
            (*self, Seq::<MessageName>::empty()),
        ];
        assert(names_view(changed@) =~= Seq::<MessageName>::empty());
        assert(all.take(0) =~= Seq::<AgentUpdate>::empty());
        assert(rest@ =~= all.skip(0));
        while rest.len() > 0
            invariant
                next <= all.len(),
                rest@ == all.skip(next as int),
                total == all.len(),
                usages@.len() == all.len(),
                forall|i: int|
                    0 <= i < all.len() ==> #[trigger] usages@[i]
                        == crate::ai_state::agent_records::parent_usage(all, all[i].snapshot),
                self.wf(),
                self.can_take(all.len() - next),
                self.same_sizes(*old(self)),
                changed@.len() <= old(self).reach(all.take(next as int)),
                steps.len() == next + 1,
                steps[0] == (*old(self), Seq::<MessageName>::empty()),
                steps.last() == (*self, names_view(changed@)),
                forall|i: int| #![trigger all[i]] 0 <= i < next ==> step_of_update(steps[i], steps[i + 1], all, i),
            decreases rest@.len(),
        {
            let update = rest.remove(0);
            assert(update == all[next as int]);
            assert(rest@ =~= all.skip(next + 1));
            let ghost mid = *self;
            let ghost told = changed@;
            self.take_update(update, usages[next], &mut changed, Ghost(all), Ghost(next as int));
            proof {
                assert(all.take(next + 1).drop_last() =~= all.take(next as int));
                let run = update.snapshot.run.run_id@;
                if mid.agents.records@.dom().contains(run) {
                    lemma_off_model_len(
                        update.snapshot.conversation_id@,
                        mid.agents.records@[run].messages@,
                        update.snapshot.model.model@,
                    );
                }
                assert(names_view(changed@).len() == changed@.len());
                assert(names_view(told).len() == told.len());
                assert(self.agents.records@.dom() =~= mid.agents.records@.dom());
                assert forall|other: Seq<char>| old(self).agents.records@.dom().contains(other) implies (
                #[trigger] self.agents.records@[other]).messages@.len()
                    == old(self).agents.records@[other].messages@.len() by {
                    assert(mid.agents.records@[other].messages@.len()
                        == old(self).agents.records@[other].messages@.len());
                }
                steps = steps.push((*self, names_view(changed@)));
                assert(step_of_update(steps[next as int], steps[next + 1], all, next as int));
            }
            next = next + 1;
        }
        proof {
            assert(steps_of_updates(steps, all));
            assert(all.take(next as int) =~= all);
        }
        changed
    }

    /// Takes in what the runtime says of its runs, and notes the messages that this puts on another
    /// model.
    pub fn refresh_agent_records(&mut self, updates: Vec<AgentUpdate>, clock: &mut RevisionClock)
        requires
            old(self).wf(),
            old(self).can_take(updates@.len() as int),
            old(clock).last + old(self).reach(updates@) <= u64::MAX,
        ensures
            final(self).wf(),
            exists|taken: AiWorkspaceEntity, moved: Seq<MessageName>|
                {
                    &&& #[trigger] taken.updates_taken(*old(self), updates@, moved)
                    &&& final(self).messages_noted(
                        taken,
                        moved,
                        old(clock).last,
                        final(clock).last,
                    )
                },
    {
        let moved = self.take_updates(updates);
        let ghost taken = *self;
        assert(taken.updates_taken(*old(self), updates@, names_view(moved@)));
        self.note_messages(&moved, clock);
    }

    /// An event was queued.
    pub open spec fn event_queued(
        self,
        before: AiWorkspaceEntity,
        key: (Seq<char>, Seq<char>, Seq<char>),
        event: Happened,
        revision: u64,
    ) -> bool {
        let (stamp, queued) = self.history.changes.events@[key];
        &&& self.journaled_and_saved(before)
        &&& self.history.changes == (Changes {
            revision,
            events: self.history.changes.events,
            ..before.history.changes
        })
        &&& self.history.changes.events@ == before.history.changes.events@.insert(
            key,
            self.history.changes.events@[key],
        )
        &&& stamp == revision
        &&& queued@ == event
    }

    /// Whether the journal has a message between agents in its present state.
    pub open spec fn has_version(self, run: Seq<char>, message: AgentMessage) -> bool {
        &&& self.agents.communication_versions@.dom().contains((run, message.sequence))
        &&& self.agents.communication_versions@[(run, message.sequence)] == message.consumed
    }

    /// What putting one message between agents into the journal does.
    pub open spec fn message_persisted(
        self,
        before: AiWorkspaceEntity,
        name: MessageName,
        message: AgentMessage,
        last: u64,
        next: u64,
    ) -> bool {
        let (conversation, run) = name;
        if before.has_version(run, message) {
            self == before && next == last
        } else {
            exists|queued: AiWorkspaceEntity|
                {
                    &&& #[trigger] queued.event_queued(
                        before,
                        (conversation, talk_family(run), text::decimal(message.sequence as nat)),
                        Happened::AgentCommunication(message),
                        next,
                    )
                    &&& next == last + 1
                    &&& self == (AiWorkspaceEntity {
                        agents: AiAgentWorkspace {
                            communication_versions: self.agents.communication_versions,
                            ..queued.agents
                        },
                        ..queued
                    })
                    &&& self.agents.communication_versions@
                        == before.agents.communication_versions@.insert(
                        (run, message.sequence),
                        message.consumed,
                    )
                }
        }
    }

    /// What putting the messages of a run into the journal does.
    pub open spec fn talk_persisted(
        self,
        before: AiWorkspaceEntity,
        name: MessageName,
        messages: Seq<AgentMessage>,
        last: u64,
        next: u64,
    ) -> bool {
        exists|steps: Seq<Journaled>|
            {
                &&& #[trigger] steps_of_talk(steps, name, messages)
                &&& steps[0] == (before, last)
                &&& steps.last() == (self, next)
            }
    }

    fn persist_message(&mut self, conversation: &String, run: &String, message: &AgentMessage, clock: &mut RevisionClock)
        requires
            old(self).wf(),
            old(clock).last < u64::MAX,
        ensures
            final(self).wf(),
            final(self).message_persisted(
                *old(self),
                (conversation@, run@),
                *message,
                old(clock).last,
                final(clock).last,
            ),
    {
        match self.agents.communication_versions.get(&(run.clone(), message.sequence)) {
            Some(consumed) => {
                if *consumed == message.consumed {
                    return;
                }
            },
            None => {},
        }
        let family = text::joined("agent-communication:", run.as_str());
        let id = text::number(message.sequence);
        self.queue_history_event(
            conversation.as_str(),
            family.as_str(),
            id.as_str(),
            HistoryEvent::AgentCommunication(message.duplicate()),
            clock,
        );
        let ghost queued = *self;
        assert(queued.event_queued(
            *old(self),
            (conversation@, talk_family(run@), text::decimal(message.sequence as nat)),
            Happened::AgentCommunication(*message),
            clock.last,
        ));
        self.agents.communication_versions.insert((run.clone(), message.sequence), message.consumed);
    }

    fn persist_talk(&mut self, conversation: &String, run: &String, messages: &Vec<AgentMessage>, clock: &mut RevisionClock)
        requires
            old(self).wf(),
            old(clock).last + messages@.len() <= u64::MAX,
        ensures
            final(self).wf(),
            final(self).talk_persisted(
                *old(self),
                (conversation@, run@),
                messages@,
                old(clock).last,
                final(clock).last,
            ),
            final(clock).last <= old(clock).last + messages@.len(),
            final(self).agents.records == old(self).agents.records,
    {
        let mut at: usize = 0;
        let ghost mut steps: Seq<Journaled> = seq![(*self, clock.last)];
        while at < messages.len()
            invariant
                at <= messages.len(),
                self.wf(),
                old(clock).last + messages@.len() <= u64::MAX,
                clock.last <= old(clock).last + at,
                self.agents.records == old(self).agents.records,
                steps.len() == at + 1,
                steps[0] == (*old(self), old(clock).last),
                steps.last() == (*self, clock.last),
                forall|i: int|
                    #![trigger messages@[i]]
                    0 <= i < at ==> steps[i + 1].0.message_persisted(
                        steps[i].0,
                        (conversation@, run@),
                        messages@[i],
                        steps[i].1,
                        steps[i + 1].1,
                    ),
            decreases messages.len() - at,
        {
            self.persist_message(conversation, run, &messages[at], clock);
            proof {
                steps = steps.push((*self, clock.last));
                assert(steps[at + 1].0.message_persisted(
                    steps[at as int].0,
                    (conversation@, run@),
                    messages@[at as int],
                    steps[at as int].1,
                    steps[at + 1].1,
                ));
            }
            at = at + 1;
        }
        assert(steps_of_talk(steps, (conversation@, run@), messages@));
    }

    /// What putting a run into the journal does: what is known of it, and then its messages to
    /// other agents.
    pub open spec fn record_persisted(
        self,
        before: AiWorkspaceEntity,
        run: Seq<char>,
        record: AgentRecord,
        last: u64,
        next: u64,
    ) -> bool {
        let conversation = record.snapshot.conversation_id@;
        exists|queued: AiWorkspaceEntity|
            {
                &&& #[trigger] queued.event_queued(
                    before,
                    (conversation, "agent"@, run),
                    Happened::Agent(record.card()),
                    (last + 1) as u64,
                )
                &&& self.talk_persisted(
                    queued,
                    (conversation, run),
                    record.communication@,
                    (last + 1) as u64,
                    next,
                )
            }
    }

    /// What putting the runs of a table that changed into the journal does.
    pub open spec fn runs_persisted(
        self,
        before: AiWorkspaceEntity,
        entries: Seq<(String, AgentRecord)>,
        changed: Set<Seq<char>>,
        last: u64,
        next: u64,
    ) -> bool {
        exists|steps: Seq<Journaled>|
            {
                &&& #[trigger] steps_of_runs(steps, entries, changed)
                &&& steps[0] == (before, last)
                &&& steps.last() == (self, next)
            }
    }

    fn persist_record(&mut self, at: usize, clock: &mut RevisionClock)
        requires
            old(self).wf(),
            at < old(self).agents.records.entries@.len(),
            old(clock).last + 1 + old(self).agents.records.entries@[at as int].1.communication@.len()
                <= u64::MAX,
        ensures
            final(self).wf(),
            final(self).agents.records == old(self).agents.records,
            final(clock).last <= old(clock).last + 1 + old(
                self,
            ).agents.records.entries@[at as int].1.communication@.len(),
            final(self).record_persisted(
                *old(self),
                old(self).agents.records.entries@[at as int].0@,
                old(self).agents.records.entries@[at as int].1,
                old(clock).last,
                final(clock).last,
            ),
    {
        let run = self.agents.records.entries[at].0.clone();
        let conversation = self.agents.records.entries[at].1.snapshot.conversation_id.clone();
        let card = self.agents.records.entries[at].1.metadata_projection();
        let mut talk: Vec<AgentMessage> = Vec::new();
        let mut next: usize = 0;
        let ghost record = self.agents.records.entries@[at as int].1;
        while next < self.agents.records.entries[at].1.communication.len()
            invariant
                at < self.agents.records.entries@.len(),
                record == self.agents.records.entries@[at as int].1,
                next <= record.communication@.len(),
                talk@ =~= record.communication@.take(next as int),
            decreases record.communication@.len() - next,
        {
            talk.push(self.agents.records.entries[at].1.communication[next].duplicate());
            next = next + 1;
        }
        assert(talk@ =~= record.communication@);
        self.queue_history_event(
            conversation.as_str(),
            "agent",
            run.as_str(),
            HistoryEvent::Agent(card),
            clock,
        );
        assert(self.event_queued(
            *old(self),
            (conversation@, "agent"@, run@),
            Happened::Agent(record.card()),
            (old(clock).last + 1) as u64,
        ));
        self.persist_talk(&conversation, &run, &talk, clock);
    }

    /// Puts every run that changed into the journal.
    pub fn persist_agent_records(&mut self, clock: &mut RevisionClock)
        requires
            old(self).wf(),
            old(clock).last + volume(old(self).agents.records.entries@) <= u64::MAX,
        ensures
            final(self).wf(),
            exists|drained: AiWorkspaceEntity|
                {
                    &&& drained == (AiWorkspaceEntity {
                        agents: AiAgentWorkspace { dirty: drained.agents.dirty, ..old(self).agents },
                        ..*old(self)
                    })
                    &&& drained.agents.dirty@ == Map::<Seq<char>, ()>::empty()
                    &&& #[trigger] final(self).runs_persisted(
                        drained,
                        old(self).agents.records.entries@,
                        old(self).agents.dirty@.dom(),
                        old(clock).last,
                        final(clock).last,
                    )
                },
    {
        let mut dirty = crate::table::Table::new();
        std::mem::swap(&mut dirty, &mut self.agents.dirty);
        let ghost drained = *self;
        let ghost entries = self.agents.records.entries@;
        let ghost mut steps: Seq<Journaled> = seq![(*self, clock.last)];
        let mut at: usize = 0;
        assert(entries.take(0) =~= Seq::<(String, AgentRecord)>::empty());
        while at < self.agents.records.entries.len()
            invariant
                at <= entries.len(),
                entries == self.agents.records.entries@,
                self.wf(),
                old(clock).last + volume(entries) <= u64::MAX,
                clock.last <= old(clock).last + volume(entries.take(at as int)),
                dirty@ == old(self).agents.dirty@,
                steps.len() == at + 1,
                steps[0] == (drained, old(clock).last),
                steps.last() == (*self, clock.last),
                forall|i: int|
                    #![trigger entries[i]]
                    0 <= i < at ==> step_of_run(steps[i], steps[i + 1], entries[i], dirty@.dom()),
            decreases entries.len() - at,
        {
            proof {
                assert(entries.take(at + 1).drop_last() =~= entries.take(at as int));
                assert(entries.take(at + 1).last() == entries[at as int]);
                lemma_volume_grows(entries, at + 1);
            }
            if dirty.contains(&self.agents.records.entries[at].0) {
                self.persist_record(at, clock);
            }
            proof {
                steps = steps.push((*self, clock.last));
                assert(step_of_run(steps[at as int], steps[at + 1], entries[at as int], dirty@.dom()));
            }
            at = at + 1;
        }
        assert(steps_of_runs(steps, entries, dirty@.dom()));
        assert(self.runs_persisted(
            drained,
            entries,
            old(self).agents.dirty@.dom(),
            old(clock).last,
            clock.last,
        ));
    }
}

/// No two messages have the same number.
pub open spec fn numbered_apart(messages: Seq<AgentMessage>) -> bool {
    forall|i: int, j: int|
        0 <= i < j < messages.len() ==> (#[trigger] messages[i]).sequence != (#[trigger] messages[j]).sequence
}

proof fn lemma_talk_has_versions(steps: Seq<Journaled>, name: MessageName, messages: Seq<AgentMessage>, n: int)
    requires
        steps_of_talk(steps, name, messages),
        numbered_apart(messages),
        0 <= n <= messages.len(),
    ensures
        forall|i: int|
            0 <= i < n ==> steps[n].0.has_version(name.1, #[trigger] messages[i]),
    decreases n,
{
    if n > 0 {
        lemma_talk_has_versions(steps, name, messages, n - 1);
        let last = messages[n - 1];
        assert forall|i: int| 0 <= i < n implies steps[n].0.has_version(
            name.1,
            #[trigger] messages[i],
        ) by {
            if i < n - 1 {
                assert(messages[i].sequence != messages[n - 1].sequence);
            }
        }
    }
}

proof fn lemma_known_talk_changes_nothing(steps: Seq<Journaled>, name: MessageName, messages: Seq<AgentMessage>, n: int)
    requires
        steps_of_talk(steps, name, messages),
        forall|i: int| 0 <= i < messages.len() ==> steps[0].0.has_version(name.1, #[trigger] messages[i]),
        0 <= n <= messages.len(),
    ensures
        steps[n] == steps[0],
    decreases n,
{
    if n > 0 {
        lemma_known_talk_changes_nothing(steps, name, messages, n - 1);
        assert(steps[0].0.has_version(name.1, messages[n - 1]));
    }
}

/// A message between agents that the journal has is not put into it again.
pub proof fn law_messages_between_agents_are_queued_once(
    before: AiWorkspaceEntity,
    once: AiWorkspaceEntity,
    twice: AiWorkspaceEntity,
    name: MessageName,
    messages: Seq<AgentMessage>,
    first: u64,
    second: u64,
    third: u64,
)
    requires
        numbered_apart(messages),
        once.talk_persisted(before, name, messages, first, second),
        twice.talk_persisted(once, name, messages, second, third),
    ensures
        twice == once,
        third == second,
{
    let steps = choose|steps: Seq<Journaled>|
        {
            &&& #[trigger] steps_of_talk(steps, name, messages)
            &&& steps[0] == (before, first)
            &&& steps.last() == (once, second)
        };
    lemma_talk_has_versions(steps, name, messages, messages.len() as int);
    let again = choose|steps: Seq<Journaled>|
        {
            &&& #[trigger] steps_of_talk(steps, name, messages)
            &&& steps[0] == (once, second)
            &&& steps.last() == (twice, third)
        };
    lemma_known_talk_changes_nothing(again, name, messages, messages.len() as int);
}

} // verus!
