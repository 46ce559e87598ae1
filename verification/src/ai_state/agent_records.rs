//! What is kept of the runs of agents, and how it gets into the journal.

use vstd::prelude::*;

use crate::ai::messages::AiChatMessage;
use crate::ai_state::entity::{AiAgentWorkspace, AiWorkspaceEntity, MessageRun};
use crate::ai_state::journal::{Changes, Mutation, RevisionClock};
use crate::ai_state::model::{AgentMessage, AgentRecord, AgentSnapshot, AgentUsage};
use crate::text;

verus! {

/// What the agent runtime says of a run. `stamp` is the revision that its record gets where it
/// changed.
pub struct AgentUpdate {
    pub snapshot: AgentSnapshot,
    pub communication: Vec<AgentMessage>,
    pub stamp: u64,
}

/// A conversation and one of its messages.
pub type MessageName = (Seq<char>, Seq<char>);

pub open spec fn names_view(names: Seq<(String, String)>) -> Seq<MessageName> {
    names.map_values(|name: (String, String)| (name.0@, name.1@))
}

/// The messages of a run.
pub open spec fn names_in(conversation: Seq<char>, messages: Seq<AiChatMessage>) -> Seq<MessageName> {
    messages.map_values(|message: AiChatMessage| (conversation, message.id@))
}

/// Which run each message belongs to, once those of a run were added.
pub open spec fn assigned(map: Map<Seq<char>, MessageRun>, messages: Seq<AiChatMessage>, owner: MessageRun) -> Map<Seq<char>, MessageRun>
    decreases messages.len(),
{
    if messages.len() == 0 {
        map
    } else {
        assigned(map, messages.drop_last(), owner).insert(messages.last().id@, owner)
    }
}

/// A count under a key that starts from nothing.
pub open spec fn counted_up(map: Map<Seq<char>, u64>, key: Seq<char>) -> Map<Seq<char>, u64> {
    map.insert(
        key,
        if map.dom().contains(key) {
            (map[key] + 1) as u64
        } else {
            1
        },
    )
}

/// Whether a count can go up.
pub open spec fn can_count(map: Map<Seq<char>, u64>, key: Seq<char>) -> bool {
    map.dom().contains(key) ==> map[key] < u64::MAX
}

/// The messages of a run that is now on a model.
pub open spec fn remodeled(before: Seq<AiChatMessage>, after: Seq<AiChatMessage>, model: String) -> bool {
    &&& after.len() == before.len()
    &&& forall|i: int|
        0 <= i < before.len() ==> (#[trigger] after[i]) == if on_model(before[i], model@) {
            before[i]
        } else {
            AiChatMessage { model: Some(model), ..before[i] }
        }
}

pub open spec fn on_model(message: AiChatMessage, model: Seq<char>) -> bool {
    message.model is Some && message.model->0@ == model
}

/// The messages whose model is another one.
pub open spec fn off_model(conversation: Seq<char>, messages: Seq<AiChatMessage>, model: Seq<char>) -> Seq<MessageName>
    decreases messages.len(),
{
    if messages.len() == 0 {
        Seq::empty()
    } else {
        let earlier = off_model(conversation, messages.drop_last(), model);
        if on_model(messages.last(), model) {
            earlier
        } else {
            earlier.push((conversation, messages.last().id@))
        }
    }
}

impl AgentUpdate {
    /// Whether the update describes the run that a group started from.
    pub open spec fn is_parent_of(self, snapshot: AgentSnapshot) -> bool {
        &&& self.snapshot.conversation_id@ == snapshot.conversation_id@
        &&& self.snapshot.run.group_id@ == snapshot.run.group_id@
        &&& self.snapshot.parent_id is None
    }

    fn parents(&self, snapshot: &AgentSnapshot) -> (res: bool)
        ensures
            res == self.is_parent_of(*snapshot),
    {
        text::same(self.snapshot.conversation_id.as_str(), snapshot.conversation_id.as_str())
            && text::same(self.snapshot.run.group_id.as_str(), snapshot.run.group_id.as_str())
            && self.snapshot.parent_id.is_none()
    }
}

/// What the run that a group started from has used.
pub open spec fn parent_usage(updates: Seq<AgentUpdate>, snapshot: AgentSnapshot) -> Option<AgentUsage>
    decreases updates.len(),
{
    if updates.len() == 0 {
        None
    } else if updates[0].is_parent_of(snapshot) {
        Some(updates[0].snapshot.usage)
    } else {
        parent_usage(updates.drop_first(), snapshot)
    }
}

pub fn find_parent_usage(updates: &Vec<AgentUpdate>, snapshot: &AgentSnapshot) -> (res: Option<AgentUsage>)
    ensures
        res == parent_usage(updates@, *snapshot),
{
    let mut at: usize = 0;
    assert(updates@.skip(0) =~= updates@);
    while at < updates.len()
        invariant
            at <= updates.len(),
            parent_usage(updates@, *snapshot) == parent_usage(updates@.skip(at as int), *snapshot),
        decreases updates.len() - at,
    {
        assert(updates@.skip(at as int)[0] == updates@[at as int]);
        if updates[at].parents(snapshot) {
            return Some(updates[at].snapshot.usage);
        }
        assert(updates@.skip(at as int).drop_first() =~= updates@.skip(at + 1));
        at = at + 1;
    }
    None
}

/// The usage that a run's record gets for its parent.
pub open spec fn usage_beside(updates: Seq<AgentUpdate>, update: AgentUpdate, record: AgentRecord) -> AgentUsage {
    match parent_usage(updates, update.snapshot) {
        Some(usage) => usage,
        None => record.parent_usage,
    }
}

/// Whether some message was taken up by its receiver since the record was made.
pub open spec fn uptake_differs(record: AgentRecord, update: AgentUpdate) -> bool {
    exists|i: int|
        0 <= i < record.communication@.len() && i < update.communication@.len()
            && #[trigger] record.communication@[i].consumed != update.communication@[i].consumed
}

/// Whether an update says something that a record does not.
pub open spec fn is_newer(record: AgentRecord, update: AgentUpdate, usage: AgentUsage) -> bool {
    ||| record.parent_usage != usage
    ||| record.snapshot.usage != update.snapshot.usage
    ||| record.snapshot.state != update.snapshot.state
    ||| record.snapshot.progress@ != update.snapshot.progress@
    ||| record.communication@.len() != update.communication@.len()
    ||| record.snapshot.model.provider_id@ != update.snapshot.model.provider_id@
    ||| record.snapshot.model.model@ != update.snapshot.model.model@
    ||| uptake_differs(record, update)
}

pub fn says_more(record: &AgentRecord, update: &AgentUpdate, usage: AgentUsage) -> (res: bool)
    ensures
        res == is_newer(*record, *update, usage),
{
    if record.parent_usage != usage || record.snapshot.usage != update.snapshot.usage
        || record.snapshot.state != update.snapshot.state || !text::same(
        record.snapshot.progress.as_str(),
        update.snapshot.progress.as_str(),
    ) || record.communication.len() != update.communication.len() || !text::same(
        record.snapshot.model.provider_id.as_str(),
        update.snapshot.model.provider_id.as_str(),
    ) || !text::same(
        record.snapshot.model.model.as_str(),
        update.snapshot.model.model.as_str(),
    ) {
        return true;
    }
    let mut at: usize = 0;
    while at < record.communication.len()
        invariant
            at <= record.communication.len(),
            record.communication.len() == update.communication.len(),
            forall|i: int|
                0 <= i < at ==> (#[trigger] record.communication@[i]).consumed
                    == update.communication@[i].consumed,
        decreases record.communication.len() - at,
    {
        if record.communication[at].consumed != update.communication[at].consumed {
            assert(record.communication@[at as int].consumed != update.communication@[at as int].consumed);
            return true;
        }
        at = at + 1;
    }
    false
}

/// A record that an update was taken into.
pub open spec fn refreshed(after: AgentRecord, before: AgentRecord, update: AgentUpdate, usage: AgentUsage) -> bool {
    &&& after == (AgentRecord {
        snapshot: update.snapshot,
        messages: after.messages,
        parent_usage: usage,
        communication: update.communication,
        revision: update.stamp,
        ..before
    })
    &&& remodeled(before.messages@, after.messages@, update.snapshot.model.model)
}

pub(crate) fn remodel(conversation: &String, messages: &mut Vec<AiChatMessage>, model: &String, changed: &mut Vec<(String, String)>)
    ensures
        remodeled(old(messages)@, final(messages)@, *model),
        names_view(final(changed)@) == names_view(old(changed)@) + off_model(
            conversation@,
            old(messages)@,
            model@,
        ),
{
    let ghost all = messages@;
    let ghost names = names_view(changed@);
    let mut at: usize = 0;
    assert(all.take(0) =~= Seq::<AiChatMessage>::empty());
    assert(names + Seq::<MessageName>::empty() =~= names);
    while at < messages.len()
        invariant
            at <= messages.len(),
            messages@.len() == all.len(),
            remodeled(all.take(at as int), messages@.take(at as int), *model),
            forall|i: int| at <= i < all.len() ==> #[trigger] messages@[i] == all[i],
            names_view(changed@) == names + off_model(conversation@, all.take(at as int), model@),
        decreases messages.len() - at,
    {
        let ghost before = messages@;
        let ghost told = changed@;
        let same = match &messages[at].model {
            Some(current) => text::same(current.as_str(), model.as_str()),
            None => false,
        };
        assert(all.take(at + 1).drop_last() =~= all.take(at as int));
        assert(all.take(at + 1).last() == all[at as int]);
        if !same {
            messages[at].model = Some(model.clone());
            changed.push((conversation.clone(), messages[at].id.clone()));
            proof {
                assert(messages@ =~= before.update(at as int, messages@[at as int]));
                assert(names_view(changed@) =~= names_view(told).push((conversation@, all[at as int].id@)));
                assert((names + off_model(conversation@, all.take(at as int), model@)).push(
                    (conversation@, all[at as int].id@),
                ) =~= names + off_model(conversation@, all.take(at as int), model@).push(
                    (conversation@, all[at as int].id@),
                ));
            }
        }
        proof {
            assert forall|i: int| 0 <= i < at + 1 implies (#[trigger] messages@.take(at + 1)[i])
                == if on_model(all.take(at + 1)[i], model@) {
                all.take(at + 1)[i]
            } else {
                AiChatMessage { model: Some(*model), ..all.take(at + 1)[i] }
            } by {
                if i < at {
                    assert(before.take(at as int)[i] == messages@[i]);
                    assert(all.take(at as int)[i] == all[i]);
                }
            }
        }
        at = at + 1;
    }
    assert(all.take(at as int) =~= all);
    assert(messages@.take(at as int) =~= messages@);
}

impl AiWorkspaceEntity {
    /// Which messages the journal has once those of a list that are still there were noted, and the
    /// last revision that this took.
    pub open spec fn noted(self, map: Map<MessageName, u64>, names: Seq<MessageName>, last: int) -> (Map<MessageName, u64>, int)
        decreases names.len(),
    {
        if names.len() == 0 {
            (map, last)
        } else {
            let (earlier, at) = self.noted(map, names.drop_last(), last);
            let (conversation, message) = names.last();
            if self.message(conversation, message) is Some {
                (earlier.insert((conversation, message), (at + 1) as u64), at + 1)
            } else {
                (earlier, at)
            }
        }
    }

    /// The journal once the messages of a list were noted.
    pub open spec fn messages_noted(self, before: AiWorkspaceEntity, names: Seq<MessageName>, last: u64, next: u64) -> bool {
        let changes = before.history.changes;
        let now = self.history.changes;
        let (messages, taken) = before.noted(changes.messages@, names, last as int);
        let (full, _) = before.noted(changes.full_messages@, names, last as int);
        &&& self.journaled(before)
        &&& next == taken
        &&& now == (Changes {
            revision: if taken == last {
                changes.revision
            } else {
                next
            },
            messages: now.messages,
            full_messages: now.full_messages,
            ..changes
        })
        &&& now.messages@ == messages
        &&& now.full_messages@ == full
    }

    proof fn lemma_noted_bound(self, map: Map<MessageName, u64>, other: Map<MessageName, u64>, names: Seq<MessageName>, last: int)
        ensures
            last <= self.noted(map, names, last).1 <= last + names.len(),
            self.noted(map, names, last).1 == self.noted(other, names, last).1,
        decreases names.len(),
    {
        if names.len() > 0 {
            self.lemma_noted_bound(map, other, names.drop_last(), last);
        }
    }

    pub fn note_messages(&mut self, names: &Vec<(String, String)>, clock: &mut RevisionClock)
        requires
            old(self).wf(),
            old(clock).last + names@.len() <= u64::MAX,
        ensures
            final(self).wf(),
            final(self).messages_noted(*old(self), names_view(names@), old(clock).last, final(clock).last),
    {
        let ghost all = names_view(names@);
        let ghost first = clock.last;
        let mut at: usize = 0;
        assert(all.take(0) =~= Seq::<MessageName>::empty());
        while at < names.len()
            invariant
                at <= names.len(),
                all == names_view(names@),
                first == old(clock).last,
                first + names@.len() <= u64::MAX,
                self.wf(),
                self.messages_noted(*old(self), all.take(at as int), first, clock.last),
            decreases names.len() - at,
        {
            proof {
                old(self).lemma_noted_bound(
                    old(self).history.changes.messages@,
                    old(self).history.changes.full_messages@,
                    all.take(at as int),
                    first as int,
                );
                assert(all.take(at + 1).drop_last() =~= all.take(at as int));
                assert(all.take(at + 1).last() == all[at as int]);
                assert(all[at as int] == (names@[at as int].0@, names@[at as int].1@));
            }
            let ghost mid = *self;
            let name = &names[at];
            assert(mid.message(name.0@, name.1@) == old(self).message(name.0@, name.1@));
            self.history_message_changed(name.0.as_str(), name.1.as_str(), clock);
            at = at + 1;
        }
        assert(all.take(at as int) =~= all);
    }

    /// The workspace with a run more.
    pub open spec fn record_added(self, before: AiWorkspaceEntity, record: AgentRecord) -> bool {
        let run = record.snapshot.run.run_id;
        &&& self.agents == (AiAgentWorkspace {
            parent_revisions: self.agents.parent_revisions,
            message_runs: self.agents.message_runs,
            dirty: self.agents.dirty,
            records: self.agents.records,
            ..before.agents
        })
        &&& self.agents.parent_revisions@ == counted_up(
            before.agents.parent_revisions@,
            record.parent_message_id@,
        )
        &&& self.agents.message_runs@ == assigned(
            before.agents.message_runs@,
            record.messages@,
            MessageRun { run, branch: record.message_branch },
        )
        &&& self.agents.dirty@ == before.agents.dirty@.insert(run@, ())
        &&& self.agents.records@ == before.agents.records@.insert(run@, record)
    }

    fn assign_messages(&mut self, messages: &Vec<AiChatMessage>, run: &String, branch: &String)
        requires
            old(self).wf(),
        ensures
            final(self).wf(),
            *final(self) == (AiWorkspaceEntity {
                agents: AiAgentWorkspace {
                    message_runs: final(self).agents.message_runs,
                    ..old(self).agents
                },
                ..*old(self)
            }),
            final(self).agents.message_runs@ == assigned(
                old(self).agents.message_runs@,
                messages@,
                MessageRun { run: *run, branch: *branch },
            ),
    {
        let mut at: usize = 0;
        assert(messages@.take(0) =~= Seq::<AiChatMessage>::empty());
        while at < messages.len()
            invariant
                at <= messages.len(),
                self.wf(),
                *self == (AiWorkspaceEntity {
                    agents: AiAgentWorkspace {
                        message_runs: self.agents.message_runs,
                        ..old(self).agents
                    },
                    ..*old(self)
                }),
                self.agents.message_runs@ == assigned(
                    old(self).agents.message_runs@,
                    messages@.take(at as int),
                    MessageRun { run: *run, branch: *branch },
                ),
            decreases messages.len() - at,
        {
            assert(messages@.take(at + 1).drop_last() =~= messages@.take(at as int));
            self.agents.message_runs.insert(
                messages[at].id.clone(),
                MessageRun { run: run.clone(), branch: branch.clone() },
            );
            at = at + 1;
        }
        assert(messages@.take(at as int) =~= messages@);
    }

    pub(crate) fn count_parent(&mut self, parent: &String)
        requires
            old(self).wf(),
            can_count(old(self).agents.parent_revisions@, parent@),
        ensures
            final(self).wf(),
            *final(self) == (AiWorkspaceEntity {
                agents: AiAgentWorkspace {
                    parent_revisions: final(self).agents.parent_revisions,
                    ..old(self).agents
                },
                ..*old(self)
            }),
            final(self).agents.parent_revisions@ == counted_up(
                old(self).agents.parent_revisions@,
                parent@,
            ),
    {
        let count: u64 = match self.agents.parent_revisions.get(parent) {
            Some(count) => *count + 1,
            None => 1,
        };
        self.agents.parent_revisions.insert(parent.clone(), count);
    }

    /// What adding a run does: the run's branch is made, and then its messages are put into the
    /// journal.
    pub open spec fn agent_added(self, before: AiWorkspaceEntity, record: AgentRecord, last: u64, next: u64) -> bool {
        exists|kept: AiWorkspaceEntity, branched: AiWorkspaceEntity|
            {
                &&& #[trigger] kept.record_added(before, record)
                &&& kept == (AiWorkspaceEntity { agents: kept.agents, ..before })
                &&& branched.journaled(kept)
                &&& branched.history.changes.extended_from(
                    kept.history.changes,
                    (last + 1) as u64,
                    Mutation::CreateAgentHistory {
                        conversation_id: record.snapshot.conversation_id@,
                        run_id: record.snapshot.run.run_id@,
                        revision: (last + 1) as u64,
                    },
                )
                &&& #[trigger] self.messages_noted(
                    branched,
                    names_in(record.snapshot.conversation_id@, record.messages@),
                    (last + 1) as u64,
                    next,
                )
            }
    }

    /// Keeps a run that was just made.
    pub fn add_agent_record(&mut self, record: AgentRecord, clock: &mut RevisionClock)
        requires
            old(self).wf(),
            old(clock).last + 1 + record.messages@.len() <= u64::MAX,
            can_count(old(self).agents.parent_revisions@, record.parent_message_id@),
        ensures
            final(self).wf(),
            final(self).agent_added(*old(self), record, old(clock).last, final(clock).last),
    {
        let run = record.snapshot.run.run_id.clone();
        let conversation = record.snapshot.conversation_id.clone();
        self.count_parent(&record.parent_message_id);
        self.assign_messages(&record.messages, &run, &record.message_branch);
        self.agents.dirty.insert(run.clone(), ());
        let mut names: Vec<(String, String)> = Vec::new();
        let mut at: usize = 0;
        while at < record.messages.len()
            invariant
                at <= record.messages.len(),
                names_view(names@) =~= names_in(conversation@, record.messages@.take(at as int)),
            decreases record.messages.len() - at,
        {
            let ghost told = names@;
            names.push((conversation.clone(), record.messages[at].id.clone()));
            assert(names_view(names@) =~= names_view(told).push(
                (conversation@, record.messages@[at as int].id@),
            ));
            assert(record.messages@.take(at + 1) =~= record.messages@.take(at as int).push(
                record.messages@[at as int],
            ));
            at = at + 1;
        }
        assert(record.messages@.take(at as int) =~= record.messages@);
        assert(names_view(names@).len() == names@.len());
        self.agents.records.insert(run.clone(), record);
        let ghost kept = *self;
        assert(kept.record_added(*old(self), record));
        self.history_agent_created(conversation.as_str(), run.as_str(), clock);
        let ghost branched = *self;
        self.note_messages(&names, clock);
        assert(self.messages_noted(
            branched,
            names_in(conversation@, record.messages@),
            (old(clock).last + 1) as u64,
            clock.last,
        ));
    }
}

} // verus!
