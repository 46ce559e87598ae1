//! Recording of changes to conversations.

use vstd::prelude::*;

use crate::ai_state::entity::{
    AiChatInitializationError, AiHistoryState, AiWorkspaceEntity, Effect, HistoryEffect, HistoryStatus,
};
use crate::ai_state::journal::{Changes, HistoryEvent, HistoryMutation, Mutation, RevisionClock};
use crate::ai_state::model::{
    conversation_position, find_conversation, has_conversation, AiConversation,
};
use crate::table::Table;
use crate::text;

verus! {

/// The entries of a map of messages that belong to other conversations.
pub open spec fn of_others(map: Map<(Seq<char>, Seq<char>), u64>, conversation: Seq<char>) -> Map<(Seq<char>, Seq<char>), u64> {
    map.restrict(
        Set::new(|key: (Seq<char>, Seq<char>)| map.dom().contains(key) && key.0 != conversation),
    )
}

fn drop_conversation(table: &mut Table<(String, String), u64>, conversation: &str)
    requires
        old(table).wf(),
    ensures
        final(table).wf(),
        final(table)@ == of_others(old(table)@, conversation@),
{
    let keep = |key: &(String, String), version: &u64| -> (kept: bool)
        ensures
            kept == (key.0@ != conversation@),
        { !text::same(key.0.as_str(), conversation) };
    table.retain(keep, Ghost(|key: (Seq<char>, Seq<char>), version: u64| key.0 != conversation@));
    assert(table@ =~= of_others(old(table)@, conversation@));
}

/// The position of the first change that stores an event, or the number of changes.
pub open spec fn event_position(
    extra: Seq<(u64, HistoryMutation)>,
    conversation: Seq<char>,
    family: Seq<char>,
    id: Seq<char>,
) -> int
    decreases extra.len(),
{
    if extra.len() == 0 || extra[0].1.stores_event(conversation, family, id) {
        0
    } else {
        1 + event_position(extra.drop_first(), conversation, family, id)
    }
}

proof fn lemma_event_position(
    extra: Seq<(u64, HistoryMutation)>,
    conversation: Seq<char>,
    family: Seq<char>,
    id: Seq<char>,
    at: int,
)
    requires
        0 <= at <= extra.len(),
        forall|j: int| 0 <= j < at ==> !(#[trigger] extra[j]).1.stores_event(conversation, family, id),
        at < extra.len() ==> extra[at].1.stores_event(conversation, family, id),
    ensures
        event_position(extra, conversation, family, id) == at,
    decreases extra.len(),
{
    if at > 0 {
        assert(!extra[0].1.stores_event(conversation, family, id));
        assert forall|j: int| 0 <= j < at - 1 implies !(#[trigger] extra.drop_first()[j]).1.stores_event(
            conversation,
            family,
            id,
        ) by {
            assert(!extra[j + 1].1.stores_event(conversation, family, id));
        }
        lemma_event_position(extra.drop_first(), conversation, family, id, at - 1);
    }
}

impl Changes {
    /// Nothing differs but the revision and the list of changes, which got one more.
    pub open spec fn extended_from(self, before: Changes, revision: u64, mutation: Mutation) -> bool {
        &&& self == (Changes { revision, extra: self.extra, ..before })
        &&& self.extra@.len() == before.extra@.len() + 1
        &&& self.extra@.drop_last() == before.extra@
        &&& self.extra@.last().0 == revision
        &&& self.extra@.last().1@ == mutation
    }

    /// A conversation was deleted: that is recorded, and what else was pending of it is forgotten.
    pub open spec fn deleted_from(self, before: Changes, conversation: Seq<char>, revision: u64) -> bool {
        &&& self.revision == revision
        &&& self.deleted@ == before.deleted@.insert(conversation, revision)
        &&& self.messages@ == of_others(before.messages@, conversation)
        &&& self.full_messages@ == of_others(before.full_messages@, conversation)
        &&& self.stream_bases@ == of_others(before.stream_bases@, conversation)
        &&& self.metadata@ == before.metadata@.remove(conversation)
        &&& self.created@ == before.created@.remove(conversation)
        &&& self.events@ == before.events@.restrict(
            Set::new(
                |key: (Seq<char>, Seq<char>, Seq<char>)|
                    before.events@.dom().contains(key) && key.0 != conversation,
            ),
        )
        &&& self.extra == before.extra
    }
}

/// Once a conversation is deleted, none of its messages, events or data waits to be written; only
/// its deletion does.
pub proof fn law_deleted_conversations_leave_nothing_pending(
    before: Changes,
    after: Changes,
    conversation: Seq<char>,
    revision: u64,
    message: Seq<char>,
    family: Seq<char>,
)
    requires
        after.deleted_from(before, conversation, revision),
    ensures
        !after.messages@.dom().contains((conversation, message)),
        !after.full_messages@.dom().contains((conversation, message)),
        !after.stream_bases@.dom().contains((conversation, message)),
        !after.metadata@.dom().contains(conversation),
        !after.created@.dom().contains(conversation),
        !after.events@.dom().contains((conversation, family, message)),
        after.deleted@.dom().contains(conversation),
{
}

/// Deleting a conversation leaves what is pending of the others alone.
pub proof fn law_deletion_spares_other_conversations(
    before: Changes,
    after: Changes,
    conversation: Seq<char>,
    revision: u64,
    other: Seq<char>,
    message: Seq<char>,
)
    requires
        after.deleted_from(before, conversation, revision),
        other != conversation,
    ensures
        after.messages@.dom().contains((other, message)) == before.messages@.dom().contains((other, message)),
        before.messages@.dom().contains((other, message)) ==> after.messages@[(other, message)]
            == before.messages@[(other, message)],
        after.metadata@.dom().contains(other) == before.metadata@.dom().contains(other),
        after.created@.dom().contains(other) == before.created@.dom().contains(other),
{
}

impl AiWorkspaceEntity {
    /// Only the journal differs.
    pub open spec fn journaled(self, before: AiWorkspaceEntity) -> bool {
        self == (AiWorkspaceEntity {
            history: AiHistoryState { changes: self.history.changes, ..before.history },
            ..before
        })
    }

    /// Only the journal differs, and the host was asked to look at it.
    pub open spec fn journaled_and_saved(self, before: AiWorkspaceEntity) -> bool {
        &&& self == (AiWorkspaceEntity {
            history: AiHistoryState {
                changes: self.history.changes,
                effects: self.history.effects,
                ..before.history
            },
            ..before
        })
        &&& self.history.asked() == before.history.asked().push(Effect::Save)
    }

    /// Whether a conversation has messages of its own that are not on disk.
    pub open spec fn unsaved(self, conversation: Seq<char>) -> bool {
        exists|message: Seq<char>| #[trigger]
            self.history.changes.messages@.dom().contains((conversation, message))
                && !self.agents.message_runs@.dom().contains(message)
    }

    /// Asks the host to look at the journal.
    pub fn request_history_save(&mut self)
        ensures
            *final(self) == (AiWorkspaceEntity {
                history: AiHistoryState { effects: final(self).history.effects, ..old(self).history },
                ..*old(self)
            }),
            final(self).history.asked() == old(self).history.asked().push(Effect::Save),
    {
        self.history.ask(HistoryEffect::Save);
    }

    pub fn history_has_unsaved_messages(&self, conversation: &str) -> (res: bool)
        requires
            self.wf(),
        ensures
            res == self.unsaved(conversation@),
    {
        let pending = &self.history.changes.messages;
        let mut i: usize = 0;
        while i < pending.entries.len()
            invariant
                i <= pending.entries.len(),
                self.wf(),
                *pending == self.history.changes.messages,
                forall|j: int|
                    0 <= j < i ==> (#[trigger] pending.entries@[j]).0.0@ != conversation@
                        || self.agents.message_runs@.dom().contains(pending.entries@[j].0.1@),
            decreases pending.entries.len() - i,
        {
            let key = &pending.entries[i].0;
            if text::same(key.0.as_str(), conversation) {
                if !self.agents.message_runs.contains(&key.1) {
                    proof {
                        pending.lemma_entry(i as int);
                    }
                    assert(pending@.dom().contains((conversation@, key.1@)));
                    return true;
                }
            }
            i += 1;
        }
        assert forall|message: Seq<char>| #[trigger]
            self.history.changes.messages@.dom().contains(
                (conversation@, message),
            ) implies self.agents.message_runs@.dom().contains(message) by {
            let j = pending.lemma_position((conversation@, message));
            assert(pending.entries@[j].0.0@ == conversation@);
        }
        false
    }

    /// Whether a message waits to be written.
    pub open spec fn is_pending(self, conversation: Seq<char>, message: Seq<char>) -> bool {
        self.history.changes.messages@.dom().contains((conversation, message))
    }

    /// Whether a message waits to be written.
    pub fn history_message_is_pending(&self, conversation: &str, message: &str) -> (res: bool)
        ensures
            res == self.is_pending(conversation@, message@),
    {
        self.history.changes.messages.contains(&(conversation.to_owned(), message.to_owned()))
    }

    /// A message that changed in more than its text is to be written whole; the clock went from one
    /// revision to another.
    pub open spec fn message_marked(
        self,
        before: AiWorkspaceEntity,
        conversation: Seq<char>,
        message: Seq<char>,
        was: u64,
        now: u64,
    ) -> bool {
        &&& self.journaled(before)
        &&& before.message(conversation, message) is None ==> self == before && now == was
        &&& before.message(conversation, message) is Some ==> {
            let changes = self.history.changes;
            &&& now == was + 1
            &&& changes == (Changes {
                revision: now,
                messages: changes.messages,
                full_messages: changes.full_messages,
                ..before.history.changes
            })
            &&& changes.messages@ == before.history.changes.messages@.insert((conversation, message), now)
            &&& changes.full_messages@ == before.history.changes.full_messages@.insert(
                (conversation, message),
                now,
            )
        }
    }

    /// What was pending of a deleted message is forgotten, and the deletion is to be written; the
    /// clock went from one revision to another.
    pub open spec fn message_forgotten(
        self,
        before: AiWorkspaceEntity,
        conversation: Seq<char>,
        message: Seq<char>,
        was: u64,
        now: u64,
    ) -> bool {
        let old_changes = before.history.changes;
        let changes = self.history.changes;
        let key = (conversation, message);
        &&& self.journaled(before)
        &&& now == was + 1
        &&& changes.messages@ == old_changes.messages@.remove(key)
        &&& changes.full_messages@ == old_changes.full_messages@.remove(key)
        &&& changes.stream_bases@ == old_changes.stream_bases@.remove(key)
        &&& changes.extended_from(
            Changes {
                messages: changes.messages,
                full_messages: changes.full_messages,
                stream_bases: changes.stream_bases,
                ..old_changes
            },
            now,
            Mutation::DeleteMessage {
                conversation_id: conversation,
                branch_id: before.message_branch(conversation, message),
                message_id: message,
                revision: now,
            },
        )
    }

    /// A message changed in more than its text.
    pub fn history_message_changed(&mut self, conversation: &str, message: &str, clock: &mut RevisionClock)
        requires
            old(self).wf(),
            old(clock).last < u64::MAX,
        ensures
            final(self).wf(),
            final(self).message_marked(
                *old(self),
                conversation@,
                message@,
                old(clock).last,
                final(clock).last,
            ),
    {
        if self.history_message(conversation, message).is_none() {
            return;
        }
        let revision = self.history.changes.next(clock);
        self.history.changes.messages.insert(
            (conversation.to_owned(), message.to_owned()),
            revision,
        );
        self.history.changes.full_messages.insert(
            (conversation.to_owned(), message.to_owned()),
            revision,
        );
    }

    /// A streaming message got more text.
    pub fn history_stream_text_changed(&mut self, conversation: &str, message: &str, clock: &mut RevisionClock)
        requires
            old(self).wf(),
            old(clock).last < u64::MAX,
        ensures
            final(self).wf(),
            final(self).journaled(*old(self)),
            old(self).message(conversation@, message@) is None ==> *final(self) == *old(self)
                && *final(clock) == *old(clock),
            old(self).message(conversation@, message@) is Some ==> {
                let before = old(self).history.changes;
                let after = final(self).history.changes;
                &&& final(clock).last == old(clock).last + 1
                &&& after == (Changes {
                    revision: final(clock).last,
                    messages: after.messages,
                    ..before
                })
                &&& after.messages@ == before.messages@.insert(
                    (conversation@, message@),
                    final(clock).last,
                )
            },
    {
        if self.history_message(conversation, message).is_none() {
            return;
        }
        let revision = self.history.changes.next(clock);
        self.history.changes.messages.insert(
            (conversation.to_owned(), message.to_owned()),
            revision,
        );
    }

    /// A conversation's own data changed.
    pub fn history_metadata_changed(&mut self, conversation: &str, clock: &mut RevisionClock)
        requires
            old(self).wf(),
            old(clock).last < u64::MAX,
        ensures
            final(self).wf(),
            final(self).journaled(*old(self)),
            !has_conversation(old(self).conversation_state.conversations@, conversation@) ==> *final(self)
                == *old(self) && *final(clock) == *old(clock),
            has_conversation(old(self).conversation_state.conversations@, conversation@) ==> {
                let before = old(self).history.changes;
                let after = final(self).history.changes;
                &&& final(clock).last == old(clock).last + 1
                &&& after == (Changes {
                    revision: final(clock).last,
                    metadata: after.metadata,
                    ..before
                })
                &&& after.metadata@ == before.metadata@.insert(conversation@, final(clock).last)
            },
    {
        if find_conversation(&self.conversation_state.conversations, conversation).is_none() {
            return;
        }
        let revision = self.history.changes.next(clock);
        self.history.changes.metadata.insert(conversation.to_owned(), revision);
    }

    /// A conversation got another title.
    pub fn history_title_changed(&mut self, conversation: &str, clock: &mut RevisionClock)
        requires
            old(self).wf(),
            old(clock).last < u64::MAX,
        ensures
            final(self).wf(),
            final(self).journaled(*old(self)),
            !has_conversation(old(self).conversation_state.conversations@, conversation@) ==> *final(self)
                == *old(self) && *final(clock) == *old(clock),
            has_conversation(old(self).conversation_state.conversations@, conversation@) ==> {
                let item = old(self).conversation_state.conversations@[conversation_position(
                    old(self).conversation_state.conversations@,
                    conversation@,
                )];
                &&& final(clock).last == old(clock).last + 1
                &&& final(self).history.changes.extended_from(
                    old(self).history.changes,
                    final(clock).last,
                    Mutation::Rename {
                        conversation_id: conversation@,
                        title: item.title@,
                        updated_at: item.updated_at_ms,
                        revision: final(clock).last,
                    },
                )
            },
    {
        match find_conversation(&self.conversation_state.conversations, conversation) {
            Some(at) => {
                let title = self.conversation_state.conversations[at].title.clone();
                let updated_at = self.conversation_state.conversations[at].updated_at_ms;
                let revision = self.history.changes.next(clock);
                self.history.changes.extra.push(
                    (
                        revision,
                        HistoryMutation::Rename {
                            conversation_id: conversation.to_owned(),
                            title,
                            updated_at,
                            revision,
                        },
                    ),
                );
                assert(self.history.changes.extra@.drop_last() =~= old(self).history.changes.extra@);
            },
            None => {},
        }
    }

    /// A conversation was created.
    pub fn history_created(&mut self, conversation: &str, clock: &mut RevisionClock)
        requires
            old(self).wf(),
            old(clock).last < u64::MAX,
        ensures
            final(self).wf(),
            final(self).journaled(*old(self)),
            final(clock).last == old(clock).last + 1,
            final(self).history.changes == (Changes {
                revision: final(clock).last,
                created: final(self).history.changes.created,
                ..old(self).history.changes
            }),
            final(self).history.changes.created@ == old(self).history.changes.created@.insert(
                conversation@,
                final(clock).last,
            ),
    {
        let revision = self.history.changes.next(clock);
        self.history.changes.created.insert(conversation.to_owned(), revision);
    }

    /// A conversation was deleted.
    pub fn history_deleted(&mut self, conversation: &str, clock: &mut RevisionClock)
        requires
            old(self).wf(),
            old(clock).last < u64::MAX,
        ensures
            final(self).wf(),
            final(self).journaled(*old(self)),
            final(clock).last == old(clock).last + 1,
            final(self).history.changes.deleted_from(
                old(self).history.changes,
                conversation@,
                final(clock).last,
            ),
    {
        let revision = self.history.changes.next(clock);
        let owned = conversation.to_owned();
        self.history.changes.deleted.insert(conversation.to_owned(), revision);
        drop_conversation(&mut self.history.changes.messages, conversation);
        drop_conversation(&mut self.history.changes.full_messages, conversation);
        drop_conversation(&mut self.history.changes.stream_bases, conversation);
        self.history.changes.metadata.remove(&owned);
        self.history.changes.created.remove(&owned);
        let keep = |key: &(String, String, String), event: &(u64, HistoryEvent)| -> (kept: bool)
            ensures
                kept == (key.0@ != conversation@),
            { !text::same(key.0.as_str(), conversation) };
        self.history.changes.events.retain(
            keep,
            Ghost(
                |key: (Seq<char>, Seq<char>, Seq<char>), event: (u64, HistoryEvent)|
                    key.0 != conversation@,
            ),
        );
        assert(self.history.changes.events@ =~= old(self).history.changes.events@.restrict(
            Set::new(
                |key: (Seq<char>, Seq<char>, Seq<char>)|
                    old(self).history.changes.events@.dom().contains(key) && key.0 != conversation@,
            ),
        ));
    }

    /// A run of an agent gets a branch of its own.
    pub fn history_agent_created(&mut self, conversation: &str, run: &str, clock: &mut RevisionClock)
        requires
            old(self).wf(),
            old(clock).last < u64::MAX,
        ensures
            final(self).wf(),
            final(self).journaled(*old(self)),
            final(clock).last == old(clock).last + 1,
            final(self).history.changes.extended_from(
                old(self).history.changes,
                final(clock).last,
                Mutation::CreateAgentHistory {
                    conversation_id: conversation@,
                    run_id: run@,
                    revision: final(clock).last,
                },
            ),
    {
        let revision = self.history.changes.next(clock);
        self.history.changes.extra.push(
            (
                revision,
                HistoryMutation::CreateAgentHistory {
                    conversation_id: conversation.to_owned(),
                    run_id: run.to_owned(),
                    revision,
                },
            ),
        );
        assert(self.history.changes.extra@.drop_last() =~= old(self).history.changes.extra@);
    }

    /// A message was deleted: what was pending of it is forgotten.
    pub fn history_message_deleted(&mut self, conversation: &str, id: &str, clock: &mut RevisionClock)
        requires
            old(self).wf(),
            old(clock).last < u64::MAX,
        ensures
            final(self).wf(),
            final(self).message_forgotten(
                *old(self),
                conversation@,
                id@,
                old(clock).last,
                final(clock).last,
            ),
    {
        let branch = self.history_message_branch(conversation, id);
        let key = (conversation.to_owned(), id.to_owned());
        self.history.changes.messages.remove(&key);
        self.history.changes.full_messages.remove(&key);
        self.history.changes.stream_bases.remove(&key);
        let revision = self.history.changes.next(clock);
        self.history.changes.extra.push(
            (
                revision,
                HistoryMutation::DeleteMessage {
                    conversation_id: conversation.to_owned(),
                    branch_id: branch,
                    message_id: id.to_owned(),
                    revision,
                },
            ),
        );
        assert(self.history.changes.extra@.drop_last() =~= old(self).history.changes.extra@);
    }

    /// The history could not be loaded.
    pub fn history_load_failed(&mut self)
        ensures
            *final(self) == (AiWorkspaceEntity {
                chat_initialization_error: final(self).chat_initialization_error,
                ..*old(self)
            }),
            final(self).load_error(),
    {
        self.chat_initialization_error = Some(
            AiChatInitializationError {
                message_key: "ai.chat.load_failed_generic".to_owned(),
                can_retry: true,
            },
        );
    }

    /// The chat shows that its history could not be loaded.
    pub open spec fn load_error(self) -> bool {
        &&& self.chat_initialization_error is Some
        &&& self.chat_initialization_error->0.message_key@ == "ai.chat.load_failed_generic"@
        &&& self.chat_initialization_error->0.can_retry
    }

    /// Whether the chat can be used: the store writes, and the shown conversation is loaded.
    pub open spec fn is_ready(self) -> bool {
        &&& !self.history.quitting
        &&& self.history.status == HistoryStatus::Ready
        &&& self.chat_initialization_error is None
        &&& self.history.writes()
        &&& match self.active() {
            Some(conversation) => conversation.messages_loaded,
            None => true,
        }
    }

    /// The conversation that is shown.
    pub open spec fn active(self) -> Option<AiConversation> {
        match self.conversation_state.active_conversation_id {
            Some(id) => {
                let at = conversation_position(self.conversation_state.conversations@, id@);
                if at < self.conversation_state.conversations@.len() {
                    Some(self.conversation_state.conversations@[at])
                } else {
                    None
                }
            },
            None => None,
        }
    }

    pub fn active_conversation(&self) -> (res: Option<&AiConversation>)
        ensures
            match res {
                Some(conversation) => self.active() == Some(*conversation),
                None => self.active() is None,
            },
    {
        match &self.conversation_state.active_conversation_id {
            Some(id) => match find_conversation(&self.conversation_state.conversations, id.as_str()) {
                Some(at) => Some(&self.conversation_state.conversations[at]),
                None => None,
            },
            None => None,
        }
    }

    pub fn history_ready(&self) -> (res: bool)
        ensures
            res == self.is_ready(),
    {
        let loaded = match self.active_conversation() {
            Some(conversation) => conversation.messages_loaded,
            None => true,
        };
        !self.history.quitting && self.history.status == HistoryStatus::Ready
            && self.chat_initialization_error.is_none() && self.history.writer_is_ready() && loaded
    }

    /// Tries a failed write again, unless that is under way.
    pub fn retry_history_write(&mut self)
        ensures
            old(self).history.writer is None || old(self).history.retry_running ==> *final(self)
                == *old(self),
            old(self).history.writer is Some && !old(self).history.retry_running ==> {
                &&& *final(self) == (AiWorkspaceEntity {
                    history: AiHistoryState {
                        retry_running: true,
                        effects: final(self).history.effects,
                        ..old(self).history
                    },
                    ..*old(self)
                })
                &&& final(self).history.asked() == old(self).history.asked().push(Effect::RetryWrite)
            },
    {
        if self.history.writer.is_none() || self.history.retry_running {
            return;
        }
        self.history.retry_running = true;
        self.history.ask(HistoryEffect::RetryWrite);
    }

    /// Writes a streaming message soon, but not with every word.
    pub fn schedule_history_stream_save(&mut self)
        ensures
            old(self).history.save_timer_running ==> *final(self) == *old(self),
            !old(self).history.save_timer_running ==> {
                &&& *final(self) == (AiWorkspaceEntity {
                    history: AiHistoryState {
                        save_timer_running: true,
                        effects: final(self).history.effects,
                        ..old(self).history
                    },
                    ..*old(self)
                })
                &&& final(self).history.asked() == old(self).history.asked().push(
                    Effect::StartStreamTimer,
                )
            },
    {
        if self.history.save_timer_running {
            return;
        }
        self.history.save_timer_running = true;
        self.history.ask(HistoryEffect::StartStreamTimer);
    }

    /// Whether a waiter can be told at once that everything so far is on disk.
    pub open spec fn barrier_is_met(self) -> bool {
        ||| self.history.quitting && self.history.writer is None && self.history.changes.revision == 0
        ||| self.history.status == HistoryStatus::Idle
        ||| self.history.committed >= self.history.changes.revision && self.history.status
            == HistoryStatus::Ready && self.history.writes()
    }

    /// What waiting for everything recorded so far does.
    pub open spec fn barrier_set(self, before: AiWorkspaceEntity, waiter: u64) -> bool {
        if before.barrier_is_met() {
            &&& self == (AiWorkspaceEntity {
                history: AiHistoryState { effects: self.history.effects, ..before.history },
                ..before
            })
            &&& self.history.asked() == before.history.asked().push(
                Effect::Answer { waiter, committed: true },
            )
        } else {
            &&& self == (AiWorkspaceEntity {
                history: AiHistoryState {
                    effects: self.history.effects,
                    waiters: self.history.waiters,
                    ..before.history
                },
                ..before
            })
            &&& self.history.waiters@ == before.history.waiters@.push(
                (before.history.changes.revision, waiter),
            )
            &&& self.history.asked() == before.history.asked().push(Effect::Save)
        }
    }

    /// Lets `waiter` know once everything recorded so far is on disk.
    pub fn history_barrier(&mut self, waiter: u64)
        ensures
            final(self).barrier_set(*old(self), waiter),
    {
        let revision = self.history.changes.revision;
        if self.history.quitting && self.history.writer.is_none() && revision == 0 {
            self.history.ask(HistoryEffect::Answer { waiter, committed: true });
            return;
        }
        if self.history.status == HistoryStatus::Idle {
            self.history.ask(HistoryEffect::Answer { waiter, committed: true });
            return;
        }
        if self.history.committed >= revision && self.history.status == HistoryStatus::Ready
            && self.history.writer_is_ready() {
            self.history.ask(HistoryEffect::Answer { waiter, committed: true });
        } else {
            self.history.waiters.push((revision, waiter));
            self.request_history_save();
        }
    }

    /// Records an event. One of the same family and identity that still waits is replaced.
    pub fn history_event(
        &mut self,
        conversation: &str,
        family: &str,
        id: &str,
        event: HistoryEvent,
        clock: &mut RevisionClock,
    )
        requires
            old(self).wf(),
            old(clock).last < u64::MAX,
        ensures
            final(self).wf(),
            final(self).journaled_and_saved(*old(self)),
            final(clock).last == old(clock).last + 1,
            ({
                let before = old(self).history.changes;
                let after = final(self).history.changes;
                let at = event_position(before.extra@, conversation@, family@, id@);
                let mutation = Mutation::PutEvent {
                    conversation_id: conversation@,
                    family: family@,
                    id: id@,
                    event: event@,
                    revision: final(clock).last,
                };
                if at < before.extra@.len() {
                    &&& after == (Changes {
                        revision: final(clock).last,
                        extra: after.extra,
                        ..before
                    })
                    &&& after.extra@ == before.extra@.update(at, after.extra@[at])
                    &&& after.extra@[at].0 == final(clock).last
                    &&& after.extra@[at].1@ == mutation
                } else {
                    after.extended_from(before, final(clock).last, mutation)
                }
            }),
    {
        let revision = self.history.changes.next(clock);
        let update = HistoryMutation::PutEvent {
            conversation_id: conversation.to_owned(),
            family: family.to_owned(),
            id: id.to_owned(),
            event,
            revision,
        };
        let ghost extra = self.history.changes.extra@;
        let mut at: usize = 0;
        let mut found = false;
        while at < self.history.changes.extra.len() && !found
            invariant
                at <= self.history.changes.extra.len(),
                self.history.changes.extra@ == extra,
                forall|j: int|
                    0 <= j < at ==> !(#[trigger] extra[j]).1.stores_event(conversation@, family@, id@),
                found ==> at < extra.len() && extra[at as int].1.stores_event(
                    conversation@,
                    family@,
                    id@,
                ),
            decreases
                self.history.changes.extra.len() - at + if found {
                    0int
                } else {
                    1int
                },
        {
            if self.history.changes.extra[at].1.is_event(conversation, family, id) {
                found = true;
            } else {
                at += 1;
            }
        }
        proof {
            lemma_event_position(extra, conversation@, family@, id@, at as int);
        }
        if found {
            self.history.changes.extra.set(at, (revision, update));
        } else {
            self.history.changes.extra.push((revision, update));
            assert(self.history.changes.extra@.drop_last() =~= extra);
        }
        self.request_history_save();
    }

    /// Records an event that is put into words only when it is written; a later one of the same
    /// family and identity takes its place.
    pub fn queue_history_event(
        &mut self,
        conversation: &str,
        family: &str,
        id: &str,
        event: HistoryEvent,
        clock: &mut RevisionClock,
    )
        requires
            old(self).wf(),
            old(clock).last < u64::MAX,
        ensures
            final(self).wf(),
            final(self).journaled_and_saved(*old(self)),
            final(clock).last == old(clock).last + 1,
            final(self).history.changes == (Changes {
                revision: final(clock).last,
                events: final(self).history.changes.events,
                ..old(self).history.changes
            }),
            final(self).history.changes.events@ == old(self).history.changes.events@.insert(
                (conversation@, family@, id@),
                (final(clock).last, event),
            ),
    {
        let revision = self.history.changes.next(clock);
        self.history.changes.events.insert(
            (conversation.to_owned(), family.to_owned(), id.to_owned()),
            (revision, event),
        );
        self.request_history_save();
    }
}

/// A message of the conversation that changed waits to be written until it is written or deleted; once
/// deleted it waits no more. Neither says anything of another message.
pub proof fn law_changed_messages_wait_until_deleted(
    before: AiWorkspaceEntity,
    changed: AiWorkspaceEntity,
    deleted: AiWorkspaceEntity,
    conversation: Seq<char>,
    message: Seq<char>,
    start: u64,
    middle: u64,
    end: u64,
)
    requires
        before.message(conversation, message) is Some,
        changed.message_marked(before, conversation, message, start, middle),
        deleted.message_forgotten(changed, conversation, message, middle, end),
    ensures
        changed.is_pending(conversation, message),
        !deleted.is_pending(conversation, message),
        forall|c: Seq<char>, m: Seq<char>|
            (c, m) != (conversation, message) ==> {
                &&& (#[trigger] before.is_pending(c, m)) == changed.is_pending(c, m)
                &&& changed.is_pending(c, m) == deleted.is_pending(c, m)
            },
{
}

} // verus!
