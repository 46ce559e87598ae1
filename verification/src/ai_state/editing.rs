//! Changes to the course of a conversation: new conversations and messages, edits, compactions.

use vstd::prelude::*;

use crate::ai::messages::{said, said_all, AiChatMessage};
use crate::ai_state::entity::{
    all_pages_wf, AiHistoryState, AiWorkspaceEntity, Effect, HistoryPageState,
};
use crate::ai_state::journal::{Changes, HistoryMutation, Mutation, RevisionClock};
use crate::ai_state::model::{
    conversation_position, find_conversation, has_conversation, AiConversation,
};
use crate::ids;
use crate::table::Table;
use crate::text;

verus! {

pub open spec fn extra_view(extra: Seq<(u64, HistoryMutation)>) -> Seq<(u64, Mutation)> {
    extra.map_values(|entry: (u64, HistoryMutation)| (entry.0, entry.1@))
}

/// The pending messages without those of a list.
pub open spec fn uncaptured(
    pending: Map<(Seq<char>, Seq<char>), u64>,
    conversation: Seq<char>,
    messages: Seq<AiChatMessage>,
) -> Map<(Seq<char>, Seq<char>), u64>
    decreases messages.len(),
{
    if messages.len() == 0 {
        pending
    } else {
        uncaptured(pending, conversation, messages.drop_last()).remove(
            (conversation, messages.last().id@),
        )
    }
}

/// The writes that keep the pending ones among some messages as they are now.
pub open spec fn captured(
    pending: Map<(Seq<char>, Seq<char>), u64>,
    conversation: Seq<char>,
    branch: Seq<char>,
    messages: Seq<AiChatMessage>,
) -> Seq<(u64, Mutation)>
    decreases messages.len(),
{
    if messages.len() == 0 {
        Seq::empty()
    } else {
        let earlier = captured(pending, conversation, branch, messages.drop_last());
        let left = uncaptured(pending, conversation, messages.drop_last());
        let message = messages.last();
        let key = (conversation, message.id@);
        if left.dom().contains(key) {
            earlier.push(
                (
                    left[key],
                    Mutation::PutMessage {
                        conversation_id: conversation,
                        branch_id: branch,
                        message: said(message),
                        revision: left[key],
                    },
                ),
            )
        } else {
            earlier
        }
    }
}

/// The pending messages that outlive a change of branch: those of other conversations and of
/// agents.
pub open spec fn off_branch<V>(
    pending: Map<(Seq<char>, Seq<char>), u64>,
    conversation: Seq<char>,
    runs: Map<Seq<char>, V>,
) -> Map<(Seq<char>, Seq<char>), u64> {
    pending.restrict(
        Set::new(
            |key: (Seq<char>, Seq<char>)|
                pending.dom().contains(key) && (key.0 != conversation || runs.dom().contains(key.1)),
        ),
    )
}

/// A copy of the messages from `first` on.
fn duplicate_tail(messages: &Vec<AiChatMessage>, first: usize) -> (res: Vec<AiChatMessage>)
    requires
        first <= messages@.len(),
    ensures
        said_all(res@) == said_all(messages@.skip(first as int)),
{
    let mut tail: Vec<AiChatMessage> = Vec::new();
    let mut i: usize = first;
    while i < messages.len()
        invariant
            first <= i <= messages.len(),
            tail@.len() == i - first,
            forall|j: int| 0 <= j < tail@.len() ==> said(#[trigger] tail@[j]) == said(messages@[first + j]),
        decreases messages.len() - i,
    {
        tail.push(messages[i].duplicate());
        i += 1;
    }
    assert(said_all(tail@) =~= said_all(messages@.skip(first as int)));
    tail
}

impl AiWorkspaceEntity {
    /// Keeps the pending messages of a conversation as they are before they are edited: they are
    /// written even though the edit replaces them.
    pub fn capture_history_before_edit(&mut self, id: &str)
        requires
            old(self).wf(),
        ensures
            final(self).wf(),
            final(self).journaled(*old(self)),
            !has_conversation(old(self).conversation_state.conversations@, id@) ==> *final(self)
                == *old(self),
            has_conversation(old(self).conversation_state.conversations@, id@) ==> {
                let before = old(self).history.changes;
                let after = final(self).history.changes;
                let messages = old(self).conversation_state.conversations@[conversation_position(
                    old(self).conversation_state.conversations@,
                    id@,
                )].messages@;
                &&& after == (Changes { messages: after.messages, extra: after.extra, ..before })
                &&& after.messages@ == uncaptured(before.messages@, id@, messages)
                &&& extra_view(after.extra@) == extra_view(before.extra@) + captured(
                    before.messages@,
                    id@,
                    old(self).history.branch_of(id@),
                    messages,
                )
            },
    {
        let at = match find_conversation(&self.conversation_state.conversations, id) {
            Some(at) => at,
            None => {
                return;
            },
        };
        let branch = self.history.branch(id);
        let ghost messages = self.conversation_state.conversations@[at as int].messages@;
        let ghost pending = self.history.changes.messages@;
        let ghost start = extra_view(self.history.changes.extra@);
        let mut i: usize = 0;
        assert(messages.take(0) =~= Seq::<AiChatMessage>::empty());
        assert(start + Seq::<(u64, Mutation)>::empty() =~= start);
        while i < self.conversation_state.conversations[at].messages.len()
            invariant
                at < self.conversation_state.conversations@.len(),
                messages == self.conversation_state.conversations@[at as int].messages@,
                i <= messages.len(),
                self.wf(),
                self.journaled(*old(self)),
                branch@ == old(self).history.branch_of(id@),
                self.history.changes == (Changes {
                    messages: self.history.changes.messages,
                    extra: self.history.changes.extra,
                    ..old(self).history.changes
                }),
                self.history.changes.messages@ == uncaptured(pending, id@, messages.take(i as int)),
                extra_view(self.history.changes.extra@) == start + captured(
                    pending,
                    id@,
                    branch@,
                    messages.take(i as int),
                ),
            decreases messages.len() - i,
        {
            assert(messages.take(i + 1).drop_last() =~= messages.take(i as int));
            assert(messages.take(i + 1).last() == messages[i as int]);
            let ghost before = extra_view(self.history.changes.extra@);
            let key = (
                id.to_owned(),
                self.conversation_state.conversations[at].messages[i].id.clone(),
            );
            match self.history.changes.messages.remove(&key) {
                Some(revision) => {
                    let message = self.conversation_state.conversations[at].messages[i].duplicate();
                    let mutation = HistoryMutation::PutMessage {
                        conversation_id: id.to_owned(),
                        branch_id: branch.clone(),
                        message,
                        revision,
                    };
                    let ghost said = mutation@;
                    self.history.changes.extra.push((revision, mutation));
                    assert(extra_view(self.history.changes.extra@) =~= before.push((revision, said)));
                    assert(start + captured(pending, id@, branch@, messages.take(i as int)).push(
                        (revision, said),
                    ) =~= before.push((revision, said)));
                },
                None => {},
            }
            i += 1;
        }
        assert(messages.take(i as int) =~= messages);
    }

    fn keep_off_branch(&mut self, id: &str)
        requires
            old(self).wf(),
        ensures
            final(self).wf(),
            final(self).journaled(*old(self)),
            final(self).history.changes == (Changes {
                messages: final(self).history.changes.messages,
                ..old(self).history.changes
            }),
            final(self).history.changes.messages@ == off_branch(
                old(self).history.changes.messages@,
                id@,
                old(self).agents.message_runs@,
            ),
    {
        let mut pending: Table<(String, String), u64> = Table::new();
        std::mem::swap(&mut pending, &mut self.history.changes.messages);
        let runs = &self.agents.message_runs;
        let keep = |key: &(String, String), version: &u64| -> (kept: bool)
            ensures
                kept == (key.0@ != id@ || runs@.dom().contains(key.1@)),
            { !text::same(key.0.as_str(), id) || runs.contains(&key.1) };
        pending.retain(
            keep,
            Ghost(
                |key: (Seq<char>, Seq<char>), version: u64|
                    key.0 != id@ || self.agents.message_runs@.dom().contains(key.1),
            ),
        );
        assert(pending@ =~= off_branch(
            old(self).history.changes.messages@,
            id@,
            old(self).agents.message_runs@,
        ));
        self.history.changes.messages = pending;
    }

    /// A conversation goes on in another branch, and its window starts over.
    pub open spec fn rebranched(self, before: AiWorkspaceEntity, id: Seq<char>, branch: String) -> bool {
        &&& self == (AiWorkspaceEntity {
            history: AiHistoryState {
                changes: self.history.changes,
                effects: self.history.effects,
                branches: self.history.branches,
                pages: self.history.pages,
                ..before.history
            },
            ..before
        })
        &&& self.history.branches@ == before.history.branches@.insert(id, branch)
        &&& branch@.len() == 36
        &&& self.history.pages@ == if before.history.pages@.dom().contains(id) {
            before.history.pages@.insert(
                id,
                HistoryPageState { before: None, after: None, ..before.history.pages@[id] },
            )
        } else {
            before.history.pages@
        }
        &&& self.history.asked() == before.history.asked().push(Effect::Save)
    }

    fn enter_branch(&mut self, id: &str, branch: String)
        requires
            old(self).wf(),
        ensures
            final(self).wf(),
            *final(self) == (AiWorkspaceEntity {
                history: AiHistoryState {
                    branches: final(self).history.branches,
                    pages: final(self).history.pages,
                    ..old(self).history
                },
                ..*old(self)
            }),
            final(self).history.branches@ == old(self).history.branches@.insert(id@, branch),
            final(self).history.pages@ == if old(self).history.pages@.dom().contains(id@) {
                old(self).history.pages@.insert(
                    id@,
                    HistoryPageState { before: None, after: None, ..old(self).history.pages@[id@] },
                )
            } else {
                old(self).history.pages@
            },
    {
        proof {
            reveal(all_pages_wf);
        }
        self.history.branches.insert(id.to_owned(), branch);
        match self.history.pages.get_mut(&id.to_owned()) {
            Some(page) => {
                page.before = None;
                page.after = None;
            },
            None => {},
        }
    }

    /// A conversation went on in another branch by `mutation`, and that is recorded.
    pub open spec fn branched(
        self,
        before: AiWorkspaceEntity,
        id: Seq<char>,
        branch: String,
        mutation: Mutation,
        revision: u64,
    ) -> bool {
        let old_changes = before.history.changes;
        let changes = self.history.changes;
        &&& self.rebranched(before, id, branch)
        &&& changes == (Changes {
            revision: (revision + 1) as u64,
            messages: changes.messages,
            metadata: changes.metadata,
            extra: changes.extra,
            ..old_changes
        })
        &&& changes.messages@ == off_branch(old_changes.messages@, id, before.agents.message_runs@)
        &&& changes.metadata@ == old_changes.metadata@.insert(id, (revision + 1) as u64)
        &&& changes.extra@.len() == old_changes.extra@.len() + 1
        &&& changes.extra@.drop_last() == old_changes.extra@
        &&& changes.extra@.last().0 == revision
        &&& changes.extra@.last().1@ == mutation
    }

    fn go_on_in_branch(
        &mut self,
        id: &str,
        branch: String,
        mutation: HistoryMutation,
        revision: u64,
        clock: &mut RevisionClock,
    )
        requires
            old(self).wf(),
            old(clock).last == revision,
            revision < u64::MAX,
            branch@.len() == 36,
            has_conversation(old(self).conversation_state.conversations@, id@),
        ensures
            final(self).wf(),
            final(clock).last == revision + 1,
            final(self).branched(*old(self), id@, branch, mutation@, revision),
    {
        self.history.changes.extra.push((revision, mutation));
        assert(self.history.changes.extra@.drop_last() =~= old(self).history.changes.extra@);
        self.keep_off_branch(id);
        self.enter_branch(id, branch);
        self.history_metadata_changed(id, clock);
        self.request_history_save();
    }

    /// Lets a conversation go on from a summary: the messages up to `through_message` are left
    /// behind in their branch, and a new branch starts at what is now the first message.
    pub fn compact_history(&mut self, id: &str, through_message: String, clock: &mut RevisionClock)
        requires
            old(self).wf(),
            old(clock).last < u64::MAX - 1,
        ensures
            final(self).wf(),
            ({
                let conversations = old(self).conversation_state.conversations@;
                let at = conversation_position(conversations, id@);
                if at < conversations.len() && conversations[at].messages@.len() > 0 {
                    let branch = final(self).history.branches@[id@];
                    let revision = (old(clock).last + 1) as u64;
                    &&& final(clock).last == revision + 1
                    &&& final(self).branched(
                        *old(self),
                        id@,
                        branch,
                        Mutation::Compact {
                            conversation_id: id@,
                            source_branch: old(self).history.branch_of(id@),
                            branch_id: branch@,
                            through_message: through_message@,
                            anchor: said(conversations[at].messages@[0]),
                            revision,
                        },
                        revision,
                    )
                } else {
                    *final(self) == *old(self) && *final(clock) == *old(clock)
                }
            }),
    {
        let at = match find_conversation(&self.conversation_state.conversations, id) {
            Some(at) => at,
            None => {
                return;
            },
        };
        if self.conversation_state.conversations[at].messages.len() == 0 {
            return;
        }
        let anchor = self.conversation_state.conversations[at].messages[0].duplicate();
        let source_branch = self.history.branch(id);
        let branch = ids::random_id();
        let revision = clock.next();
        let mutation = HistoryMutation::Compact {
            conversation_id: id.to_owned(),
            source_branch,
            branch_id: branch.clone(),
            through_message,
            anchor,
            revision,
        };
        self.go_on_in_branch(id, branch, mutation, revision, clock);
    }

    /// Replaces what follows a point of a conversation: a new branch starts after the message
    /// before `first`, or before `replaced_message` where the conversation starts anew.
    pub fn replace_history_tail(
        &mut self,
        id: &str,
        first: usize,
        replaced_message: Option<&str>,
        clock: &mut RevisionClock,
    )
        requires
            old(self).wf(),
            old(clock).last < u64::MAX - 1,
            has_conversation(old(self).conversation_state.conversations@, id@) ==> first
                <= old(self).conversation_state.conversations@[conversation_position(
                old(self).conversation_state.conversations@,
                id@,
            )].messages@.len(),
        ensures
            final(self).wf(),
            ({
                let conversations = old(self).conversation_state.conversations@;
                let at = conversation_position(conversations, id@);
                if at < conversations.len() {
                    let messages = conversations[at].messages@;
                    let branch = final(self).history.branches@[id@];
                    let revision = (old(clock).last + 1) as u64;
                    &&& final(clock).last == revision + 1
                    &&& final(self).branched(
                        *old(self),
                        id@,
                        branch,
                        Mutation::ReplaceTail {
                            conversation_id: id@,
                            source_branch: old(self).history.branch_of(id@),
                            branch_id: branch@,
                            after_message: if first > 0 {
                                Some(messages[first - 1].id@)
                            } else {
                                None
                            },
                            before_message: if first == 0 && replaced_message is Some {
                                Some(replaced_message->0@)
                            } else {
                                None
                            },
                            messages: said_all(messages.skip(first as int)),
                            revision,
                        },
                        revision,
                    )
                } else {
                    *final(self) == *old(self) && *final(clock) == *old(clock)
                }
            }),
    {
        let at = match find_conversation(&self.conversation_state.conversations, id) {
            Some(at) => at,
            None => {
                return;
            },
        };
        let after_message = if first > 0 {
            Some(self.conversation_state.conversations[at].messages[first - 1].id.clone())
        } else {
            None
        };
        let tail = duplicate_tail(&self.conversation_state.conversations[at].messages, first);
        let source_branch = self.history.branch(id);
        let branch = ids::random_id();
        let revision = clock.next();
        let before_message = if first == 0 {
            match replaced_message {
                Some(message) => Some(message.to_owned()),
                None => None,
            }
        } else {
            None
        };
        let mutation = HistoryMutation::ReplaceTail {
            conversation_id: id.to_owned(),
            source_branch,
            branch_id: branch.clone(),
            after_message,
            before_message,
            messages: tail,
            revision,
        };
        self.go_on_in_branch(id, branch, mutation, revision, clock);
    }

    /// Whether the conversation that is left can be unloaded: it is not in use and nothing of it
    /// waits to be written.
    pub open spec fn can_unload(self, id: Seq<char>) -> bool {
        !self.loading_conversations@.dom().contains(id) && !self.unsaved(id)
    }

    /// A new conversation.
    pub open spec fn is_new_conversation(
        conversation: AiConversation,
        id: String,
        title: Option<String>,
        now: i64,
        profile: Option<String>,
    ) -> bool {
        &&& conversation.id == id
        &&& conversation.title@ == match title {
            Some(title) => title@,
            None => Seq::empty(),
        }
        &&& conversation.messages@.len() == 0
        &&& conversation.created_at_ms == now
        &&& conversation.updated_at_ms == now
        &&& conversation.origin@.len() == 0
        &&& conversation.profile_id == profile
        &&& conversation.message_count == 0
        &&& conversation.turn_count == 0
        &&& conversation.session_id is None
        &&& conversation.agent_options is None
        &&& !conversation.archived
        &&& conversation.messages_loaded
    }

    /// The conversations once the one that is left was unloaded.
    pub open spec fn unloaded(before: Seq<AiConversation>, after: Seq<AiConversation>, id: Seq<char>) -> bool {
        let at = conversation_position(before, id);
        if at < before.len() {
            &&& after == before.update(at, after[at])
            &&& after[at] == (AiConversation {
                messages: after[at].messages,
                messages_loaded: false,
                ..before[at]
            })
            &&& after[at].messages@.len() == 0
        } else {
            after == before
        }
    }

    /// Unloads the conversation that is shown, where it can be.
    fn unload_active(&mut self)
        requires
            old(self).wf(),
        ensures
            final(self).wf(),
            *final(self) == (AiWorkspaceEntity {
                conversation_state: final(self).conversation_state,
                history: AiHistoryState { pages: final(self).history.pages, ..old(self).history },
                ..*old(self)
            }),
            final(self).conversation_state.active_conversation_id
                == old(self).conversation_state.active_conversation_id,
            final(self).conversation_state.conversations@.len()
                == old(self).conversation_state.conversations@.len(),
            ({
                let previous = old(self).conversation_state.active_conversation_id;
                if previous is Some && old(self).can_unload(previous->0@) {
                    &&& final(self).history.pages@ == old(self).history.pages@.remove(previous->0@)
                    &&& Self::unloaded(
                        old(self).conversation_state.conversations@,
                        final(self).conversation_state.conversations@,
                        previous->0@,
                    )
                } else {
                    *final(self) == *old(self)
                }
            }),
    {
        let previous = match &self.conversation_state.active_conversation_id {
            Some(previous) => previous.clone(),
            None => {
                return;
            },
        };
        if self.loading_conversations.contains(&previous) || self.history_has_unsaved_messages(
            previous.as_str(),
        ) {
            return;
        }
        proof {
            reveal(all_pages_wf);
        }
        self.history.pages.remove(&previous);
        match find_conversation(&self.conversation_state.conversations, previous.as_str()) {
            Some(at) => {
                self.conversation_state.conversations[at].messages = Vec::new();
                self.conversation_state.conversations[at].messages_loaded = false;
                assert(self.conversation_state.conversations@
                    =~= old(self).conversation_state.conversations@.update(
                    at as int,
                    self.conversation_state.conversations@[at as int],
                ));
            },
            None => {},
        }
    }

    /// Starts a conversation and shows it. The one that was shown is unloaded where it can be.
    pub fn create_conversation(
        &mut self,
        id: String,
        title: Option<String>,
        now: i64,
        profile: Option<String>,
        clock: &mut RevisionClock,
    ) -> (res: String)
        requires
            old(self).wf(),
            old(clock).last < u64::MAX,
        ensures
            final(self).wf(),
            res == id,
            final(clock).last == old(clock).last + 1,
            *final(self) == (AiWorkspaceEntity {
                conversation_state: final(self).conversation_state,
                history: AiHistoryState {
                    pages: final(self).history.pages,
                    changes: final(self).history.changes,
                    ..old(self).history
                },
                ..*old(self)
            }),
            final(self).conversation_state.active_conversation_id == Some(id),
            final(self).conversation_state.conversations@.len()
                == old(self).conversation_state.conversations@.len() + 1,
            Self::is_new_conversation(
                final(self).conversation_state.conversations@[0],
                id,
                title,
                now,
                profile,
            ),
            ({
                let previous = old(self).conversation_state.active_conversation_id;
                let rest = final(self).conversation_state.conversations@.drop_first();
                if previous is Some && old(self).can_unload(previous->0@) {
                    &&& final(self).history.pages@ == old(self).history.pages@.remove(previous->0@)
                    &&& Self::unloaded(
                        old(self).conversation_state.conversations@,
                        rest,
                        previous->0@,
                    )
                } else {
                    &&& final(self).history.pages == old(self).history.pages
                    &&& rest == old(self).conversation_state.conversations@
                }
            }),
            final(self).history.changes == (Changes {
                revision: final(clock).last,
                created: final(self).history.changes.created,
                ..old(self).history.changes
            }),
            final(self).history.changes.created@ == old(self).history.changes.created@.insert(
                id@,
                final(clock).last,
            ),
    {
        self.unload_active();
        let ghost rest = self.conversation_state.conversations@;
        let conversation = AiConversation {
            id: id.clone(),
            title: match title {
                Some(title) => title,
                None => String::new(),
            },
            messages: Vec::new(),
            created_at_ms: now,
            updated_at_ms: now,
            origin: String::new(),
            profile_id: profile,
            message_count: 0,
            turn_count: 0,
            session_id: None,
            agent_options: None,
            archived: false,
            messages_loaded: true,
        };
        self.conversation_state.conversations.insert(0, conversation);
        assert(self.conversation_state.conversations@.drop_first() =~= rest);
        self.conversation_state.active_conversation_id = Some(id.clone());
        self.history_created(id.as_str(), clock);
        id
    }

    /// The conversation that is shown; one is started where there is none.
    pub fn ensure_conversation(
        &mut self,
        id: String,
        title: Option<String>,
        now: i64,
        profile: Option<String>,
        clock: &mut RevisionClock,
    ) -> (res: String)
        requires
            old(self).wf(),
            old(clock).last < u64::MAX,
        ensures
            final(self).wf(),
            match old(self).conversation_state.active_conversation_id {
                Some(active) => {
                    &&& res == active
                    &&& *final(self) == *old(self)
                    &&& *final(clock) == *old(clock)
                },
                None => {
                    &&& res == id
                    &&& final(clock).last == old(clock).last + 1
                    &&& *final(self) == (AiWorkspaceEntity {
                        conversation_state: final(self).conversation_state,
                        history: AiHistoryState {
                            changes: final(self).history.changes,
                            ..old(self).history
                        },
                        ..*old(self)
                    })
                    &&& final(self).conversation_state.active_conversation_id == Some(id)
                    &&& final(self).conversation_state.conversations@.len()
                        == old(self).conversation_state.conversations@.len() + 1
                    &&& Self::is_new_conversation(
                        final(self).conversation_state.conversations@[0],
                        id,
                        title,
                        now,
                        profile,
                    )
                    &&& final(self).conversation_state.conversations@.drop_first()
                        == old(self).conversation_state.conversations@
                    &&& final(self).history.changes == (Changes {
                        revision: final(clock).last,
                        created: final(self).history.changes.created,
                        ..old(self).history.changes
                    })
                    &&& final(self).history.changes.created@
                        == old(self).history.changes.created@.insert(id@, final(clock).last)
                },
            },
    {
        let active = text::duplicate_option(&self.conversation_state.active_conversation_id);
        match active {
            Some(active) => active,
            None => self.create_conversation(id, title, now, profile, clock),
        }
    }

    /// The state once a message was put behind a conversation's others, before that is recorded.
    pub open spec fn with_message(
        self,
        before: AiWorkspaceEntity,
        conversation: Seq<char>,
        message: AiChatMessage,
        turns: usize,
    ) -> bool {
        let at = conversation_position(before.conversation_state.conversations@, conversation);
        let conversations = self.conversation_state.conversations@;
        &&& self == (AiWorkspaceEntity { conversation_state: self.conversation_state, ..before })
        &&& self.conversation_state.active_conversation_id
            == before.conversation_state.active_conversation_id
        &&& if at < before.conversation_state.conversations@.len() {
            let item = before.conversation_state.conversations@[at];
            &&& conversations == before.conversation_state.conversations@.update(
                at,
                conversations[at],
            )
            &&& conversations[at] == (AiConversation {
                messages: conversations[at].messages,
                message_count: if item.message_count < usize::MAX {
                    (item.message_count + 1) as usize
                } else {
                    usize::MAX
                },
                turn_count: if item.turn_count + turns <= usize::MAX {
                    (item.turn_count + turns) as usize
                } else {
                    usize::MAX
                },
                ..item
            })
            &&& conversations[at].messages@ == item.messages@.push(message)
        } else {
            conversations == before.conversation_state.conversations@
        }
    }

    /// Puts a message behind a conversation's others and records it. `turns` says how many turns
    /// it opens.
    pub fn add_message(
        &mut self,
        conversation: &str,
        message: AiChatMessage,
        turns: usize,
        clock: &mut RevisionClock,
    )
        requires
            old(self).wf(),
            old(clock).last < u64::MAX - 1,
        ensures
            final(self).wf(),
            ({
                let middle = AiWorkspaceEntity {
                    conversation_state: final(self).conversation_state,
                    ..*old(self)
                };
                let before = old(self).history.changes;
                let after = final(self).history.changes;
                let known = middle.message(conversation@, message.id@) is Some;
                let listed = has_conversation(middle.conversation_state.conversations@, conversation@);
                let first = (old(clock).last + 1) as u64;
                let second = if known {
                    (first + 1) as u64
                } else {
                    first
                };
                &&& middle.with_message(*old(self), conversation@, message, turns)
                &&& final(self).journaled(middle)
                &&& after.messages@ == if known {
                    before.messages@.insert((conversation@, message.id@), first)
                } else {
                    before.messages@
                }
                &&& after.full_messages@ == if known {
                    before.full_messages@.insert((conversation@, message.id@), first)
                } else {
                    before.full_messages@
                }
                &&& after.metadata@ == if listed {
                    before.metadata@.insert(conversation@, second)
                } else {
                    before.metadata@
                }
                &&& after == (Changes {
                    revision: after.revision,
                    messages: after.messages,
                    full_messages: after.full_messages,
                    metadata: after.metadata,
                    ..before
                })
                &&& final(clock).last == old(clock).last + (if known {
                    1int
                } else {
                    0int
                }) + (if listed {
                    1int
                } else {
                    0int
                })
                &&& after.revision == if known || listed {
                    final(clock).last
                } else {
                    before.revision
                }
            }),
    {
        let id = message.id.clone();
        match find_conversation(&self.conversation_state.conversations, conversation) {
            Some(at) => {
                let ghost before = self.conversation_state.conversations@;
                let item = &mut self.conversation_state.conversations[at];
                item.messages.push(message);
                item.message_count = item.message_count.saturating_add(1);
                item.turn_count = item.turn_count.saturating_add(turns);
                assert(self.conversation_state.conversations@ =~= before.update(
                    at as int,
                    self.conversation_state.conversations@[at as int],
                ));
            },
            None => {},
        }
        let ghost middle = *self;
        self.history_message_changed(conversation, id.as_str(), clock);
        self.history_metadata_changed(conversation, clock);
    }
}

} // verus!
