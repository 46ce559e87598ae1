//! The journal: what has changed and is not on disk yet.

use vstd::prelude::*;

use crate::ai::messages::{said, said_all, AiChatMessage, AiChatRole, ChatMessage};
use crate::ai::wipe::clear_history_source;
use crate::ai_state::model::{
    AgentMessage, AgentSnapshot, AgentUsage, AiConversation, ConversationCard, SnapshotView,
};
use crate::json::{Json, JsonTree};
use crate::table::{Key, Table};
use crate::text;

verus! {

/// The source of revisions. Every change takes the next one, whichever window makes it.
pub struct RevisionClock {
    pub last: u64,
}

impl RevisionClock {
    pub fn next(&mut self) -> (res: u64)
        requires
            old(self).last < u64::MAX,
        ensures
            res == old(self).last + 1,
            final(self).last == res,
    {
        self.last += 1;
        self.last
    }

    /// Moves past a revision that a store already holds.
    pub fn catch_up(&mut self, revision: u64)
        ensures
            final(self).last == if revision > old(self).last {
                revision
            } else {
                old(self).last
            },
    {
        if revision > self.last {
            self.last = revision;
        }
    }
}

/// What is stored of a run besides its messages.
pub struct AgentCard {
    pub snapshot: AgentSnapshot,
    pub parent_usage: AgentUsage,
    pub created_at_ms: i64,
    pub parent_message_id: String,
    pub target_labels: Vec<String>,
    pub revision: u64,
    pub message_branch: String,
}

/// What is stored of a run, in words.
pub struct AgentCardView {
    pub snapshot: SnapshotView,
    pub parent_usage: AgentUsage,
    pub created_at_ms: i64,
    pub parent_message_id: Seq<char>,
    pub target_labels: Seq<Seq<char>>,
    pub revision: u64,
    pub message_branch: Seq<char>,
}

impl AgentCard {
    pub open spec fn view(self) -> AgentCardView {
        AgentCardView {
            snapshot: self.snapshot@,
            parent_usage: self.parent_usage,
            created_at_ms: self.created_at_ms,
            parent_message_id: self.parent_message_id@,
            target_labels: text::seq_view(self.target_labels@),
            revision: self.revision,
            message_branch: self.message_branch@,
        }
    }

    pub fn duplicate(&self) -> (res: AgentCard)
        ensures
            res@ == self@,
    {
        AgentCard {
            snapshot: self.snapshot.duplicate(),
            parent_usage: self.parent_usage,
            created_at_ms: self.created_at_ms,
            parent_message_id: self.parent_message_id.clone(),
            target_labels: text::duplicate_list(&self.target_labels),
            revision: self.revision,
            message_branch: self.message_branch.clone(),
        }
    }
}

/// Something that happened in a conversation.
pub enum HistoryEvent {
    Transcript(JsonTree),
    Diagnostic(JsonTree),
    Agent(AgentCard),
    AgentCommunication(AgentMessage),
}

/// Something that happened in a conversation, in words.
pub enum Happened {
    Transcript(Json),
    Diagnostic(Json),
    Agent(AgentCardView),
    AgentCommunication(AgentMessage),
}

impl HistoryEvent {
    pub open spec fn view(self) -> Happened {
        match self {
            HistoryEvent::Transcript(value) => Happened::Transcript(value@),
            HistoryEvent::Diagnostic(value) => Happened::Diagnostic(value@),
            HistoryEvent::Agent(card) => Happened::Agent(card@),
            HistoryEvent::AgentCommunication(message) => Happened::AgentCommunication(message),
        }
    }

    pub fn duplicate(&self) -> (res: HistoryEvent)
        ensures
            res@ == self@,
    {
        match self {
            HistoryEvent::Transcript(value) => HistoryEvent::Transcript(value.duplicate()),
            HistoryEvent::Diagnostic(value) => HistoryEvent::Diagnostic(value.duplicate()),
            HistoryEvent::Agent(card) => HistoryEvent::Agent(card.duplicate()),
            HistoryEvent::AgentCommunication(message) => HistoryEvent::AgentCommunication(
                message.duplicate(),
            ),
        }
    }
}

/// One change to the store.
pub enum HistoryMutation {
    Create { conversation: AiConversation, revision: u64 },
    Metadata { conversation: AiConversation, revision: u64 },
    Rename { conversation_id: String, title: String, updated_at: i64, revision: u64 },
    DeleteConversation { conversation_id: String, revision: u64 },
    CreateAgentHistory { conversation_id: String, run_id: String, revision: u64 },
    PutMessage { conversation_id: String, branch_id: String, message: AiChatMessage, revision: u64 },
    StreamText { conversation_id: String, branch_id: String, message_id: String, delta: String },
    DeleteMessage { conversation_id: String, branch_id: String, message_id: String, revision: u64 },
    PutEvent { conversation_id: String, family: String, id: String, event: HistoryEvent, revision: u64 },
    Compact {
        conversation_id: String,
        source_branch: String,
        branch_id: String,
        through_message: String,
        anchor: AiChatMessage,
        revision: u64,
    },
    ReplaceTail {
        conversation_id: String,
        source_branch: String,
        branch_id: String,
        after_message: Option<String>,
        before_message: Option<String>,
        messages: Vec<AiChatMessage>,
        revision: u64,
    },
}

/// One change to the store, in words.
pub enum Mutation {
    /// `messages` and `loaded` are what the written conversation says of its messages.
    Create { conversation: ConversationCard, messages: Seq<ChatMessage>, loaded: bool, revision: u64 },
    Metadata { conversation: ConversationCard, messages: Seq<ChatMessage>, loaded: bool, revision: u64 },
    Rename { conversation_id: Seq<char>, title: Seq<char>, updated_at: i64, revision: u64 },
    DeleteConversation { conversation_id: Seq<char>, revision: u64 },
    CreateAgentHistory { conversation_id: Seq<char>, run_id: Seq<char>, revision: u64 },
    PutMessage {
        conversation_id: Seq<char>,
        branch_id: Seq<char>,
        message: ChatMessage,
        revision: u64,
    },
    StreamText {
        conversation_id: Seq<char>,
        branch_id: Seq<char>,
        message_id: Seq<char>,
        delta: Seq<char>,
    },
    DeleteMessage {
        conversation_id: Seq<char>,
        branch_id: Seq<char>,
        message_id: Seq<char>,
        revision: u64,
    },
    PutEvent {
        conversation_id: Seq<char>,
        family: Seq<char>,
        id: Seq<char>,
        event: Happened,
        revision: u64,
    },
    Compact {
        conversation_id: Seq<char>,
        source_branch: Seq<char>,
        branch_id: Seq<char>,
        through_message: Seq<char>,
        anchor: ChatMessage,
        revision: u64,
    },
    ReplaceTail {
        conversation_id: Seq<char>,
        source_branch: Seq<char>,
        branch_id: Seq<char>,
        after_message: Option<Seq<char>>,
        before_message: Option<Seq<char>>,
        messages: Seq<ChatMessage>,
        revision: u64,
    },
}

impl HistoryMutation {
    pub open spec fn view(self) -> Mutation {
        match self {
            HistoryMutation::Create { conversation, revision } => Mutation::Create {
                conversation: conversation.card(),
                messages: said_all(conversation.messages@),
                loaded: conversation.messages_loaded,
                revision,
            },
            HistoryMutation::Metadata { conversation, revision } => Mutation::Metadata {
                conversation: conversation.card(),
                messages: said_all(conversation.messages@),
                loaded: conversation.messages_loaded,
                revision,
            },
            HistoryMutation::Rename { conversation_id, title, updated_at, revision } => Mutation::Rename {
                conversation_id: conversation_id@,
                title: title@,
                updated_at,
                revision,
            },
            HistoryMutation::DeleteConversation { conversation_id, revision } => Mutation::DeleteConversation {
                conversation_id: conversation_id@,
                revision,
            },
            HistoryMutation::CreateAgentHistory { conversation_id, run_id, revision } => Mutation::CreateAgentHistory {
                conversation_id: conversation_id@,
                run_id: run_id@,
                revision,
            },
            HistoryMutation::PutMessage { conversation_id, branch_id, message, revision } => Mutation::PutMessage {
                conversation_id: conversation_id@,
                branch_id: branch_id@,
                message: said(message),
                revision,
            },
            HistoryMutation::StreamText { conversation_id, branch_id, message_id, delta } => Mutation::StreamText {
                conversation_id: conversation_id@,
                branch_id: branch_id@,
                message_id: message_id@,
                delta: delta@,
            },
            HistoryMutation::DeleteMessage { conversation_id, branch_id, message_id, revision } => Mutation::DeleteMessage {
                conversation_id: conversation_id@,
                branch_id: branch_id@,
                message_id: message_id@,
                revision,
            },
            HistoryMutation::PutEvent { conversation_id, family, id, event, revision } => Mutation::PutEvent {
                conversation_id: conversation_id@,
                family: family@,
                id: id@,
                event: event@,
                revision,
            },
            HistoryMutation::Compact {
                conversation_id,
                source_branch,
                branch_id,
                through_message,
                anchor,
                revision,
            } => Mutation::Compact {
                conversation_id: conversation_id@,
                source_branch: source_branch@,
                branch_id: branch_id@,
                through_message: through_message@,
                anchor: said(anchor),
                revision,
            },
            HistoryMutation::ReplaceTail {
                conversation_id,
                source_branch,
                branch_id,
                after_message,
                before_message,
                messages,
                revision,
            } => Mutation::ReplaceTail {
                conversation_id: conversation_id@,
                source_branch: source_branch@,
                branch_id: branch_id@,
                after_message: text::opt_view(after_message),
                before_message: text::opt_view(before_message),
                messages: said_all(messages@),
                revision,
            },
        }
    }

    pub fn duplicate(&self) -> (res: HistoryMutation)
        ensures
            res@ == self@,
    {
        match self {
            HistoryMutation::Create { conversation, revision } => HistoryMutation::Create {
                conversation: conversation.duplicate(),
                revision: *revision,
            },
            HistoryMutation::Metadata { conversation, revision } => HistoryMutation::Metadata {
                conversation: conversation.duplicate(),
                revision: *revision,
            },
            HistoryMutation::Rename { conversation_id, title, updated_at, revision } => HistoryMutation::Rename {
                conversation_id: conversation_id.clone(),
                title: title.clone(),
                updated_at: *updated_at,
                revision: *revision,
            },
            HistoryMutation::DeleteConversation { conversation_id, revision } => HistoryMutation::DeleteConversation {
                conversation_id: conversation_id.clone(),
                revision: *revision,
            },
            HistoryMutation::CreateAgentHistory { conversation_id, run_id, revision } => HistoryMutation::CreateAgentHistory {
                conversation_id: conversation_id.clone(),
                run_id: run_id.clone(),
                revision: *revision,
            },
            HistoryMutation::PutMessage { conversation_id, branch_id, message, revision } => HistoryMutation::PutMessage {
                conversation_id: conversation_id.clone(),
                branch_id: branch_id.clone(),
                message: message.duplicate(),
                revision: *revision,
            },
            HistoryMutation::StreamText { conversation_id, branch_id, message_id, delta } => HistoryMutation::StreamText {
                conversation_id: conversation_id.clone(),
                branch_id: branch_id.clone(),
                message_id: message_id.clone(),
                delta: delta.clone(),
            },
            HistoryMutation::DeleteMessage { conversation_id, branch_id, message_id, revision } => HistoryMutation::DeleteMessage {
                conversation_id: conversation_id.clone(),
                branch_id: branch_id.clone(),
                message_id: message_id.clone(),
                revision: *revision,
            },
            HistoryMutation::PutEvent { conversation_id, family, id, event, revision } => HistoryMutation::PutEvent {
                conversation_id: conversation_id.clone(),
                family: family.clone(),
                id: id.clone(),
                event: event.duplicate(),
                revision: *revision,
            },
            HistoryMutation::Compact {
                conversation_id,
                source_branch,
                branch_id,
                through_message,
                anchor,
                revision,
            } => HistoryMutation::Compact {
                conversation_id: conversation_id.clone(),
                source_branch: source_branch.clone(),
                branch_id: branch_id.clone(),
                through_message: through_message.clone(),
                anchor: anchor.duplicate(),
                revision: *revision,
            },
            HistoryMutation::ReplaceTail {
                conversation_id,
                source_branch,
                branch_id,
                after_message,
                before_message,
                messages,
                revision,
            } => HistoryMutation::ReplaceTail {
                conversation_id: conversation_id.clone(),
                source_branch: source_branch.clone(),
                branch_id: branch_id.clone(),
                after_message: text::duplicate_option(after_message),
                before_message: text::duplicate_option(before_message),
                messages: crate::ai::messages::duplicate_messages(messages),
                revision: *revision,
            },
        }
    }

    /// Whether this stores the event `id` of a family.
    pub open spec fn stores_event(self, conversation: Seq<char>, family: Seq<char>, id: Seq<char>) -> bool {
        match self@ {
            Mutation::PutEvent { conversation_id, family: own, id: own_id, .. } => conversation_id
                == conversation && own == family && own_id == id,
            _ => false,
        }
    }

    pub fn is_event(&self, conversation: &str, family: &str, id: &str) -> (res: bool)
        ensures
            res == self.stores_event(conversation@, family@, id@),
    {
        match self {
            HistoryMutation::PutEvent { conversation_id, family: own, id: own_id, .. } => text::same(
                conversation_id.as_str(),
                conversation,
            ) && text::same(own.as_str(), family) && text::same(own_id.as_str(), id),
            _ => false,
        }
    }
}

pub open spec fn mutations_view(mutations: Seq<HistoryMutation>) -> Seq<Mutation> {
    mutations.map_values(|mutation: HistoryMutation| mutation@)
}

/// The changes that are not on disk yet. A message's text may be known to the store in part: its
/// base says how far.
pub struct Changes {
    pub revision: u64,
    pub messages: Table<(String, String), u64>,
    pub full_messages: Table<(String, String), u64>,
    pub stream_bases: Table<(String, String), u64>,
    pub metadata: Table<String, u64>,
    pub created: Table<String, u64>,
    pub deleted: Table<String, u64>,
    pub extra: Vec<(u64, HistoryMutation)>,
    pub events: Table<(String, String, String), (u64, HistoryEvent)>,
}

/// The entries of a map that came after a revision.
pub open spec fn newer<K>(map: Map<K, u64>, revision: u64) -> Map<K, u64> {
    map.restrict(Set::new(|key: K| map.dom().contains(key) && map[key] > revision))
}

/// The changes of a list that came after a revision.
pub open spec fn newer_extra(extra: Seq<(u64, HistoryMutation)>, revision: u64) -> Seq<(u64, HistoryMutation)>
    decreases extra.len(),
{
    if extra.len() == 0 {
        extra
    } else if extra.last().0 > revision {
        newer_extra(extra.drop_last(), revision).push(extra.last())
    } else {
        newer_extra(extra.drop_last(), revision)
    }
}

pub open spec fn newer_events<K>(map: Map<K, (u64, HistoryEvent)>, revision: u64) -> Map<K, (u64, HistoryEvent)> {
    map.restrict(Set::new(|key: K| map.dom().contains(key) && map[key].0 > revision))
}

fn keep_newer<K: Key>(table: &mut Table<K, u64>, revision: u64)
    requires
        old(table).wf(),
    ensures
        final(table).wf(),
        final(table)@ == newer(old(table)@, revision),
{
    let keep = |key: &K, version: &u64| -> (kept: bool)
        ensures
            kept == (*version > revision),
        { *version > revision };
    table.retain(keep, Ghost(|key: K::Id, version: u64| version > revision));
    assert(table@ =~= newer(old(table)@, revision));
}

impl Changes {
    pub open spec fn wf(self) -> bool {
        &&& self.messages.wf()
        &&& self.full_messages.wf()
        &&& self.stream_bases.wf()
        &&& self.metadata.wf()
        &&& self.created.wf()
        &&& self.deleted.wf()
        &&& self.events.wf()
    }

    pub open spec fn is_empty(self) -> bool {
        &&& self.messages@ == Map::<(Seq<char>, Seq<char>), u64>::empty()
        &&& self.full_messages@ == Map::<(Seq<char>, Seq<char>), u64>::empty()
        &&& self.stream_bases@ == Map::<(Seq<char>, Seq<char>), u64>::empty()
        &&& self.metadata@ == Map::<Seq<char>, u64>::empty()
        &&& self.created@ == Map::<Seq<char>, u64>::empty()
        &&& self.deleted@ == Map::<Seq<char>, u64>::empty()
        &&& self.extra@.len() == 0
        &&& self.events@ == Map::<(Seq<char>, Seq<char>, Seq<char>), (u64, HistoryEvent)>::empty()
    }

    pub fn new() -> (res: Changes)
        ensures
            res.wf(),
            res.is_empty(),
            res.revision == 0,
    {
        Changes {
            revision: 0,
            messages: Table::new(),
            full_messages: Table::new(),
            stream_bases: Table::new(),
            metadata: Table::new(),
            created: Table::new(),
            deleted: Table::new(),
            extra: Vec::new(),
            events: Table::new(),
        }
    }

    /// Takes the next revision.
    pub fn next(&mut self, clock: &mut RevisionClock) -> (res: u64)
        requires
            old(clock).last < u64::MAX,
        ensures
            res == old(clock).last + 1,
            final(clock).last == res,
            *final(self) == (Changes { revision: res, ..*old(self) }),
    {
        self.revision = clock.next();
        self.revision
    }

    /// Everything up to `revision` is on disk: only what came later stays.
    pub fn acknowledged(&mut self, revision: u64)
        requires
            old(self).wf(),
        ensures
            final(self).wf(),
            final(self).acknowledged_from(*old(self), revision),
    {
        keep_newer(&mut self.messages, revision);
        keep_newer(&mut self.full_messages, revision);
        keep_newer(&mut self.metadata, revision);
        keep_newer(&mut self.created, revision);
        keep_newer(&mut self.deleted, revision);
        let mut rest: Vec<(u64, HistoryMutation)> = Vec::new();
        std::mem::swap(&mut rest, &mut self.extra);
        let ghost all = rest@;
        let ghost mut done: int = 0;
        assert(all.take(0) =~= Seq::<(u64, HistoryMutation)>::empty());
        assert(rest@ =~= all.skip(0));
        while rest.len() > 0
            invariant
                0 <= done <= all.len(),
                rest@ == all.skip(done),
                self.extra@ == newer_extra(all.take(done), revision),
                self.wf(),
                self.acknowledged_tables(*old(self), revision),
                self.revision == old(self).revision,
                self.stream_bases == old(self).stream_bases,
                self.events == old(self).events,
            decreases rest@.len(),
        {
            let entry = rest.remove(0);
            assert(entry == all[done]);
            assert(rest@ =~= all.skip(done + 1));
            assert(all.take(done + 1).drop_last() =~= all.take(done));
            if entry.0 > revision {
                self.extra.push(entry);
            }
            proof {
                done = done + 1;
            }
        }
        assert(all.take(done) =~= all);
        let keep = |key: &(String, String, String), event: &(u64, HistoryEvent)| -> (kept: bool)
            ensures
                kept == (event.0 > revision),
            { event.0 > revision };
        self.events.retain(
            keep,
            Ghost(
                |key: (Seq<char>, Seq<char>, Seq<char>), event: (u64, HistoryEvent)|
                    event.0 > revision,
            ),
        );
        assert(self.events@ =~= newer_events(old(self).events@, revision));
    }

    pub open spec fn acknowledged_tables(self, before: Changes, revision: u64) -> bool {
        &&& self.messages@ == newer(before.messages@, revision)
        &&& self.full_messages@ == newer(before.full_messages@, revision)
        &&& self.metadata@ == newer(before.metadata@, revision)
        &&& self.created@ == newer(before.created@, revision)
        &&& self.deleted@ == newer(before.deleted@, revision)
    }

    /// What an acknowledgement of `revision` leaves of earlier changes.
    pub open spec fn acknowledged_from(self, before: Changes, revision: u64) -> bool {
        &&& self.acknowledged_tables(before, revision)
        &&& self.extra@ == newer_extra(before.extra@, revision)
        &&& self.events@ == newer_events(before.events@, revision)
        &&& self.stream_bases == before.stream_bases
        &&& self.revision == before.revision
    }
}

/// An acknowledgement takes away what was written and nothing else: a change made since stays as it
/// is, and what was written does not wait any longer.
pub proof fn law_later_changes_stay(before: Changes, after: Changes, revision: u64)
    requires
        after.acknowledged_from(before, revision),
    ensures
        forall|name: (Seq<char>, Seq<char>)| #[trigger]
            after.messages@.dom().contains(name) <==> before.messages@.dom().contains(name)
                && before.messages@[name] > revision,
        forall|name: (Seq<char>, Seq<char>)| #[trigger]
            after.messages@.dom().contains(name) ==> after.messages@[name] == before.messages@[name],
        forall|conversation: Seq<char>| #[trigger]
            after.deleted@.dom().contains(conversation) <==> before.deleted@.dom().contains(conversation)
                && before.deleted@[conversation] > revision,
        forall|name: (Seq<char>, Seq<char>, Seq<char>)| #[trigger]
            after.events@.dom().contains(name) <==> before.events@.dom().contains(name)
                && before.events@[name].0 > revision,
        forall|name: (Seq<char>, Seq<char>, Seq<char>)| #[trigger]
            after.events@.dom().contains(name) ==> after.events@[name] == before.events@[name],
{
}

/// Acknowledging one revision and then another leaves what the later of the two alone leaves.
pub proof fn law_acknowledgements_add_up(
    before: Changes,
    middle: Changes,
    after: Changes,
    first: u64,
    second: u64,
)
    requires
        middle.acknowledged_from(before, first),
        after.acknowledged_from(middle, second),
    ensures
        after.acknowledged_from(
            before,
            if first > second {
                first
            } else {
                second
            },
        ),
{
    let both = if first > second {
        first
    } else {
        second
    };
    assert(after.messages@ =~= newer(before.messages@, both));
    assert(after.full_messages@ =~= newer(before.full_messages@, both));
    assert(after.metadata@ =~= newer(before.metadata@, both));
    assert(after.created@ =~= newer(before.created@, both));
    assert(after.deleted@ =~= newer(before.deleted@, both));
    assert(after.events@ =~= newer_events(before.events@, both));
    lemma_newer_extra_twice(before.extra@, first, second);
}

proof fn lemma_newer_extra_twice(extra: Seq<(u64, HistoryMutation)>, first: u64, second: u64)
    ensures
        newer_extra(newer_extra(extra, first), second) == newer_extra(
            extra,
            if first > second {
                first
            } else {
                second
            },
        ),
    decreases extra.len(),
{
    if extra.len() > 0 {
        lemma_newer_extra_twice(extra.drop_last(), first, second);
        let kept = newer_extra(extra.drop_last(), first);
        if extra.last().0 > first {
            assert(kept.push(extra.last()).drop_last() =~= kept);
        }
    }
}

/// A message that waits to be written.
pub struct PendingMessage {
    pub conversation: String,
    pub branch: String,
    pub message: AiChatMessage,
    pub revision: u64,
    /// What the store already has of a streaming message.
    pub base: Option<u64>,
    /// Whether more than the text has changed.
    pub structural: bool,
}

/// A batch of changes on its way to the store.
pub struct JournalBatch {
    pub revision: u64,
    pub operations: Vec<HistoryMutation>,
    /// What the store will have of each message afterwards.
    pub streams: Vec<((String, String), Option<u64>)>,
    pub pending: Vec<PendingMessage>,
}

/// The addition to a streaming message, and what the store then has of it.
pub struct StreamDelta {
    pub delta: String,
    pub snapshot: u64,
}

/// How a pending message is written: as an addition where the store has a base for one, as a whole
/// otherwise.
pub open spec fn pending_mutation(pending: PendingMessage, delta: Option<StreamDelta>) -> Mutation {
    if pending.base is Some && delta is Some {
        Mutation::StreamText {
            conversation_id: pending.conversation@,
            branch_id: pending.branch@,
            message_id: pending.message.id@,
            delta: delta->0.delta@,
        }
    } else {
        Mutation::PutMessage {
            conversation_id: pending.conversation@,
            branch_id: pending.branch@,
            message: said(pending.message),
            revision: pending.revision,
        }
    }
}

/// What the store has of a pending message once it is written: a message that is still being
/// written keeps a base.
pub open spec fn pending_base(pending: PendingMessage, delta: Option<StreamDelta>, capture: u64) -> Option<u64> {
    if pending.base is Some && delta is Some {
        Some(delta->0.snapshot)
    } else if pending.message.is_streaming && pending.message.role == AiChatRole::Assistant {
        Some(capture)
    } else {
        None
    }
}

pub open spec fn streams_view(streams: Seq<((String, String), Option<u64>)>) -> Seq<((Seq<char>, Seq<char>), Option<u64>)> {
    streams.map_values(
        |entry: ((String, String), Option<u64>)| ((entry.0.0@, entry.0.1@), entry.1),
    )
}

impl JournalBatch {
    /// Turns the pending messages into changes. `deltas` are the additions that the store's bases
    /// allow, `captures` stand for what the store will have of a message written as a whole.
    pub fn prepare(self, deltas: Vec<Option<StreamDelta>>, captures: &Vec<u64>) -> (res: JournalBatch)
        requires
            deltas@.len() == self.pending@.len(),
            captures@.len() == self.pending@.len(),
        ensures
            res.revision == self.revision,
            res.pending@.len() == 0,
            mutations_view(res.operations@) == mutations_view(self.operations@) + Seq::new(
                self.pending@.len(),
                |i: int| pending_mutation(self.pending@[i], deltas@[i]),
            ),
            streams_view(res.streams@) == streams_view(self.streams@) + Seq::new(
                self.pending@.len(),
                |i: int|
                    (
                        (self.pending@[i].conversation@, self.pending@[i].message.id@),
                        pending_base(self.pending@[i], deltas@[i], captures@[i]),
                    ),
            ),
    {
        let ghost start = mutations_view(self.operations@);
        let ghost start_streams = streams_view(self.streams@);
        let ghost all = self.pending@;
        let ghost all_deltas = deltas@;
        let ghost written = Seq::new(all.len(), |i: int| pending_mutation(all[i], all_deltas[i]));
        let ghost based = Seq::new(
            all.len(),
            |i: int|
                (
                    (all[i].conversation@, all[i].message.id@),
                    pending_base(all[i], all_deltas[i], captures@[i]),
                ),
        );
        let revision = self.revision;
        let mut operations = self.operations;
        let mut streams = self.streams;
        let mut pending = self.pending;
        let mut deltas = deltas;
        let mut i: usize = 0;
        assert(start + written.take(0) =~= start);
        assert(start_streams + based.take(0) =~= start_streams);
        assert(all.skip(0) =~= all);
        assert(all_deltas.skip(0) =~= all_deltas);
        while pending.len() > 0
            invariant
                i <= all.len(),
                all.len() == all_deltas.len(),
                captures@.len() == all.len(),
                captures.len() == all.len(),
                pending@ == all.skip(i as int),
                deltas@ == all_deltas.skip(i as int),
                written == Seq::new(all.len(), |i: int| pending_mutation(all[i], all_deltas[i])),
                based == Seq::new(
                    all.len(),
                    |i: int|
                        (
                            (all[i].conversation@, all[i].message.id@),
                            pending_base(all[i], all_deltas[i], captures@[i]),
                        ),
                ),
                mutations_view(operations@) == start + written.take(i as int),
                streams_view(streams@) == start_streams + based.take(i as int),
            decreases pending@.len(),
        {
            let entry = pending.remove(0);
            let delta = deltas.remove(0);
            assert(entry == all[i as int]);
            assert(delta == all_deltas[i as int]);
            assert(pending@ =~= all.skip(i + 1));
            assert(deltas@ =~= all_deltas.skip(i + 1));
            let ghost ops = mutations_view(operations@);
            let ghost strs = streams_view(streams@);
            let key = (entry.conversation.clone(), entry.message.id.clone());
            match (entry.base, delta) {
                (Some(_), Some(delta)) => {
                    operations.push(
                        HistoryMutation::StreamText {
                            conversation_id: entry.conversation,
                            branch_id: entry.branch,
                            message_id: entry.message.id.clone(),
                            delta: delta.delta,
                        },
                    );
                    streams.push((key, Some(delta.snapshot)));
                    let mut message = entry.message;
                    clear_history_source(&mut message);
                },
                _ => {
                    let base = if entry.message.is_streaming && entry.message.role
                        == AiChatRole::Assistant {
                        Some(captures[i])
                    } else {
                        None
                    };
                    streams.push((key, base));
                    operations.push(
                        HistoryMutation::PutMessage {
                            conversation_id: entry.conversation,
                            branch_id: entry.branch,
                            message: entry.message,
                            revision: entry.revision,
                        },
                    );
                },
            }
            assert(mutations_view(operations@) =~= ops.push(written[i as int]));
            assert(streams_view(streams@) =~= strs.push(based[i as int]));
            i += 1;
            assert(start + written.take(i as int) =~= mutations_view(operations@));
            assert(start_streams + based.take(i as int) =~= streams_view(streams@));
        }
        assert(written.take(i as int) =~= written);
        assert(based.take(i as int) =~= based);
        JournalBatch { revision, operations, streams, pending }
    }
}

} // verus!
