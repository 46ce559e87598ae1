//! The state that the assistant's windows share.

use vstd::prelude::*;

use crate::ai::messages::{
    find_message, message_position, said, AiChatMessage,
};
use crate::ai_state::journal::{Changes, JournalBatch, Mutation, PendingMessage};
use crate::ai_state::model::{
    conversation_position, find_conversation, AgentConversationOptions, AgentMessage, AgentRecord,
    AgentRunRef, ConversationState, HistoryCursor, HistoryViewOwner, MessageDescriptor, ViewOwner,
};
use crate::table::{Key, Table};
use crate::text;

verus! {

#[derive(Clone, Copy, PartialEq, Eq, Structural, Debug)]
pub enum HistoryStatus {
    Idle,
    Loading,
    Ready,
    Failed,
}

/// What the writer to the store last said of itself.
#[derive(Clone, Copy, PartialEq, Eq, Structural, Debug)]
pub enum HistoryWriteState {
    Ready,
    Failed,
}

/// Which page of a branch is asked for.
#[derive(Clone, Copy, PartialEq, Eq, Structural, Debug)]
pub enum PageDirection {
    Initial,
    /// The page around a message.
    Around(u64),
    Older,
    Newer,
}

impl PageDirection {
    /// Whether the page stands on its own instead of continuing the one that is shown.
    pub open spec fn fresh(self) -> bool {
        self == PageDirection::Initial || self is Around
    }

    pub fn is_fresh(self) -> (res: bool)
        ensures
            res == self.fresh(),
    {
        match self {
            PageDirection::Initial => true,
            PageDirection::Around(_) => true,
            _ => false,
        }
    }
}

/// Why the chat cannot be used.
pub struct AiChatInitializationError {
    pub message_key: String,
    pub can_retry: bool,
}

/// A window of stored messages. `bodies` names the decoded messages that are cached, `body_leases`
/// those that are kept because a row shows them.
pub struct HistoryPageState {
    pub branch: String,
    pub descriptions: Table<String, MessageDescriptor>,
    pub before: Option<HistoryCursor>,
    pub after: Option<HistoryCursor>,
    pub loading: bool,
    pub failed: bool,
    pub bodies: Table<String, u64>,
    pub body_leases: Table<String, u64>,
    pub visible_bodies: Table<String, ()>,
    pub body_cleanup_scheduled: bool,
    pub body_errors: Table<String, ()>,
    pub body_revisions: Table<String, u64>,
    pub body_tokens: Table<String, u64>,
    pub sections: Table<String, u64>,
    pub body_tasks: Table<String, ()>,
    /// The row to come back to, and how far into it.
    pub anchor: Option<(String, u64)>,
}

/// The stored messages that a summary stands for.
pub struct ArchiveView {
    pub range: HistoryRange,
    pub messages: Vec<MessageDescriptor>,
    pub before: Option<HistoryCursor>,
    pub expanded: bool,
    pub loading: bool,
    pub failed: bool,
    pub revision: u64,
    /// The pages that lead to the one that is shown.
    pub cursors: Vec<Option<HistoryCursor>>,
}

/// A stretch of a stored branch.
pub struct HistoryRange {
    pub branch_id: String,
    pub first: u64,
    pub last: u64,
}

impl HistoryRange {
    pub open spec fn view(self) -> (Seq<char>, u64, u64) {
        (self.branch_id@, self.first, self.last)
    }

    pub fn same(&self, other: &HistoryRange) -> (res: bool)
        ensures
            res == (self@ == other@),
    {
        text::same(self.branch_id.as_str(), other.branch_id.as_str()) && self.first == other.first
            && self.last == other.last
    }

    pub fn duplicate(&self) -> (res: HistoryRange)
        ensures
            res == *self,
    {
        HistoryRange { branch_id: self.branch_id.clone(), first: self.first, last: self.last }
    }
}

/// How far a list of conversations has been read.
pub struct ConversationListPage {
    pub initialized: bool,
    pub has_more: bool,
    pub failed: bool,
    pub cursor: Option<(i64, String)>,
    pub running: bool,
}

/// What the host has to do for the history.
pub enum HistoryEffect {
    /// Look at the journal soon.
    Save,
    Open { generation: u64 },
    LoadAgents { generation: u64, conversation: String },
    LoadPage {
        generation: u64,
        conversation: String,
        direction: PageDirection,
        cursor: Option<HistoryCursor>,
        expected_branch: String,
    },
    LoadBody {
        generation: u64,
        owner: HistoryViewOwner,
        message: String,
        storage_id: String,
        revision: u64,
        token: u64,
        section: Option<u64>,
    },
    LoadConversations { generation: u64, epoch: u64, archived: bool, list_cursor: Option<(i64, String)> },
    LoadArchive {
        generation: u64,
        revision: u64,
        conversation: String,
        message: String,
        range: HistoryRange,
        before: Option<HistoryCursor>,
        /// Who has to hear first that everything so far is on disk.
        waiter: u64,
    },
    LoadAgentPage {
        conversation: String,
        run: String,
        branch: String,
        record_revision: u64,
        older: Option<bool>,
        cursor: Option<HistoryCursor>,
        waiter: u64,
    },
    LoadCommunication { conversation: String, run: String, before_sequence: Option<u64>, waiter: u64 },
    /// Tell a waiter whether its changes are on disk.
    Answer { waiter: u64, committed: bool },
    StartStreamTimer,
    RetryWrite,
    Write(JournalBatch),
    ResetMessageList,
    InvalidateMessage(String),
    /// Once every row is drawn, release what no row shows any more.
    ReleaseBodies(HistoryViewOwner),
    /// Show the rows of a list from its start.
    ResetRows { rows_of: HistoryViewOwner, count: usize },
    ScrollTo { item: usize, offset: u64 },
}

/// What the host has to do for the history, in words.
pub enum Effect {
    Save,
    Open { generation: u64 },
    LoadAgents { generation: u64, conversation: Seq<char> },
    LoadPage {
        generation: u64,
        conversation: Seq<char>,
        direction: PageDirection,
        cursor: Option<HistoryCursor>,
        expected_branch: Seq<char>,
    },
    LoadBody {
        generation: u64,
        owner: ViewOwner,
        message: Seq<char>,
        storage_id: Seq<char>,
        revision: u64,
        token: u64,
        section: Option<u64>,
    },
    LoadConversations { generation: u64, epoch: u64, archived: bool, list_cursor: Option<(i64, Seq<char>)> },
    LoadArchive {
        generation: u64,
        revision: u64,
        conversation: Seq<char>,
        message: Seq<char>,
        range: (Seq<char>, u64, u64),
        before: Option<HistoryCursor>,
        waiter: u64,
    },
    LoadAgentPage {
        conversation: Seq<char>,
        run: Seq<char>,
        branch: Seq<char>,
        record_revision: u64,
        older: Option<bool>,
        cursor: Option<HistoryCursor>,
        waiter: u64,
    },
    LoadCommunication { conversation: Seq<char>, run: Seq<char>, before_sequence: Option<u64>, waiter: u64 },
    Answer { waiter: u64, committed: bool },
    StartStreamTimer,
    RetryWrite,
    Write(Batch),
    ResetMessageList,
    InvalidateMessage(Seq<char>),
    ReleaseBodies(ViewOwner),
    ResetRows { rows_of: ViewOwner, count: usize },
    ScrollTo { item: usize, offset: u64 },
}

/// A batch of changes, in words.
pub struct Batch {
    pub revision: u64,
    pub operations: Seq<Mutation>,
    pub streams: Seq<((Seq<char>, Seq<char>), Option<u64>)>,
    pub pending: Seq<PendingView>,
}

/// A message that waits to be written, in words.
pub struct PendingView {
    pub conversation: Seq<char>,
    pub branch: Seq<char>,
    pub message: crate::ai::messages::ChatMessage,
    pub revision: u64,
    pub base: Option<u64>,
    pub structural: bool,
}

pub open spec fn pending_view(pending: PendingMessage) -> PendingView {
    PendingView {
        conversation: pending.conversation@,
        branch: pending.branch@,
        message: said(pending.message),
        revision: pending.revision,
        base: pending.base,
        structural: pending.structural,
    }
}

pub open spec fn pending_list_view(pending: Seq<PendingMessage>) -> Seq<PendingView> {
    pending.map_values(|entry: PendingMessage| pending_view(entry))
}

pub open spec fn batch_view(batch: JournalBatch) -> Batch {
    Batch {
        revision: batch.revision,
        operations: crate::ai_state::journal::mutations_view(batch.operations@),
        streams: crate::ai_state::journal::streams_view(batch.streams@),
        pending: pending_list_view(batch.pending@),
    }
}

pub open spec fn list_cursor_view(cursor: Option<(i64, String)>) -> Option<(i64, Seq<char>)> {
    match cursor {
        Some((updated, id)) => Some((updated, id@)),
        None => None,
    }
}

impl HistoryEffect {
    pub open spec fn view(self) -> Effect {
        match self {
            HistoryEffect::Save => Effect::Save,
            HistoryEffect::Open { generation } => Effect::Open { generation },
            HistoryEffect::LoadAgents { generation, conversation } => Effect::LoadAgents {
                generation,
                conversation: conversation@,
            },
            HistoryEffect::LoadPage { generation, conversation, direction, cursor, expected_branch } => Effect::LoadPage {
                generation,
                conversation: conversation@,
                direction,
                cursor,
                expected_branch: expected_branch@,
            },
            HistoryEffect::LoadBody { generation, owner, message, storage_id, revision, token, section } => Effect::LoadBody {
                generation,
                owner: owner.id(),
                message: message@,
                storage_id: storage_id@,
                revision,
                token,
                section,
            },
            HistoryEffect::LoadConversations { generation, epoch, archived, list_cursor } => Effect::LoadConversations {
                generation,
                epoch,
                archived,
                list_cursor: list_cursor_view(list_cursor),
            },
            HistoryEffect::LoadArchive { generation, revision, conversation, message, range, before, waiter } => Effect::LoadArchive {
                generation,
                revision,
                conversation: conversation@,
                message: message@,
                range: range@,
                before,
                waiter,
            },
            HistoryEffect::LoadAgentPage { conversation, run, branch, record_revision, older, cursor, waiter } => Effect::LoadAgentPage {
                conversation: conversation@,
                run: run@,
                branch: branch@,
                record_revision,
                older,
                cursor,
                waiter,
            },
            HistoryEffect::LoadCommunication { conversation, run, before_sequence, waiter } => Effect::LoadCommunication {
                conversation: conversation@,
                run: run@,
                before_sequence,
                waiter,
            },
            HistoryEffect::Answer { waiter, committed } => Effect::Answer { waiter, committed },
            HistoryEffect::StartStreamTimer => Effect::StartStreamTimer,
            HistoryEffect::RetryWrite => Effect::RetryWrite,
            HistoryEffect::Write(batch) => Effect::Write(batch_view(batch)),
            HistoryEffect::ResetMessageList => Effect::ResetMessageList,
            HistoryEffect::InvalidateMessage(message) => Effect::InvalidateMessage(message@),
            HistoryEffect::ReleaseBodies(owner) => Effect::ReleaseBodies(owner.id()),
            HistoryEffect::ResetRows { rows_of, count } => Effect::ResetRows {
                rows_of: rows_of.id(),
                count,
            },
            HistoryEffect::ScrollTo { item, offset } => Effect::ScrollTo { item, offset },
        }
    }
}

pub open spec fn effects_view(effects: Seq<HistoryEffect>) -> Seq<Effect> {
    effects.map_values(|effect: HistoryEffect| effect@)
}

pub struct AiHistoryState {
    /// Whether a store is open.
    pub store_open: bool,
    pub current_list: ConversationListPage,
    pub archived_list: ConversationListPage,
    pub conversation_list_epoch: u64,
    pub deleted_conversations: Table<String, ()>,
    pub writer: Option<HistoryWriteState>,
    pub status: HistoryStatus,
    pub quitting: bool,
    pub retry_running: bool,
    pub progress: Option<(usize, usize)>,
    pub archives: Table<(String, String), ArchiveView>,
    pub archive_tasks: Table<(String, String), ()>,
    /// The compactions at work, each with its generation.
    pub compaction_runs: Table<String, u64>,
    pub compaction_generation: u64,
    /// The branch and the messages that each compaction started from.
    pub compaction_sources: Table<String, (String, Vec<AiChatMessage>)>,
    pub compaction_loads: Table<String, ()>,
    pub compaction_key_loads: Table<String, ()>,
    pub pages: Table<String, HistoryPageState>,
    pub auxiliary_pages: Table<HistoryViewOwner, HistoryPageState>,
    /// The branch of each conversation that is shown.
    pub branches: Table<String, String>,
    pub changes: Changes,
    pub write_running: bool,
    pub load_running: bool,
    pub agents_load_running: bool,
    pub save_timer_running: bool,
    pub generation: u64,
    pub page_generation: u64,
    /// The last revision that is on disk.
    pub committed: u64,
    /// Who waits for which revision.
    pub waiters: Vec<(u64, u64)>,
    pub effects: Vec<HistoryEffect>,
}

/// A model stream that a window shows.
pub struct ChatStreamRun {
    pub conversation_id: String,
    pub assistant_id: String,
    pub agent: Option<AgentRunRef>,
    pub child: bool,
    /// Whether the agent runtime still takes messages for the run.
    pub accepts_messages: bool,
}

/// What every run of a group shares.
pub struct AiAgentGroup {
    pub parent: AgentRunRef,
    pub parent_message_id: String,
    pub tools: Vec<String>,
    pub context_window: usize,
}

/// The communication of a run, page by page.
pub struct AgentCommunicationView {
    pub page: Option<AgentCommunicationPage>,
    pub cursors: Vec<Option<u64>>,
    pub loading: bool,
    pub failed: bool,
}

/// One message between agents, and where the earlier ones begin.
pub struct AgentCommunicationPage {
    pub sequence: u64,
    pub before: Option<u64>,
    /// Where the rest of a long message stands in the store.
    pub more: Option<u64>,
    pub message: AgentMessage,
}

/// The run that a message belongs to, and the branch that keeps the run's messages.
pub struct MessageRun {
    pub run: String,
    pub branch: String,
}

pub struct AiAgentWorkspace {
    pub groups: Table<String, AiAgentGroup>,
    pub records: Table<String, AgentRecord>,
    pub message_runs: Table<String, MessageRun>,
    pub detail: Option<String>,
    pub details_loading: Table<String, ()>,
    pub detail_errors: Table<String, ()>,
    pub detail_tasks: Table<String, ()>,
    pub detail_lists: Table<String, ()>,
    /// The runs whose record changed since it was last put into the journal.
    pub dirty: Table<String, ()>,
    /// Which state of each message between agents the journal has.
    pub communication_versions: Table<(String, u64), bool>,
    pub settings_model_picker_open: bool,
    pub model_picker_open: bool,
    pub expanded_groups: Table<String, bool>,
    pub parent_revisions: Table<String, u64>,
    pub communication_pages: Table<String, AgentCommunicationView>,
    /// What a conversation's agents may do unless it says otherwise.
    pub default_options: AgentConversationOptions,
}

/// The part of the chat window that the history reads.
pub struct ChatUi {
    pub show_archived_conversations: bool,
    pub following_tail: bool,
    pub top_item: usize,
    pub top_offset: u64,
    pub shows_trim_notice: bool,
}

pub struct AiWorkspaceEntity {
    pub chat_stream_runs: Table<u64, ChatStreamRun>,
    pub chat_is_loading: bool,
    pub chat_stream_generation: u64,
    pub agents: AiAgentWorkspace,
    pub history: AiHistoryState,
    pub conversation_state: ConversationState,
    pub loading_conversations: Table<String, ()>,
    pub chat_initialization_error: Option<AiChatInitializationError>,
    pub chat_ui: ChatUi,
}

impl HistoryPageState {
    pub open spec fn wf(self) -> bool {
        &&& self.descriptions.wf()
        &&& self.bodies.wf()
        &&& self.body_leases.wf()
        &&& self.visible_bodies.wf()
        &&& self.body_errors.wf()
        &&& self.body_revisions.wf()
        &&& self.body_tokens.wf()
        &&& self.sections.wf()
        &&& self.body_tasks.wf()
        &&& crate::ai_state::window::keyed_by_id(self.descriptions@)
    }

    /// A window that nothing has been loaded into.
    pub open spec fn is_blank(self) -> bool {
        &&& self.branch@.len() == 0
        &&& self.descriptions@ == Map::<Seq<char>, MessageDescriptor>::empty()
        &&& self.before is None
        &&& self.after is None
        &&& !self.loading
        &&& !self.failed
        &&& self.bodies@ == Map::<Seq<char>, u64>::empty()
        &&& self.body_leases@ == Map::<Seq<char>, u64>::empty()
        &&& self.visible_bodies@ == Map::<Seq<char>, ()>::empty()
        &&& !self.body_cleanup_scheduled
        &&& self.body_errors@ == Map::<Seq<char>, ()>::empty()
        &&& self.body_revisions@ == Map::<Seq<char>, u64>::empty()
        &&& self.body_tokens@ == Map::<Seq<char>, u64>::empty()
        &&& self.sections@ == Map::<Seq<char>, u64>::empty()
        &&& self.body_tasks@ == Map::<Seq<char>, ()>::empty()
        &&& self.anchor is None
    }

    pub fn new() -> (res: HistoryPageState)
        ensures
            res.wf(),
            res.is_blank(),
    {
        HistoryPageState {
            branch: String::new(),
            descriptions: Table::new(),
            before: None,
            after: None,
            loading: false,
            failed: false,
            bodies: Table::new(),
            body_leases: Table::new(),
            visible_bodies: Table::new(),
            body_cleanup_scheduled: false,
            body_errors: Table::new(),
            body_revisions: Table::new(),
            body_tokens: Table::new(),
            sections: Table::new(),
            body_tasks: Table::new(),
            anchor: None,
        }
    }
}

impl ConversationListPage {
    pub open spec fn is_blank(self) -> bool {
        !self.initialized && !self.has_more && !self.failed && self.cursor is None && !self.running
    }

    pub fn new() -> (res: ConversationListPage)
        ensures
            res.is_blank(),
    {
        ConversationListPage {
            initialized: false,
            has_more: false,
            failed: false,
            cursor: None,
            running: false,
        }
    }

    /// Whether a page of the list is being read.
    pub fn loading(&self) -> (res: bool)
        ensures
            res == self.running,
    {
        self.running
    }
}

/// Every window is well formed.
#[verifier::opaque]
pub open spec fn all_pages_wf<K>(pages: Map<K, HistoryPageState>) -> bool {
    forall|key: K| pages.dom().contains(key) ==> (#[trigger] pages[key]).wf()
}

impl AiHistoryState {
    pub open spec fn wf(self) -> bool {
        &&& self.deleted_conversations.wf()
        &&& self.archives.wf()
        &&& self.archive_tasks.wf()
        &&& self.compaction_runs.wf()
        &&& self.compaction_sources.wf()
        &&& self.compaction_loads.wf()
        &&& self.compaction_key_loads.wf()
        &&& self.pages.wf()
        &&& self.auxiliary_pages.wf()
        &&& self.branches.wf()
        &&& self.changes.wf()
        &&& all_pages_wf(self.pages@)
        &&& all_pages_wf(self.auxiliary_pages@)
    }

    /// No store was opened yet.
    pub open spec fn is_new(self) -> bool {
        &&& self.status == HistoryStatus::Idle
        &&& !self.store_open
        &&& self.writer is None
        &&& self.changes.is_empty()
        &&& self.changes.revision == 0
        &&& self.committed == 0
        &&& self.effects@.len() == 0
        &&& self.waiters@.len() == 0
        &&& self.generation == 0
        &&& self.page_generation == 0
        &&& self.conversation_list_epoch == 0
        &&& self.current_list.is_blank()
        &&& self.archived_list.is_blank()
        &&& !self.quitting
        &&& !self.write_running
        &&& !self.load_running
        &&& !self.agents_load_running
        &&& !self.save_timer_running
        &&& !self.retry_running
        &&& self.progress is None
        &&& self.compaction_generation == 0
        &&& self.pages@ == Map::<Seq<char>, HistoryPageState>::empty()
        &&& self.auxiliary_pages@ == Map::<ViewOwner, HistoryPageState>::empty()
        &&& self.branches@ == Map::<Seq<char>, String>::empty()
        &&& self.archives@ == Map::<(Seq<char>, Seq<char>), ArchiveView>::empty()
        &&& self.archive_tasks@ == Map::<(Seq<char>, Seq<char>), ()>::empty()
        &&& self.deleted_conversations@ == Map::<Seq<char>, ()>::empty()
        &&& self.compaction_runs@ == Map::<Seq<char>, u64>::empty()
        &&& self.compaction_sources@ == Map::<Seq<char>, (String, Vec<AiChatMessage>)>::empty()
        &&& self.compaction_loads@ == Map::<Seq<char>, ()>::empty()
        &&& self.compaction_key_loads@ == Map::<Seq<char>, ()>::empty()
    }

    /// The state before a store is opened.
    pub fn new() -> (res: AiHistoryState)
        ensures
            res.wf(),
            res.is_new(),
    {
        proof {
            reveal(all_pages_wf);
        }
        AiHistoryState {
            store_open: false,
            current_list: ConversationListPage::new(),
            archived_list: ConversationListPage::new(),
            conversation_list_epoch: 0,
            deleted_conversations: Table::new(),
            writer: None,
            status: HistoryStatus::Idle,
            quitting: false,
            retry_running: false,
            progress: None,
            archives: Table::new(),
            archive_tasks: Table::new(),
            compaction_runs: Table::new(),
            compaction_generation: 0,
            compaction_sources: Table::new(),
            compaction_loads: Table::new(),
            compaction_key_loads: Table::new(),
            pages: Table::new(),
            auxiliary_pages: Table::new(),
            branches: Table::new(),
            changes: Changes::new(),
            write_running: false,
            load_running: false,
            agents_load_running: false,
            save_timer_running: false,
            generation: 0,
            page_generation: 0,
            committed: 0,
            waiters: Vec::new(),
            effects: Vec::new(),
        }
    }

    /// What has been asked of the host.
    pub open spec fn asked(self) -> Seq<Effect> {
        effects_view(self.effects@)
    }

    pub(crate) fn ask(&mut self, effect: HistoryEffect)
        ensures
            *final(self) == (AiHistoryState { effects: final(self).effects, ..*old(self) }),
            final(self).asked() == old(self).asked().push(effect@),
    {
        let ghost before = self.effects@;
        self.effects.push(effect);
        assert(effects_view(self.effects@) =~= effects_view(before).push(effect@));
    }

    /// Whether the writer takes changes.
    pub open spec fn writes(self) -> bool {
        self.writer == Some(HistoryWriteState::Ready)
    }

    pub fn writer_is_ready(&self) -> (res: bool)
        ensures
            res == self.writes(),
    {
        match self.writer {
            Some(state) => state == HistoryWriteState::Ready,
            None => false,
        }
    }

    /// The branch of a conversation that is shown.
    pub open spec fn branch_of(self, conversation: Seq<char>) -> Seq<char> {
        if self.branches@.dom().contains(conversation) {
            self.branches@[conversation]@
        } else {
            "main"@
        }
    }

    pub fn branch(&self, conversation: &str) -> (res: String)
        requires
            self.branches.wf(),
        ensures
            res@ == self.branch_of(conversation@),
    {
        match self.branches.get(&conversation.to_owned()) {
            Some(branch) => branch.clone(),
            None => "main".to_owned(),
        }
    }
}

impl AiAgentWorkspace {
    pub open spec fn wf(self) -> bool {
        &&& self.groups.wf()
        &&& self.records.wf()
        &&& self.message_runs.wf()
        &&& self.details_loading.wf()
        &&& self.detail_errors.wf()
        &&& self.detail_tasks.wf()
        &&& self.detail_lists.wf()
        &&& self.dirty.wf()
        &&& self.communication_versions.wf()
        &&& self.expanded_groups.wf()
        &&& self.parent_revisions.wf()
        &&& self.communication_pages.wf()
    }

    /// There are no agents.
    pub open spec fn is_new(self, default_options: AgentConversationOptions) -> bool {
        &&& self.default_options == default_options
        &&& self.groups@ == Map::<Seq<char>, AiAgentGroup>::empty()
        &&& self.records@ == Map::<Seq<char>, AgentRecord>::empty()
        &&& self.message_runs@ == Map::<Seq<char>, MessageRun>::empty()
        &&& self.detail is None
        &&& self.details_loading@ == Map::<Seq<char>, ()>::empty()
        &&& self.detail_errors@ == Map::<Seq<char>, ()>::empty()
        &&& self.detail_tasks@ == Map::<Seq<char>, ()>::empty()
        &&& self.detail_lists@ == Map::<Seq<char>, ()>::empty()
        &&& self.dirty@ == Map::<Seq<char>, ()>::empty()
        &&& self.communication_versions@ == Map::<(Seq<char>, u64), bool>::empty()
        &&& !self.settings_model_picker_open
        &&& !self.model_picker_open
        &&& self.expanded_groups@ == Map::<Seq<char>, bool>::empty()
        &&& self.parent_revisions@ == Map::<Seq<char>, u64>::empty()
        &&& self.communication_pages@ == Map::<Seq<char>, AgentCommunicationView>::empty()
    }

    /// A workspace without agents.
    pub fn new(default_options: AgentConversationOptions) -> (res: AiAgentWorkspace)
        ensures
            res.wf(),
            res.is_new(default_options),
    {
        AiAgentWorkspace {
            groups: Table::new(),
            records: Table::new(),
            message_runs: Table::new(),
            detail: None,
            details_loading: Table::new(),
            detail_errors: Table::new(),
            detail_tasks: Table::new(),
            detail_lists: Table::new(),
            dirty: Table::new(),
            communication_versions: Table::new(),
            settings_model_picker_open: false,
            model_picker_open: false,
            expanded_groups: Table::new(),
            parent_revisions: Table::new(),
            communication_pages: Table::new(),
            default_options,
        }
    }
}

impl AiWorkspaceEntity {
    pub open spec fn wf(self) -> bool {
        &&& self.chat_stream_runs.wf()
        &&& self.agents.wf()
        &&& self.history.wf()
        &&& self.loading_conversations.wf()
    }

    /// There are no conversations.
    pub open spec fn is_new(self, default_options: AgentConversationOptions) -> bool {
        &&& self.chat_stream_runs@ == Map::<u64, ChatStreamRun>::empty()
        &&& !self.chat_is_loading
        &&& self.chat_stream_generation == 0
        &&& self.agents.is_new(default_options)
        &&& self.history.is_new()
        &&& self.conversation_state.conversations@.len() == 0
        &&& self.conversation_state.active_conversation_id is None
        &&& self.loading_conversations@ == Map::<Seq<char>, ()>::empty()
        &&& self.chat_initialization_error is None
        &&& self.chat_ui == (ChatUi {
            show_archived_conversations: false,
            following_tail: true,
            top_item: 0,
            top_offset: 0,
            shows_trim_notice: false,
        })
    }

    /// A workspace without conversations.
    pub fn new(default_options: AgentConversationOptions) -> (res: AiWorkspaceEntity)
        ensures
            res.wf(),
            res.is_new(default_options),
    {
        AiWorkspaceEntity {
            chat_stream_runs: Table::new(),
            chat_is_loading: false,
            chat_stream_generation: 0,
            agents: AiAgentWorkspace::new(default_options),
            history: AiHistoryState::new(),
            conversation_state: ConversationState {
                conversations: Vec::new(),
                active_conversation_id: None,
            },
            loading_conversations: Table::new(),
            chat_initialization_error: None,
            chat_ui: ChatUi {
                show_archived_conversations: false,
                following_tail: true,
                top_item: 0,
                top_offset: 0,
                shows_trim_notice: false,
            },
        }
    }

    /// Where a message of a conversation is: with the agent whose run it belongs to, or in the
    /// conversation itself.
    pub open spec fn message_list(self, conversation: Seq<char>, id: Seq<char>) -> Option<Seq<AiChatMessage>> {
        if self.agents.message_runs@.dom().contains(id) {
            let run = self.agents.message_runs@[id].run@;
            if self.agents.records@.dom().contains(run)
                && self.agents.records@[run].snapshot.conversation_id@ == conversation {
                Some(self.agents.records@[run].messages@)
            } else {
                None
            }
        } else {
            let at = conversation_position(self.conversation_state.conversations@, conversation);
            if at < self.conversation_state.conversations@.len() {
                Some(self.conversation_state.conversations@[at].messages@)
            } else {
                None
            }
        }
    }

    /// A message of a conversation.
    pub open spec fn message(self, conversation: Seq<char>, id: Seq<char>) -> Option<AiChatMessage> {
        match self.message_list(conversation, id) {
            Some(messages) => {
                let at = message_position(messages, id);
                if at < messages.len() {
                    Some(messages[at])
                } else {
                    None
                }
            },
            None => None,
        }
    }

    /// Finds a message of a conversation.
    pub fn history_message(&self, conversation: &str, id: &str) -> (res: Option<&AiChatMessage>)
        requires
            self.wf(),
        ensures
            match res {
                Some(message) => self.message(conversation@, id@) == Some(*message) && message.id@ == id@,
                None => self.message(conversation@, id@) is None,
            },
    {
        match self.agents.message_runs.get(&id.to_owned()) {
            Some(owner) => match self.agents.records.get(&owner.run) {
                Some(record) => {
                    if text::same(record.snapshot.conversation_id.as_str(), conversation) {
                        match find_message(&record.messages, id) {
                            Some(at) => Some(&record.messages[at]),
                            None => None,
                        }
                    } else {
                        None
                    }
                },
                None => None,
            },
            None => match find_conversation(&self.conversation_state.conversations, conversation) {
                Some(at) => {
                    let messages = &self.conversation_state.conversations[at].messages;
                    match find_message(messages, id) {
                        Some(at) => Some(&messages[at]),
                        None => None,
                    }
                },
                None => None,
            },
        }
    }

    /// The branch that keeps a message.
    pub open spec fn message_branch(self, conversation: Seq<char>, message: Seq<char>) -> Seq<char> {
        if self.agents.message_runs@.dom().contains(message) {
            self.agents.message_runs@[message].branch@
        } else {
            self.history.branch_of(conversation)
        }
    }

    pub fn history_message_branch(&self, conversation: &str, message: &str) -> (res: String)
        requires
            self.wf(),
        ensures
            res@ == self.message_branch(conversation@, message@),
    {
        match self.agents.message_runs.get(&message.to_owned()) {
            Some(owner) => owner.branch.clone(),
            None => self.history.branch(conversation),
        }
    }
}

} // verus!
