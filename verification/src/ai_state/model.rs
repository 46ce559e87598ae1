//! Records of conversations and agents.

use vstd::prelude::*;

use crate::ai::messages::{duplicate_messages, said_all, AiChatMessage, AiChatRole};
use crate::ai::models::AgentModel;
use crate::table::Key;
use crate::text;

verus! {

/// What an agent's run is doing.
#[derive(Clone, Copy, PartialEq, Eq, Structural, Debug)]
pub enum AgentState {
    Queued,
    Running,
    AwaitingApproval,
    AwaitingParent,
    AwaitingResource,
    AwaitingCondition,
    AwaitingUser,
    AwaitingConnection,
    Replanning,
    Stopping,
    Completed,
    Failed,
    Cancelled,
    Interrupted,
}

impl AgentState {
    /// Whether the run has come to an end.
    pub open spec fn ended(self) -> bool {
        self == AgentState::Completed || self == AgentState::Failed || self == AgentState::Cancelled
            || self == AgentState::Interrupted
    }

    pub fn is_terminal(self) -> (res: bool)
        ensures
            res == self.ended(),
    {
        self == AgentState::Completed || self == AgentState::Failed || self == AgentState::Cancelled
            || self == AgentState::Interrupted
    }
}

/// Tokens that a run has used; `None` where the provider does not tell.
#[derive(Clone, Copy, PartialEq, Eq, Structural, Debug)]
pub struct AgentUsage {
    pub input_tokens: Option<u64>,
    pub output_tokens: Option<u64>,
}

/// The identity of a run: its group, its agent and the run itself.
pub struct AgentRunRef {
    pub group_id: String,
    pub agent_id: String,
    pub run_id: String,
}

/// The identity of a run, in words.
pub struct RunName {
    pub group_id: Seq<char>,
    pub agent_id: Seq<char>,
    pub run_id: Seq<char>,
}

impl AgentRunRef {
    pub open spec fn view(self) -> RunName {
        RunName { group_id: self.group_id@, agent_id: self.agent_id@, run_id: self.run_id@ }
    }

    /// Whether two identities are those of one run.
    pub fn same(&self, other: &AgentRunRef) -> (res: bool)
        ensures
            res == (self@ == other@),
    {
        text::same(self.group_id.as_str(), other.group_id.as_str()) && text::same(
            self.agent_id.as_str(),
            other.agent_id.as_str(),
        ) && text::same(self.run_id.as_str(), other.run_id.as_str())
    }

    pub fn duplicate(&self) -> (res: AgentRunRef)
        ensures
            res == *self,
    {
        AgentRunRef {
            group_id: self.group_id.clone(),
            agent_id: self.agent_id.clone(),
            run_id: self.run_id.clone(),
        }
    }
}

/// A resource that a run holds or has held.
#[derive(Clone, Copy, PartialEq, Eq, Structural, Debug)]
pub enum OwnedResourceKind {
    Observation,
    TerminalCommand,
    LocalProcess,
    Other,
}

#[derive(Clone, Copy, PartialEq, Eq, Structural, Debug)]
pub enum OwnedResourceState {
    Running,
    Completed,
    Stopped,
    OutcomeUnknown,
}

pub struct OwnedResource {
    pub kind: OwnedResourceKind,
    pub state: OwnedResourceState,
    pub label: String,
}

/// A run as the agent runtime last described it.
pub struct AgentSnapshot {
    pub run: AgentRunRef,
    pub parent_id: Option<String>,
    pub conversation_id: String,
    pub state: AgentState,
    pub usage: AgentUsage,
    pub progress: String,
    pub model: AgentModel,
    pub title: String,
    pub task: String,
    pub result_summary: Option<String>,
    pub resources: Vec<OwnedResource>,
}

/// A message between agents.
pub struct AgentMessage {
    pub sequence: u64,
    pub consumed: bool,
    pub from_agent: String,
    pub to_agent: String,
    pub text: String,
}

/// What is kept of a run.
pub struct AgentRecord {
    pub snapshot: AgentSnapshot,
    pub parent_usage: AgentUsage,
    pub created_at_ms: i64,
    pub parent_message_id: String,
    pub target_labels: Vec<String>,
    pub messages: Vec<AiChatMessage>,
    pub communication: Vec<AgentMessage>,
    pub revision: u64,
    /// The branch that keeps the run's messages.
    pub message_branch: String,
}

impl AgentModel {
    pub fn duplicate(&self) -> (res: AgentModel)
        ensures
            res == *self,
    {
        AgentModel { provider_id: self.provider_id.clone(), model: self.model.clone() }
    }
}

/// What a run's description says.
pub struct SnapshotView {
    pub run: RunName,
    pub parent_id: Option<Seq<char>>,
    pub conversation_id: Seq<char>,
    pub state: AgentState,
    pub usage: AgentUsage,
    pub progress: Seq<char>,
    pub model: (Seq<char>, Seq<char>),
    pub title: Seq<char>,
    pub task: Seq<char>,
    pub result_summary: Option<Seq<char>>,
    pub resources: Seq<(OwnedResourceKind, OwnedResourceState, Seq<char>)>,
}

pub open spec fn resources_view(resources: Seq<OwnedResource>) -> Seq<(OwnedResourceKind, OwnedResourceState, Seq<char>)> {
    resources.map_values(|resource: OwnedResource| (resource.kind, resource.state, resource.label@))
}

impl AgentSnapshot {
    pub open spec fn view(self) -> SnapshotView {
        SnapshotView {
            run: self.run@,
            parent_id: text::opt_view(self.parent_id),
            conversation_id: self.conversation_id@,
            state: self.state,
            usage: self.usage,
            progress: self.progress@,
            model: (self.model.provider_id@, self.model.model@),
            title: self.title@,
            task: self.task@,
            result_summary: text::opt_view(self.result_summary),
            resources: resources_view(self.resources@),
        }
    }

    pub fn duplicate(&self) -> (res: AgentSnapshot)
        ensures
            res@ == self@,
    {
        let mut resources: Vec<OwnedResource> = Vec::new();
        let mut i: usize = 0;
        while i < self.resources.len()
            invariant
                i <= self.resources.len(),
                resources@ == self.resources@.take(i as int),
            decreases self.resources.len() - i,
        {
            let resource = &self.resources[i];
            resources.push(
                OwnedResource {
                    kind: resource.kind,
                    state: resource.state,
                    label: resource.label.clone(),
                },
            );
            i += 1;
            assert(resources@ =~= self.resources@.take(i as int));
        }
        assert(self.resources@.take(i as int) =~= self.resources@);
        AgentSnapshot {
            run: self.run.duplicate(),
            parent_id: text::duplicate_option(&self.parent_id),
            conversation_id: self.conversation_id.clone(),
            state: self.state,
            usage: self.usage,
            progress: self.progress.clone(),
            model: self.model.duplicate(),
            title: self.title.clone(),
            task: self.task.clone(),
            result_summary: text::duplicate_option(&self.result_summary),
            resources,
        }
    }
}

impl AgentMessage {
    pub fn duplicate(&self) -> (res: AgentMessage)
        ensures
            res == *self,
    {
        AgentMessage {
            sequence: self.sequence,
            consumed: self.consumed,
            from_agent: self.from_agent.clone(),
            to_agent: self.to_agent.clone(),
            text: self.text.clone(),
        }
    }
}

/// Whether the agents of a conversation may have children, and on which model those run.
pub struct AgentConversationOptions {
    pub enabled: bool,
    pub default_model: Option<AgentModel>,
}

impl AgentConversationOptions {
    pub fn duplicate(&self) -> (res: AgentConversationOptions)
        ensures
            res == *self,
    {
        AgentConversationOptions {
            enabled: self.enabled,
            default_model: match &self.default_model {
                Some(model) => Some(model.duplicate()),
                None => None,
            },
        }
    }
}

pub struct AiConversation {
    pub id: String,
    pub title: String,
    pub messages: Vec<AiChatMessage>,
    pub created_at_ms: i64,
    pub updated_at_ms: i64,
    pub origin: String,
    pub profile_id: Option<String>,
    pub message_count: usize,
    pub turn_count: usize,
    pub session_id: Option<String>,
    pub agent_options: Option<AgentConversationOptions>,
    pub archived: bool,
    pub messages_loaded: bool,
}

/// A conversation's own data, without its messages.
pub struct ConversationCard {
    pub id: Seq<char>,
    pub title: Seq<char>,
    pub created_at_ms: i64,
    pub updated_at_ms: i64,
    pub origin: Seq<char>,
    pub profile_id: Option<Seq<char>>,
    pub message_count: usize,
    pub turn_count: usize,
    pub session_id: Option<Seq<char>>,
    pub agent_options: Option<AgentConversationOptions>,
    pub archived: bool,
}

impl AiConversation {
    pub open spec fn card(self) -> ConversationCard {
        ConversationCard {
            id: self.id@,
            title: self.title@,
            created_at_ms: self.created_at_ms,
            updated_at_ms: self.updated_at_ms,
            origin: self.origin@,
            profile_id: text::opt_view(self.profile_id),
            message_count: self.message_count,
            turn_count: self.turn_count,
            session_id: text::opt_view(self.session_id),
            agent_options: self.agent_options,
            archived: self.archived,
        }
    }

    /// A conversation's own data, with no message in it.
    pub fn metadata(&self) -> (res: AiConversation)
        ensures
            res.card() == self.card(),
            res.messages@.len() == 0,
            !res.messages_loaded,
    {
        AiConversation {
            id: self.id.clone(),
            title: self.title.clone(),
            messages: Vec::new(),
            created_at_ms: self.created_at_ms,
            updated_at_ms: self.updated_at_ms,
            origin: self.origin.clone(),
            profile_id: text::duplicate_option(&self.profile_id),
            message_count: self.message_count,
            turn_count: self.turn_count,
            session_id: text::duplicate_option(&self.session_id),
            agent_options: match &self.agent_options {
                Some(options) => Some(options.duplicate()),
                None => None,
            },
            archived: self.archived,
            messages_loaded: false,
        }
    }

    pub fn duplicate(&self) -> (res: AiConversation)
        ensures
            res.card() == self.card(),
            said_all(res.messages@) == said_all(self.messages@),
            res.messages_loaded == self.messages_loaded,
    {
        let mut res = self.metadata();
        res.messages = duplicate_messages(&self.messages);
        res.messages_loaded = self.messages_loaded;
        res
    }
}

/// The conversations that are known here, and the one that is shown.
pub struct ConversationState {
    pub conversations: Vec<AiConversation>,
    pub active_conversation_id: Option<String>,
}

/// The position of the first conversation called `id`, or the number of conversations.
pub open spec fn conversation_position(conversations: Seq<AiConversation>, id: Seq<char>) -> int
    decreases conversations.len(),
{
    if conversations.len() == 0 || conversations[0].id@ == id {
        0
    } else {
        1 + conversation_position(conversations.drop_first(), id)
    }
}

pub open spec fn has_conversation(conversations: Seq<AiConversation>, id: Seq<char>) -> bool {
    exists|i: int| 0 <= i < conversations.len() && (#[trigger] conversations[i]).id@ == id
}

/// The first position is where no earlier conversation has the identity.
pub proof fn lemma_conversation_position(conversations: Seq<AiConversation>, id: Seq<char>, at: int)
    requires
        0 <= at <= conversations.len(),
        forall|j: int| 0 <= j < at ==> (#[trigger] conversations[j]).id@ != id,
        at < conversations.len() ==> conversations[at].id@ == id,
    ensures
        conversation_position(conversations, id) == at,
    decreases conversations.len(),
{
    if at > 0 {
        assert(conversations[0].id@ != id);
        assert forall|j: int| 0 <= j < at - 1 implies (#[trigger] conversations.drop_first()[j]).id@
            != id by {
            assert(conversations[j + 1].id@ != id);
        }
        lemma_conversation_position(conversations.drop_first(), id, at - 1);
    }
}

/// Finds the first conversation called `id`.
pub fn find_conversation(conversations: &Vec<AiConversation>, id: &str) -> (res: Option<usize>)
    ensures
        match res {
            Some(i) => {
                &&& i < conversations@.len()
                &&& conversations@[i as int].id@ == id@
                &&& i == conversation_position(conversations@, id@)
                &&& has_conversation(conversations@, id@)
            },
            None => !has_conversation(conversations@, id@) && conversation_position(
                conversations@,
                id@,
            ) == conversations@.len(),
        },
{
    let mut i: usize = 0;
    while i < conversations.len()
        invariant
            i <= conversations.len(),
            forall|j: int| 0 <= j < i ==> (#[trigger] conversations@[j]).id@ != id@,
        decreases conversations.len() - i,
    {
        if text::same(conversations[i].id.as_str(), id) {
            proof {
                lemma_conversation_position(conversations@, id@, i as int);
            }
            return Some(i);
        }
        i += 1;
    }
    proof {
        lemma_conversation_position(conversations@, id@, i as int);
    }
    None
}

/// A message as a page lists it.
pub struct MessageDescriptor {
    pub id: String,
    pub storage_id: String,
    pub revision: u64,
    pub sequence: u64,
    pub role: AiChatRole,
    pub preview: String,
    pub timestamp_ms: i64,
}

impl MessageDescriptor {
    pub fn duplicate(&self) -> (res: MessageDescriptor)
        ensures
            res == *self,
    {
        MessageDescriptor {
            id: self.id.clone(),
            storage_id: self.storage_id.clone(),
            revision: self.revision,
            sequence: self.sequence,
            role: self.role,
            preview: self.preview.clone(),
            timestamp_ms: self.timestamp_ms,
        }
    }
}

/// A place in a stored branch.
pub struct HistoryCursor {
    pub conversation_id: String,
    pub branch_id: String,
    pub revision: u64,
    pub before_sequence: u64,
}

impl HistoryCursor {
    pub fn duplicate(&self) -> (res: HistoryCursor)
        ensures
            res == *self,
    {
        HistoryCursor {
            conversation_id: self.conversation_id.clone(),
            branch_id: self.branch_id.clone(),
            revision: self.revision,
            before_sequence: self.before_sequence,
        }
    }
}

/// A copy of an optional cursor.
pub fn duplicate_cursor(cursor: &Option<HistoryCursor>) -> (res: Option<HistoryCursor>)
    ensures
        res == *cursor,
{
    match cursor {
        Some(cursor) => Some(cursor.duplicate()),
        None => None,
    }
}

/// A page of a stored branch.
pub struct MessagePage {
    pub messages: Vec<MessageDescriptor>,
    pub before: Option<HistoryCursor>,
    pub after: Option<HistoryCursor>,
    pub revision: u64,
}

/// A conversation as the store lists it.
pub struct ConversationHead {
    pub conversation: AiConversation,
    pub active_branch: String,
}

/// Whose messages a view shows.
pub enum HistoryViewOwner {
    Main(String),
    Archive(String, String),
    Agent(String, String),
}

/// Whose messages a view shows, in words.
pub enum ViewOwner {
    Main(Seq<char>),
    Archive(Seq<char>, Seq<char>),
    Agent(Seq<char>, Seq<char>),
}

impl HistoryViewOwner {
    pub open spec fn spec_conversation(self) -> Seq<char> {
        match self {
            HistoryViewOwner::Main(id) => id@,
            HistoryViewOwner::Archive(id, _) => id@,
            HistoryViewOwner::Agent(id, _) => id@,
        }
    }

    /// The conversation that the messages belong to.
    pub fn conversation(&self) -> (res: &str)
        ensures
            res@ == self.spec_conversation(),
    {
        match self {
            HistoryViewOwner::Main(id) => id.as_str(),
            HistoryViewOwner::Archive(id, _) => id.as_str(),
            HistoryViewOwner::Agent(id, _) => id.as_str(),
        }
    }
}

impl Key for HistoryViewOwner {
    type Id = ViewOwner;

    open spec fn id(&self) -> ViewOwner {
        match self {
            HistoryViewOwner::Main(id) => ViewOwner::Main(id@),
            HistoryViewOwner::Archive(id, message) => ViewOwner::Archive(id@, message@),
            HistoryViewOwner::Agent(id, run) => ViewOwner::Agent(id@, run@),
        }
    }

    fn matches(&self, other: &Self) -> (res: bool) {
        match (self, other) {
            (HistoryViewOwner::Main(a), HistoryViewOwner::Main(b)) => text::same(
                a.as_str(),
                b.as_str(),
            ),
            (HistoryViewOwner::Archive(a, x), HistoryViewOwner::Archive(b, y)) => text::same(
                a.as_str(),
                b.as_str(),
            ) && text::same(x.as_str(), y.as_str()),
            (HistoryViewOwner::Agent(a, x), HistoryViewOwner::Agent(b, y)) => text::same(
                a.as_str(),
                b.as_str(),
            ) && text::same(x.as_str(), y.as_str()),
            _ => false,
        }
    }

    fn duplicate(&self) -> (res: Self) {
        match self {
            HistoryViewOwner::Main(id) => HistoryViewOwner::Main(id.clone()),
            HistoryViewOwner::Archive(id, message) => HistoryViewOwner::Archive(
                id.clone(),
                message.clone(),
            ),
            HistoryViewOwner::Agent(id, run) => HistoryViewOwner::Agent(id.clone(), run.clone()),
        }
    }
}

} // verus!
