//! Which agents a conversation's streams belong to, and what they may do.

use vstd::prelude::*;

use crate::ai_state::entity::{AiHistoryState, AiWorkspaceEntity, ChatStreamRun, Effect};
use crate::ai_state::model::{
    conversation_position, find_conversation, AgentConversationOptions, AgentRunRef, AiConversation,
    ConversationState,
};
use crate::table::Key;
use crate::text;

verus! {

/// Why an agent does not get a message.
#[derive(Clone, Copy, PartialEq, Eq, Structural, Debug)]
pub enum AgentError {
    StaleRun,
}

impl ChatStreamRun {
    /// Whether the stream is that of a run.
    pub open spec fn is_of(self, run: AgentRunRef) -> bool {
        self.agent is Some && self.agent->0@ == run@
    }

    /// Whether the user can add to what the stream's agent works on in a conversation.
    pub open spec fn takes_supplements(self, active: Option<String>) -> bool {
        &&& !self.child
        &&& self.agent is Some
        &&& self.accepts_messages
        &&& active is Some
        &&& active->0@ == self.conversation_id@
    }
}

impl AiWorkspaceEntity {
    /// The streams of a run.
    pub fn chat_stream_runs_for_agent(&self, run: &AgentRunRef) -> (res: Vec<u64>)
        requires
            self.wf(),
        ensures
            res@.no_duplicates(),
            forall|generation: u64|
                #[trigger] res@.contains(generation) == (self.chat_stream_runs@.dom().contains(generation)
                    && self.chat_stream_runs@[generation].is_of(*run)),
    {
        let keys = self.chat_stream_runs.keys();
        let mut res: Vec<u64> = Vec::new();
        let mut at: usize = 0;
        while at < keys.len()
            invariant
                self.wf(),
                at <= keys.len(),
                forall|i: int|
                    0 <= i < keys@.len() ==> self.chat_stream_runs@.dom().contains(#[trigger] keys@[i]),
                forall|i: int, j: int| 0 <= i < j < keys@.len() ==> #[trigger] keys@[i] != #[trigger] keys@[j],
                res@.no_duplicates(),
                forall|generation: u64| #[trigger]
                    res@.contains(generation) ==> exists|i: int|
                        0 <= i < at && #[trigger] keys@[i] == generation,
                forall|i: int|
                    0 <= i < at ==> res@.contains(#[trigger] keys@[i]) == self.chat_stream_runs@[keys@[i]].is_of(
                        *run,
                    ),
            decreases keys.len() - at,
        {
            let generation = keys[at];
            let ghost before = res@;
            let own = match self.chat_stream_runs.get(&generation) {
                Some(stream) => match &stream.agent {
                    Some(agent) => agent.same(run),
                    None => false,
                },
                None => false,
            };
            assert(!before.contains(generation));
            if own {
                res.push(generation);
                proof {
                    assert forall|other: u64| #[trigger] res@.contains(other) == (before.contains(other)
                        || other == generation) by {
                        if before.contains(other) {
                            let k = choose|k: int| 0 <= k < before.len() && before[k] == other;
                            assert(res@[k] == other);
                        }
                        assert(res@[before.len() as int] == generation);
                    }
                }
            }
            at = at + 1;
            assert(keys@[at - 1] == generation);
        }
        proof {
            assert forall|generation: u64| #[trigger] res@.contains(generation) == (self.chat_stream_runs@.dom().contains(generation)
                && self.chat_stream_runs@[generation].is_of(*run)) by {
                if self.chat_stream_runs@.dom().contains(generation) {
                    let i = choose|i: int| 0 <= i < keys@.len() && (#[trigger] keys@[i]).id() == generation;
                    assert(keys@[i] == generation);
                }
            }
        }
        res
    }

    /// Whether the user can add to what the agent of the shown conversation works on.
    pub open spec fn supplements(self) -> bool {
        &&& self.chat_is_loading
        &&& exists|generation: u64| #[trigger]
            self.chat_stream_runs@.dom().contains(generation)
                && self.chat_stream_runs@[generation].takes_supplements(
                self.conversation_state.active_conversation_id,
            )
    }

    pub fn can_supplement_agent(&self) -> (res: bool)
        requires
            self.wf(),
        ensures
            res == self.supplements(),
    {
        if !self.chat_is_loading {
            return false;
        }
        let active = match &self.conversation_state.active_conversation_id {
            Some(active) => active,
            None => {
                return false;
            },
        };
        let keys = self.chat_stream_runs.keys();
        let mut at: usize = 0;
        while at < keys.len()
            invariant
                self.wf(),
                self.chat_is_loading,
                self.conversation_state.active_conversation_id == Some(*active),
                at <= keys.len(),
                forall|i: int|
                    0 <= i < keys@.len() ==> self.chat_stream_runs@.dom().contains(#[trigger] keys@[i]),
                forall|key: u64| #[trigger]
                    self.chat_stream_runs@.dom().contains(key) ==> exists|i: int|
                        0 <= i < keys@.len() && (#[trigger] keys@[i]).id() == key,
                forall|i: int|
                    0 <= i < at ==> !self.chat_stream_runs@[#[trigger] keys@[i]].takes_supplements(
                        self.conversation_state.active_conversation_id,
                    ),
            decreases keys.len() - at,
        {
            match self.chat_stream_runs.get(&keys[at]) {
                Some(stream) => {
                    if !stream.child && stream.agent.is_some() && stream.accepts_messages
                        && text::same(stream.conversation_id.as_str(), active.as_str()) {
                        return true;
                    }
                },
                None => {},
            }
            at = at + 1;
        }
        false
    }

    /// The run of a stream.
    pub fn agent_run(&self, generation: u64) -> (res: Option<AgentRunRef>)
        requires
            self.wf(),
        ensures
            res == if self.chat_stream_runs@.dom().contains(generation) {
                self.chat_stream_runs@[generation].agent
            } else {
                None
            },
    {
        match self.chat_stream_runs.get(&generation) {
            Some(stream) => match &stream.agent {
                Some(run) => Some(run.duplicate()),
                None => None,
            },
            None => None,
        }
    }

    /// Which run gets what the user adds.
    pub fn supplement_agent(&self) -> (res: Result<AgentRunRef, AgentError>)
        requires
            self.wf(),
        ensures
            match res {
                Ok(run) => {
                    &&& self.supplements()
                    &&& self.chat_stream_runs@.dom().contains(self.chat_stream_generation)
                    &&& self.chat_stream_runs@[self.chat_stream_generation].agent == Some(run)
                },
                Err(error) => {
                    &&& error == AgentError::StaleRun
                    &&& !self.supplements() || !self.chat_stream_runs@.dom().contains(
                        self.chat_stream_generation,
                    ) || self.chat_stream_runs@[self.chat_stream_generation].agent is None
                },
            },
    {
        if !self.can_supplement_agent() {
            return Err(AgentError::StaleRun);
        }
        match self.agent_run(self.chat_stream_generation) {
            Some(run) => Ok(run),
            None => Err(AgentError::StaleRun),
        }
    }

    /// Whether the tools of a stream may still run: its agent, where it has one, still takes
    /// messages.
    pub open spec fn runs_tools(self, generation: u64) -> bool {
        self.chat_stream_runs@.dom().contains(generation) && (
        self.chat_stream_runs@[generation].agent is None
            || self.chat_stream_runs@[generation].accepts_messages)
    }

    pub fn run_accepts_tools(&self, generation: u64) -> (res: bool)
        requires
            self.wf(),
        ensures
            res == self.runs_tools(generation),
    {
        match self.chat_stream_runs.get(&generation) {
            Some(stream) => stream.agent.is_none() || stream.accepts_messages,
            None => false,
        }
    }

    /// Whether a command to agents is carried out: somebody waits for its answer, and the tools of
    /// its stream may still run.
    pub fn takes_agent_command(&self, generation: u64, listens: bool) -> (res: bool)
        requires
            self.wf(),
        ensures
            res == (listens && self.runs_tools(generation)),
    {
        listens && self.run_accepts_tools(generation)
    }

    /// What the agents of a conversation may do.
    pub open spec fn options_of(self, conversation: Seq<char>) -> AgentConversationOptions {
        let conversations = self.conversation_state.conversations@;
        let at = conversation_position(conversations, conversation);
        if at < conversations.len() && conversations[at].agent_options is Some {
            conversations[at].agent_options->0
        } else {
            self.agents.default_options
        }
    }

    pub fn agent_options(&self, conversation_id: &str) -> (res: AgentConversationOptions)
        ensures
            res == self.options_of(conversation_id@),
    {
        match find_conversation(&self.conversation_state.conversations, conversation_id) {
            Some(at) => match &self.conversation_state.conversations[at].agent_options {
                Some(options) => options.duplicate(),
                None => self.agents.default_options.duplicate(),
            },
            None => self.agents.default_options.duplicate(),
        }
    }

    /// What the agents of a conversation may do is another thing now, and is saved.
    pub open spec fn options_set(self, before: AiWorkspaceEntity, conversation: Seq<char>, options: AgentConversationOptions) -> bool {
        let conversations = before.conversation_state.conversations@;
        let at = conversation_position(conversations, conversation);
        &&& self == (AiWorkspaceEntity {
            history: AiHistoryState { effects: self.history.effects, ..before.history },
            conversation_state: ConversationState {
                conversations: self.conversation_state.conversations,
                ..before.conversation_state
            },
            ..before
        })
        &&& self.history.asked() == before.history.asked().push(Effect::Save)
        &&& self.conversation_state.conversations@ == if at < conversations.len() {
            conversations.update(
                at,
                AiConversation { agent_options: Some(options), ..conversations[at] },
            )
        } else {
            conversations
        }
    }

    /// Changes what the agents of a conversation may do, and saves.
    pub fn set_agent_options(&mut self, conversation_id: &str, options: AgentConversationOptions)
        requires
            old(self).wf(),
        ensures
            final(self).wf(),
            final(self).options_set(*old(self), conversation_id@, options),
    {
        match find_conversation(&self.conversation_state.conversations, conversation_id) {
            Some(at) => {
                self.conversation_state.conversations[at].agent_options = Some(options);
            },
            None => {},
        }
        self.request_history_save();
    }

    /// Ties a stream to a run.
    pub fn bind_agent_run(&mut self, generation: u64, run: AgentRunRef, child: bool)
        requires
            old(self).wf(),
        ensures
            final(self).wf(),
            *final(self) == (AiWorkspaceEntity {
                chat_stream_runs: final(self).chat_stream_runs,
                ..*old(self)
            }),
            final(self).chat_stream_runs@ == if old(self).chat_stream_runs@.dom().contains(generation) {
                old(self).chat_stream_runs@.insert(
                    generation,
                    ChatStreamRun {
                        agent: Some(run),
                        child,
                        ..old(self).chat_stream_runs@[generation]
                    },
                )
            } else {
                old(self).chat_stream_runs@
            },
    {
        if !self.chat_stream_runs.contains(&generation) {
            return;
        }
        match self.chat_stream_runs.remove(&generation) {
            Some(stream) => {
                let mut stream = stream;
                stream.agent = Some(run);
                stream.child = child;
                let ghost bound = stream;
                self.chat_stream_runs.insert(generation, stream);
                assert(self.chat_stream_runs@ =~= old(self).chat_stream_runs@.insert(
                    generation,
                    bound,
                ));
            },
            None => {},
        }
    }

    /// Whether a stream is that of a child.
    pub fn is_child_stream(&self, generation: u64) -> (res: bool)
        requires
            self.wf(),
        ensures
            res == (self.chat_stream_runs@.dom().contains(generation)
                && self.chat_stream_runs@[generation].child),
    {
        match self.chat_stream_runs.get(&generation) {
            Some(stream) => stream.child,
            None => false,
        }
    }

    /// Whether a message belongs to a run of an agent.
    pub fn is_agent_message(&self, message_id: &str) -> (res: bool)
        ensures
            res == self.agents.message_runs@.dom().contains(message_id@),
    {
        self.agents.message_runs.contains(&message_id.to_owned())
    }
}

} // verus!
