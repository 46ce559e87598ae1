//! Groups of agents: how a parent's run starts, and how a child's does.

use vstd::prelude::*;

use crate::ai::agent_commands::{
    child_history, child_history_made, child_tools, group_scope_tools, not_disabled, within_scope,
};
use crate::ai::messages::{agent_chat_message, AiChatMessage, AiChatRole};
use crate::ai::models::AgentModel;
use crate::ai::tool_loop::allowed_rounds;
use crate::ai_state::agent_records::can_count;
use crate::ai_state::entity::{AiAgentGroup, AiAgentWorkspace, AiWorkspaceEntity, ChatStreamRun};
use crate::ai_state::journal::RevisionClock;
use crate::ai_state::model::{
    conversation_position, find_conversation, AgentRecord, AgentRunRef, AgentSnapshot, AgentUsage,
};
use crate::text;
use crate::workspace::app::WorkspaceApp;
use crate::workspace::runtime_context::AiRuntimeContextEntity;

verus! {

/// A notice that an agent waits for the user.
pub struct AgentAttention {
    /// The text under which the notice is shown.
    pub label: String,
    pub detail: String,
    /// A second notice with the same key takes the place of the first.
    pub dedupe_key: String,
}

/// The model and the tools of a run that may have children.
pub struct GroupConfig {
    pub provider_id: Option<String>,
    pub model: String,
    pub tools: Vec<String>,
    pub disabled_tools: Vec<String>,
    pub tools_enabled: bool,
    pub max_rounds: Option<u32>,
}

/// How many rounds a run may have.
#[derive(Clone, Copy, PartialEq, Eq, Structural, Debug)]
pub struct RoundLimits {
    pub default_rounds: u32,
    pub min_rounds: u32,
    pub max_rounds: u32,
}

/// What the agent runtime is told of a new group.
pub struct GroupPlan {
    pub concurrency: usize,
    pub scope_tools: Vec<String>,
    /// Whether the tools for coordinating agents are offered too.
    pub offers_agents: bool,
    pub model: AgentModel,
    pub max_rounds: u32,
}

/// What the agent runtime says of a child that is to start.
pub struct ChildRun {
    pub snapshot: AgentSnapshot,
    pub scope_tools: Vec<String>,
    pub scope_targets: Vec<u64>,
    /// What the child knew when its last run ended.
    pub context: Vec<AiChatMessage>,
    pub message_branch: String,
}

/// A child that is ready to run.
pub struct PreparedChild {
    pub generation: u64,
    pub session: u64,
    /// The tools of its parent that it may use; those that every child has come on top.
    pub tools: Vec<String>,
    pub history: Vec<AiChatMessage>,
    pub conversation_id: String,
    pub assistant_id: String,
    pub context_window: usize,
}

impl PreparedChild {
    /// What a child starts with: what was delegated to it, and what it knew.
    pub open spec fn fits(self, child: ChildRun, group: AiAgentGroup, follow_up: Option<Seq<char>>, now_ms: i64) -> bool {
        &&& self.conversation_id == child.snapshot.conversation_id
        &&& self.assistant_id@.len() == 36
        &&& self.context_window == group.context_window
        &&& text::seq_view(self.tools@) == within_scope(
            text::seq_view(group.tools@),
            text::seq_view(child.scope_tools@),
        )
        &&& child_history_made(child.context@, self.history@, child.snapshot.task@, follow_up, now_ms)
    }
}

/// A number between two others.
pub open spec fn clamped(value: u32, low: u32, high: u32) -> u32 {
    if value < low {
        low
    } else if value > high {
        high
    } else {
        value
    }
}

impl AiWorkspaceEntity {
    /// The record of the run that a message belongs to.
    pub open spec fn record_of_message(self, message: Seq<char>) -> Option<AgentRecord> {
        if self.agents.message_runs@.dom().contains(message) && self.agents.records@.dom().contains(
            self.agents.message_runs@[message].run@,
        ) {
            Some(self.agents.records@[self.agents.message_runs@[message].run@])
        } else {
            None
        }
    }

    /// Whether the user looks at what a message belongs to: at its conversation, and at the run if it
    /// belongs to one.
    pub open spec fn looked_at(self, conversation: Seq<char>, message: Seq<char>) -> bool {
        &&& self.conversation_state.active_conversation_id is Some
        &&& self.conversation_state.active_conversation_id->0@ == conversation
        &&& match self.record_of_message(message) {
            Some(record) => self.agents.detail is Some && self.agents.detail->0@
                == record.snapshot.run.run_id@,
            None => true,
        }
    }

    /// The title of a conversation, or nothing if it is not there.
    pub open spec fn title_of(self, conversation: Seq<char>) -> Seq<char> {
        let conversations = self.conversation_state.conversations@;
        let at = conversation_position(conversations, conversation);
        if at < conversations.len() {
            conversations[at].title@
        } else {
            ""@
        }
    }

    /// What a run works on, or nothing for a message of no run.
    pub open spec fn task_line(self, message: Seq<char>) -> Seq<char> {
        match self.record_of_message(message) {
            Some(record) => record.snapshot.title@ + " · "@ + text::chained(
                text::seq_view(record.target_labels@),
                ", "@,
            ),
            None => ""@,
        }
    }

    /// Says that an agent waits for the user, unless the user looks at it.
    pub fn agent_attention(&self, conversation_id: &str, message_id: &str, label: &str) -> (res: Option<
        AgentAttention,
    >)
        requires
            self.wf(),
        ensures
            res is None <==> self.looked_at(conversation_id@, message_id@),
            res matches Some(notice) ==> {
                &&& notice.label@ == label@
                &&& notice.detail@ == self.title_of(conversation_id@) + " · "@ + self.task_line(message_id@)
                &&& notice.dedupe_key@ == "agent-attention:"@ + conversation_id@ + ":"@ + message_id@ + ":"@
                    + label@
            },
    {
        let record: Option<&AgentRecord> = match self.agents.message_runs.get(&message_id.to_owned()) {
            Some(owner) => self.agents.records.get(&owner.run),
            None => None,
        };
        let active = match &self.conversation_state.active_conversation_id {
            Some(active) => text::same(active.as_str(), conversation_id),
            None => false,
        };
        let shown = match record {
            Some(record) => match &self.agents.detail {
                Some(detail) => text::same(detail.as_str(), record.snapshot.run.run_id.as_str()),
                None => false,
            },
            None => true,
        };
        if active && shown {
            return None;
        }
        let title = match find_conversation(&self.conversation_state.conversations, conversation_id) {
            Some(at) => self.conversation_state.conversations[at].title.clone(),
            None => "".to_owned(),
        };
        let task = match record {
            Some(record) => {
                let start = text::joined(record.snapshot.title.as_str(), " · ");
                text::joined(start.as_str(), text::chain(&record.target_labels, ", ").as_str())
            },
            None => "".to_owned(),
        };
        let detail = text::joined(text::joined(title.as_str(), " · ").as_str(), task.as_str());
        let key = text::joined("agent-attention:", conversation_id);
        let key = text::joined(text::joined(key.as_str(), ":").as_str(), message_id);
        let key = text::joined(text::joined(key.as_str(), ":").as_str(), label);
        Some(AgentAttention { label: label.to_owned(), detail, dedupe_key: key })
    }

    /// A group was made for a run.
    pub open spec fn group_bound(
        self,
        before: AiWorkspaceEntity,
        generation: u64,
        run: AgentRunRef,
        group: AiAgentGroup,
    ) -> bool {
        &&& self == (AiWorkspaceEntity {
            chat_stream_runs: self.chat_stream_runs,
            agents: AiAgentWorkspace { groups: self.agents.groups, ..before.agents },
            ..before
        })
        &&& self.chat_stream_runs@ == if before.chat_stream_runs@.dom().contains(generation) {
            before.chat_stream_runs@.insert(
                generation,
                ChatStreamRun {
                    agent: Some(run),
                    child: false,
                    ..before.chat_stream_runs@[generation]
                },
            )
        } else {
            before.chat_stream_runs@
        }
        &&& self.agents.groups@ == before.agents.groups@.insert(run.group_id@, group)
    }

    /// A stream was made for a child's run.
    pub open spec fn child_stream_made(
        self,
        before: AiWorkspaceEntity,
        generation: u64,
        conversation: String,
        assistant: String,
        run: AgentRunRef,
    ) -> bool {
        &&& self == (AiWorkspaceEntity {
            chat_stream_runs: self.chat_stream_runs,
            chat_stream_generation: generation,
            ..before
        })
        &&& generation == if before.chat_stream_generation == u64::MAX {
            0
        } else {
            (before.chat_stream_generation + 1) as u64
        }
        &&& self.chat_stream_runs@ == before.chat_stream_runs@.insert(
            generation,
            ChatStreamRun {
                conversation_id: conversation,
                assistant_id: assistant,
                agent: Some(run),
                child: true,
                accepts_messages: true,
            },
        )
    }

    fn allocate_chat_stream(&mut self, conversation: String, assistant: String, run: AgentRunRef) -> (res: u64)
        requires
            old(self).wf(),
        ensures
            final(self).wf(),
            final(self).child_stream_made(*old(self), res, conversation, assistant, run),
    {
        let generation: u64 = self.chat_stream_generation.wrapping_add(1);
        self.chat_stream_generation = generation;
        self.chat_stream_runs.insert(
            generation,
            ChatStreamRun {
                conversation_id: conversation,
                assistant_id: assistant,
                agent: Some(run),
                child: true,
                accepts_messages: true,
            },
        );
        generation
    }

    /// The streams of a run are gone.
    pub open spec fn streams_ended(self, before: AiWorkspaceEntity, run: AgentRunRef) -> bool {
        &&& self == (AiWorkspaceEntity { chat_stream_runs: self.chat_stream_runs, ..before })
        &&& self.chat_stream_runs@ == before.chat_stream_runs@.restrict(
            Set::new(
                |generation: u64|
                    before.chat_stream_runs@.dom().contains(generation)
                        && !before.chat_stream_runs@[generation].is_of(run),
            ),
        )
    }

    fn end_streams_of(&mut self, run: &AgentRunRef)
        requires
            old(self).wf(),
        ensures
            final(self).wf(),
            final(self).streams_ended(*old(self), *run),
    {
        let own = run;
        let keep = |generation: &u64, stream: &ChatStreamRun| -> (kept: bool)
            ensures
                kept == !stream.is_of(*own),
            {
                match &stream.agent {
                    Some(agent) => !agent.same(own),
                    None => true,
                }
            };
        self.chat_stream_runs.retain(
            keep,
            Ghost(|generation: u64, stream: ChatStreamRun| !stream.is_of(*run)),
        );
        assert(self.chat_stream_runs@ =~= old(self).chat_stream_runs@.restrict(
            Set::new(
                |generation: u64|
                    old(self).chat_stream_runs@.dom().contains(generation)
                        && !old(self).chat_stream_runs@[generation].is_of(*run),
            ),
        ));
    }
}

/// One session after the other was ended.
pub open spec fn sessions_ended(steps: Seq<AiRuntimeContextEntity>, generations: Seq<u64>) -> bool {
    &&& steps.len() == generations.len() + 1
    &&& forall|i: int|
        #![trigger generations[i]]
        0 <= i < generations.len() ==> steps[i + 1].session_finished(steps[i], generations[i])
}

impl AiRuntimeContextEntity {
    fn end_sessions(&mut self, generations: &Vec<u64>)
        requires
            old(self).wf(),
        ensures
            final(self).wf(),
            exists|steps: Seq<AiRuntimeContextEntity>| #[trigger]
                sessions_ended(steps, generations@) && steps[0] == *old(self) && steps.last() == *final(self),
    {
        let ghost mut steps: Seq<AiRuntimeContextEntity> = seq![*self];
        let mut at: usize = 0;
        while at < generations.len()
            invariant
                self.wf(),
                at <= generations.len(),
                steps.len() == at + 1,
                steps[0] == *old(self),
                steps.last() == *self,
                forall|i: int|
                    #![trigger generations@[i]]
                    0 <= i < at ==> steps[i + 1].session_finished(steps[i], generations@[i]),
            decreases generations.len() - at,
        {
            let ghost prior = steps;
            self.finish_tool_session(generations[at]);
            proof {
                steps = steps.push(*self);
                assert forall|i: int|
                    #![trigger generations@[i]]
                    0 <= i < at + 1 implies steps[i + 1].session_finished(steps[i], generations@[i]) by {
                    if i < at {
                        assert(steps[i] == prior[i]);
                        assert(steps[i + 1] == prior[i + 1]);
                    } else {
                        assert(steps[i] == prior.last());
                    }
                }
            }
            at += 1;
        }
        assert(sessions_ended(steps, generations@));
    }

    /// A session was opened for a child's run, and limited to what was delegated to it.
    pub open spec fn child_session_opened(
        self,
        before: AiRuntimeContextEntity,
        generation: u64,
        session: u64,
        targets: Seq<u64>,
    ) -> bool {
        exists|finished: AiRuntimeContextEntity, opened: AiRuntimeContextEntity|
            {
                &&& #[trigger] finished.session_finished(before, generation)
                &&& #[trigger] opened.session_opened(finished, generation)
                &&& session == opened.serial
                &&& self.limited(opened, session, targets)
            }
    }

    fn open_child_session(&mut self, generation: u64, targets: &Vec<u64>) -> (res: u64)
        requires
            old(self).wf(),
            old(self).serial < u64::MAX,
        ensures
            final(self).wf(),
            final(self).child_session_opened(*old(self), generation, res, targets@),
    {
        let session: u64 = self.begin_tool_session(generation);
        let ghost opened = *self;
        proof {
            let finished = choose|finished: AiRuntimeContextEntity| #[trigger]
                finished.session_finished(*old(self), generation) && opened.session_opened(
                    finished,
                    generation,
                );
            assert(opened.session_opened(finished, generation));
        }
        let restricted = self.restrict_agent_session(session, targets);
        assert(restricted is Ok);
        session
    }
}

impl WorkspaceApp {
    /// Says that an agent waits for the user, unless the user looks at it.
    pub fn notify_ai_agent_attention(&self, conversation_id: &str, message_id: &str, label: &str) -> (res: Option<
        AgentAttention,
    >)
        requires
            self.ai_entity.wf(),
        ensures
            res is None <==> self.ai_entity.looked_at(conversation_id@, message_id@),
            res matches Some(notice) ==> {
                &&& notice.label@ == label@
                &&& notice.detail@ == self.ai_entity.title_of(conversation_id@) + " · "@
                    + self.ai_entity.task_line(message_id@)
                &&& notice.dedupe_key@ == "agent-attention:"@ + conversation_id@ + ":"@ + message_id@ + ":"@
                    + label@
            },
    {
        self.ai_entity.agent_attention(conversation_id, message_id, label)
    }

    /// What the agent runtime is told of a group that is about to start in a conversation.
    pub fn plan_ai_agent_group(&self, conversation_id: &str, config: &GroupConfig, limits: RoundLimits) -> (res: GroupPlan)
        requires
            self.ai_settings.max_agent_concurrency >= 1,
            limits.min_rounds <= limits.max_rounds,
        ensures
            res.concurrency == self.concurrency(),
            text::seq_view(res.scope_tools@) == not_disabled(
                text::seq_view(config.tools@),
                text::seq_view(config.disabled_tools@),
            ),
            res.offers_agents == (self.ai_entity.options_of(conversation_id@).enabled
                && config.tools_enabled),
            res.model.provider_id@ == match config.provider_id {
                Some(provider) => provider@,
                None => ""@,
            },
            res.model.model == config.model,
            res.max_rounds == clamped(
                match config.max_rounds {
                    Some(rounds) => rounds,
                    None => limits.default_rounds,
                },
                limits.min_rounds,
                limits.max_rounds,
            ),
    {
        let max_rounds: u32 = allowed_rounds(
            config.max_rounds,
            limits.default_rounds,
            limits.min_rounds,
            limits.max_rounds,
        );
        let provider_id = match &config.provider_id {
            Some(provider) => provider.clone(),
            None => "".to_owned(),
        };
        GroupPlan {
            concurrency: self.agent_concurrency(),
            scope_tools: group_scope_tools(&config.tools, &config.disabled_tools),
            offers_agents: self.ai_entity.agent_options(conversation_id).enabled && config.tools_enabled,
            model: AgentModel { provider_id, model: config.model.clone() },
            max_rounds,
        }
    }

    /// A group was started for a run: its children are started with the same tools.
    pub fn start_ai_agent_group(
        &mut self,
        generation: u64,
        run: &AgentRunRef,
        assistant_id: &str,
        tools: Vec<String>,
        context_window: usize,
    )
        requires
            old(self).ai_entity.wf(),
        ensures
            final(self).ai_entity.wf(),
            *final(self) == (WorkspaceApp { ai_entity: final(self).ai_entity, ..*old(self) }),
            ({
                let group = final(self).ai_entity.agents.groups@[run.group_id@];
                &&& final(self).ai_entity.group_bound(old(self).ai_entity, generation, *run, group)
                &&& group.parent == *run
                &&& group.parent_message_id@ == assistant_id@
                &&& group.tools == tools
                &&& group.context_window == context_window
            }),
    {
        self.ai_entity.bind_agent_run(generation, run.duplicate(), false);
        self.ai_entity.agents.groups.insert(
            run.group_id.clone(),
            AiAgentGroup {
                parent: run.duplicate(),
                parent_message_id: assistant_id.to_owned(),
                tools,
                context_window,
            },
        );
    }

    /// The group that a child belongs to.
    pub open spec fn group_of(self, run: AgentRunRef) -> Option<AiAgentGroup> {
        if self.ai_entity.agents.groups@.dom().contains(run.group_id@) {
            Some(self.ai_entity.agents.groups@[run.group_id@])
        } else {
            None
        }
    }

    /// What is kept of a child that was just made.
    pub open spec fn is_child_record(
        record: AgentRecord,
        child: ChildRun,
        labels: Vec<String>,
        group: AiAgentGroup,
        assistant: Seq<char>,
        now_ms: i64,
        revision: u64,
    ) -> bool {
        &&& record.snapshot@ == child.snapshot@
        &&& record.parent_usage == (AgentUsage { input_tokens: None, output_tokens: None })
        &&& record.created_at_ms == now_ms
        &&& record.parent_message_id@ == group.parent_message_id@
        &&& record.target_labels == labels
        &&& record.communication@.len() == 0
        &&& record.revision == revision
        &&& record.message_branch == child.message_branch
        &&& record.messages@.len() == 1
        &&& record.messages@[0].id@ == assistant
        &&& record.messages@[0].role == AiChatRole::Assistant
        &&& record.messages@[0].content@.len() == 0
        &&& record.messages@[0].timestamp_ms == now_ms
        &&& record.messages@[0].is_streaming
        &&& record.messages@[0].model == Some(child.snapshot.model.model)
    }

    /// A child was made ready to run.
    pub open spec fn child_prepared(
        self,
        before: WorkspaceApp,
        child: ChildRun,
        labels: Vec<String>,
        group: AiAgentGroup,
        prepared: PreparedChild,
        now_ms: i64,
        revision: u64,
        last: u64,
        next: u64,
    ) -> bool {
        &&& self == (WorkspaceApp {
            ai_entity: self.ai_entity,
            ai_runtime_context: self.ai_runtime_context,
            ..before
        })
        &&& exists|made: AiWorkspaceEntity, record: AgentRecord|
            {
                &&& #[trigger] made.child_stream_made(
                    before.ai_entity,
                    prepared.generation,
                    prepared.conversation_id,
                    prepared.assistant_id,
                    child.snapshot.run,
                )
                &&& #[trigger] self.ai_entity.agent_added(made, record, last, next)
                &&& Self::is_child_record(
                    record,
                    child,
                    labels,
                    group,
                    prepared.assistant_id@,
                    now_ms,
                    revision,
                )
            }
        &&& self.ai_runtime_context.child_session_opened(
            before.ai_runtime_context,
            prepared.generation,
            prepared.session,
            child.scope_targets@,
        )
    }

    fn keep_child(
        ai: &mut AiWorkspaceEntity,
        child: &ChildRun,
        labels: Vec<String>,
        parent_message_id: String,
        message: AiChatMessage,
        now_ms: i64,
        revision: u64,
        clock: &mut RevisionClock,
    ) -> (res: (u64, Ghost<AiWorkspaceEntity>, Ghost<AgentRecord>))
        requires
            old(ai).wf(),
            old(clock).last + 2 <= u64::MAX,
            can_count(old(ai).agents.parent_revisions@, parent_message_id@),
        ensures
            final(ai).wf(),
            res.1@.child_stream_made(
                *old(ai),
                res.0,
                child.snapshot.conversation_id,
                message.id,
                child.snapshot.run,
            ),
            final(ai).agent_added(res.1@, res.2@, old(clock).last, final(clock).last),
            res.2@.snapshot@ == child.snapshot@,
            res.2@.parent_usage == (AgentUsage { input_tokens: None, output_tokens: None }),
            res.2@.created_at_ms == now_ms,
            res.2@.parent_message_id == parent_message_id,
            res.2@.target_labels == labels,
            res.2@.communication@.len() == 0,
            res.2@.revision == revision,
            res.2@.message_branch == child.message_branch,
            res.2@.messages@ == seq![message],
    {
        let generation: u64 = ai.allocate_chat_stream(
            child.snapshot.conversation_id.clone(),
            message.id.clone(),
            child.snapshot.run.duplicate(),
        );
        let ghost made = *ai;
        let mut messages: Vec<AiChatMessage> = Vec::new();
        messages.push(message);
        assert(messages@ =~= seq![message]);
        let record = AgentRecord {
            snapshot: child.snapshot.duplicate(),
            parent_usage: AgentUsage { input_tokens: None, output_tokens: None },
            created_at_ms: now_ms,
            parent_message_id,
            target_labels: labels,
            messages,
            communication: Vec::new(),
            revision,
            message_branch: child.message_branch.clone(),
        };
        let ghost kept = record;
        ai.add_agent_record(record, clock);
        (generation, Ghost(made), Ghost(kept))
    }

    /// Makes a child ready to run: with the tools of its parent that were delegated to it, in a
    /// session that reaches only what was delegated to it.
    pub fn prepare_ai_child(
        &mut self,
        child: ChildRun,
        labels: Vec<String>,
        follow_up: Option<String>,
        now_ms: i64,
        revision: u64,
        clock: &mut RevisionClock,
    ) -> (res: Result<PreparedChild, String>)
        requires
            old(self).ai_entity.wf(),
            old(self).ai_runtime_context.wf(),
            old(self).ai_runtime_context.serial < u64::MAX,
            old(clock).last + 2 <= u64::MAX,
            old(self).group_of(child.snapshot.run) matches Some(group) ==> can_count(
                old(self).ai_entity.agents.parent_revisions@,
                group.parent_message_id@,
            ),
        ensures
            final(self).ai_entity.wf(),
            final(self).ai_runtime_context.wf(),
            match (old(self).group_of(child.snapshot.run), res) {
                (None, Err(error)) => error@ == "Parent task has finished"@ && *final(self) == *old(self)
                    && *final(clock) == *old(clock),
                (Some(group), Ok(prepared)) => {
                    &&& final(self).child_prepared(
                        *old(self),
                        child,
                        labels,
                        group,
                        prepared,
                        now_ms,
                        revision,
                        old(clock).last,
                        final(clock).last,
                    )
                    &&& prepared.fits(child, group, text::opt_view(follow_up), now_ms)
                },
                _ => false,
            },
    {
        let (tools, context_window, parent_message_id): (Vec<String>, usize, String) = match self.ai_entity.agents.groups.get(
            &child.snapshot.run.group_id,
        ) {
            Some(group) => (
                child_tools(&group.tools, &child.scope_tools),
                group.context_window,
                group.parent_message_id.clone(),
            ),
            None => {
                return Err("Parent task has finished".to_owned());
            },
        };
        let mut message = agent_chat_message(AiChatRole::Assistant, "".to_owned(), now_ms);
        message.is_streaming = true;
        message.model = Some(child.snapshot.model.model.clone());
        let assistant_id = message.id.clone();
        proof {
            reveal_strlit("");
        }
        let (generation, Ghost(made), Ghost(record)) = Self::keep_child(
            &mut self.ai_entity,
            &child,
            labels,
            parent_message_id,
            message,
            now_ms,
            revision,
            clock,
        );
        let session: u64 = self.ai_runtime_context.open_child_session(generation, &child.scope_targets);
        let conversation_id = child.snapshot.conversation_id.clone();
        let mut history = child.context;
        child_history(&mut history, child.snapshot.task.as_str(), follow_up, now_ms);
        assert(record.messages@[0] == message);
        let prepared = PreparedChild {
            generation,
            session,
            tools,
            history,
            conversation_id,
            assistant_id,
            context_window,
        };
        proof {
            let group = old(self).group_of(child.snapshot.run)->0;
            assert(Self::is_child_record(record, child, labels, group, prepared.assistant_id@, now_ms, revision));
            assert(made.child_stream_made(
                old(self).ai_entity,
                prepared.generation,
                prepared.conversation_id,
                prepared.assistant_id,
                child.snapshot.run,
            ));
            assert(self.ai_entity.agent_added(made, record, old(clock).last, clock.last));
        }
        Ok(prepared)
    }

    /// A child could not be started: its streams and their sessions end.
    pub fn abandon_ai_child(&mut self, run: &AgentRunRef) -> (res: Vec<u64>)
        requires
            old(self).ai_entity.wf(),
            old(self).ai_runtime_context.wf(),
        ensures
            final(self).ai_entity.wf(),
            final(self).ai_runtime_context.wf(),
            final(self).child_abandoned(*old(self), *run, res@),
    {
        let generations = self.ai_entity.chat_stream_runs_for_agent(run);
        self.ai_entity.end_streams_of(run);
        self.ai_runtime_context.end_sessions(&generations);
        generations
    }

    /// What is left of a run that could not be started: nothing that runs.
    pub open spec fn child_abandoned(self, before: WorkspaceApp, run: AgentRunRef, generations: Seq<u64>) -> bool {
        &&& self == (WorkspaceApp {
            ai_entity: self.ai_entity,
            ai_runtime_context: self.ai_runtime_context,
            ..before
        })
        &&& generations.no_duplicates()
        &&& forall|generation: u64| #[trigger]
            generations.contains(generation) == (before.ai_entity.chat_stream_runs@.dom().contains(generation)
                && before.ai_entity.chat_stream_runs@[generation].is_of(run))
        &&& self.ai_entity.streams_ended(before.ai_entity, run)
        &&& exists|steps: Seq<AiRuntimeContextEntity>| #[trigger]
            sessions_ended(steps, generations) && steps[0] == before.ai_runtime_context && steps.last()
                == self.ai_runtime_context
    }

    /// Starts a child. One whose parent's task is over is given up, and reported as
    /// `agent_launch_failed`.
    pub fn launch_ai_child(
        &mut self,
        child: ChildRun,
        labels: Vec<String>,
        follow_up: Option<String>,
        now_ms: i64,
        revision: u64,
        clock: &mut RevisionClock,
    ) -> (res: Result<PreparedChild, AbandonedChild>)
        requires
            old(self).ai_entity.wf(),
            old(self).ai_runtime_context.wf(),
            old(self).ai_runtime_context.serial < u64::MAX,
            old(clock).last + 2 <= u64::MAX,
            old(self).group_of(child.snapshot.run) matches Some(group) ==> can_count(
                old(self).ai_entity.agents.parent_revisions@,
                group.parent_message_id@,
            ),
        ensures
            final(self).ai_entity.wf(),
            final(self).ai_runtime_context.wf(),
            match (old(self).group_of(child.snapshot.run), res) {
                (None, Err(abandoned)) => {
                    &&& abandoned.error@ == "Parent task has finished"@
                    &&& abandoned.error_code@ == "agent_launch_failed"@
                    &&& final(self).child_abandoned(*old(self), child.snapshot.run, abandoned.generations@)
                    &&& *final(clock) == *old(clock)
                },
                (Some(group), Ok(prepared)) => {
                    &&& final(self).child_prepared(
                        *old(self),
                        child,
                        labels,
                        group,
                        prepared,
                        now_ms,
                        revision,
                        old(clock).last,
                        final(clock).last,
                    )
                    &&& prepared.fits(child, group, text::opt_view(follow_up), now_ms)
                },
                _ => false,
            },
    {
        let run = child.snapshot.run.duplicate();
        match self.prepare_ai_child(child, labels, follow_up, now_ms, revision, clock) {
            Ok(prepared) => Ok(prepared),
            Err(error) => {
                let generations = self.abandon_ai_child(&run);
                Err(
                    AbandonedChild {
                        error,
                        error_code: "agent_launch_failed".to_owned(),
                        generations,
                    },
                )
            },
        }
    }
}

/// A child that could not be started, and the streams that ended with it.
pub struct AbandonedChild {
    pub error: String,
    pub error_code: String,
    pub generations: Vec<u64>,
}

/// A child reaches nothing that was not delegated to it, and uses no tool that its parent does not
/// have.
pub proof fn law_children_stay_within_their_scope(
    before: AiRuntimeContextEntity,
    after: AiRuntimeContextEntity,
    generation: u64,
    session: u64,
    targets: Seq<u64>,
    key: u64,
    tools: Seq<Seq<char>>,
    scope: Seq<Seq<char>>,
    tool: Seq<char>,
)
    requires
        after.child_session_opened(before, generation, session, targets),
    ensures
        after.permits(session, key) ==> targets.contains(key),
        within_scope(tools, scope).contains(tool) ==> tools.contains(tool) && scope.contains(tool),
{
    lemma_within_scope(tools, scope, tool);
}

proof fn lemma_within_scope(tools: Seq<Seq<char>>, scope: Seq<Seq<char>>, tool: Seq<char>)
    ensures
        within_scope(tools, scope).contains(tool) ==> tools.contains(tool) && scope.contains(tool),
    decreases tools.len(),
{
    if tools.len() > 0 && within_scope(tools, scope).contains(tool) {
        let rest = within_scope(tools.drop_last(), scope);
        lemma_within_scope(tools.drop_last(), scope, tool);
        let i = choose|i: int| 0 <= i < within_scope(tools, scope).len() && within_scope(tools, scope)[i] == tool;
        if scope.contains(tools.last()) {
            if i < rest.len() {
                assert(rest[i] == tool);
                assert(rest.contains(tool));
            } else {
                assert(tool == tools.last());
                assert(tools[tools.len() - 1] == tool);
            }
        }
        if tools.drop_last().contains(tool) {
            let j = choose|j: int| 0 <= j < tools.drop_last().len() && tools.drop_last()[j] == tool;
            assert(tools[j] == tool);
        }
    }
}

} // verus!
