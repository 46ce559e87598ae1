//! What the chat shows of agents.

use vstd::prelude::*;

use crate::ai::messages::{AiChatMessage, AiChatRole};
use crate::ai::models::{enabled_models, list_models, models_view, AgentModel};
use crate::ai_state::agent_records::{can_count, counted_up};
use crate::ai_state::entity::{AiAgentWorkspace, AiWorkspaceEntity};
use crate::ai_state::model::{
    AgentConversationOptions, AgentRecord, AgentRunRef, AgentSnapshot, AgentState, AgentUsage,
    OwnedResource, OwnedResourceKind, OwnedResourceState,
};
use crate::text;
use crate::workspace::agent_groups::{
    are_rows, latest_runs, started_by, state_key, state_label,
};
use crate::workspace::app::WorkspaceApp;

verus! {

#[derive(Clone, Copy, PartialEq, Eq, Structural, Debug)]
pub enum RowIcon {
    Check,
    Warning,
    Loader,
    Clock,
}

/// A resource of a run, with the key of the text that names its state.
pub struct ResourceLine {
    pub label: String,
    pub status: String,
}

/// One run of a group.
pub struct AgentRow {
    pub run_id: String,
    pub title: String,
    pub status: String,
    pub summary: String,
    pub targets: String,
    pub icon: RowIcon,
    pub resources: Vec<ResourceLine>,
    pub can_stop: bool,
}

/// The runs that a message started. A closed group has no rows.
pub struct AgentGroupView {
    pub group_id: String,
    pub can_stop_all: bool,
    pub done: usize,
    pub running: usize,
    pub total: usize,
    pub expanded: bool,
    pub parent_usage: AgentUsage,
    pub child_usages: Vec<AgentUsage>,
    pub rows: Vec<AgentRow>,
}

pub open spec fn row_icon(state: AgentState) -> RowIcon {
    match state {
        AgentState::Completed => RowIcon::Check,
        AgentState::Failed => RowIcon::Warning,
        AgentState::Running => RowIcon::Loader,
        _ => RowIcon::Clock,
    }
}

/// What a row says: the result where there is one, otherwise how far the run is.
pub open spec fn row_summary(snapshot: AgentSnapshot) -> Seq<char> {
    if snapshot.result_summary is Some && snapshot.result_summary->0@.len() > 0 {
        snapshot.result_summary->0@
    } else {
        snapshot.progress@
    }
}

/// The key of the text that names the state of a resource.
pub open spec fn resource_key(kind: OwnedResourceKind, state: OwnedResourceState) -> Seq<char> {
    match state {
        OwnedResourceState::Running => if kind == OwnedResourceKind::TerminalCommand {
            "settings_view.ai.remote_running"@
        } else {
            "settings_view.ai.waiting_condition"@
        },
        OwnedResourceState::Completed => "settings_view.ai.resource_completed"@,
        OwnedResourceState::Stopped => "settings_view.ai.resource_stopped"@,
        OwnedResourceState::OutcomeUnknown => "settings_view.ai.resource_unknown"@,
    }
}

/// Whether a row names a resource: an observation only while it runs.
pub open spec fn is_named(resource: OwnedResource) -> bool {
    resource.kind != OwnedResourceKind::Observation || resource.state == OwnedResourceState::Running
}

pub open spec fn resource_lines(resources: Seq<OwnedResource>) -> Seq<(Seq<char>, Seq<char>)>
    decreases resources.len(),
{
    if resources.len() == 0 {
        Seq::empty()
    } else {
        let earlier = resource_lines(resources.drop_last());
        let resource = resources.last();
        if is_named(resource) {
            earlier.push((resource.label@, resource_key(resource.kind, resource.state)))
        } else {
            earlier
        }
    }
}

pub open spec fn lines_view(lines: Seq<ResourceLine>) -> Seq<(Seq<char>, Seq<char>)> {
    lines.map_values(|line: ResourceLine| (line.label@, line.status@))
}

fn name_resources(resources: &Vec<OwnedResource>) -> (res: Vec<ResourceLine>)
    ensures
        lines_view(res@) == resource_lines(resources@),
{
    let mut lines: Vec<ResourceLine> = Vec::new();
    let mut at: usize = 0;
    assert(resources@.take(0) =~= Seq::<OwnedResource>::empty());
    assert(lines_view(lines@) =~= Seq::<(Seq<char>, Seq<char>)>::empty());
    while at < resources.len()
        invariant
            at <= resources.len(),
            lines_view(lines@) == resource_lines(resources@.take(at as int)),
        decreases resources.len() - at,
    {
        let resource = &resources[at];
        assert(resources@.take(at + 1).drop_last() =~= resources@.take(at as int));
        if resource.kind != OwnedResourceKind::Observation || resource.state
            == OwnedResourceState::Running {
            let status = match resource.state {
                OwnedResourceState::Running => if resource.kind
                    == OwnedResourceKind::TerminalCommand {
                    "settings_view.ai.remote_running"
                } else {
                    "settings_view.ai.waiting_condition"
                },
                OwnedResourceState::Completed => "settings_view.ai.resource_completed",
                OwnedResourceState::Stopped => "settings_view.ai.resource_stopped",
                OwnedResourceState::OutcomeUnknown => "settings_view.ai.resource_unknown",
            };
            let ghost before = lines@;
            lines.push(ResourceLine { label: resource.label.clone(), status: status.to_owned() });
            assert(lines_view(lines@) =~= lines_view(before).push(
                (resource.label@, resource_key(resource.kind, resource.state)),
            ));
        }
        at = at + 1;
    }
    assert(resources@.take(at as int) =~= resources@);
    lines
}

/// The row of a run.
pub open spec fn is_row(row: AgentRow, record: AgentRecord) -> bool {
    let snapshot = record.snapshot;
    &&& row.run_id@ == snapshot.run.run_id@
    &&& row.title@ == snapshot.title@
    &&& row.status@ == state_key(snapshot.state)
    &&& row.summary@ == row_summary(snapshot)
    &&& row.targets@ == text::chained(text::seq_view(record.target_labels@), ", "@)
    &&& row.icon == row_icon(snapshot.state)
    &&& lines_view(row.resources@) == resource_lines(snapshot.resources@)
    &&& row.can_stop == !snapshot.state.ended()
}

fn make_row(record: &AgentRecord) -> (res: AgentRow)
    ensures
        is_row(res, *record),
{
    let snapshot = &record.snapshot;
    let summary = match &snapshot.result_summary {
        Some(summary) => if summary.as_str().is_empty() {
            snapshot.progress.clone()
        } else {
            summary.clone()
        },
        None => snapshot.progress.clone(),
    };
    AgentRow {
        run_id: snapshot.run.run_id.clone(),
        title: snapshot.title.clone(),
        status: state_label(snapshot.state).to_owned(),
        summary,
        targets: text::chain(&record.target_labels, ", "),
        icon: match snapshot.state {
            AgentState::Completed => RowIcon::Check,
            AgentState::Failed => RowIcon::Warning,
            AgentState::Running => RowIcon::Loader,
            _ => RowIcon::Clock,
        },
        resources: name_resources(&snapshot.resources),
        can_stop: !snapshot.state.is_terminal(),
    }
}

/// How many of the listed runs are in a state.
pub open spec fn count_in(rows: Seq<usize>, entries: Seq<(String, AgentRecord)>, state: AgentState) -> nat
    decreases rows.len(),
{
    if rows.len() == 0 {
        0
    } else {
        count_in(rows.drop_last(), entries, state) + if entries[rows.last() as int].1.snapshot.state
            == state {
            1nat
        } else {
            0nat
        }
    }
}

/// Whether some listed run goes on.
pub open spec fn any_active(rows: Seq<usize>, entries: Seq<(String, AgentRecord)>) -> bool {
    exists|r: int|
        0 <= r < rows.len() && !entries[(#[trigger] rows[r]) as int].1.snapshot.state.ended()
}

/// What the runs that a message started have used, each for itself.
pub open spec fn usages_for(entries: Seq<(String, AgentRecord)>, message: Seq<char>) -> Seq<AgentUsage>
    decreases entries.len(),
{
    if entries.len() == 0 {
        Seq::empty()
    } else {
        let earlier = usages_for(entries.drop_last(), message);
        let record = entries.last().1;
        if started_by(record, message) {
            earlier.push(record.snapshot.usage)
        } else {
            earlier
        }
    }
}

/// What the newest record of a message says that its parent used.
pub open spec fn is_parent_usage(usage: AgentUsage, entries: Seq<(String, AgentRecord)>, message: Seq<char>) -> bool {
    exists|i: int|
        {
            &&& 0 <= i < entries.len()
            &&& started_by((#[trigger] entries[i]).1, message)
            &&& entries[i].1.parent_usage == usage
            &&& forall|j: int|
                0 <= j < entries.len() && started_by((#[trigger] entries[j]).1, message)
                    ==> entries[j].1.revision <= entries[i].1.revision
        }
}

fn group_usages(entries: &Vec<(String, AgentRecord)>, message: &str) -> (res: (Option<AgentUsage>, Vec<AgentUsage>))
    ensures
        ({
            let (parent, children) = res;
            &&& children@ == usages_for(entries@, message@)
            &&& match parent {
                Some(usage) => is_parent_usage(usage, entries@, message@),
                None => forall|i: int|
                    0 <= i < entries@.len() ==> !started_by((#[trigger] entries@[i]).1, message@),
            }
        }),
{
    let mut newest: Option<usize> = None;
    let mut children: Vec<AgentUsage> = Vec::new();
    let mut at: usize = 0;
    assert(entries@.take(0) =~= Seq::<(String, AgentRecord)>::empty());
    while at < entries.len()
        invariant
            at <= entries.len(),
            children@ == usages_for(entries@.take(at as int), message@),
            match newest {
                Some(i) => {
                    &&& i < at
                    &&& started_by(entries@[i as int].1, message@)
                    &&& forall|j: int|
                        0 <= j < at && started_by((#[trigger] entries@[j]).1, message@)
                            ==> entries@[j].1.revision <= entries@[i as int].1.revision
                },
                None => forall|j: int|
                    0 <= j < at ==> !started_by((#[trigger] entries@[j]).1, message@),
            },
        decreases entries.len() - at,
    {
        assert(entries@.take(at + 1).drop_last() =~= entries@.take(at as int));
        let record = &entries[at].1;
        if text::same(record.parent_message_id.as_str(), message) {
            children.push(record.snapshot.usage);
            newest = match newest {
                Some(i) => if entries[i].1.revision <= record.revision {
                    Some(at)
                } else {
                    Some(i)
                },
                None => Some(at),
            };
        }
        at = at + 1;
    }
    assert(entries@.take(at as int) =~= entries@);
    let parent = match newest {
        Some(i) => {
            assert(started_by(entries@[i as int].1, message@));
            Some(entries[i].1.parent_usage)
        },
        None => None,
    };
    (parent, children)
}

/// The group of the runs that a message started.
pub open spec fn is_group(view: AgentGroupView, rows: Seq<usize>, agents: AiAgentWorkspace, message: Seq<char>) -> bool {
    let entries = agents.records.entries@;
    let group = entries[rows[0] as int].1.snapshot.run.group_id@;
    &&& view.group_id@ == group
    &&& view.can_stop_all == any_active(rows, entries)
    &&& view.done == count_in(rows, entries, AgentState::Completed)
    &&& view.running == count_in(rows, entries, AgentState::Running)
    &&& view.total == rows.len()
    &&& view.expanded == (agents.expanded_groups@.dom().contains(group)
        && agents.expanded_groups@[group])
    &&& is_parent_usage(view.parent_usage, entries, message)
    &&& view.child_usages@ == usages_for(entries, message)
    &&& if view.expanded {
        &&& view.rows@.len() == rows.len()
        &&& forall|r: int|
            0 <= r < rows.len() ==> is_row(
                #[trigger] view.rows@[r],
                entries[rows[r] as int].1,
            )
    } else {
        view.rows@.len() == 0
    }
}

fn count_rows(rows: &Vec<usize>, entries: &Vec<(String, AgentRecord)>, state: AgentState) -> (res: usize)
    requires
        forall|r: int| 0 <= r < rows@.len() ==> (#[trigger] rows@[r]) < entries@.len(),
    ensures
        res == count_in(rows@, entries@, state),
        res <= rows@.len(),
{
    let mut count: usize = 0;
    let mut at: usize = 0;
    assert(rows@.take(0) =~= Seq::<usize>::empty());
    while at < rows.len()
        invariant
            at <= rows.len(),
            count <= at,
            forall|r: int| 0 <= r < rows@.len() ==> (#[trigger] rows@[r]) < entries@.len(),
            count == count_in(rows@.take(at as int), entries@, state),
        decreases rows.len() - at,
    {
        assert(rows@.take(at + 1).drop_last() =~= rows@.take(at as int));
        if entries[rows[at]].1.snapshot.state == state {
            count = count + 1;
        }
        at = at + 1;
    }
    assert(rows@.take(at as int) =~= rows@);
    count
}

fn goes_on(rows: &Vec<usize>, entries: &Vec<(String, AgentRecord)>) -> (res: bool)
    requires
        forall|r: int| 0 <= r < rows@.len() ==> (#[trigger] rows@[r]) < entries@.len(),
    ensures
        res == any_active(rows@, entries@),
{
    let mut at: usize = 0;
    while at < rows.len()
        invariant
            at <= rows.len(),
            forall|r: int| 0 <= r < rows@.len() ==> (#[trigger] rows@[r]) < entries@.len(),
            forall|r: int|
                0 <= r < at ==> entries@[(#[trigger] rows@[r]) as int].1.snapshot.state.ended(),
        decreases rows.len() - at,
    {
        if !entries[rows[at]].1.snapshot.state.is_terminal() {
            assert(!entries@[rows@[at as int] as int].1.snapshot.state.ended());
            return true;
        }
        at = at + 1;
    }
    false
}

/// Options with another model for new agents.
pub open spec fn with_model(options: AgentConversationOptions, model: Option<AgentModel>) -> AgentConversationOptions {
    AgentConversationOptions { default_model: model, ..options }
}

impl WorkspaceApp {
    /// The key of the text that names a state.
    pub fn agent_state_label(&self, state: AgentState) -> (res: &'static str)
        ensures
            res@ == state_key(state),
    {
        state_label(state)
    }

    /// The models that an agent may be given.
    pub fn configured_agent_models(&self) -> (res: Vec<AgentModel>)
        ensures
            models_view(res@) == enabled_models(self.ai_settings.providers@),
    {
        list_models(&self.ai_settings.providers)
    }

    /// How many agents may run at once: what the user said, within the limits.
    pub open spec fn concurrency(self) -> int {
        let wanted = match self.ai_settings.agent_concurrency {
            Some(value) => (value as usize) as int,
            None => self.ai_settings.default_agent_concurrency as int,
        };
        if wanted < 1 {
            1
        } else if wanted > self.ai_settings.max_agent_concurrency {
            self.ai_settings.max_agent_concurrency as int
        } else {
            wanted
        }
    }

    pub fn agent_concurrency(&self) -> (res: usize)
        requires
            self.ai_settings.max_agent_concurrency >= 1,
        ensures
            res == self.concurrency(),
    {
        let wanted: usize = match self.ai_settings.agent_concurrency {
            Some(value) => value as usize,
            None => self.ai_settings.default_agent_concurrency,
        };
        if wanted < 1 {
            1
        } else if wanted > self.ai_settings.max_agent_concurrency {
            self.ai_settings.max_agent_concurrency
        } else {
            wanted
        }
    }

    /// The message that shows a text of an agent.
    pub fn render_agent_markdown(&self, id: String, content: &str) -> (res: AiChatMessage)
        ensures
            res.is_plain(id@, AiChatRole::Assistant, content@, 0),
    {
        AiChatMessage::plain(id, AiChatRole::Assistant, content.to_owned(), 0)
    }

    /// The run whose queued model the runtime is asked to change.
    pub fn queued_model_target(&self, target: &Option<String>, model: &Option<AgentModel>) -> (res: Option<AgentRunRef>)
        requires
            self.ai_entity.wf(),
        ensures
            match res {
                Some(run) => {
                    &&& target is Some && model is Some
                    &&& self.ai_entity.agents.records@.dom().contains(target->0@)
                    &&& run == self.ai_entity.agents.records@[target->0@].snapshot.run
                },
                None => target is None || model is None
                    || !self.ai_entity.agents.records@.dom().contains(target->0@),
            },
    {
        match (target, model) {
            (Some(id), Some(_)) => match self.ai_entity.agents.records.get(id) {
                Some(record) => Some(record.snapshot.run.duplicate()),
                None => None,
            },
            _ => None,
        }
    }

    /// Both lists of models are closed.
    pub open spec fn pickers_closed(ai: AiWorkspaceEntity) -> AiWorkspaceEntity {
        AiWorkspaceEntity {
            agents: AiAgentWorkspace {
                model_picker_open: false,
                settings_model_picker_open: false,
                ..ai.agents
            },
            ..ai
        }
    }

    /// The user chose a model: for a queued run, or for the agents that the shown conversation will
    /// start. `accepted` is what the runtime said to the change of the queued run. Says whether
    /// anything changed.
    pub fn select_agent_model(&mut self, target: Option<String>, model: Option<AgentModel>, accepted: bool) -> (res: bool)
        requires
            old(self).ai_entity.wf(),
        ensures
            final(self).ai_entity.wf(),
            *final(self) == (WorkspaceApp { ai_entity: final(self).ai_entity, ..*old(self) }),
            match target {
                Some(id) => {
                    &&& res == (accepted && model is Some
                        && old(self).ai_entity.agents.records@.dom().contains(id@))
                    &&& final(self).ai_entity == Self::pickers_closed(old(self).ai_entity)
                },
                None => match old(self).ai_entity.conversation_state.active_conversation_id {
                    Some(id) => {
                        &&& res
                        &&& exists|set: AiWorkspaceEntity|
                            {
                                &&& #[trigger] set.options_set(
                                    old(self).ai_entity,
                                    id@,
                                    with_model(old(self).ai_entity.options_of(id@), model),
                                )
                                &&& final(self).ai_entity == Self::pickers_closed(set)
                            }
                    },
                    None => {
                        &&& !res
                        &&& final(self).ai_entity == Self::pickers_closed(old(self).ai_entity)
                    },
                },
            },
    {
        let changed = match target {
            Some(id) => accepted && model.is_some() && self.ai_entity.agents.records.contains(&id),
            None => {
                let active = match &self.ai_entity.conversation_state.active_conversation_id {
                    Some(id) => Some(id.clone()),
                    None => None,
                };
                match active {
                    Some(id) => {
                        let mut options = self.ai_entity.agent_options(id.as_str());
                        options.default_model = model;
                        self.ai_entity.set_agent_options(id.as_str(), options);
                        true
                    },
                    None => false,
                }
            },
        };
        let ghost set = self.ai_entity;
        self.ai_entity.agents.model_picker_open = false;
        self.ai_entity.agents.settings_model_picker_open = false;
        proof {
            if target is None
                && old(self).ai_entity.conversation_state.active_conversation_id is Some {
                let id = old(self).ai_entity.conversation_state.active_conversation_id->0@;
                assert(set.options_set(
                    old(self).ai_entity,
                    id,
                    with_model(old(self).ai_entity.options_of(id), model),
                ));
            }
        }
        changed
    }

    /// The user allows or forbids agents in a conversation.
    pub fn toggle_conversation_agents(&mut self, conversation: &str)
        requires
            old(self).ai_entity.wf(),
        ensures
            final(self).ai_entity.wf(),
            *final(self) == (WorkspaceApp { ai_entity: final(self).ai_entity, ..*old(self) }),
            ({
                let options = old(self).ai_entity.options_of(conversation@);
                final(self).ai_entity.options_set(
                    old(self).ai_entity,
                    conversation@,
                    AgentConversationOptions { enabled: !options.enabled, ..options },
                )
            }),
    {
        let mut options = self.ai_entity.agent_options(conversation);
        options.enabled = !options.enabled;
        self.ai_entity.set_agent_options(conversation, options);
    }

    /// The user opens or closes a group of runs.
    pub fn toggle_agent_group(&mut self, group: String, parent_message: &String, expanded: bool)
        requires
            old(self).ai_entity.wf(),
            can_count(old(self).ai_entity.agents.parent_revisions@, parent_message@),
        ensures
            final(self).ai_entity.wf(),
            *final(self) == (WorkspaceApp {
                ai_entity: AiWorkspaceEntity {
                    agents: AiAgentWorkspace {
                        expanded_groups: final(self).ai_entity.agents.expanded_groups,
                        parent_revisions: final(self).ai_entity.agents.parent_revisions,
                        ..old(self).ai_entity.agents
                    },
                    ..old(self).ai_entity
                },
                ..*old(self)
            }),
            final(self).ai_entity.agents.expanded_groups@
                == old(self).ai_entity.agents.expanded_groups@.insert(group@, !expanded),
            final(self).ai_entity.agents.parent_revisions@ == counted_up(
                old(self).ai_entity.agents.parent_revisions@,
                parent_message@,
            ),
    {
        self.ai_entity.agents.expanded_groups.insert(group, !expanded);
        self.ai_entity.count_parent(parent_message);
    }

    /// The runs that a message started, as the chat shows them.
    pub fn render_ai_agent_group(&self, message_id: &str) -> (res: Option<AgentGroupView>)
        requires
            self.ai_entity.wf(),
        ensures
            ({
                let entries = self.ai_entity.agents.records.entries@;
                match res {
                    Some(view) => exists|rows: Seq<usize>|
                        {
                            &&& #[trigger] are_rows(rows, entries, message_id@)
                            &&& rows.len() > 0
                            &&& is_group(view, rows, self.ai_entity.agents, message_id@)
                        },
                    None => forall|i: int|
                        0 <= i < entries.len() ==> !started_by(
                            (#[trigger] entries[i]).1,
                            message_id@,
                        ),
                }
            }),
    {
        let agents = &self.ai_entity.agents;
        let entries = &agents.records.entries;
        let rows = latest_runs(&agents.records, message_id);
        if rows.len() == 0 {
            return None;
        }
        proof {
            assert forall|r: int| 0 <= r < rows@.len() implies (#[trigger] rows@[r]) < entries@.len() by {
                assert(crate::workspace::agent_groups::is_latest(
                    entries@,
                    entries@.len() as int,
                    message_id@,
                    rows@[r] as int,
                ));
            }
        }
        let (parent, child_usages) = group_usages(entries, message_id);
        let parent_usage = match parent {
            Some(usage) => usage,
            None => {
                assert(started_by(entries@[rows@[0] as int].1, message_id@));
                return None;
            },
        };
        let group_id = entries[rows[0]].1.snapshot.run.group_id.clone();
        let expanded = match agents.expanded_groups.get(&group_id) {
            Some(expanded) => *expanded,
            None => false,
        };
        let mut lines: Vec<AgentRow> = Vec::new();
        if expanded {
            let mut at: usize = 0;
            while at < rows.len()
                invariant
                    at <= rows.len(),
                    lines@.len() == at,
                    forall|r: int| 0 <= r < rows@.len() ==> (#[trigger] rows@[r]) < entries@.len(),
                    forall|r: int|
                        0 <= r < at ==> is_row(#[trigger] lines@[r], entries@[rows@[r] as int].1),
                decreases rows.len() - at,
            {
                lines.push(make_row(&entries[rows[at]].1));
                at = at + 1;
            }
        }
        let view = AgentGroupView {
            group_id,
            can_stop_all: goes_on(&rows, entries),
            done: count_rows(&rows, entries, AgentState::Completed),
            running: count_rows(&rows, entries, AgentState::Running),
            total: rows.len(),
            expanded,
            parent_usage,
            child_usages,
            rows: lines,
        };
        assert(is_group(view, rows@, *agents, message_id@));
        Some(view)
    }
}

} // verus!
