//! Agents at work, as the workspace starts and shows them.

use vstd::prelude::*;

use crate::ai::agent_commands::not_disabled;
use crate::ai::models::AgentModel;
use crate::ai_state::compaction::{CompactionLoad, CompactionRefused, SummaryConfig};
use crate::ai_state::entity::AiWorkspaceEntity;
use crate::ai_state::model::{AgentRecord, AgentState, AgentUsage};
use crate::text;
use crate::workspace::agent_detail::{AgentDetailView, DetailNotice};
use crate::workspace::agent_groups::{agent_usage_label, latest_runs, state_label};
use crate::workspace::agent_launch::{AgentAttention, GroupConfig, GroupPlan, RoundLimits};
use crate::workspace::agent_settings::{LimitChoice, ModelChoice};
use crate::workspace::agent_views::{AgentGroupView, AgentRow, RowIcon};
use crate::workspace::app::WorkspaceApp;
use crate::workspace::host_tools::{on_drained, on_wake, HostToolsEntity, SamplerDrain, WakeStep};
use crate::workspace::labels::Label;
use crate::workspace::monitor_charts::{
    monitor_usage_source, strokes, time_axis, usage_source, ChartSample, MonitorMetricKind,
    ResourceReadings, Stroke, TimeAxis, UsageSource,
};

verus! {

/// A run has ended once it completed, failed, was cancelled or was interrupted, and not before.
pub proof fn law_runs_end_in_four_ways(state: AgentState, res: bool)
    requires
        call_ensures(AgentState::is_terminal, (state,), res),
    ensures
        state == AgentState::Completed ==> res,
        state == AgentState::Failed ==> res,
        state == AgentState::Cancelled ==> res,
        state == AgentState::Interrupted ==> res,
        state == AgentState::Queued || state == AgentState::Running || state
            == AgentState::AwaitingApproval || state == AgentState::AwaitingParent || state
            == AgentState::AwaitingResource || state == AgentState::AwaitingCondition || state
            == AgentState::AwaitingUser || state == AgentState::AwaitingConnection || state
            == AgentState::Replanning || state == AgentState::Stopping ==> !res,
{
}

/// Each state has its words.
pub proof fn law_states_have_words(state: AgentState, res: &'static str)
    requires
        call_ensures(state_label, (state,), res),
    ensures
        state == AgentState::Queued ==> res@ == "ai.agents.queued"@,
        state == AgentState::Running ==> res@ == "ai.agents.running"@,
        state == AgentState::AwaitingApproval ==> res@ == "ai.agents.approval"@,
        state == AgentState::AwaitingParent ==> res@ == "ai.agents.reply"@,
        state == AgentState::AwaitingResource ==> res@ == "ai.agents.resource"@,
        state == AgentState::AwaitingCondition ==> res@ == "settings_view.ai.waiting_condition"@,
        state == AgentState::AwaitingUser ==> res@ == "settings_view.ai.waiting_user"@,
        state == AgentState::AwaitingConnection ==> res@ == "settings_view.ai.waiting_connection"@,
        state == AgentState::Replanning ==> res@ == "settings_view.ai.replanning"@,
        state == AgentState::Stopping ==> res@ == "ai.agents.stopping"@,
        state == AgentState::Completed ==> res@ == "ai.agents.completed"@,
        state == AgentState::Failed ==> res@ == "ai.agents.failed"@,
        state == AgentState::Cancelled ==> res@ == "ai.agents.cancelled"@,
        state == AgentState::Interrupted ==> res@ == "ai.agents.interrupted"@,
{
}

/// What a run used is told where both numbers are known, each under its name.
pub proof fn law_usage_is_told_where_it_is_known(usage: AgentUsage, res: Label)
    requires
        call_ensures(agent_usage_label, (usage,), res),
    ensures
        usage.input_tokens is None || usage.output_tokens is None ==> res@.key
            == "ai.agents.usage_unknown"@ && res@.values.len() == 0,
        usage.input_tokens is Some && usage.output_tokens is Some ==> {
            &&& res@.key == "ai.agents.usage"@
            &&& res@.values.len() == 2
            &&& res@.values[0] == ("input"@, text::decimal(usage.input_tokens->0 as nat))
            &&& res@.values[1] == ("output"@, text::decimal(usage.output_tokens->0 as nat))
        },
{
}

/// How many agents run at once lies between one and the limit, and is what was chosen where that lies
/// there.
pub proof fn law_agents_at_once_are_bounded(app: &WorkspaceApp, res: usize)
    requires
        call_ensures(WorkspaceApp::agent_concurrency, (app,), res),
        app.ai_settings.max_agent_concurrency >= 1,
    ensures
        1 <= res <= app.ai_settings.max_agent_concurrency,
        app.ai_settings.agent_concurrency matches Some(wanted) ==> wanted <= u32::MAX ==> {
            &&& 1 <= wanted <= app.ai_settings.max_agent_concurrency ==> res == wanted
            &&& wanted < 1 ==> res == 1
            &&& wanted > app.ai_settings.max_agent_concurrency ==> res
                == app.ai_settings.max_agent_concurrency
        },
        app.ai_settings.agent_concurrency is None && 1 <= app.ai_settings.default_agent_concurrency
            <= app.ai_settings.max_agent_concurrency ==> res
            == app.ai_settings.default_agent_concurrency,
{
}

/// Every number up to the limit is offered, and the one in use is marked.
pub proof fn law_limits_are_offered_in_order(app: &WorkspaceApp, res: Vec<LimitChoice>, at: int, now: usize)
    requires
        call_ensures(WorkspaceApp::render_ai_agent_concurrency_setting, (app,), res),
        call_ensures(WorkspaceApp::agent_concurrency, (app,), now),
        0 <= at < app.ai_settings.max_agent_concurrency,
    ensures
        res@.len() == app.ai_settings.max_agent_concurrency,
        res@[at].limit == at + 1,
        res@[at].selected <==> now == at + 1,
{
}

/// A group gets the tools of its parent that were not switched off, and as many rounds as were asked
/// for, within the limits.
pub proof fn law_groups_are_planned_within_limits(
    app: &WorkspaceApp,
    conversation: &str,
    config: &GroupConfig,
    limits: RoundLimits,
    res: GroupPlan,
    tool: Seq<char>,
)
    requires
        call_ensures(
            WorkspaceApp::plan_ai_agent_group,
            (app, conversation, config, limits),
            res,
        ),
        limits.min_rounds <= limits.max_rounds,
    ensures
        limits.min_rounds <= res.max_rounds <= limits.max_rounds,
        config.max_rounds matches Some(rounds) ==> (limits.min_rounds <= rounds
            <= limits.max_rounds ==> res.max_rounds == rounds) && (rounds < limits.min_rounds
            ==> res.max_rounds == limits.min_rounds) && (rounds > limits.max_rounds
            ==> res.max_rounds == limits.max_rounds),
        config.max_rounds is None && limits.min_rounds <= limits.default_rounds <= limits.max_rounds
            ==> res.max_rounds == limits.default_rounds,
        !config.tools_enabled ==> !res.offers_agents,
        res.model.model@ == config.model@,
        config.provider_id is Some ==> res.model.provider_id@ == config.provider_id->0@,
        text::seq_view(res.scope_tools@).contains(tool) <==> text::seq_view(
            config.tools@,
        ).contains(tool) && !text::seq_view(config.disabled_tools@).contains(tool),
{
    lemma_not_disabled(text::seq_view(config.tools@), text::seq_view(config.disabled_tools@), tool);
}

proof fn lemma_not_disabled(tools: Seq<Seq<char>>, disabled: Seq<Seq<char>>, tool: Seq<char>)
    ensures
        not_disabled(tools, disabled).contains(tool) <==> tools.contains(tool)
            && !disabled.contains(tool),
    decreases tools.len(),
{
    if tools.len() > 0 {
        let rest = tools.drop_last();
        lemma_not_disabled(rest, disabled, tool);
        let kept = not_disabled(rest, disabled);
        let all = not_disabled(tools, disabled);
        assert(tools =~= rest.push(tools.last()));
        if tools.contains(tool) && tool != tools.last() {
            let i = choose|i: int| 0 <= i < tools.len() && tools[i] == tool;
            assert(rest[i] == tool);
        }
        if rest.contains(tool) {
            let i = choose|i: int| 0 <= i < rest.len() && rest[i] == tool;
            assert(tools[i] == tool);
        }
        if tool == tools.last() {
            assert(tools[tools.len() - 1] == tool);
        }
        if kept.contains(tool) {
            let i = choose|i: int| 0 <= i < kept.len() && kept[i] == tool;
            assert(all[i] == tool);
        }
        if all.contains(tool) && tool != tools.last() {
            let i = choose|i: int| 0 <= i < all.len() && all[i] == tool;
            assert(kept[i] == tool);
        }
        if !disabled.contains(tools.last()) {
            assert(all.last() == tools.last());
            assert(all[all.len() - 1] == tools.last());
        }
    }
}

/// The user is called where they do not look: at another conversation, or at another run.
pub proof fn law_the_user_is_called_where_they_do_not_look(
    ai: &AiWorkspaceEntity,
    conversation: &str,
    message: &str,
    label: &str,
    res: Option<AgentAttention>,
)
    requires
        call_ensures(AiWorkspaceEntity::agent_attention, (ai, conversation, message, label), res),
    ensures
        ai.conversation_state.active_conversation_id is None
            || ai.conversation_state.active_conversation_id->0@ != conversation@ ==> res is Some,
        ai.conversation_state.active_conversation_id is Some
            && ai.conversation_state.active_conversation_id->0@ == conversation@
            && !ai.agents.message_runs@.dom().contains(message@) ==> res is None,
        ai.agents.message_runs@.dom().contains(message@) && ai.agents.records@.dom().contains(
            ai.agents.message_runs@[message@].run@,
        ) && ai.agents.detail is None ==> res is Some,
        res matches Some(notice) ==> notice.label@ == label@ && notice.dedupe_key@
            == "agent-attention:"@ + conversation@ + ":"@ + message@ + ":"@ + label@,
{
}

/// Of the runs that a message started the last of each agent is shown, once, the first agents first.
pub proof fn law_the_last_runs_of_a_message_are_shown(
    records: &crate::table::Table<String, AgentRecord>,
    message: &str,
    res: Vec<usize>,
    at: int,
)
    requires
        call_ensures(latest_runs, (records, message), res),
        0 <= at < records.entries@.len(),
    ensures
        ({
            let record = records.entries@[at].1;
            let listed = exists|r: int|
                0 <= r < res@.len() && (#[trigger] res@[r]) == at;
            &&& listed ==> record.parent_message_id@ == message@
            &&& record.parent_message_id@ == message@ ==> exists|r: int|
                {
                    &&& 0 <= r < res@.len()
                    &&& records.entries@[(#[trigger] res@[r]) as int].1.snapshot.run.agent_id@
                        == record.snapshot.run.agent_id@
                    &&& records.entries@[res@[r] as int].1.created_at_ms >= record.created_at_ms
                }
        }),
        forall|r: int, s: int|
            0 <= r < s < res@.len() ==> {
                let first = records.entries@[(#[trigger] res@[r]) as int].1;
                let second = records.entries@[(#[trigger] res@[s]) as int].1;
                &&& first.snapshot.run.agent_id@ != second.snapshot.run.agent_id@
                &&& first.created_at_ms <= second.created_at_ms
            },
{
    let entries = records.entries@;
    let record = entries[at].1;
    if record.parent_message_id@ == message@ {
        assert(crate::workspace::agent_groups::started_by(entries[at].1, message@));
        let r = choose|r: int|
            0 <= r < res@.len() && crate::workspace::agent_groups::same_agent(
                entries[at].1,
                entries[(#[trigger] res@[r]) as int].1,
            );
        assert(crate::workspace::agent_groups::is_latest(
            entries,
            entries.len() as int,
            message@,
            res@[r] as int,
        ));
        assert(records.entries@[res@[r] as int].1.created_at_ms >= record.created_at_ms);
    }
    if exists|r: int| 0 <= r < res@.len() && (#[trigger] res@[r]) == at {
        let r = choose|r: int| 0 <= r < res@.len() && (#[trigger] res@[r]) == at;
        assert(crate::workspace::agent_groups::is_latest(
            entries,
            entries.len() as int,
            message@,
            res@[r] as int,
        ));
    }
}

/// Where no group is shown the message started no run.
pub proof fn law_groups_are_shown_where_there_are_runs(app: &WorkspaceApp, message: &str, at: int)
    requires
        call_ensures(WorkspaceApp::render_ai_agent_group, (app, message), None),
        0 <= at < app.ai_entity.agents.records.entries@.len(),
    ensures
        app.ai_entity.agents.records.entries@[at].1.parent_message_id@ != message@,
{
    assert(!crate::workspace::agent_groups::started_by(
        app.ai_entity.agents.records.entries@[at].1,
        message@,
    ));
}

proof fn lemma_row(row: AgentRow, record: AgentRecord)
    requires
        crate::workspace::agent_views::is_row(row, record),
    ensures
        row.icon == RowIcon::Check || row.icon == RowIcon::Warning ==> !row.can_stop,
        row.icon == RowIcon::Loader ==> row.can_stop,
{
}

/// A group has an agent, shows a row for each where it is open and none where it is not; a run with a
/// tick or a warning has ended, and one with a spinner can be stopped.
#[verifier::rlimit(40)]
pub proof fn law_open_groups_show_their_agents(app: &WorkspaceApp, message: &str, view: AgentGroupView, at: int)
    requires
        call_ensures(WorkspaceApp::render_ai_agent_group, (app, message), Some(view)),
        app.ai_entity.wf(),
    ensures
        view.total >= 1,
        view.expanded <==> app.ai_entity.agents.expanded_groups@.dom().contains(view.group_id@)
            && app.ai_entity.agents.expanded_groups@[view.group_id@],
        view.expanded ==> view.rows@.len() == view.total,
        !view.expanded ==> view.rows@.len() == 0,
        0 <= at < view.rows@.len() ==> {
            let row = view.rows@[at];
            &&& row.icon == RowIcon::Check || row.icon == RowIcon::Warning ==> !row.can_stop
            &&& row.icon == RowIcon::Loader ==> row.can_stop
        },
{
    let entries = app.ai_entity.agents.records.entries@;
    let rows = choose|rows: Seq<usize>|
        {
            &&& #[trigger] crate::workspace::agent_groups::are_rows(rows, entries, message@)
            &&& rows.len() > 0
            &&& crate::workspace::agent_views::is_group(view, rows, app.ai_entity.agents, message@)
        };
    if 0 <= at < view.rows@.len() {
        lemma_row(view.rows@[at], entries[rows[at] as int].1);
    }
}

/// A run is shown in detail as it is: it can be stopped until it has ended, and gets another model
/// only while it is queued.
pub proof fn law_details_show_the_run_as_it_is(
    app: &WorkspaceApp,
    context_open: bool,
    unreadable: &Vec<String>,
    res: Option<AgentDetailView>,
)
    requires
        call_ensures(
            WorkspaceApp::render_ai_agent_detail,
            (app, context_open, unreadable),
            res,
        ),
    ensures
        res is Some <==> app.ai_entity.agents.detail is Some
            && app.ai_entity.agents.records@.dom().contains(app.ai_entity.agents.detail->0@),
        res matches Some(view) ==> {
            let id = app.ai_entity.agents.detail->0@;
            let snapshot = app.ai_entity.agents.records@[id].snapshot;
            &&& view.run == snapshot.run
            &&& view.title@ == snapshot.title@
            &&& view.can_stop <==> snapshot.state != AgentState::Completed && snapshot.state
                != AgentState::Failed && snapshot.state != AgentState::Cancelled && snapshot.state
                != AgentState::Interrupted
            &&& view.offers_model <==> snapshot.state == AgentState::Queued
            &&& view.shows_models <==> snapshot.state == AgentState::Queued
                && app.ai_entity.agents.model_picker_open
            &&& view.notice == DetailNotice::Loading
                <==> app.ai_entity.agents.details_loading@.dom().contains(id)
            &&& view.notice == DetailNotice::Failed
                <==> !app.ai_entity.agents.details_loading@.dom().contains(id)
                && app.ai_entity.agents.detail_errors@.dom().contains(id)
            &&& view.context is Some <==> context_open
            &&& view.context matches Some(context) ==> context.model@ == snapshot.model.model@
                && context.provider_id@ == snapshot.model.provider_id@
        },
{
}

/// A model is offered by its provider and its name; without a run there is also the one that is
/// inherited, in the first place.
pub proof fn law_models_are_offered_by_name(
    app: &WorkspaceApp,
    for_run: bool,
    res: Vec<ModelChoice>,
    models: Vec<AgentModel>,
    at: int,
    place: int,
)
    requires
        call_ensures(WorkspaceApp::render_agent_model_picker, (app, for_run), res),
        call_ensures(WorkspaceApp::configured_agent_models, (app,), models),
        0 <= at < models@.len(),
        for_run ==> place == at,
        !for_run ==> place == at + 1,
    ensures
        for_run ==> res@.len() == models@.len(),
        !for_run ==> res@.len() == models@.len() + 1 && res@[0].model is None,
        res@[place].model is Some,
        res@[place].model->0.provider_id@ == models@[at].provider_id@,
        res@[place].model->0.model@ == models@[at].model@,
{
    let shown = crate::workspace::agent_settings::choices_view(res@);
    let listed = crate::ai::models::models_view(models@);
    assert(shown.len() == res@.len());
    assert(listed.len() == models@.len());
    if !for_run {
        assert(shown[0] == res@[0]@);
    }
    assert(shown[place] == res@[place]@);
    assert(listed[at] == (models@[at].provider_id@, models@[at].model@));
}

/// A conversation of six messages or more is summarised of its own accord, silently and not by force;
/// a shorter one is not.
pub proof fn law_long_conversations_are_summarised<R>(
    app: &mut WorkspaceApp,
    conversation: &str,
    config: Result<SummaryConfig, String>,
    waiter: u64,
    res: Option<Result<CompactionLoad<R>, CompactionRefused<R>>>,
    at: int,
)
    requires
        call_ensures(
            WorkspaceApp::maybe_start_ai_auto_compaction::<R>,
            (app, conversation, config, waiter),
            res,
        ),
        0 <= at < app.ai_entity.conversation_state.conversations@.len(),
        app.ai_entity.conversation_state.conversations@[at].id@ == conversation@,
        forall|j: int|
            0 <= j < at ==> (#[trigger] app.ai_entity.conversation_state.conversations@[j]).id@
                != conversation@,
    ensures
        res is Some <==> old(app).ai_entity.conversation_state.conversations@[at].message_count >= 6,
        res is None ==> *final(app) == *old(app),
        res matches Some(Ok(load)) ==> load.request.conversation_id@ == conversation@
            && load.request.silent && !load.request.force && !load.request.summary
            && load.request.resume_after is None && load.waiter == waiter,
{
    crate::ai_state::model::lemma_conversation_position(
        old(app).ai_entity.conversation_state.conversations@,
        conversation@,
        at,
    );
}

/// What the user asks for is done by force and aloud, and an error is told.
pub proof fn law_asked_for_summaries_are_forced<R>(
    app: &mut WorkspaceApp,
    config: Result<SummaryConfig, String>,
    waiter: u64,
    res: Option<Result<CompactionLoad<R>, CompactionRefused<R>>>,
    other: &mut WorkspaceApp,
    summary: Option<Result<CompactionLoad<R>, CompactionRefused<R>>>,
)
    requires
        call_ensures(
            WorkspaceApp::start_ai_compact_conversation::<R>,
            (app, config, waiter),
            res,
        ),
        call_ensures(
            WorkspaceApp::start_ai_summarize_conversation::<R>,
            (other, config, waiter),
            summary,
        ),
    ensures
        res matches Some(Ok(load)) ==> load.request.force && !load.request.silent
            && !load.request.summary && load.waiter == waiter,
        summary matches Some(Ok(load)) ==> load.request.force && !load.request.silent
            && load.request.summary && load.request.conversation_id@ == old(
            other).ai_entity.conversation_state.active_conversation_id->0@,
        summary is Some <==> old(other).ai_entity.conversation_state.active_conversation_id is Some,
        res matches Some(Err(refused)) ==> *final(app) == *old(app) && refused.resume_after is None,
{
}

/// The newest sample of the connection on show is shown; samples of others are not, and as many are
/// taken as the budget allows.
pub proof fn law_samples_are_taken_within_the_budget<S, T>(
    tools: &mut HostToolsEntity<S, T>,
    budget: usize,
    res: SamplerDrain,
)
    requires
        call_ensures(HostToolsEntity::<S, T>::drain_sampler_deliveries, (tools, budget), res),
    ensures
        ({
            let before = old(tools).sampler_queue@;
            let after = final(tools).sampler_queue@;
            &&& before.len() <= budget ==> after.len() == 0 && !res.backlog_remaining
            &&& before.len() > budget ==> after.len() == before.len() - budget
                && res.backlog_remaining
            &&& forall|i: int|
                0 <= i < after.len() ==> #[trigger] after[i] == before[i + before.len()
                    - after.len()]
            &&& old(tools).sampled_connection is None ==> !res.updated
            &&& !res.updated ==> final(tools).snapshot == old(tools).snapshot
            &&& res.updated ==> final(tools).snapshot_connection_id is Some && old(
                tools).sampled_connection is Some && final(tools).snapshot_connection_id->0@ == old(
                tools).sampled_connection->0@
        }),
{
    let before = old(tools).sampler_queue@;
    let taken = crate::workspace::host_tools::batch_len(before.len(), budget);
    lemma_latest(before.take(taken), text::opt_view(old(tools).sampled_connection));
}

proof fn lemma_latest<S>(
    updates: Seq<crate::workspace::host_tools::GpuUpdate<S>>,
    connection: Option<Seq<char>>,
)
    ensures
        crate::workspace::host_tools::latest(updates, connection) matches Some(update)
            ==> connection == Some(update.connection_id@),
    decreases updates.len(),
{
    if updates.len() > 0 && connection != Some(updates.last().connection_id@) {
        lemma_latest(updates.drop_last(), connection);
    }
}

/// A reader goes on while there is something to read, stops only once it is told to, and waits
/// otherwise.
pub proof fn law_readers_stop_when_told(
    arrived: bool,
    stopped: bool,
    woken: WakeStep,
    backlog: bool,
    drained: WakeStep,
)
    requires
        call_ensures(on_wake, (arrived, stopped), woken),
        call_ensures(on_drained, (backlog, stopped), drained),
    ensures
        woken == WakeStep::Drain <==> arrived,
        woken == WakeStep::Stop <==> !arrived && stopped,
        woken == WakeStep::Wait <==> !arrived && !stopped,
        drained == WakeStep::WakeAgain <==> backlog,
        drained == WakeStep::Stop <==> !backlog && stopped,
        drained == WakeStep::Wait <==> !backlog && !stopped,
{
}

/// Each sample stands as far along the axis as it is late, and none stands beyond the end; one that
/// cannot be drawn stands nowhere.
pub proof fn law_samples_stand_where_their_time_is(samples: &Vec<ChartSample>, res: TimeAxis, at: int)
    requires
        call_ensures(time_axis, (samples,), res),
        0 <= at < samples@.len(),
    ensures
        res.duration >= 1,
        res.offsets@.len() == samples@.len(),
        samples@.last().timestamp_ms > samples@[0].timestamp_ms ==> res.duration
            == samples@.last().timestamp_ms - samples@[0].timestamp_ms,
        samples@.last().timestamp_ms <= samples@[0].timestamp_ms ==> res.duration == 1,
        res.offsets@[at] is Some <==> samples@[at].drawable,
        res.offsets@[at] matches Some(offset) ==> offset <= res.duration,
        res.offsets@[at] matches Some(offset) ==> samples@[0].timestamp_ms
            <= samples@[at].timestamp_ms <= samples@.last().timestamp_ms ==> offset
            == samples@[at].timestamp_ms - samples@[0].timestamp_ms,
{
}

/// A line is drawn from each sample to the next where both can be drawn, and lifted where one cannot.
pub proof fn law_lines_join_neighbours(offsets: &Vec<Option<u64>>, res: Vec<Stroke>, at: usize)
    requires
        call_ensures(strokes, (offsets,), res),
        at < offsets@.len(),
    ensures
        res@.contains(Stroke::LineTo(at)) <==> offsets@[at as int] is Some && at > 0
            && offsets@[at - 1] is Some,
        res@.contains(Stroke::MoveTo(at)) <==> offsets@[at as int] is Some && (at == 0
            || offsets@[at - 1] is None),
{
    assert(offsets@.len() == offsets.len());
    lemma_strokes(offsets@, at);
}

proof fn lemma_strokes(offsets: Seq<Option<u64>>, at: usize)
    requires
        offsets.len() <= usize::MAX,
    ensures
        ({
            let drawn = crate::workspace::monitor_charts::strokes_of(offsets);
            let there = at < offsets.len() && offsets[at as int] is Some;
            &&& drawn.contains(Stroke::LineTo(at)) <==> there && at > 0 && offsets[at - 1] is Some
            &&& drawn.contains(Stroke::MoveTo(at)) <==> there && (at == 0 || offsets[at
                - 1] is None)
        }),
    decreases offsets.len(),
{
    if offsets.len() > 0 {
        let rest = crate::workspace::monitor_charts::strokes_of(offsets.drop_last());
        let drawn = crate::workspace::monitor_charts::strokes_of(offsets);
        lemma_strokes(offsets.drop_last(), at);
        let line = Stroke::LineTo(at);
        let jump = Stroke::MoveTo(at);
        if rest.contains(line) {
            let i = choose|i: int| 0 <= i < rest.len() && rest[i] == line;
            assert(drawn[i] == line);
        }
        if rest.contains(jump) {
            let i = choose|i: int| 0 <= i < rest.len() && rest[i] == jump;
            assert(drawn[i] == jump);
        }
        if drawn.contains(line) && !rest.contains(line) {
            let i = choose|i: int| 0 <= i < drawn.len() && drawn[i] == line;
            if i < rest.len() {
                assert(rest[i] == line);
            }
        }
        if drawn.contains(jump) && !rest.contains(jump) {
            let i = choose|i: int| 0 <= i < drawn.len() && drawn[i] == jump;
            if i < rest.len() {
                assert(rest[i] == jump);
            }
        }
        if at == offsets.len() - 1 && offsets.last() is Some {
            assert(drawn[drawn.len() - 1] == drawn.last());
        }
    }
}

/// A share that is reported is taken as it is; otherwise it is computed where both numbers are there
/// and the whole is not nothing.
pub proof fn law_shares_are_reported_or_computed(
    reported: bool,
    used: Option<u64>,
    total: Option<u64>,
    res: UsageSource,
)
    requires
        call_ensures(usage_source, (reported, used, total), res),
    ensures
        res is Reported <==> reported,
        res is Computed <==> !reported && used is Some && total is Some && total->0 > 0,
        res matches UsageSource::Computed { used: part, total: whole } ==> part == used->0 && whole
            == total->0,
{
}

/// Each gauge reads its own reading.
pub proof fn law_gauges_read_their_own(kind: MonitorMetricKind, readings: &ResourceReadings, res: Option<UsageSource>)
    requires
        call_ensures(monitor_usage_source, (kind, readings), res),
    ensures
        res is None <==> kind == MonitorMetricKind::Other,
        kind == MonitorMetricKind::Cpu ==> (res->0 is Reported <==> readings.cpu_reported) && !(
        res->0 is Computed),
        kind == MonitorMetricKind::Gpu ==> (res->0 is Reported <==> readings.gpu_reported) && !(
        res->0 is Computed),
        kind == MonitorMetricKind::GpuMemory ==> (res->0 is Reported
            <==> readings.gpu_memory_reported) && !(res->0 is Computed),
        kind == MonitorMetricKind::Memory ==> (res->0 is Reported <==> readings.memory.reported),
        kind == MonitorMetricKind::Swap ==> (res->0 is Reported <==> readings.swap.reported),
        kind == MonitorMetricKind::Disk ==> (res->0 is Reported <==> readings.disk.reported),
        kind == MonitorMetricKind::Memory && res->0 is Computed ==> Some(res->0->used)
            == readings.memory.used && Some(res->0->total) == readings.memory.total,
        kind == MonitorMetricKind::Swap && res->0 is Computed ==> Some(res->0->used)
            == readings.swap.used && Some(res->0->total) == readings.swap.total,
        kind == MonitorMetricKind::Disk && res->0 is Computed ==> Some(res->0->used)
            == readings.disk.used && Some(res->0->total) == readings.disk.total,
        kind == MonitorMetricKind::Memory && !readings.memory.reported && readings.memory.used is Some
            && readings.memory.total is Some && readings.memory.total->0 > 0 ==> res->0 is Computed,
{
}

} // verus!
