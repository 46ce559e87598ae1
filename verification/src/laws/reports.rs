//! What is reported of calls, runs and settings.

use vstd::prelude::*;

use crate::ai::delivery::ToolStatus;
use crate::ai::results::AiExecutedToolResult;
use crate::ai::round_call::{ApprovalReply, CallPhase, RoundCall};
use crate::ai::tool_loop::{BatchPlan, ToolLoop};
use crate::ai::tool_resources::{on_acquired, AcquireReply};
use crate::ai_state::entity::{AiWorkspaceEntity, PageDirection};
use crate::ai_state::model::{
    AgentRecord, AgentState, OwnedResource, OwnedResourceKind, OwnedResourceState,
};
use crate::text;
use crate::workspace::agent_detail::AgentDetailView;
use crate::workspace::agent_views::{AgentGroupView, AgentRow, RowIcon};
use crate::workspace::app::WorkspaceApp;
use crate::workspace::labels::PieceView;
use crate::workspace::settings_events::{
    deeds, NoticeWords, SettingsAction, SettingsDeed, SettingsEvent, SettingsResult,
    WorkspaceSettings,
};
use crate::workspace::sftp_editor::{EditorStatus, SftpPreview};

verus! {

/// Calls are turned away for mixed questions as invalid arguments, and for a dependency that failed as
/// such.
pub proof fn law_turned_away_calls_say_why(run: &ToolLoop, plan: BatchPlan, res: Vec<AiExecutedToolResult>, at: int)
    requires
        call_ensures(ToolLoop::turn_away, (run, plan), res),
        0 <= at < run.batch@.len(),
    ensures
        plan == BatchPlan::RejectMixedQuestions ==> res@[at].envelope.error is Some
            && res@[at].envelope.error->0.code@ == "invalid_tool_arguments"@,
        plan == BatchPlan::RejectFailedDependency ==> res@[at].envelope.error is Some
            && res@[at].envelope.error->0.code@ == "dependency_failed"@,
{
    assert(res@[at].is_refusal(
        run.batch@[at].id@,
        run.batch@[at].name@,
        crate::ai::loop_batches::refusal_of(plan).0,
        crate::ai::loop_batches::refusal_of(plan).1,
        false,
    ));
    assert(res@[at].envelope@.error is Some);
}

/// A call whose arguments do not fit is refused as such, and the window hears of it.
pub proof fn law_unfit_arguments_are_reported(call: &mut RoundCall)
    requires
        call_ensures(RoundCall::on_arguments, (call, false), ()),
        call.sender.open,
    ensures
        final(call).phase == CallPhase::Done,
        final(call).result is Some,
        final(call).result->0.envelope.error is Some,
        final(call).result->0.envelope.error->0.code@ == "invalid_tool_arguments"@,
        final(call).sender@.len() == old(call).sender@.len() + 1,
        final(call).sender@.last().said is ToolStatus,
        final(call).sender@.last().said->ToolStatus_status == ToolStatus::Rejected,
        final(call).sender@.last().said->ToolStatus_call_id == old(call).call.id@,
{
    assert(final(call).result->0.envelope@.error is Some);
}

/// A call that the user approves is reported as approved and then as running; one that they reject is
/// reported as rejected.
pub proof fn law_approvals_are_reported(call: &mut RoundCall, reply: ApprovalReply)
    requires
        call_ensures(RoundCall::on_approval, (call, reply), ()),
        call.sender.open,
        call.policy is Some,
    ensures
        reply == ApprovalReply::Approved ==> {
            let told = final(call).sender@;
            let before = old(call).sender@.len() as int;
            &&& told.len() == before + 2
            &&& told[before].said is ToolStatus && told[before].said->ToolStatus_status
                == ToolStatus::Approved
            &&& told[before + 1].said is ToolStatus && told[before + 1].said->ToolStatus_status
                == ToolStatus::Running
            &&& told[before].said->ToolStatus_call_id == old(call).call.id@
            &&& told[before + 1].said->ToolStatus_call_id == old(call).call.id@
        },
        reply == ApprovalReply::Rejected ==> {
            &&& final(call).sender@.len() == old(call).sender@.len() + 1
            &&& final(call).sender@.last().said is ToolStatus
            &&& final(call).sender@.last().said->ToolStatus_status == ToolStatus::Rejected
            &&& final(call).result is Some
            &&& !final(call).result->0.success
            &&& !final(call).result->0.dispatched
        },
{
}

/// A resource that could not be had is reported: the run was cancelled, or somebody else has it.
pub proof fn law_resources_that_could_not_be_had(
    id: String,
    name: String,
    reply: AcquireReply,
    res: Result<(), AiExecutedToolResult>,
)
    requires
        call_ensures(on_acquired, (id, name, reply), res),
    ensures
        res is Ok <==> reply == AcquireReply::Acquired,
        reply == AcquireReply::Cancelled ==> res->Err_0.envelope.error is Some
            && res->Err_0.envelope.error->0.code@ == "operation_cancelled"@,
        reply == AcquireReply::Unresolved ==> res->Err_0.envelope.error is Some
            && res->Err_0.envelope.error->0.code@ == "resource_execution_unresolved"@,
        res is Err ==> res->Err_0.tool_call_id@ == id@ && !res->Err_0.success,
{
    if res is Err {
        assert(res->Err_0.envelope@.error is Some);
    }
}

proof fn lemma_line(resources: Seq<OwnedResource>, at: int)
    requires
        0 <= at < resources.len(),
        crate::workspace::agent_views::is_named(resources[at]),
    ensures
        crate::workspace::agent_views::resource_lines(resources).contains(
            (
                resources[at].label@,
                crate::workspace::agent_views::resource_key(resources[at].kind, resources[at].state),
            ),
        ),
    decreases resources.len(),
{
    let rest = resources.drop_last();
    let earlier = crate::workspace::agent_views::resource_lines(rest);
    let all = crate::workspace::agent_views::resource_lines(resources);
    if at == resources.len() - 1 {
        assert(all[earlier.len() as int] == all.last());
    } else {
        assert(rest[at] == resources[at]);
        lemma_line(rest, at);
        let wanted = (
            resources[at].label@,
            crate::workspace::agent_views::resource_key(resources[at].kind, resources[at].state),
        );
        let i = choose|i: int| 0 <= i < earlier.len() && earlier[i] == wanted;
        assert(all[i] == wanted);
    }
}

/// Whether a row names one of a run's resources, with these words.
pub open spec fn names_resource(row: AgentRow, label: Seq<char>, words: Seq<char>) -> bool {
    exists|i: int|
        0 <= i < row.resources@.len() && (#[trigger] row.resources@[i]).label@ == label
            && row.resources@[i].status@ == words
}

proof fn lemma_named(row: AgentRow, record: AgentRecord, at: int)
    requires
        crate::workspace::agent_views::is_row(row, record),
        0 <= at < record.snapshot.resources@.len(),
        crate::workspace::agent_views::is_named(record.snapshot.resources@[at]),
    ensures
        names_resource(
            row,
            record.snapshot.resources@[at].label@,
            crate::workspace::agent_views::resource_key(
                record.snapshot.resources@[at].kind,
                record.snapshot.resources@[at].state,
            ),
        ),
{
    lemma_line(record.snapshot.resources@, at);
    let lines = crate::workspace::agent_views::lines_view(row.resources@);
    let wanted = (
        record.snapshot.resources@[at].label@,
        crate::workspace::agent_views::resource_key(
            record.snapshot.resources@[at].kind,
            record.snapshot.resources@[at].state,
        ),
    );
    let i = choose|i: int| 0 <= i < lines.len() && lines[i] == wanted;
    assert(row.resources@[i].label@ == wanted.0);
}

/// Whether a row shows a run as it is: its title and its result or else its progress, whether it can be
/// stopped, and the picture for its state.
pub open spec fn shows_run(row: AgentRow, record: AgentRecord) -> bool {
    let state = record.snapshot.state;
    &&& row.run_id@ == record.snapshot.run.run_id@
    &&& row.title@ == record.snapshot.title@
    &&& row.icon == RowIcon::Check <==> state == AgentState::Completed
    &&& row.icon == RowIcon::Warning <==> state == AgentState::Failed
    &&& row.icon == RowIcon::Loader <==> state == AgentState::Running
    &&& row.can_stop <==> state != AgentState::Completed && state != AgentState::Failed && state
        != AgentState::Cancelled && state != AgentState::Interrupted
    &&& record.snapshot.result_summary is Some && record.snapshot.result_summary->0@.len() > 0
        ==> row.summary@ == record.snapshot.result_summary->0@
    &&& record.snapshot.result_summary is None ==> row.summary@ == record.snapshot.progress@
}

/// Whether a row names what a run owns with the words for it: what runs, and what ended unless it was
/// only watched.
pub open spec fn tells_of(row: AgentRow, owned: OwnedResource) -> bool {
    let watched = owned.kind == OwnedResourceKind::Observation;
    &&& owned.state == OwnedResourceState::Running && owned.kind
        == OwnedResourceKind::TerminalCommand ==> names_resource(
        row,
        owned.label@,
        "settings_view.ai.remote_running"@,
    )
    &&& owned.state == OwnedResourceState::Running && owned.kind
        != OwnedResourceKind::TerminalCommand ==> names_resource(
        row,
        owned.label@,
        "settings_view.ai.waiting_condition"@,
    )
    &&& owned.state == OwnedResourceState::Completed && !watched ==> names_resource(
        row,
        owned.label@,
        "settings_view.ai.resource_completed"@,
    )
    &&& owned.state == OwnedResourceState::Stopped && !watched ==> names_resource(
        row,
        owned.label@,
        "settings_view.ai.resource_stopped"@,
    )
    &&& owned.state == OwnedResourceState::OutcomeUnknown && !watched ==> names_resource(
        row,
        owned.label@,
        "settings_view.ai.resource_unknown"@,
    )
}

proof fn lemma_shown(row: AgentRow, record: AgentRecord, resource: int)
    requires
        crate::workspace::agent_views::is_row(row, record),
    ensures
        shows_run(row, record),
        0 <= resource < record.snapshot.resources@.len() ==> tells_of(
            row,
            record.snapshot.resources@[resource],
        ),
{
    if 0 <= resource < record.snapshot.resources@.len() && crate::workspace::agent_views::is_named(
        record.snapshot.resources@[resource],
    ) {
        lemma_named(row, record, resource);
    }
}

proof fn lemma_started(
    rows: Seq<usize>,
    entries: Seq<(String, AgentRecord)>,
    message: Seq<char>,
    at: int,
)
    requires
        crate::workspace::agent_groups::are_rows(rows, entries, message),
        0 <= at < rows.len(),
    ensures
        0 <= rows[at] < entries.len(),
        entries[rows[at] as int].1.parent_message_id@ == message,
{
    assert(crate::workspace::agent_groups::is_latest(
        entries,
        entries.len() as int,
        message,
        rows[at] as int,
    ));
}

/// Each row of a group shows a run that the message started, and names what the run owns.
#[verifier::rlimit(60)]
pub proof fn law_rows_show_their_run(
    app: &WorkspaceApp,
    message: &str,
    view: AgentGroupView,
    at: int,
    resource: int,
) -> (entry: int)
    requires
        call_ensures(WorkspaceApp::render_ai_agent_group, (app, message), Some(view)),
        app.ai_entity.wf(),
        0 <= at < view.rows@.len(),
    ensures
        0 <= entry < app.ai_entity.agents.records.entries@.len(),
        app.ai_entity.agents.records.entries@[entry].1.parent_message_id@ == message@,
        shows_run(view.rows@[at], app.ai_entity.agents.records.entries@[entry].1),
        0 <= resource
            < app.ai_entity.agents.records.entries@[entry].1.snapshot.resources@.len() ==> tells_of(
            view.rows@[at],
            app.ai_entity.agents.records.entries@[entry].1.snapshot.resources@[resource],
        ),
{
    let entries = app.ai_entity.agents.records.entries@;
    let rows = choose|rows: Seq<usize>|
        {
            &&& #[trigger] crate::workspace::agent_groups::are_rows(rows, entries, message@)
            &&& rows.len() > 0
            &&& crate::workspace::agent_views::is_group(view, rows, app.ai_entity.agents, message@)
        };
    let entry = rows[at] as int;
    lemma_started(rows, entries, message@, at);
    lemma_shown(view.rows@[at], entries[entry].1, resource);
    entry
}

/// How many rows bear a picture.
pub open spec fn pictured(rows: Seq<AgentRow>, icon: RowIcon) -> nat
    decreases rows.len(),
{
    if rows.len() == 0 {
        0
    } else {
        pictured(rows.drop_last(), icon) + if rows.last().icon == icon {
            1nat
        } else {
            0nat
        }
    }
}

proof fn lemma_pictured(
    rows: Seq<AgentRow>,
    order: Seq<usize>,
    entries: Seq<(String, AgentRecord)>,
)
    requires
        rows.len() == order.len(),
        forall|r: int|
            0 <= r < order.len() ==> crate::workspace::agent_views::is_row(
                #[trigger] rows[r],
                entries[order[r] as int].1,
            ),
    ensures
        pictured(rows, RowIcon::Check) == crate::workspace::agent_views::count_in(
            order,
            entries,
            AgentState::Completed,
        ),
        pictured(rows, RowIcon::Loader) == crate::workspace::agent_views::count_in(
            order,
            entries,
            AgentState::Running,
        ),
    decreases rows.len(),
{
    if rows.len() > 0 {
        let rest = rows.drop_last();
        let front = order.drop_last();
        assert forall|r: int| 0 <= r < front.len() implies crate::workspace::agent_views::is_row(
            #[trigger] rest[r],
            entries[front[r] as int].1,
        ) by {
            assert(rest[r] == rows[r]);
        }
        lemma_pictured(rest, front, entries);
        assert(crate::workspace::agent_views::is_row(
            rows[rows.len() - 1],
            entries[order[order.len() - 1] as int].1,
        ));
    }
}

/// A group counts its runs by their pictures, and can be stopped while one of them can.
#[verifier::rlimit(40)]
pub proof fn law_groups_count_their_runs(app: &WorkspaceApp, message: &str, view: AgentGroupView)
    requires
        call_ensures(WorkspaceApp::render_ai_agent_group, (app, message), Some(view)),
        app.ai_entity.wf(),
        view.expanded,
    ensures
        view.total == view.rows@.len(),
        view.done == pictured(view.rows@, RowIcon::Check),
        view.running == pictured(view.rows@, RowIcon::Loader),
        view.can_stop_all <==> exists|r: int|
            0 <= r < view.rows@.len() && (#[trigger] view.rows@[r]).can_stop,
{
    let entries = app.ai_entity.agents.records.entries@;
    let rows = choose|rows: Seq<usize>|
        {
            &&& #[trigger] crate::workspace::agent_groups::are_rows(rows, entries, message@)
            &&& rows.len() > 0
            &&& crate::workspace::agent_views::is_group(view, rows, app.ai_entity.agents, message@)
        };
    lemma_pictured(view.rows@, rows, entries);
    if view.can_stop_all {
        let r = choose|r: int|
            0 <= r < rows.len() && !entries[(#[trigger] rows[r]) as int].1.snapshot.state.ended();
        assert(crate::workspace::agent_views::is_row(view.rows@[r], entries[rows[r] as int].1));
        assert(view.rows@[r].can_stop);
    }
    if exists|r: int| 0 <= r < view.rows@.len() && (#[trigger] view.rows@[r]).can_stop {
        let r = choose|r: int| 0 <= r < view.rows@.len() && (#[trigger] view.rows@[r]).can_stop;
        assert(crate::workspace::agent_views::is_row(view.rows@[r], entries[rows[r] as int].1));
        assert(!entries[rows[r] as int].1.snapshot.state.ended());
    }
}

/// What a run and its parent said is shown with who said it to whom, and whether it was read; there
/// are older pages where the page says so, and newer ones where some were turned.
pub proof fn law_talk_is_shown_with_its_parties(
    app: &WorkspaceApp,
    unreadable: &Vec<String>,
    view: AgentDetailView,
)
    requires
        call_ensures(WorkspaceApp::render_ai_agent_detail, (app, true, unreadable), Some(view)),
        app.ai_entity.agents.communication_pages@.dom().contains(app.ai_entity.agents.detail->0@),
    ensures
        ({
            let id = app.ai_entity.agents.detail->0@;
            let page = app.ai_entity.agents.communication_pages@[id];
            let snapshot = app.ai_entity.agents.records@[id].snapshot;
            let talk = view.context->0.talk->0;
            &&& view.context is Some && view.context->0.talk is Some
            &&& talk.loading == page.loading && talk.failed == page.failed
            &&& talk.older <==> page.page is Some && page.page->0.before is Some && !page.loading
            &&& talk.newer <==> page.cursors@.len() > 1 && !page.loading
            &&& talk.retry <==> page.failed && !page.loading
            &&& talk.line is Some <==> page.page is Some
            &&& page.page is Some ==> {
                let said = page.page->0.message;
                let line = talk.line->0;
                &&& said.from_agent@ == snapshot.run.agent_id@ ==> line.sender@ == PieceView::Plain(
                    snapshot.title@,
                )
                &&& said.from_agent@ != snapshot.run.agent_id@ ==> line.sender@
                    == PieceView::Translated("ai.agents.parent"@)
                &&& said.to_agent@ == snapshot.run.agent_id@ ==> line.recipient@
                    == PieceView::Plain(snapshot.title@)
                &&& said.to_agent@ != snapshot.run.agent_id@ ==> line.recipient@
                    == PieceView::Translated("ai.agents.parent"@)
                &&& said.consumed ==> line.status@ == "ai.agents.consumed"@
                &&& !said.consumed ==> line.status@ == "ai.agents.received"@
                &&& line.message.content@ == said.text@
                &&& line.more == page.page->0.more
            }
        }),
{
}

/// Each operation on the settings has its words.
pub proof fn law_operations_on_settings_have_words(
    app: &mut WorkspaceApp,
    results: Vec<SettingsResult>,
    res: Vec<SettingsAction>,
)
    requires
        call_ensures(
            WorkspaceApp::handle_settings_workspace_event,
            (app, SettingsEvent::OperationsReady(results)),
            res,
        ),
        results@.len() == 1,
    ensures
        ({
            let result = results@[0];
            let done = deeds(res@);
            let words = done[0]->Toast_words;
            &&& result is DirectoryChanged ==> words->Lookup_0.key
                == "settings_view.general.data_directory_changed"@
            &&& result is DirectoryReset ==> words->Lookup_0.key
                == "settings_view.general.data_directory_reset"@
            &&& result is KeysExported ==> words->Lookup_0.key
                == "settings_view.keybindings.export_success"@
            &&& result is KeysExportFailed ==> words->Lookup_0.key
                == "settings_view.keybindings.export_error"@
            &&& result is KeysImportFailed ==> words->Lookup_0.key
                == "settings_view.keybindings.import_invalid"@
            &&& result is KeysImported ==> done[2]->Toast_words->Lookup_0.key
                == "settings_view.keybindings.import_success"@
            &&& result matches SettingsResult::DirectoryFailed(error) ==> words
                == NoticeWords::Plain(error@)
            &&& result is GalleryFailed ==> done[0]->Notice_words->Lookup_0.key
                == "settings_view.terminal.bg_operation_failed"@
            &&& result is ThemeImportFailed ==> done[0]->Notice_words->Lookup_0.key
                == "settings_view.appearance.theme_import_error"@
            &&& result is ThemeImported ==> done[1]->Notice_words->Lookup_0.key
                == "settings_view.appearance.theme_import_success"@
        }),
{
    let done = deeds(res@);
    let steps = choose|steps: Seq<(WorkspaceSettings, Seq<SettingsDeed>)>|
        {
            &&& #[trigger] crate::workspace::settings_events::steps_of_results(steps, results@)
            &&& steps[0] == (old(app).settings, Seq::<SettingsDeed>::empty())
            &&& steps.last().0 == final(app).settings
            &&& done == steps.last().1.push(SettingsDeed::Redraw)
        };
    let result = results@[0];
    assert(crate::workspace::settings_events::step_of_result(steps[0], steps[1], result));
    assert(steps.last() == steps[1]);
    let own = crate::workspace::settings_events::deeds_of(result, old(app).settings);
    assert(Seq::<SettingsDeed>::empty() + own =~= own);
}

/// A save that the network broke can be tried again, and says how often it was.
pub proof fn law_broken_saves_count_their_tries(preview: &SftpPreview, res: EditorStatus)
    requires
        call_ensures(SftpPreview::render_sftp_editor_status, (preview,), res),
        preview.save_error is Some,
        preview.network_error,
    ensures
        res is Retry,
        preview.retry_count == 0 ==> res->label@.len() == 1,
        preview.retry_count > 0 ==> res->label@.len() == 2 && res->label@[1]@ == PieceView::Plain(
            " ("@ + text::decimal(preview.retry_count as nat) + ")"@,
        ),
        res->label@[0]@ == PieceView::Translated("sftp.preview.retry"@),
{
    let shown = crate::workspace::sftp_editor::line_view(res->label@);
    assert(shown.len() == res->label@.len());
    assert(shown[0] == res->label@[0]@);
    if preview.retry_count > 0 {
        assert(shown[1] == res->label@[1]@);
    }
}

/// What is read again while the user looks elsewhere is read around the message at the top.
pub proof fn law_histories_are_read_around_the_top(
    ai: &mut AiWorkspaceEntity,
    id: String,
    at: int,
    headers: int,
)
    requires
        call_ensures(AiWorkspaceEntity::refresh_history_page, (ai, id), ()),
        ai.history.page_generation < u64::MAX,
        !ai.chat_ui.following_tail,
        ai.history.pages@.dom().contains(id@),
        ai.active() is Some,
        0 <= at < ai.active()->0.messages@.len(),
        headers == (if ai.history.pages@[id@].before is Some {
            1int
        } else {
            0int
        }) + (if ai.chat_ui.shows_trim_notice {
            1int
        } else {
            0int
        }),
        ai.chat_ui.top_item == headers + at,
        ai.history.pages@[id@].descriptions@.dom().contains(ai.active()->0.messages@[at].id@),
    ensures
        final(ai).history.asked().len() > old(ai).history.asked().len() ==> final(
            ai).history.asked().last() is LoadPage && final(
            ai).history.asked().last()->LoadPage_direction == PageDirection::Around(
            old(ai).history.pages@[id@].descriptions@[old(
                ai).active()->0.messages@[at].id@].sequence,
        ),
{
}

} // verus!
