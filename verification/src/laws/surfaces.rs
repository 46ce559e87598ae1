//! What the workspace shows of connections, documents and agents.

use vstd::prelude::*;

use crate::ai::models::AgentModel;
use crate::ai_state::agent_records::AgentUpdate;
use crate::ai_state::entity::AiWorkspaceEntity;
use crate::ai_state::journal::RevisionClock;
use crate::ai_state::model::AgentRunRef;
use crate::text;
use crate::workspace::agent_launch::{AbandonedChild, PreparedChild};
use crate::workspace::agent_settings::{write_model, ConversationAgents};
use crate::workspace::app::WorkspaceApp;
use crate::workspace::ftp_form::{FtpFormField, FtpFormSwitch, FtpFormView, FormRowView};
use crate::workspace::host_tools::{HostToolsEntity, HostToolsReliableDelivery, HostToolsVisibility};
use crate::workspace::knowledge_preview::{KnowledgeDocumentEditor, KnowledgeEditorUiState};
use crate::workspace::knowledge_toolbar::{
    items_view, ItemView, KnowledgeFormatAction, ToolbarItem,
};
use crate::workspace::labels::PieceView;
use crate::workspace::saved_connections::{SaveFormError, SavedAuth};
use crate::workspace::sftp_editor::{EditorPane, PreviewPane};
use crate::workspace::ssh_algorithms::{SshAlgorithmCategory, SshAlgorithmEditor};

verus! {

/// Each fault of a form has its words.
pub proof fn law_faults_of_forms_have_words(error: SaveFormError, res: &'static str)
    requires
        call_ensures(SaveFormError::message, (error,), res),
    ensures
        error == SaveFormError::HostRequired ==> res@ == "Host is required"@,
        error == SaveFormError::InvalidPort ==> res@ == "Port is invalid"@,
        error == SaveFormError::InvalidTimeout ==> res@ == "Connect timeout is invalid"@,
        error == SaveFormError::InvalidHopPort ==> res@ == "Proxy hop port is invalid"@,
        error == SaveFormError::InvalidProxyPort ==> res@ == "Proxy port is invalid"@,
{
}

/// A password is empty on purpose where that was chosen, and only a password can be.
pub proof fn law_only_passwords_are_empty(auth: &SavedAuth, res: bool)
    requires
        call_ensures(SavedAuth::uses_empty_password, (auth,), res),
    ensures
        res <==> auth is Password && auth->empty_password,
{
}

/// A description says what kind of proof there is, and whether a secret is in it, but not which.
pub proof fn law_descriptions_tell_no_secret(auth: &SavedAuth, res: String)
    requires
        call_ensures(SavedAuth::describe, (auth,), res),
    ensures
        auth is Agent ==> res@ == "agent"@,
        auth is KeyboardInteractive ==> res@ == "keyboard-interactive"@,
        auth is Password && auth->plaintext_password is Some ==> res@ == "password "@
            + "[redacted]"@,
        auth is Password && auth->plaintext_password is None ==> res@ == "password "@ + "none"@,
        auth is Key && auth->plaintext_passphrase is Some ==> res@ == "key "@ + "[redacted]"@,
        auth is Key && auth->plaintext_passphrase is None ==> res@ == "key "@ + "none"@,
{
}

/// The form of a server shows its values under their fields, in order; the password is not among
/// them.
pub proof fn law_forms_show_their_values(app: &WorkspaceApp, res: Option<FtpFormView>)
    requires
        call_ensures(WorkspaceApp::render_ftp_form_branch, (app,), res),
    ensures
        res is Some <==> app.connection_form.form is Some,
        res matches Some(view) ==> {
            let form = app.connection_form.form->0;
            let basic = crate::workspace::ftp_form::rows_view(view.basic@);
            let access = crate::workspace::ftp_form::rows_view(view.authentication@);
            let rest = crate::workspace::ftp_form::rows_view(view.rest@);
            &&& basic.len() == 4 && access.len() == 4 && rest.len() == 3
            &&& basic[0] is Field && basic[0]->Field_0.field == FtpFormField::Name
                && basic[0]->Field_0.value == form.name@
            &&& basic[1] is Pair && basic[1]->Pair_0.field == FtpFormField::Host
                && basic[1]->Pair_0.value == form.host@ && basic[1]->Pair_1.field
                == FtpFormField::Port && basic[1]->Pair_1.value == form.port@
                && basic[1]->Pair_1.placeholder == PieceView::Plain("21"@)
            &&& basic[2] is Group && basic[2]->Group_value == form.group@
            &&& basic[3] is Notes && basic[3]->Notes_value == form.notes@
            &&& access[0] is Field && access[0]->Field_0.value == form.username@
            &&& access[1] is Secret && access[1]->Secret_field == FtpFormField::Password
            &&& access[2] is Checkbox && access[2]->switch == FtpFormSwitch::SavePassword
                && access[2]->checked == form.save_password
            &&& access[3] is Checkbox && access[3]->switch == FtpFormSwitch::Tls
                && access[3]->checked == form.ftp_tls
            &&& rest[0]->Field_0.value == form.sftp_initial_remote_path@
            &&& rest[1]->Field_0.value == form.connect_timeout_seconds_text@
                && rest[1]->Field_0.placeholder == PieceView::Plain("30"@)
            &&& rest[2] is UpstreamProxy
        },
{
}

/// The toolbar of a document undoes and redoes first, offers six headings, and each action once.
pub proof fn law_the_toolbar_offers_each_action<F: Copy, Y>(
    editor: &KnowledgeDocumentEditor<F, Y>,
    res: Vec<ToolbarItem>,
    level: int,
)
    requires
        call_ensures(KnowledgeDocumentEditor::<F, Y>::render_source_toolbar, (editor,), res),
        1 <= level <= 6,
    ensures
        ({
            let items = items_view(res@);
            &&& items.len() == 28
            &&& items[0]->action == KnowledgeFormatAction::Undo && items[1]->action
                == KnowledgeFormatAction::Redo
            &&& items[2] is Separator && items[9] is Separator && items[14] is Separator
                && items[20] is Separator && items[25] is Separator
            &&& items[2 + level] is Button && items[2 + level]->action
                == KnowledgeFormatAction::Heading(level as u8)
            &&& items[10]->action == KnowledgeFormatAction::Bold && items[11]->action
                == KnowledgeFormatAction::Italic && items[12]->action
                == KnowledgeFormatAction::Strike && items[13]->action
                == KnowledgeFormatAction::InlineCode
            &&& items[15]->action == KnowledgeFormatAction::Quote && items[16]->action
                == KnowledgeFormatAction::BulletList && items[17]->action
                == KnowledgeFormatAction::OrderedList && items[18]->action
                == KnowledgeFormatAction::TaskList && items[19]->action
                == KnowledgeFormatAction::CodeBlock
            &&& items[21]->action == KnowledgeFormatAction::Link && items[22]->action
                == KnowledgeFormatAction::Image && items[23]->action == KnowledgeFormatAction::Table
                && items[24]->action == KnowledgeFormatAction::HorizontalRule
            &&& items[26]->action == KnowledgeFormatAction::InlineMath && items[27]->action
                == KnowledgeFormatAction::DisplayMath
        }),
{
    let labels = editor.labels;
    let items = items_view(res@);
    let a = crate::workspace::knowledge_toolbar::history(labels).push(ItemView::Separator);
    let b = crate::workspace::knowledge_toolbar::headings(labels).push(ItemView::Separator);
    let c = crate::workspace::knowledge_toolbar::spans(labels).push(ItemView::Separator);
    let d = crate::workspace::knowledge_toolbar::blocks(labels).push(ItemView::Separator);
    let e = crate::workspace::knowledge_toolbar::inserts(labels).push(ItemView::Separator);
    let f = crate::workspace::knowledge_toolbar::formulas(labels);
    assert(items == a + b + c + d + e + f);
    assert(a.len() == 3 && b.len() == 7 && c.len() == 5 && d.len() == 6 && e.len() == 5 && f.len()
        == 2);
    assert(items[2 + level] == b[level - 1]);
}

/// A preview is made again where none is on its way, of the text as it is.
pub proof fn law_previews_are_made_of_the_text_at_hand<F: Copy, Y>(
    editor: &mut KnowledgeDocumentEditor<F, Y>,
    res: Option<u64>,
    other: &mut KnowledgeDocumentEditor<F, Y>,
    rung: Option<u64>,
)
    requires
        call_ensures(KnowledgeDocumentEditor::<F, Y>::load_preview, (editor,), res),
        call_ensures(KnowledgeDocumentEditor::<F, Y>::on_preview_timer, (other,), rung),
    ensures
        res is Some <==> !old(editor).preview_running,
        res is Some ==> res->0 == old(editor).observed_buffer_version,
        final(editor).preview_running,
        rung is Some <==> !old(other).preview_running,
        rung is Some ==> rung->0 == old(other).observed_buffer_version,
        final(other).preview_running,
        !final(other).preview_timer_running,
{
}

/// A divider that was let go of is remembered, in documents with a preview.
pub proof fn law_dividers_are_remembered<F: Copy, Y>(
    editor: &mut KnowledgeDocumentEditor<F, Y>,
    res: Option<KnowledgeEditorUiState<F>>,
)
    requires
        call_ensures(KnowledgeDocumentEditor::<F, Y>::finish_split_resize, (editor,), res),
    ensures
        res is Some <==> old(editor).split_dragging && old(editor).is_markdown,
        res matches Some(state) ==> state.mode == old(editor).mode && state.source_ratio == old(
            editor).source_ratio,
        !final(editor).split_dragging,
{
}

/// A preview of a file shows that it loads, what went wrong, or the file; an editor counts lines and
/// columns from one.
pub proof fn law_previews_of_files(app: &WorkspaceApp, res: PreviewPane, pane: EditorPane)
    requires
        call_ensures(WorkspaceApp::render_sftp_preview_body, (app,), res),
        call_ensures(WorkspaceApp::render_sftp_editor_body, (app,), pane),
    ensures
        ({
            let preview = app.sftp_preview;
            &&& res.scrolls <==> !preview.virtual_text
            &&& res.body is Content <==> !preview.loading && preview.error is None
                && preview.has_content
            &&& preview.loading ==> res.body->Text_0.text@ == PieceView::Translated(
                "sftp.preview.loading"@,
            )
            &&& !preview.loading && preview.error is Some ==> res.body->Text_0.text@
                == PieceView::Plain(preview.error->0@)
            &&& pane.shows_editor <==> preview.editor is Some
            &&& pane.find_bar is Some <==> preview.find_open
            &&& preview.language is None ==> pane.language@ == "text"@
            &&& preview.language is Some ==> pane.language@ == preview.language->0@
            &&& preview.editor is None ==> pane.position@.len() == 4 && pane.position@[1]@
                == PieceView::Plain(" "@ + text::decimal(1) + ", "@) && pane.position@[3]@
                == PieceView::Plain(" "@ + text::decimal(1))
        }),
{
    let shown = crate::workspace::sftp_editor::line_view(pane.position@);
    assert(shown.len() == pane.position@.len());
    assert(shown[1] == pane.position@[1]@);
    assert(shown[3] == pane.position@[3]@);
}

/// An editor of algorithms that is closed shows no menu, and a category that is picked starts without
/// a selection.
pub proof fn law_closed_editors_show_no_menu(
    closed: &mut SshAlgorithmEditor,
    opened: &mut SshAlgorithmEditor,
    picked: &mut SshAlgorithmEditor,
    category: SshAlgorithmCategory,
    asked: &mut SshAlgorithmEditor,
    name: String,
)
    requires
        call_ensures(SshAlgorithmEditor::close_editor, (closed,), ()),
        call_ensures(SshAlgorithmEditor::open_editor, (opened,), ()),
        call_ensures(SshAlgorithmEditor::select_category, (picked, category), ()),
        call_ensures(SshAlgorithmEditor::open_menu, (asked, name), ()),
    ensures
        !final(closed).open && final(closed).menu is None,
        final(opened).open && !final(opened).field_focused,
        final(picked).category == category && final(picked).selected is None && final(
            picked).menu is None,
        final(asked).menu == Some(name) && final(asked).selected == Some(name),
        final(closed).preferences == old(closed).preferences,
        final(opened).preferences == old(opened).preferences,
        final(picked).preferences == old(picked).preferences,
        final(asked).preferences == old(asked).preferences,
{
}

/// Deliveries that may not be lost are taken in order, as many as the budget allows.
pub proof fn law_reliable_deliveries_are_taken_in_order<S, T>(
    tools: &mut HostToolsEntity<S, T>,
    budget: usize,
    res: (Vec<HostToolsReliableDelivery<T>>, bool),
)
    requires
        call_ensures(HostToolsEntity::<S, T>::drain_reliable_deliveries, (tools, budget), res),
    ensures
        res.0@ + final(tools).reliable_queue@ == old(tools).reliable_queue@,
        res.0@.len() <= budget,
        res.1 <==> final(tools).reliable_queue@.len() > 0,
        old(tools).reliable_queue@.len() <= budget ==> !res.1,
{
    let before = old(tools).reliable_queue@;
    assert(res.0@ + final(tools).reliable_queue@ =~= before);
}

/// Tools that are let go of sample nothing.
pub proof fn law_released_tools_sample_nothing<S, T>(tools: &mut HostToolsEntity<S, T>, res: Option<String>)
    requires
        call_ensures(HostToolsEntity::<S, T>::release, (tools,), res),
    ensures
        res == old(tools).sampled_connection,
        final(tools).sampled_connection is None,
        final(tools).visibility == HostToolsVisibility::Dropped,
{
}

/// The settings of a conversation's agents are those that count for it.
pub proof fn law_settings_of_agents_are_those_that_count(app: &WorkspaceApp, res: Option<ConversationAgents>)
    requires
        call_ensures(WorkspaceApp::render_ai_agent_settings, (app,), res),
        app.ai_entity.conversation_state.active_conversation_id is None,
    ensures
        res is None,
{
}

/// A model is written with its provider before it.
pub proof fn law_models_are_written_with_their_provider(model: &AgentModel, res: String)
    requires
        call_ensures(write_model, (model,), res),
    ensures
        res@ == model.provider_id@ + " / "@ + model.model@,
{
}

/// A model that is picked for a run counts where the run takes it; without a run and a conversation
/// nothing is picked. Either way the pickers close.
pub proof fn law_picked_models_count_for_their_run(
    app: &mut WorkspaceApp,
    target: Option<String>,
    model: Option<AgentModel>,
    accepted: bool,
    res: bool,
)
    requires
        call_ensures(WorkspaceApp::select_agent_model, (app, target, model, accepted), res),
    ensures
        target matches Some(id) ==> (res <==> accepted && model is Some && old(
            app).ai_entity.agents.records@.dom().contains(id@)),
        target is None ==> (res <==> old(
            app).ai_entity.conversation_state.active_conversation_id is Some),
        !final(app).ai_entity.agents.model_picker_open,
        !final(app).ai_entity.agents.settings_model_picker_open,
        target is Some ==> final(app).ai_entity.conversation_state == old(
            app).ai_entity.conversation_state,
{
}

/// A group that is clicked turns round.
pub proof fn law_clicked_groups_turn_round(
    app: &mut WorkspaceApp,
    group: String,
    parent: &String,
    expanded: bool,
    other: Seq<char>,
)
    requires
        call_ensures(WorkspaceApp::toggle_agent_group, (app, group, parent, expanded), ()),
        other != group@,
    ensures
        final(app).ai_entity.agents.expanded_groups@.dom().contains(group@),
        final(app).ai_entity.agents.expanded_groups@[group@] == !expanded,
        final(app).ai_entity.agents.expanded_groups@.dom().contains(other) <==> old(
            app).ai_entity.agents.expanded_groups@.dom().contains(other),
        final(app).ai_entity.agents.parent_revisions@.dom().contains(parent@),
{
}

/// The number of agents at once that was chosen is kept.
pub proof fn law_chosen_numbers_are_kept(app: &mut WorkspaceApp, limit: usize, res: usize)
    requires
        call_ensures(WorkspaceApp::choose_agent_concurrency, (app, limit), ()),
        call_ensures(WorkspaceApp::agent_concurrency, (&*final(app),), res),
        1 <= limit <= app.ai_settings.max_agent_concurrency,
        limit <= u32::MAX,
    ensures
        res == limit,
{
}

/// A group knows its parent, its message, its tools and how much fits.
pub proof fn law_groups_know_their_parent(
    app: &mut WorkspaceApp,
    generation: u64,
    run: &AgentRunRef,
    assistant: &str,
    tools: Vec<String>,
    window: usize,
)
    requires
        call_ensures(
            WorkspaceApp::start_ai_agent_group,
            (app, generation, run, assistant, tools, window),
            (),
        ),
    ensures
        ({
            let groups = final(app).ai_entity.agents.groups@;
            &&& groups.dom().contains(run.group_id@)
            &&& groups[run.group_id@].parent == *run
            &&& groups[run.group_id@].parent_message_id@ == assistant@
            &&& groups[run.group_id@].tools == tools
            &&& groups[run.group_id@].context_window == window
            &&& old(app).ai_entity.chat_stream_runs@.dom().contains(generation) ==> final(
                app).ai_entity.chat_stream_runs@[generation].agent == Some(*run) && !final(
                app).ai_entity.chat_stream_runs@[generation].child
        }),
{
}

/// A child that is given up leaves no stream behind; the streams of others go on.
pub proof fn law_abandoned_children_leave_no_stream(
    app: &mut WorkspaceApp,
    run: &AgentRunRef,
    res: Vec<u64>,
    generation: u64,
)
    requires
        call_ensures(WorkspaceApp::abandon_ai_child, (app, run), res),
        app.ai_entity.chat_stream_runs@.dom().contains(generation),
    ensures
        res@.contains(generation) <==> !final(app).ai_entity.chat_stream_runs@.dom().contains(
            generation,
        ),
        old(app).ai_entity.chat_stream_runs@[generation].agent is None ==> final(
            app).ai_entity.chat_stream_runs@.dom().contains(generation),
        old(app).ai_entity.chat_stream_runs@[generation].agent == Some(*run) ==> res@.contains(
            generation,
        ),
{
    assert(res@.contains(generation) == (old(app).ai_entity.chat_stream_runs@.dom().contains(
        generation,
    ) && old(app).ai_entity.chat_stream_runs@[generation].is_of(*run)));
}

/// What a run is told of changes it where there is something new, and only that run.
pub proof fn law_updates_change_their_run(
    ai: &mut AiWorkspaceEntity,
    updates: Vec<AgentUpdate>,
    clock: &mut RevisionClock,
    other: Seq<char>,
)
    requires
        call_ensures(AiWorkspaceEntity::refresh_agent_records, (ai, updates, clock), ()),
        updates@.len() == 1,
        ai.agents.records@.dom().contains(updates@[0].snapshot.run.run_id@),
        ai.agents.records@[updates@[0].snapshot.run.run_id@].snapshot.state
            != updates@[0].snapshot.state,
        other != updates@[0].snapshot.run.run_id@,
    ensures
        ({
            let run = updates@[0].snapshot.run.run_id@;
            &&& final(ai).agents.records@.dom().contains(run)
            &&& final(ai).agents.records@[run].snapshot == updates@[0].snapshot
            &&& final(ai).agents.records@[run].communication == updates@[0].communication
            &&& final(ai).agents.records@[run].revision == updates@[0].stamp
            &&& final(ai).agents.dirty@.dom().contains(run)
            &&& final(ai).agents.records@[other] == old(ai).agents.records@[other]
        }),
{
    let (taken, moved) = choose|taken: AiWorkspaceEntity, moved: Seq<(Seq<char>, Seq<char>)>|
        {
            &&& #[trigger] taken.updates_taken(*old(ai), updates@, moved)
            &&& final(ai).messages_noted(taken, moved, old(clock).last, final(clock).last)
        };
    let steps = choose|steps: Seq<(AiWorkspaceEntity, Seq<(Seq<char>, Seq<char>)>)>|
        {
            &&& #[trigger] crate::ai_state::agent_updates::steps_of_updates(steps, updates@)
            &&& steps[0] == (*old(ai), Seq::<(Seq<char>, Seq<char>)>::empty())
            &&& steps.last() == (taken, moved)
        };
    assert(crate::ai_state::agent_updates::step_of_update(steps[0], steps[1], updates@, 0)) by {
        assert(updates@[0] == updates@[0]);
    }
    assert(steps.last() == steps[1]);
}

} // verus!
